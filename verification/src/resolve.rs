use vstd::prelude::*;
use crate::codec::{decode_cache_entry, decode_spec};
use crate::errors::{ErrorModel, ResolveError};
use crate::exif::{exif_time_candidates, exif_times_spec, ExifOutcome, ExifRecord};
use crate::meta::{ImageMetadata, MetaModel};
use crate::time::{earliest_candidate, is_earliest, local_civil_from_epoch, CivilDateTime};

verus! {

// One resolution is a short, fixed-order protocol: look the path up in the
// cache; on a miss stat the file, read its EXIF entries, decode the image,
// and store the fresh record. The caller performs the reads and writes and
// feeds each outcome back as an event; this module holds every decision in
// between. A cache hit ends the protocol at once, so no stat, EXIF read or
// decode happens for a cached path.

/// One filesystem timestamp as seconds and nanoseconds since the epoch.
#[derive(Clone, Copy, PartialEq, Eq, Structural, Debug)]
pub struct EpochTime {
    pub secs: u64,
    pub nanos: u32,
}

/// Raw filesystem timestamps. A timestamp that lies before the epoch has
/// no such duration; the caller marks it `None`, and the resolution fails
/// with the time-conversion error.
#[derive(Clone, Copy, Debug)]
pub struct RawTimes {
    pub created: Option<EpochTime>,
    pub modified: Option<EpochTime>,
}

/// Epoch seconds at or past this bound (the year 10000) are not converted:
/// they approach the ceiling of the civil calendar, where adding a zone
/// offset leaves the representable range.
pub const MAX_EPOCH_SECS: u64 = 253_402_300_800;

/// Where one resolution stands; each awaiting state names the outside work
/// whose outcome it waits for.
pub enum ResolveState {
    AwaitCache { path: Vec<u8> },
    AwaitStat { path: Vec<u8> },
    AwaitExif { path: Vec<u8>, fs_times: Vec<CivilDateTime> },
    AwaitDecode { path: Vec<u8>, creation: CivilDateTime },
    AwaitStore { meta: ImageMetadata },
    Done { result: Result<ImageMetadata, ResolveError> },
}

/// The outcome of one piece of outside work, fed back by the caller.
pub enum ResolveEvent {
    /// The cache file's bytes, or `None` where it is absent or unreadable.
    Cache { entry: Option<Vec<u8>> },
    /// The file's timestamps, or `None` where the stat failed.
    Stat { times: Option<RawTimes> },
    /// What reading the EXIF structure produced.
    Exif { outcome: ExifOutcome },
    /// The decoded pixel dimensions, or `None` where decoding failed.
    Decode { dims: Option<(u32, u32)> },
    /// Whether writing the cache entry succeeded.
    Stored { ok: bool },
}

/// What the caller is to do next for a given state.
#[derive(Clone, Copy, PartialEq, Eq, Structural, Debug)]
pub enum ResolveAction {
    LookupCache,
    StatFile,
    ReadExif,
    DecodeImage,
    StoreEntry,
    Finish,
}

/// The mathematical model of a resolution state.
#[verifier::ext_equal]
pub enum StateModel {
    AwaitCache { path: Seq<u8> },
    AwaitStat { path: Seq<u8> },
    AwaitExif { path: Seq<u8>, fs_times: Seq<CivilDateTime> },
    AwaitDecode { path: Seq<u8>, creation: CivilDateTime },
    AwaitStore { meta: MetaModel },
    Done { result: Result<MetaModel, ErrorModel> },
}

/// The mathematical model of an event.
#[verifier::ext_equal]
pub enum EventModel {
    Cache { entry: Option<Seq<u8>> },
    Stat { times: Option<RawTimes> },
    Exif { outcome: OutcomeModel },
    Decode { dims: Option<(u32, u32)> },
    Stored { ok: bool },
}

/// The mathematical model of an EXIF reading outcome.
#[verifier::ext_equal]
pub enum OutcomeModel {
    NoExif,
    ParseFailed,
    Parsed { records: Seq<ExifRecord> },
}

impl View for ResolveState {
    type V = StateModel;

    open spec fn view(&self) -> StateModel {
        match self {
            ResolveState::AwaitCache { path } => StateModel::AwaitCache { path: path@ },
            ResolveState::AwaitStat { path } => StateModel::AwaitStat { path: path@ },
            ResolveState::AwaitExif { path, fs_times } => StateModel::AwaitExif {
                path: path@,
                fs_times: fs_times@,
            },
            ResolveState::AwaitDecode { path, creation } => StateModel::AwaitDecode {
                path: path@,
                creation: *creation,
            },
            ResolveState::AwaitStore { meta } => StateModel::AwaitStore { meta: meta@ },
            ResolveState::Done { result } => StateModel::Done {
                result: match result {
                    Ok(m) => Ok(m@),
                    Err(e) => Err(e@),
                },
            },
        }
    }
}

impl View for ExifOutcome {
    type V = OutcomeModel;

    open spec fn view(&self) -> OutcomeModel {
        match self {
            ExifOutcome::NoExif => OutcomeModel::NoExif,
            ExifOutcome::ParseFailed => OutcomeModel::ParseFailed,
            ExifOutcome::Parsed { records } => OutcomeModel::Parsed { records: records@ },
        }
    }
}

impl View for ResolveEvent {
    type V = EventModel;

    open spec fn view(&self) -> EventModel {
        match self {
            ResolveEvent::Cache { entry } => EventModel::Cache {
                entry: match entry {
                    Some(b) => Some(b@),
                    None => None,
                },
            },
            ResolveEvent::Stat { times } => EventModel::Stat { times: *times },
            ResolveEvent::Exif { outcome } => EventModel::Exif { outcome: outcome@ },
            ResolveEvent::Decode { dims } => EventModel::Decode { dims: *dims },
            ResolveEvent::Stored { ok } => EventModel::Stored { ok: *ok },
        }
    }
}

/// The creation-date candidates an EXIF outcome contributes: none when the
/// file carries no EXIF structure, and none when the structure could not
/// be parsed — that failure is by design not fatal and the resolution
/// falls back to the filesystem times alone.
pub open spec fn outcome_times(outcome: OutcomeModel) -> Result<Seq<CivilDateTime>, ErrorModel> {
    match outcome {
        OutcomeModel::NoExif => Ok(Seq::empty()),
        OutcomeModel::ParseFailed => Ok(Seq::empty()),
        OutcomeModel::Parsed { records } => exif_times_spec(records),
    }
}

/// The transition relation of one resolution. Every transition the step
/// function can take satisfies it; arms whose outcome rests on the machine
/// (the local time zone) admit each possible result, all others pin the
/// successor state down exactly. An event that does not belong to the
/// current state changes nothing.
pub open spec fn step_rel(s: StateModel, e: EventModel, r: StateModel) -> bool {
    match (s, e) {
        (StateModel::AwaitCache { path }, EventModel::Cache { entry }) => match entry {
            // a readable, well-formed entry ends the resolution at once,
            // returning the cached record unchanged
            Some(bytes) => match decode_spec(bytes) {
                Some(m) => r == StateModel::Done { result: Ok::<MetaModel, ErrorModel>(m) },
                None => r == StateModel::AwaitStat { path },
            },
            None => r == StateModel::AwaitStat { path },
        },
        (StateModel::AwaitStat { path }, EventModel::Stat { times }) => match times {
            None => r == StateModel::Done {
                result: Err::<MetaModel, ErrorModel>(ErrorModel::Io),
            },
            Some(t) => {
                if t.created is None || t.modified is None
                    || t.created.unwrap().secs >= MAX_EPOCH_SECS
                    || t.modified.unwrap().secs >= MAX_EPOCH_SECS {
                    // a timestamp before the epoch or at the calendar's
                    // edge converts to no civil time
                    r == StateModel::Done {
                        result: Err::<MetaModel, ErrorModel>(ErrorModel::SystemTime),
                    }
                } else {
                    // the conversion to local civil time goes by the
                    // machine's time zone: either both timestamps convert,
                    // giving exactly two well-formed candidates, or the
                    // resolution fails
                    ||| (match r {
                        StateModel::AwaitExif { path: p, fs_times } => {
                            &&& p == path
                            &&& fs_times.len() == 2
                            &&& fs_times[0].wf()
                            &&& fs_times[1].wf()
                        },
                        _ => false,
                    })
                    ||| r == StateModel::Done {
                        result: Err::<MetaModel, ErrorModel>(ErrorModel::SystemTime),
                    }
                }
            },
        },
        (StateModel::AwaitExif { path, fs_times }, EventModel::Exif { outcome }) => match
        outcome_times(outcome) {
            Err(err) => r == StateModel::Done { result: Err::<MetaModel, ErrorModel>(err) },
            Ok(ts) => {
                let cands = fs_times + ts;
                if cands.len() == 0 {
                    // no candidate at all: fail, and never reach the store
                    r == StateModel::Done {
                        result: Err::<MetaModel, ErrorModel>(ErrorModel::NoCreationDate),
                    }
                } else {
                    // the earliest of all gathered candidates wins
                    match r {
                        StateModel::AwaitDecode { path: p, creation } => {
                            &&& p == path
                            &&& is_earliest(cands, creation)
                        },
                        _ => false,
                    }
                }
            },
        },
        (StateModel::AwaitDecode { path, creation }, EventModel::Decode { dims }) => match dims {
            None => r == StateModel::Done {
                result: Err::<MetaModel, ErrorModel>(ErrorModel::Decode),
            },
            Some((w, h)) => {
                if w > 0 && h > 0 {
                    r == StateModel::AwaitStore {
                        meta: MetaModel { path, width: w, height: h, creation },
                    }
                } else {
                    r == StateModel::Done {
                        result: Err::<MetaModel, ErrorModel>(ErrorModel::Decode),
                    }
                }
            },
        },
        (StateModel::AwaitStore { meta }, EventModel::Stored { ok }) => {
            if ok {
                r == StateModel::Done { result: Ok::<MetaModel, ErrorModel>(meta) }
            } else {
                r == StateModel::Done { result: Err::<MetaModel, ErrorModel>(ErrorModel::Io) }
            }
        },
        _ => r == s,
    }
}

/// A fresh resolution for one path, waiting on the cache lookup.
pub fn start_resolution(path: Vec<u8>) -> (r: ResolveState)
    ensures
        r@ == (StateModel::AwaitCache { path: path@ }),
{
    ResolveState::AwaitCache { path }
}

/// What the caller is to do next in state `s`.
pub open spec fn action_spec(s: StateModel) -> ResolveAction {
    match s {
        StateModel::AwaitCache { .. } => ResolveAction::LookupCache,
        StateModel::AwaitStat { .. } => ResolveAction::StatFile,
        StateModel::AwaitExif { .. } => ResolveAction::ReadExif,
        StateModel::AwaitDecode { .. } => ResolveAction::DecodeImage,
        StateModel::AwaitStore { .. } => ResolveAction::StoreEntry,
        StateModel::Done { .. } => ResolveAction::Finish,
    }
}

/// Tells the caller what to do next.
pub fn next_action(s: &ResolveState) -> (r: ResolveAction)
    ensures
        r == action_spec(s@),
{
    match s {
        ResolveState::AwaitCache { .. } => ResolveAction::LookupCache,
        ResolveState::AwaitStat { .. } => ResolveAction::StatFile,
        ResolveState::AwaitExif { .. } => ResolveAction::ReadExif,
        ResolveState::AwaitDecode { .. } => ResolveAction::DecodeImage,
        ResolveState::AwaitStore { .. } => ResolveAction::StoreEntry,
        ResolveState::Done { .. } => ResolveAction::Finish,
    }
}

/// Advances one resolution by one event.
pub fn resolve_step(s: ResolveState, e: ResolveEvent) -> (r: ResolveState)
    ensures
        step_rel(s@, e@, r@),
{
    match (s, e) {
        (ResolveState::AwaitCache { path }, ResolveEvent::Cache { entry }) => match entry {
            Some(bytes) => match decode_cache_entry(&bytes) {
                Some(m) => ResolveState::Done { result: Ok(m) },
                None => ResolveState::AwaitStat { path },
            },
            None => ResolveState::AwaitStat { path },
        },
        (ResolveState::AwaitStat { path }, ResolveEvent::Stat { times }) => match times {
            None => ResolveState::Done { result: Err(ResolveError::Io) },
            Some(t) => match (t.created, t.modified) {
                (Some(ct), Some(mt)) => {
                    if ct.secs >= MAX_EPOCH_SECS || mt.secs >= MAX_EPOCH_SECS {
                        ResolveState::Done { result: Err(ResolveError::SystemTime) }
                    } else {
                        match local_civil_from_epoch(ct.secs, ct.nanos) {
                            None => ResolveState::Done { result: Err(ResolveError::SystemTime) },
                            Some(c) => match local_civil_from_epoch(mt.secs, mt.nanos) {
                                None => ResolveState::Done {
                                    result: Err(ResolveError::SystemTime),
                                },
                                Some(m) => {
                                    let mut fs_times: Vec<CivilDateTime> = Vec::new();
                                    fs_times.push(c);
                                    fs_times.push(m);
                                    ResolveState::AwaitExif { path, fs_times }
                                },
                            },
                        }
                    }
                },
                _ => ResolveState::Done { result: Err(ResolveError::SystemTime) },
            },
        },
        (ResolveState::AwaitExif { path, fs_times }, ResolveEvent::Exif { outcome }) => {
            let exif_res: Result<Vec<CivilDateTime>, ResolveError> = match outcome {
                ExifOutcome::NoExif => Ok(Vec::new()),
                ExifOutcome::ParseFailed => Ok(Vec::new()),
                ExifOutcome::Parsed { records } => exif_time_candidates(&records),
            };
            match exif_res {
                Err(err) => ResolveState::Done { result: Err(err) },
                Ok(ts) => {
                    let ghost fs0 = fs_times@;
                    let mut cands = fs_times;
                    let mut j: usize = 0;
                    while j < ts.len()
                        invariant
                            j <= ts@.len(),
                            cands@ == fs0 + ts@.take(j as int),
                        decreases ts@.len() - j,
                    {
                        cands.push(ts[j]);
                        proof {
                            assert(cands@ =~= fs0 + ts@.take(j as int + 1));
                        }
                        j += 1;
                    }
                    proof {
                        assert(cands@ =~= fs0 + ts@);
                    }
                    match earliest_candidate(&cands) {
                        None => ResolveState::Done {
                            result: Err(ResolveError::NoCreationDate),
                        },
                        Some(c) => ResolveState::AwaitDecode { path, creation: c },
                    }
                },
            }
        },
        (ResolveState::AwaitDecode { path, creation }, ResolveEvent::Decode { dims }) => match
        dims {
            None => ResolveState::Done { result: Err(ResolveError::Decode) },
            Some((w, h)) => {
                if w > 0 && h > 0 {
                    ResolveState::AwaitStore {
                        meta: ImageMetadata { path, width: w, height: h, creation },
                    }
                } else {
                    ResolveState::Done { result: Err(ResolveError::Decode) }
                }
            },
        },
        (ResolveState::AwaitStore { meta }, ResolveEvent::Stored { ok }) => {
            if ok {
                ResolveState::Done { result: Ok(meta) }
            } else {
                ResolveState::Done { result: Err(ResolveError::Io) }
            }
        },
        (other_state, _) => other_state,
    }
}

/// A cache hit short-circuits the whole resolution: the very first event,
/// the cache lookup, ends it with the cached record unchanged, so no stat,
/// EXIF read, image decode or cache write follows for that path.
pub proof fn lemma_cache_short_circuit(
    path: Seq<u8>,
    bytes: Seq<u8>,
    m: MetaModel,
    r: StateModel,
)
    requires
        decode_spec(bytes) == Some(m),
        step_rel(
            StateModel::AwaitCache { path },
            EventModel::Cache { entry: Some(bytes) },
            r,
        ),
    ensures
        r == (StateModel::Done { result: Ok::<MetaModel, ErrorModel>(m) }),
        action_spec(r) == ResolveAction::Finish,
{
}

/// Round trip through the cache: after a record is written to its entry,
/// a later resolution of the same path reads it back equal in every field
/// and is over at once.
pub proof fn lemma_written_entry_resolves_unchanged(m: MetaModel, path: Seq<u8>, r: StateModel)
    requires
        m.wf(),
        step_rel(
            StateModel::AwaitCache { path },
            EventModel::Cache { entry: Some(crate::codec::encode_spec(m)) },
            r,
        ),
    ensures
        r == (StateModel::Done { result: Ok::<MetaModel, ErrorModel>(m) }),
{
    crate::codec::lemma_cache_round_trip(m);
}

/// The resolved creation time is the earliest of all gathered candidates,
/// filesystem and EXIF alike.
pub proof fn lemma_earliest_policy(
    path: Seq<u8>,
    fs_times: Seq<CivilDateTime>,
    records: Seq<ExifRecord>,
    ts: Seq<CivilDateTime>,
    r: StateModel,
)
    requires
        exif_times_spec(records) == Ok::<Seq<CivilDateTime>, ErrorModel>(ts),
        fs_times.len() + ts.len() > 0,
        step_rel(
            StateModel::AwaitExif { path, fs_times },
            EventModel::Exif { outcome: OutcomeModel::Parsed { records } },
            r,
        ),
    ensures
        (r matches StateModel::AwaitDecode { path: p, creation } && p == path && is_earliest(
            fs_times + ts,
            creation,
        )),
{
}

/// A whole-file EXIF parse failure is not fatal: the step behaves exactly
/// as if the file had no EXIF structure, and with any filesystem candidate
/// present the resolution proceeds on the earliest of those alone.
pub proof fn lemma_exif_failure_fallback(
    path: Seq<u8>,
    fs_times: Seq<CivilDateTime>,
    r: StateModel,
)
    requires
        fs_times.len() > 0,
        step_rel(
            StateModel::AwaitExif { path, fs_times },
            EventModel::Exif { outcome: OutcomeModel::ParseFailed },
            r,
        ),
    ensures
        step_rel(
            StateModel::AwaitExif { path, fs_times },
            EventModel::Exif { outcome: OutcomeModel::NoExif },
            r,
        ),
        (r matches StateModel::AwaitDecode { path: p, creation } && p == path && is_earliest(
            fs_times,
            creation,
        )),
{
    assert(fs_times + Seq::<CivilDateTime>::empty() =~= fs_times);
}

/// With no timestamp candidate at all, resolution fails with the missing
/// creation-date error — and ends at once, so no cache entry is written.
pub proof fn lemma_no_candidate_fails(path: Seq<u8>, outcome: OutcomeModel, r: StateModel)
    requires
        outcome_times(outcome) == Ok::<Seq<CivilDateTime>, ErrorModel>(
            Seq::<CivilDateTime>::empty(),
        ),
        step_rel(
            StateModel::AwaitExif { path, fs_times: Seq::empty() },
            EventModel::Exif { outcome },
            r,
        ),
    ensures
        r == (StateModel::Done {
            result: Err::<MetaModel, ErrorModel>(ErrorModel::NoCreationDate),
        }),
{
    assert(Seq::<CivilDateTime>::empty() + Seq::<CivilDateTime>::empty()
        =~= Seq::<CivilDateTime>::empty());
}

/// A cache entry is written only for a freshly assembled record: the store
/// stage is reached only from a successful decode, never from a failure.
pub proof fn lemma_store_only_after_decode(s: StateModel, e: EventModel, r: StateModel)
    requires
        step_rel(s, e, r),
        r is AwaitStore,
        !(s is AwaitStore),
    ensures
        s is AwaitDecode,
        (e matches EventModel::Decode { dims: Some((w, h)) } && w > 0 && h > 0),
{
}

/// Every civil time a resolution state carries is well-formed, and so is
/// the record of a finished or to-be-stored resolution.
pub open spec fn state_inv(s: StateModel) -> bool {
    match s {
        StateModel::AwaitCache { .. } => true,
        StateModel::AwaitStat { .. } => true,
        StateModel::AwaitExif { fs_times, .. } => forall|i: int|
            0 <= i < fs_times.len() ==> (#[trigger] fs_times[i]).wf(),
        StateModel::AwaitDecode { creation, .. } => creation.wf(),
        StateModel::AwaitStore { meta } => meta.wf(),
        StateModel::Done { result } => match result {
            Ok(m) => m.wf(),
            Err(_) => true,
        },
    }
}

/// The invariant holds of a fresh resolution vacuously and every step
/// preserves it, so each record the protocol stores or returns — starting
/// from `AwaitCache` — is well-formed, and the cache round trip applies to
/// every record a resolution actually writes.
pub proof fn lemma_step_preserves_inv(s: StateModel, e: EventModel, r: StateModel)
    requires
        state_inv(s),
        step_rel(s, e, r),
    ensures
        state_inv(r),
{
    match (s, e) {
        (StateModel::AwaitExif { path, fs_times }, EventModel::Exif { outcome }) => {
            match outcome_times(outcome) {
                Ok(ts) => {
                    if let OutcomeModel::Parsed { records } = outcome {
                        crate::exif::lemma_exif_times_wf(records, ts);
                    }
                    let cands = fs_times + ts;
                    assert forall|i: int| 0 <= i < cands.len() implies (
                    #[trigger] cands[i]).wf() by {
                        if i >= fs_times.len() {
                            assert(cands[i] == ts[i - fs_times.len()]);
                        }
                    }
                    if cands.len() > 0 {
                        if let StateModel::AwaitDecode { creation, .. } = r {
                            let idx = cands.index_of(creation);
                            assert(cands[idx].wf());
                        }
                    }
                },
                Err(_) => {},
            }
        },
        _ => {},
    }
}

} // verus!
