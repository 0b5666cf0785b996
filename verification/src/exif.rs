use vstd::prelude::*;
use crate::errors::{ErrorModel, ResolveError};
use crate::time::CivilDateTime;

verus! {

// EXIF structures are read off disk and decoded by the caller; the library
// receives each entry as plain values and decides which entries yield
// creation-date candidates and which make the resolution fail.

/// The tags a creation-date candidate may come from, with `Other` for any
/// recognised tag that carries no date of interest.
#[derive(Clone, Copy, PartialEq, Eq, Structural, Debug)]
pub enum ExifTagKind {
    DateTimeOriginal,
    CreateDate,
    ModifyDate,
    Other,
}

/// One decoded EXIF entry: whether its tag is known and which, whether it
/// carried any value, the value read as a local civil time where that
/// succeeded, and the value's rendered text for error reports.
#[derive(Clone, Debug)]
pub struct ExifRecord {
    /// `None` for a tag the reader does not know; such entries are skipped.
    pub tag: Option<ExifTagKind>,
    /// Whether the entry carried any value at all.
    pub has_value: bool,
    /// The value as a local civil time, where it was a parseable time.
    pub time: Option<CivilDateTime>,
    /// The value's text as the reader rendered it.
    pub raw: Vec<u8>,
}

/// What reading the file's EXIF structure as a whole produced.
pub enum ExifOutcome {
    /// The file carries no EXIF structure.
    NoExif,
    /// The EXIF structure exists but could not be parsed; by design this
    /// is not fatal: resolution continues on filesystem times alone.
    ParseFailed,
    /// The EXIF structure was parsed into these entries, in file order.
    Parsed { records: Vec<ExifRecord> },
}

impl ExifRecord {
    /// Whether this entry's tag is one a creation-date candidate comes from.
    pub open spec fn is_date_tag(self) -> bool {
        match self.tag {
            Some(ExifTagKind::DateTimeOriginal) => true,
            Some(ExifTagKind::CreateDate) => true,
            Some(ExifTagKind::ModifyDate) => true,
            _ => false,
        }
    }
}

/// The creation-date candidates a sequence of EXIF entries yields, or the
/// first failure. An entry with no value fails the resolution; an entry
/// under a date tag whose value is no well-formed time fails it too; any
/// other entry is skipped.
pub open spec fn exif_times_spec(records: Seq<ExifRecord>) -> Result<
    Seq<CivilDateTime>,
    ErrorModel,
>
    decreases records.len(),
{
    if records.len() == 0 {
        Ok(Seq::empty())
    } else {
        let r0 = records[0];
        if !r0.has_value {
            Err(ErrorModel::ExifValue)
        } else if !r0.is_date_tag() {
            exif_times_spec(records.skip(1))
        } else {
            match r0.time {
                None => Err(ErrorModel::ExifTime { tag: r0.tag.unwrap(), raw: r0.raw@ }),
                Some(t) => if !t.wf() {
                    Err(ErrorModel::ExifTime { tag: r0.tag.unwrap(), raw: r0.raw@ })
                } else {
                    match exif_times_spec(records.skip(1)) {
                        Ok(rest) => Ok(seq![t] + rest),
                        Err(e) => Err(e),
                    }
                },
            }
        }
    }
}

/// Every candidate the gathering yields is well-formed: an entry whose
/// time lies outside the civil ranges fails the gathering instead.
pub proof fn lemma_exif_times_wf(records: Seq<ExifRecord>, ts: Seq<CivilDateTime>)
    requires
        exif_times_spec(records) == Ok::<Seq<CivilDateTime>, ErrorModel>(ts),
    ensures
        forall|i: int| 0 <= i < ts.len() ==> (#[trigger] ts[i]).wf(),
    decreases records.len(),
{
    if records.len() == 0 {
    } else {
        let r0 = records[0];
        if !r0.has_value {
        } else if !r0.is_date_tag() {
            lemma_exif_times_wf(records.skip(1), ts);
        } else {
            match r0.time {
                None => {},
                Some(t) => {
                    if t.wf() {
                        match exif_times_spec(records.skip(1)) {
                            Ok(rest) => {
                                lemma_exif_times_wf(records.skip(1), rest);
                                assert(ts == seq![t] + rest);
                                assert forall|i: int| 0 <= i < ts.len() implies (#[trigger] ts[i]).wf() by {
                                    if i > 0 {
                                        assert(ts[i] == rest[i - 1]);
                                    }
                                }
                            },
                            Err(_) => {},
                        }
                    }
                },
            }
        }
    }
}

/// `rest` with `prefix` prepended to its candidates, failures unchanged.
pub open spec fn with_prefix(
    prefix: Seq<CivilDateTime>,
    rest: Result<Seq<CivilDateTime>, ErrorModel>,
) -> Result<Seq<CivilDateTime>, ErrorModel> {
    match rest {
        Ok(v) => Ok(prefix + v),
        Err(e) => Err(e),
    }
}

/// Gathers the creation-date candidates of the decoded EXIF entries, in
/// entry order, or reports the first failing entry.
pub fn exif_time_candidates(records: &Vec<ExifRecord>) -> (r: Result<
    Vec<CivilDateTime>,
    ResolveError,
>)
    ensures
        match r {
            Ok(v) => exif_times_spec(records@) == Ok::<_, ErrorModel>(v@),
            Err(e) => exif_times_spec(records@) == Err::<Seq<CivilDateTime>, _>(e@),
        },
{
    let mut out: Vec<CivilDateTime> = Vec::new();
    let mut i: usize = 0;
    proof {
        assert(records@.skip(0) =~= records@);
    }
    while i < records.len()
        invariant
            i <= records@.len(),
            with_prefix(out@, exif_times_spec(records@.skip(i as int))) == exif_times_spec(
                records@,
            ),
        decreases records@.len() - i,
    {
        proof {
            assert(records@.skip(i as int)[0] == records@[i as int]);
            assert(records@.skip(i as int).skip(1) =~= records@.skip(i as int + 1));
        }
        let rec = &records[i];
        if !rec.has_value {
            return Err(ResolveError::ExifValue);
        }
        let is_date = match rec.tag {
            Some(ExifTagKind::DateTimeOriginal) => true,
            Some(ExifTagKind::CreateDate) => true,
            Some(ExifTagKind::ModifyDate) => true,
            _ => false,
        };
        if is_date {
            let tag = rec.tag.unwrap();
            match rec.time {
                None => {
                    let raw = rec.raw.clone();
                    proof {
                        assert(raw@ =~= rec.raw@);
                    }
                    return Err(ResolveError::ExifTime { tag, raw });
                },
                Some(t) => {
                    if !t.is_wf() {
                        let raw = rec.raw.clone();
                        proof {
                            assert(raw@ =~= rec.raw@);
                        }
                        return Err(ResolveError::ExifTime { tag, raw });
                    }
                    let ghost old_out = out@;
                    out.push(t);
                    proof {
                        if let Ok(rest) = exif_times_spec(records@.skip(i as int + 1)) {
                            assert(old_out + (seq![t] + rest) =~= out@ + rest);
                        }
                    }
                },
            }
        }
        i += 1;
    }
    proof {
        assert(records@.skip(records@.len() as int) =~= Seq::<ExifRecord>::empty());
        assert(out@ + Seq::<CivilDateTime>::empty() =~= out@);
    }
    Ok(out)
}

} // verus!
