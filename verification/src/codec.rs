use vstd::prelude::*;
use crate::meta::{ImageMetadata, MetaModel};
use crate::time::CivilDateTime;

verus! {

// A cache entry frames a metadata record as bytes: a fixed 21-byte header
// (width, height, biased year, the five small date-time fields, nanoseconds,
// all integers big-endian) followed by the path bytes to the end of the
// entry. Reading validates the record, so a malformed entry decodes to
// `None` and is treated by callers as a cache miss.

/// The four big-endian bytes of a 32-bit integer.
pub open spec fn u32_bytes(v: u32) -> Seq<u8> {
    seq![
        ((v >> 24) & 0xff) as u8,
        ((v >> 16) & 0xff) as u8,
        ((v >> 8) & 0xff) as u8,
        (v & 0xff) as u8,
    ]
}

/// A 32-bit integer read back from four big-endian bytes.
pub open spec fn u32_of_bytes(b0: u8, b1: u8, b2: u8, b3: u8) -> u32 {
    ((b0 as u32) << 24) | ((b1 as u32) << 16) | ((b2 as u32) << 8) | (b3 as u32)
}

proof fn lemma_u32_bytes_round(v: u32)
    ensures
        u32_of_bytes(u32_bytes(v)[0], u32_bytes(v)[1], u32_bytes(v)[2], u32_bytes(v)[3]) == v,
{
    assert(((((v >> 24) & 0xff) as u8 as u32) << 24) | ((((v >> 16) & 0xff) as u8 as u32) << 16)
        | ((((v >> 8) & 0xff) as u8 as u32) << 8) | ((v & 0xff) as u8 as u32) == v) by (bit_vector);
}

/// A year shifted out of the negative range so it fits an unsigned field.
pub open spec fn bias_year(y: i32) -> u32 {
    (y + 0x8000_0000) as u32
}

/// The inverse shift.
pub open spec fn unbias_year(u: u32) -> i32 {
    (u - 0x8000_0000) as i32
}

proof fn lemma_year_round(y: i32)
    ensures
        unbias_year(bias_year(y)) == y,
{
}

/// The byte form of a metadata record.
pub open spec fn encode_spec(m: MetaModel) -> Seq<u8> {
    u32_bytes(m.width) + u32_bytes(m.height) + u32_bytes(bias_year(m.creation.year)) + seq![
        m.creation.month,
        m.creation.day,
        m.creation.hour,
        m.creation.minute,
        m.creation.second,
    ] + u32_bytes(m.creation.nano) + m.path
}

/// The record read back from a byte form, or `None` where the bytes are
/// too short or describe no well-formed record.
pub open spec fn decode_spec(b: Seq<u8>) -> Option<MetaModel> {
    if b.len() < 21 {
        None
    } else {
        let m = MetaModel {
            width: u32_of_bytes(b[0], b[1], b[2], b[3]),
            height: u32_of_bytes(b[4], b[5], b[6], b[7]),
            creation: CivilDateTime {
                year: unbias_year(u32_of_bytes(b[8], b[9], b[10], b[11])),
                month: b[12],
                day: b[13],
                hour: b[14],
                minute: b[15],
                second: b[16],
                nano: u32_of_bytes(b[17], b[18], b[19], b[20]),
            },
            path: b.subrange(21, b.len() as int),
        };
        if m.wf() {
            Some(m)
        } else {
            None
        }
    }
}

/// Writing a record to its byte form and reading it back yields the same
/// record in every field.
pub proof fn lemma_cache_round_trip(m: MetaModel)
    requires
        m.wf(),
    ensures
        decode_spec(encode_spec(m)) == Some(m),
{
    let e = encode_spec(m);
    assert(e.len() == 21 + m.path.len());
    lemma_u32_bytes_round(m.width);
    lemma_u32_bytes_round(m.height);
    lemma_u32_bytes_round(bias_year(m.creation.year));
    lemma_u32_bytes_round(m.creation.nano);
    lemma_year_round(m.creation.year);
    assert(e[0] == u32_bytes(m.width)[0]);
    assert(e[1] == u32_bytes(m.width)[1]);
    assert(e[2] == u32_bytes(m.width)[2]);
    assert(e[3] == u32_bytes(m.width)[3]);
    assert(e[4] == u32_bytes(m.height)[0]);
    assert(e[5] == u32_bytes(m.height)[1]);
    assert(e[6] == u32_bytes(m.height)[2]);
    assert(e[7] == u32_bytes(m.height)[3]);
    assert(e[8] == u32_bytes(bias_year(m.creation.year))[0]);
    assert(e[9] == u32_bytes(bias_year(m.creation.year))[1]);
    assert(e[10] == u32_bytes(bias_year(m.creation.year))[2]);
    assert(e[11] == u32_bytes(bias_year(m.creation.year))[3]);
    assert(e[12] == m.creation.month);
    assert(e[13] == m.creation.day);
    assert(e[14] == m.creation.hour);
    assert(e[15] == m.creation.minute);
    assert(e[16] == m.creation.second);
    assert(e[17] == u32_bytes(m.creation.nano)[0]);
    assert(e[18] == u32_bytes(m.creation.nano)[1]);
    assert(e[19] == u32_bytes(m.creation.nano)[2]);
    assert(e[20] == u32_bytes(m.creation.nano)[3]);
    assert(e.subrange(21, e.len() as int) =~= m.path);
    assert(decode_spec(e) == Some(decode_spec(e).unwrap()));
    assert(decode_spec(e).unwrap() =~= m);
}

fn push_u32(out: &mut Vec<u8>, v: u32)
    ensures
        final(out)@ == old(out)@ + u32_bytes(v),
{
    assert((v >> 24) & 0xff < 256 && (v >> 16) & 0xff < 256 && (v >> 8) & 0xff < 256 && v & 0xff
        < 256) by (bit_vector);
    out.push(((v >> 24) & 0xff) as u8);
    out.push(((v >> 16) & 0xff) as u8);
    out.push(((v >> 8) & 0xff) as u8);
    out.push((v & 0xff) as u8);
    assert(out@ =~= old(out)@ + u32_bytes(v));
}

fn read_u32(b: &Vec<u8>, off: usize) -> (r: u32)
    requires
        off + 4 <= b@.len(),
    ensures
        r == u32_of_bytes(b@[off as int], b@[off as int + 1], b@[off as int + 2], b@[off as int + 3]),
{
    let n = b.len();
    assert(off + 4 <= n);
    ((b[off] as u32) << 24) | ((b[off + 1] as u32) << 16) | ((b[off + 2] as u32) << 8) | (b[off + 3]
        as u32)
}

/// The byte form of a record, as written to its cache file.
pub fn encode_cache_entry(m: &ImageMetadata) -> (r: Vec<u8>)
    ensures
        r@ == encode_spec(m@),
{
    let year_biased: u32 = ((m.creation.year as i64) + 0x8000_0000i64) as u32;
    let mut out: Vec<u8> = Vec::new();
    push_u32(&mut out, m.width);
    push_u32(&mut out, m.height);
    push_u32(&mut out, year_biased);
    out.push(m.creation.month);
    out.push(m.creation.day);
    out.push(m.creation.hour);
    out.push(m.creation.minute);
    out.push(m.creation.second);
    push_u32(&mut out, m.creation.nano);
    let mut i: usize = 0;
    while i < m.path.len()
        invariant
            i <= m.path@.len(),
            out@ == encode_spec(m@).subrange(0, 21 + i as int),
            encode_spec(m@).len() == 21 + m.path@.len(),
        decreases m.path@.len() - i,
    {
        out.push(m.path[i]);
        proof {
            assert(encode_spec(m@)[21 + i as int] == m.path@[i as int]);
            assert(out@ =~= encode_spec(m@).subrange(0, 21 + i as int + 1));
        }
        i += 1;
    }
    proof {
        assert(out@ =~= encode_spec(m@));
    }
    out
}

/// The record read back from a cache file's bytes; `None` marks a
/// malformed entry, which callers treat as a cache miss.
pub fn decode_cache_entry(b: &Vec<u8>) -> (r: Option<ImageMetadata>)
    ensures
        r is Some <==> decode_spec(b@) is Some,
        r matches Some(m) ==> decode_spec(b@) == Some(m@),
{
    if b.len() < 21 {
        return None;
    }
    let width = read_u32(b, 0);
    let height = read_u32(b, 4);
    let year_biased = read_u32(b, 8);
    let year: i32 = ((year_biased as i64) - 0x8000_0000i64) as i32;
    let creation = CivilDateTime {
        year,
        month: b[12],
        day: b[13],
        hour: b[14],
        minute: b[15],
        second: b[16],
        nano: read_u32(b, 17),
    };
    if !(width > 0 && height > 0 && creation.is_wf()) {
        return None;
    }
    let mut path: Vec<u8> = Vec::new();
    let mut i: usize = 21;
    while i < b.len()
        invariant
            21 <= i <= b@.len(),
            path@ == b@.subrange(21, i as int),
        decreases b@.len() - i,
    {
        path.push(b[i]);
        proof {
            assert(path@ =~= b@.subrange(21, i as int + 1));
        }
        i += 1;
    }
    let m = ImageMetadata { path, width, height, creation };
    proof {
        assert(decode_spec(b@) == Some(m@)) by {
            assert(decode_spec(b@).unwrap() =~= m@);
        }
    }
    Some(m)
}

} // verus!
