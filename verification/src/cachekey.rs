use vstd::prelude::*;

verus! {

// A cache entry's file name is a pure function of the path it caches:
// the hex form of the 128-bit digest of the path's raw bytes, with a fixed
// extension. Two runs over the same path always address the same entry.

/// The 32 lower-case hex digits of the 128-bit digest of `bytes`: the
/// result of `md5::compute` under its `LowerHex` formatting, as bytes.
pub uninterp spec fn md5_hex_of(bytes: Seq<u8>) -> Seq<u8>;

/// Relies on `md5::compute`, a digest of the input bytes alone, and on
/// `md5::Digest`'s `LowerHex` impl, which writes each of the 16 digest
/// bytes as two lower-case hex digits, 32 characters in all.
#[verifier::external_body]
fn md5_hex(bytes: &Vec<u8>) -> (r: Vec<u8>)
    ensures
        r@ == md5_hex_of(bytes@),
        r@.len() == 32,
{
    format!("{:x}", md5::compute(bytes.as_slice())).into_bytes()
}

/// The extension a cache entry's file name carries.
pub open spec fn cache_ext() -> Seq<u8> {
    seq![46u8, 106u8, 115u8, 111u8, 110u8]
}

/// The file name, inside the cache directory, of the entry for `path`:
/// the hex digest of the path bytes followed by the fixed extension.
pub open spec fn cache_file_name_spec(path: Seq<u8>) -> Seq<u8> {
    md5_hex_of(path) + cache_ext()
}

/// Computes the cache entry file name for a path.
pub fn cache_file_name(path: &Vec<u8>) -> (r: Vec<u8>)
    ensures
        r@ == cache_file_name_spec(path@),
        r@.len() == 37,
{
    let mut name = md5_hex(path);
    name.push(46u8);
    name.push(106u8);
    name.push(115u8);
    name.push(111u8);
    name.push(110u8);
    proof {
        assert(name@ =~= cache_file_name_spec(path@));
    }
    name
}

} // verus!
