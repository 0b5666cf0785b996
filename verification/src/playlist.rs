use vstd::prelude::*;

verus! {

// A playlist names one image file per line, the path quoted, with
// backslashes and double quotes escaped. Writing the file is the caller's;
// building each line is pure text work and is verified here.

/// `s` with every backslash doubled and every double quote preceded by a
/// backslash, in order.
pub open spec fn escaped(s: Seq<u8>) -> Seq<u8>
    decreases s.len(),
{
    if s.len() == 0 {
        Seq::empty()
    } else {
        let front = escaped(s.drop_last());
        let c = s.last();
        if c == 92u8 {
            front + seq![92u8, 92u8]
        } else if c == 34u8 {
            front + seq![92u8, 34u8]
        } else {
            front.push(c)
        }
    }
}

/// The playlist line for a path: the escaped path in double quotes,
/// newline-terminated.
pub open spec fn playlist_line_spec(path: Seq<u8>) -> Seq<u8> {
    seq![34u8] + escaped(path) + seq![34u8, 10u8]
}

/// Builds the playlist line naming `path`.
pub fn playlist_line(path: &Vec<u8>) -> (r: Vec<u8>)
    ensures
        r@ == playlist_line_spec(path@),
{
    let mut out: Vec<u8> = Vec::new();
    out.push(34u8);
    let mut i: usize = 0;
    proof {
        assert(path@.take(0) =~= Seq::<u8>::empty());
    }
    while i < path.len()
        invariant
            i <= path@.len(),
            out@ == seq![34u8] + escaped(path@.take(i as int)),
        decreases path@.len() - i,
    {
        proof {
            assert(path@.take(i as int + 1).drop_last() =~= path@.take(i as int));
            assert(path@.take(i as int + 1).last() == path@[i as int]);
        }
        let c = path[i];
        if c == 92u8 {
            out.push(92u8);
            out.push(92u8);
        } else if c == 34u8 {
            out.push(92u8);
            out.push(34u8);
        } else {
            out.push(c);
        }
        proof {
            assert(out@ =~= seq![34u8] + escaped(path@.take(i as int + 1)));
        }
        i += 1;
    }
    out.push(34u8);
    out.push(10u8);
    proof {
        assert(path@.take(path@.len() as int) =~= path@);
        assert(out@ =~= playlist_line_spec(path@));
    }
    out
}

} // verus!
