use vstd::prelude::*;

verus! {

// The walker enumerates regular image files under a set of root
// directories, depth first over an explicit work list of pending
// directories, so directory depth costs no call stack. The caller reads
// each directory off the filesystem and hands the entries in; the walker
// decides which entries are junk, which descend, and which are yielded.

/// Whether a path names a junk file: an OS- or tool-generated artifact.
pub uninterp spec fn junk_of(path: Seq<u8>) -> bool;

/// Whether some MIME type guessed for a path has the image top-level type.
pub uninterp spec fn image_mime_of(path: Seq<u8>) -> bool;

/// Relies on `junk_file::is_junk`: whether the path text is a known junk
/// artifact name, a pure function of that text.
#[verifier::external_body]
fn is_junk_path(path: &Vec<u8>) -> (r: bool)
    ensures
        r == junk_of(path@),
{
    let s = String::from_utf8_lossy(path.as_slice());
    junk_file::is_junk(s.as_ref())
}

/// Relies on `mime_guess::from_path`, the MIME guesses for a path from its
/// extension alone, and on `mime::Mime::type_`: true exactly when some
/// guess's top-level type is the image type.
#[verifier::external_body]
fn guesses_image(path: &Vec<u8>) -> (r: bool)
    ensures
        r == image_mime_of(path@),
{
    let s = String::from_utf8_lossy(path.as_slice());
    for m in mime_guess::from_path(s.as_ref()).iter() {
        if m.type_() == mime_guess::mime::IMAGE {
            return true;
        }
    }
    false
}

/// One directory entry as the caller read it: its full path and whether it
/// is itself a directory.
pub struct WalkEntry {
    pub path: Vec<u8>,
    pub is_dir: bool,
}

/// The non-junk directories among `entries`, in entry order: the ones the
/// walk descends into.
pub open spec fn kept_dirs(entries: Seq<WalkEntry>) -> Seq<Seq<u8>>
    decreases entries.len(),
{
    if entries.len() == 0 {
        Seq::empty()
    } else {
        let front = kept_dirs(entries.drop_last());
        let e = entries.last();
        if e.is_dir && !junk_of(e.path@) {
            front.push(e.path@)
        } else {
            front
        }
    }
}

/// The files among `entries` that the walk yields, in entry order: not
/// junk, not a directory, and guessed to be an image.
pub open spec fn kept_files(entries: Seq<WalkEntry>) -> Seq<Seq<u8>>
    decreases entries.len(),
{
    if entries.len() == 0 {
        Seq::empty()
    } else {
        let front = kept_files(entries.drop_last());
        let e = entries.last();
        if !e.is_dir && !junk_of(e.path@) && image_mime_of(e.path@) {
            front.push(e.path@)
        } else {
            front
        }
    }
}

proof fn lemma_deep_push(a: Vec<Vec<u8>>, b: Vec<Vec<u8>>, x: Vec<u8>)
    requires
        b@ == a@.push(x),
    ensures
        b.deep_view() == a.deep_view().push(x@),
{
    assert(x.deep_view() =~= x@);
    assert forall|j: int| 0 <= j < b@.len() implies b.deep_view()[j] == a.deep_view().push(x@)[j] by {
        if j < a@.len() {
            assert(b@[j] == a@[j]);
        } else {
            assert(b@[j] == x);
        }
    }
    assert(b.deep_view() =~= a.deep_view().push(x@));
}

/// The walk's state: the pending directories, deepest discovery last.
pub struct Walker {
    pub stack: Vec<Vec<u8>>,
}

impl Walker {
    /// A walk over the given root directories.
    pub fn new(roots: Vec<Vec<u8>>) -> (r: Walker)
        ensures
            r.stack@ == roots@,
    {
        Walker { stack: roots }
    }

    /// The next directory to read: the most recently discovered pending
    /// one, or `None` when the walk is finished. Reading directories in
    /// this order makes the traversal depth first.
    pub fn next_dir(&mut self) -> (r: Option<Vec<u8>>)
        ensures
            old(self).stack@.len() == 0 ==> r is None && final(self).stack@ == old(self).stack@,
            old(self).stack@.len() > 0 ==> r == Some(old(self).stack@.last())
                && final(self).stack@ == old(self).stack@.drop_last(),
    {
        self.stack.pop()
    }

    /// Takes the entries of one directory, in the order the caller read
    /// them: descends into each non-junk directory, and yields each
    /// non-junk file whose path is guessed to be an image.
    pub fn push_entries(&mut self, entries: Vec<WalkEntry>) -> (files: Vec<Vec<u8>>)
        ensures
            final(self).stack.deep_view() == old(self).stack.deep_view() + kept_dirs(entries@),
            files.deep_view() == kept_files(entries@),
    {
        let ghost all = entries@;
        let ghost stack0 = old(self).stack.deep_view();
        let mut entries = entries;
        let mut files: Vec<Vec<u8>> = Vec::new();
        let ghost mut i: int = 0;
        proof {
            assert(all.take(0) =~= Seq::<WalkEntry>::empty());
            assert(all.skip(0) =~= all);
        }
        while entries.len() > 0
            invariant
                0 <= i <= all.len(),
                entries@ == all.skip(i),
                self.stack.deep_view() == stack0 + kept_dirs(all.take(i)),
                files.deep_view() == kept_files(all.take(i)),
            decreases entries@.len(),
        {
            let e = entries.remove(0);
            proof {
                assert(all.skip(i)[0] == all[i]);
                assert(all.skip(i).remove(0) =~= all.skip(i + 1));
                assert(all.take(i + 1).drop_last() =~= all.take(i));
                assert(all.take(i + 1).last() == all[i]);
            }
            let junk = is_junk_path(&e.path);
            if !junk {
                let WalkEntry { path, is_dir } = e;
                if is_dir {
                    let ghost stack_pre = self.stack;
                    self.stack.push(path);
                    proof {
                        lemma_deep_push(stack_pre, self.stack, path);
                        assert(stack0 + kept_dirs(all.take(i + 1)) =~= (stack0 + kept_dirs(
                            all.take(i),
                        )).push(path@));
                    }
                } else {
                    if guesses_image(&path) {
                        let ghost files_pre = files;
                        files.push(path);
                        proof {
                            lemma_deep_push(files_pre, files, path);
                            assert(kept_files(all.take(i + 1)) =~= kept_files(all.take(i)).push(
                                path@,
                            ));
                        }
                    }
                }
            }
            proof {
                i = i + 1;
            }
        }
        proof {
            assert(all.take(all.len() as int) =~= all);
        }
        files
    }
}

} // verus!
