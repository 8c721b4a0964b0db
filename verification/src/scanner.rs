use vstd::prelude::*;

use crate::namegen::spec_is_supported_extension;
use crate::paths::spec_extension;
use crate::text::to_char_vec;

verus! {

/// One directory entry as the walker found it: its full path and whether
/// it is a regular file.
pub struct FsEntry {
    pub path: String,
    pub is_file: bool,
}

/// A path that names an image: it has an extension and that extension is
/// in the supported set, ignoring ASCII case.
pub open spec fn spec_is_image_path(p: Seq<char>) -> bool {
    match spec_extension(p) {
        Some(e) => spec_is_supported_extension(e),
        None => false,
    }
}

/// Whether a path names an image file by its extension.
pub fn is_image_path(path: &str) -> (r: bool)
    ensures
        r == spec_is_image_path(path@),
{
    let v = to_char_vec(path);
    match crate::paths::extension_chars(&v) {
        Some(e) => crate::namegen::is_supported_extension(&e),
        None => false,
    }
}

/// The image paths among a walk's entries, in walk order: regular files
/// whose extension is supported.
pub open spec fn spec_image_files(entries: Seq<FsEntry>) -> Seq<Seq<char>>
    decreases entries.len(),
{
    if entries.len() == 0 {
        Seq::empty()
    } else {
        spec_image_files(entries.drop_last()) + if entries.last().is_file && spec_is_image_path(
            entries.last().path@,
        ) {
            seq![entries.last().path@]
        } else {
            Seq::empty()
        }
    }
}

/// Keep, in order, the entries that are regular files with a supported
/// image extension. The result is a pure function of the entries handed
/// in: walking an unchanged tree again selects the same paths.
pub fn filter_image_entries(entries: &Vec<FsEntry>) -> (r: Vec<String>)
    ensures
        r@.map_values(|s: String| s@) == spec_image_files(entries@),
{
    let n = entries.len();
    let mut r: Vec<String> = Vec::new();
    let mut i: usize = 0;
    proof {
        assert(entries@.subrange(0, 0) =~= Seq::<FsEntry>::empty());
        assert(r@.map_values(|s: String| s@) =~= spec_image_files(entries@.subrange(0, 0)));
    }
    while i < n
        invariant
            n == entries@.len(),
            i <= n,
            r@.map_values(|s: String| s@) == spec_image_files(entries@.subrange(0, i as int)),
        decreases n - i,
    {
        let ghost prev = r@.map_values(|s: String| s@);
        let e = &entries[i];
        let keep = e.is_file && is_image_path(e.path.as_str());
        if keep {
            let p = e.path.clone();
            r.push(p);
        }
        i = i + 1;
        proof {
            let sub = entries@.subrange(0, i as int);
            assert(sub.drop_last() =~= entries@.subrange(0, i - 1));
            assert(sub.last() == entries@[i - 1]);
            if keep {
                assert(r@.map_values(|s: String| s@) =~= prev + seq![
                    entries@[i - 1].path@,
                ]);
            } else {
                assert(r@.map_values(|s: String| s@) =~= prev + Seq::<Seq<char>>::empty());
            }
        }
    }
    proof {
        assert(entries@.subrange(0, n as int) =~= entries@);
    }
    r
}

} // verus!
