//! Paths as the gateway sees them: strings that are joined and split by the
//! standard library, and a suffix rule of the gateway's own.

use std::path::Path;
use std::path::PathBuf;
use vstd::prelude::*;
use vstd::string::*;

verus! {

/// Whether `text` ends with `suffix`, character by character.
pub open spec fn ends_with(text: Seq<char>, suffix: Seq<char>) -> bool {
    suffix.len() <= text.len() && text.subrange(text.len() - suffix.len(), text.len() as int)
        == suffix
}

/// The suffix that the relative path of a sample must carry.
pub open spec fn sample_suffix() -> Seq<char> {
    seq!['.', 'w', 'a', 'v']
}

/// Whether `relative_path` names a sample: it ends in `.wav`, in exactly these
/// lower-case characters.
pub open spec fn is_sample_path(relative_path: Seq<char>) -> bool {
    ends_with(relative_path, sample_suffix())
}

/// The text of the path that `PathBuf::push` makes of `relative_path` under
/// `base_dir`. `push` works on the two texts alone, by the path rules of the
/// platform that the library is built for; it looks at no filesystem.
pub uninterp spec fn joined_path(base_dir: Seq<char>, relative_path: Seq<char>) -> Seq<char>;

/// The text of what `Path::parent` returns for `path`: the path without its
/// final component, or `None` where it has none to drop. `parent` too works on
/// the text alone.
pub uninterp spec fn parent_path(path: Seq<char>) -> Option<Seq<char>>;

/// Tells whether `text` ends with `suffix`.
pub fn has_suffix(text: &str, suffix: &str) -> (found: bool)
    ensures
        found == ends_with(text@, suffix@),
{
    let text_len: usize = text.unicode_len();
    let suffix_len: usize = suffix.unicode_len();
    if suffix_len > text_len {
        return false;
    }
    let start: usize = text_len - suffix_len;
    let ghost tail = text@.subrange(start as int, text_len as int);
    let mut i: usize = 0;
    while i < suffix_len
        invariant
            i <= suffix_len,
            text_len == text@.len(),
            suffix_len == suffix@.len(),
            start + suffix_len == text_len,
            tail == text@.subrange(start as int, text_len as int),
            forall|k: int| 0 <= k < i ==> tail[k] == suffix@[k],
        decreases suffix_len - i,
    {
        if text.get_char(start + i) != suffix.get_char(i) {
            assert(tail[i as int] != suffix@[i as int]);
            return false;
        }
        i = i + 1;
    }
    assert(tail =~= suffix@);
    true
}

/// Tells whether `relative_path` names a sample.
pub fn names_sample(relative_path: &str) -> (valid: bool)
    ensures
        valid == is_sample_path(relative_path@),
{
    proof {
        reveal_strlit(".wav");
        assert(".wav"@ =~= sample_suffix());
    }
    has_suffix(relative_path, ".wav")
}

/// `PathBuf::push` of the standard library, on a path made of `base_dir`.
///
/// Trusted: the text of the resulting path is `joined_path` of the two
/// arguments. Both arguments are valid Unicode, and so is what `push` makes of
/// them, so that turning the path back into a `String` loses nothing.
#[verifier::external_body]
pub(crate) fn join(base_dir: &str, relative_path: &str) -> (full_path: String)
    ensures
        full_path@ == joined_path(base_dir@, relative_path@),
{
    let mut full_path = PathBuf::from(base_dir);
    full_path.push(relative_path);
    full_path.to_string_lossy().into_owned()
}

/// `Path::parent` of the standard library.
///
/// Trusted: the result is `parent_path` of the argument, `None` where
/// `Path::parent` returns `None`, and else the text of the path it returns.
#[verifier::external_body]
pub(crate) fn parent(path: &str) -> (dir: Option<String>)
    ensures
        match dir {
            Some(d) => parent_path(path@) == Some(d@),
            None => parent_path(path@) is None,
        },
{
    match Path::new(path).parent() {
        Some(dir) => Some(dir.to_string_lossy().into_owned()),
        None => None,
    }
}

} // verus!
