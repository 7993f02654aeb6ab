//! Trusted calls into `std` functions that vstd leaves unspecified and into the
//! `dirs` crate. Each item states what its contract claims of the call; nothing
//! here is proved.
use vstd::prelude::*;

verus! {

/// The lowercase form of a string, as `str::to_lowercase` computes it (the
/// Unicode `Lowercase` mapping, applied character by character with the final
/// sigma rule). Only its name is used here.
pub uninterp spec fn lowercase_of(s: Seq<char>) -> Seq<char>;

/// Every character of the text is ASCII.
pub open spec fn is_ascii_text(s: Seq<char>) -> bool {
    forall|i: int| 0 <= i < s.len() ==> (#[trigger] s[i] as int) < 128
}

/// An ASCII capital letter turned into its small letter; any other
/// character kept.
pub open spec fn ascii_lower_char(c: char) -> char {
    if 'A' <= c && c <= 'Z' {
        ((c as int) + 32) as char
    } else {
        c
    }
}

/// The text with every ASCII capital letter turned into its small letter.
pub open spec fn ascii_lowercase(s: Seq<char>) -> Seq<char> {
    s.map_values(|c: char| ascii_lower_char(c))
}

/// `str::to_lowercase`: the result is `lowercase_of` of the argument. The
/// mapping depends on the characters of the argument alone; on ASCII text it
/// turns `A`..`Z` into `a`..`z` and keeps every other character, one for one.
#[verifier::external_body]
pub(crate) fn to_lowercase(s: &str) -> (res: String)
    ensures
        res@ == lowercase_of(s@),
        is_ascii_text(s@) ==> res@ == ascii_lowercase(s@),
{
    s.to_lowercase()
}

/// The text of `Path::new(base).join(rel)`, following the path syntax of the
/// target the crate is built for. Only its name is used here.
pub uninterp spec fn joined_path(base: Seq<char>, rel: Seq<char>) -> Seq<char>;

/// `std::path::Path::join`, on paths given and returned as text: the result
/// is `joined_path` of the two arguments. Both arguments are UTF-8, so the
/// conversion back to text loses nothing.
#[verifier::external_body]
pub(crate) fn path_join(base: &str, rel: &str) -> (res: String)
    ensures
        res@ == joined_path(base@, rel@),
{
    std::path::Path::new(base).join(rel).to_string_lossy().into_owned()
}

/// Whether the first component of the path is a prefix (a Windows drive or
/// UNC prefix), following the path syntax of the target the crate is built
/// for. Only its name is used here.
pub uninterp spec fn has_path_prefix(path: Seq<char>) -> bool;

/// `std::path::Path::components`, asked for its first component: the result
/// says whether that component is a `Component::Prefix`, which the
/// documentation places first when present. It is `has_path_prefix` of the
/// argument.
#[verifier::external_body]
pub(crate) fn starts_with_prefix(path: &str) -> (res: bool)
    ensures
        res == has_path_prefix(path@),
{
    matches!(std::path::Path::new(path).components().next(), Some(std::path::Component::Prefix(_)))
}

/// `dirs::home_dir`, converted to text. What it returns depends on the
/// environment and the user database, so nothing is stated of it.
#[verifier::external_body]
pub(crate) fn home_dir() -> Option<String> {
    match dirs::home_dir() {
        Some(p) => Some(p.to_string_lossy().into_owned()),
        None => None,
    }
}

/// `dirs::data_dir`, converted to text. It depends on the environment, so
/// nothing is stated of it.
#[verifier::external_body]
pub(crate) fn data_dir() -> Option<String> {
    match dirs::data_dir() {
        Some(p) => Some(p.to_string_lossy().into_owned()),
        None => None,
    }
}

/// `dirs::data_local_dir`, converted to text. It depends on the environment,
/// so nothing is stated of it.
#[verifier::external_body]
pub(crate) fn data_local_dir() -> Option<String> {
    match dirs::data_local_dir() {
        Some(p) => Some(p.to_string_lossy().into_owned()),
        None => None,
    }
}

/// `dirs::document_dir`, converted to text. It depends on the environment and
/// the user's directory settings, so nothing is stated of it.
#[verifier::external_body]
pub(crate) fn document_dir() -> Option<String> {
    match dirs::document_dir() {
        Some(p) => Some(p.to_string_lossy().into_owned()),
        None => None,
    }
}

/// `dirs::desktop_dir`, converted to text. It depends on the environment and
/// the user's directory settings, so nothing is stated of it.
#[verifier::external_body]
pub(crate) fn desktop_dir() -> Option<String> {
    match dirs::desktop_dir() {
        Some(p) => Some(p.to_string_lossy().into_owned()),
        None => None,
    }
}

/// `dirs::download_dir`, converted to text. It depends on the environment and
/// the user's directory settings, so nothing is stated of it.
#[verifier::external_body]
pub(crate) fn download_dir() -> Option<String> {
    match dirs::download_dir() {
        Some(p) => Some(p.to_string_lossy().into_owned()),
        None => None,
    }
}

} // verus!
