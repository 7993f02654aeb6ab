//! The library's error type and path validation.
use vstd::prelude::*;

use crate::platform;
use crate::text::concat_str;

verus! {

#[verifier::external_type_specification]
#[verifier::external_body]
pub struct ExIoError(std::io::Error);

/// Errors of link-disk operations.
#[derive(Debug)]
pub enum LinkDiskError {
    /// A file system operation failed.
    Io(std::io::Error),
    /// The configuration is unreadable or invalid.
    Config(String),
    /// A path is malformed.
    Path(String),
    /// Creating, removing or checking a link failed.
    Link(String),
}

/// `std::io::Error`'s `Display` text. It comes from the operating system,
/// so nothing is stated of it.
#[verifier::external_body]
fn io_error_text(e: &std::io::Error) -> String {
    e.to_string()
}

impl LinkDiskError {
    /// The message shown to the user: the kind of error, then its details.
    pub fn message(&self) -> (res: String)
        ensures
            match self {
                LinkDiskError::Io(_) => "IO error: "@.is_prefix_of(res@),
                LinkDiskError::Config(m) => res@ == "Config error: "@ + m@,
                LinkDiskError::Path(m) => res@ == "Path error: "@ + m@,
                LinkDiskError::Link(m) => res@ == "Link error: "@ + m@,
            },
    {
        match self {
            LinkDiskError::Io(e) => {
                let text = io_error_text(e);
                let res = concat_str("IO error: ", text.as_str());
                assert("IO error: "@.is_prefix_of(res@)) by {
                    assert(res@.subrange(0, "IO error: "@.len() as int) =~= "IO error: "@);
                }
                res
            },
            LinkDiskError::Config(m) => concat_str("Config error: ", m.as_str()),
            LinkDiskError::Path(m) => concat_str("Path error: ", m.as_str()),
            LinkDiskError::Link(m) => concat_str("Link error: ", m.as_str()),
        }
    }
}

impl From<std::io::Error> for LinkDiskError {
    fn from(err: std::io::Error) -> (res: LinkDiskError) {
        LinkDiskError::Io(err)
    }
}

impl vstd::std_specs::convert::FromSpecImpl<std::io::Error> for LinkDiskError {
    open spec fn obeys_from_spec() -> bool {
        true
    }

    open spec fn from_spec(v: std::io::Error) -> LinkDiskError {
        LinkDiskError::Io(v)
    }
}

/// Accepts a path unless it starts with a drive or UNC prefix.
pub fn validate_path(path: &str) -> (res: Result<(), LinkDiskError>)
    ensures
        match res {
            Ok(()) => !platform::has_path_prefix(path@),
            Err(e) => platform::has_path_prefix(path@) && (e matches LinkDiskError::Path(m) && m@
                == "Path contains invalid prefix"@),
        },
{
    if platform::starts_with_prefix(path) {
        return Err(LinkDiskError::Path(String::from_str("Path contains invalid prefix")));
    }
    Ok(())
}

} // verus!
