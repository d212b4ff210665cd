//! Errors of the file browser.
use vstd::prelude::*;
use vstd::string::StringExecFns;

verus! {

/// What went wrong in an operation; each variant carries the text to show.
#[derive(Clone, Debug, PartialEq, Eq)]
pub enum FxError {
    Io(String),
    Dirs(String),
    GetItem,
    OpenItem,
    OpenNewWindow(String),
    Yaml(String),
    WalkDir(String),
    Encode,
    Syntect(String),
    PutItem(String),
    RemoveItem(String),
    TooSmallWindowSize,
    Log(String),
    Panic,
    Extract(String),
}

/// What `{:?}` writes for a string: the string quoted, with escapes.
pub uninterp spec fn debug_text(s: Seq<char>) -> Seq<char>;

/// Relies on the `Debug` formatting of `str`: the quoted, escaped string,
/// which depends on the characters alone.
#[verifier::external_body]
fn quoted(s: &str) -> (r: String)
    ensures
        r@ == debug_text(s@),
{
    format!("{:?}", s)
}

impl FxError {
    /// The text shown in the info bar for this error.
    pub open spec fn message_spec(&self) -> Seq<char> {
        match self {
            FxError::Io(s) => s@,
            FxError::Dirs(s) => s@,
            FxError::GetItem => "Error: Cannot get item info"@,
            FxError::OpenItem => "Error: Cannot open item"@,
            FxError::OpenNewWindow(s) => s@,
            FxError::Yaml(s) => s@,
            FxError::WalkDir(s) => s@,
            FxError::Encode => "Error: Incorrect encoding"@,
            FxError::Syntect(s) => s@,
            FxError::PutItem(p) => "Error: Cannot copy -> "@ + debug_text(p@),
            FxError::RemoveItem(p) => "Error: Cannot remove -> "@ + debug_text(p@),
            FxError::TooSmallWindowSize => "Error: Too small window size"@,
            FxError::Log(s) => s@,
            FxError::Panic => "Error: felix panicked"@,
            FxError::Extract(s) => s@,
        }
    }

    /// The text shown in the info bar for this error.
    pub fn message(&self) -> (r: String)
        ensures
            r@ == self.message_spec(),
    {
        match self {
            FxError::Io(s) => s.clone(),
            FxError::Dirs(s) => s.clone(),
            FxError::GetItem => String::from_str("Error: Cannot get item info"),
            FxError::OpenItem => String::from_str("Error: Cannot open item"),
            FxError::OpenNewWindow(s) => s.clone(),
            FxError::Yaml(s) => s.clone(),
            FxError::WalkDir(s) => s.clone(),
            FxError::Encode => String::from_str("Error: Incorrect encoding"),
            FxError::Syntect(s) => s.clone(),
            FxError::PutItem(p) => {
                let mut r = String::from_str("Error: Cannot copy -> ");
                let q = quoted(p.as_str());
                r.append(q.as_str());
                r
            },
            FxError::RemoveItem(p) => {
                let mut r = String::from_str("Error: Cannot remove -> ");
                let q = quoted(p.as_str());
                r.append(q.as_str());
                r
            },
            FxError::TooSmallWindowSize => String::from_str("Error: Too small window size"),
            FxError::Log(s) => s.clone(),
            FxError::Panic => String::from_str("Error: felix panicked"),
            FxError::Extract(s) => s.clone(),
        }
    }
}

} // verus!
