//! Error types of the language server.

use vstd::prelude::*;

use crate::text::{chars_of, push_str, string_of};

verus! {

/// An error that can occur within the language server.
#[derive(Debug)]
pub enum LspError {
    /// Failed to format a document.
    FormatFailed(String),
    /// Failed to start the rust-analyzer subprocess.
    RustAnalyzerStart(String),
    /// Communication error with rust-analyzer.
    RustAnalyzerComm(String),
}

/// A convenience alias for results within the server.
pub type Result<T> = std::result::Result<T, LspError>;

/// The display text of an error.
pub open spec fn error_message(e: LspError) -> Seq<char> {
    match e {
        LspError::FormatFailed(m) => "formatting failed: "@ + m@,
        LspError::RustAnalyzerStart(m) => "rust-analyzer start failed: "@ + m@,
        LspError::RustAnalyzerComm(m) => "rust-analyzer communication error: "@ + m@,
    }
}

impl LspError {
    /// The display text of the error.
    pub fn message(&self) -> (r: String)
        ensures
            r@ == error_message(*self),
    {
        let (prefix, detail) = match self {
            LspError::FormatFailed(m) => ("formatting failed: ", m),
            LspError::RustAnalyzerStart(m) => ("rust-analyzer start failed: ", m),
            LspError::RustAnalyzerComm(m) => ("rust-analyzer communication error: ", m),
        };
        let mut out = chars_of(prefix);
        push_str(&mut out, detail.as_str());
        string_of(&out)
    }
}

} // verus!
