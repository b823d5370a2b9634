//! How a hook ended, and the ways in which a transform fails.

use vstd::prelude::*;

verus! {

/// What a hook process left behind when it ended.
#[derive(Debug, PartialEq, Eq)]
pub struct Invocation {
    /// The exit status; none where the process ended without one.
    pub status: Option<i32>,
    /// Everything the process wrote to its output stream.
    pub stdout: Vec<u8>,
    /// Everything the process wrote to its error stream.
    pub stderr: Vec<u8>,
}

/// The mathematical value of an [`Invocation`].
pub struct InvocationView {
    pub status: Option<i32>,
    pub stdout: Seq<u8>,
    pub stderr: Seq<u8>,
}

impl View for Invocation {
    type V = InvocationView;

    open spec fn view(&self) -> InvocationView {
        InvocationView { status: self.status, stdout: self.stdout@, stderr: self.stderr@ }
    }
}

impl InvocationView {
    /// A hook succeeded where it ended with the exit status zero.
    pub open spec fn succeeded(self) -> bool {
        self.status == Some(0i32)
    }
}

impl Invocation {
    /// Whether the hook ended with the exit status zero.
    pub fn succeeded(&self) -> (yes: bool)
        ensures
            yes == self@.succeeded(),
    {
        match self.status {
            Some(code) => code == 0,
            None => false,
        }
    }
}

/// The ways in which a transform fails.
#[derive(Debug, PartialEq, Eq)]
pub enum HookError {
    /// The search path could not be read. Nothing was changed.
    EnvironmentLookupFailure,
    /// The hook could not be started.
    SpawnFailure { cause: String },
    /// The payload has no encoding.
    EncodingFailure { cause: String },
    /// The hook ended with an exit status other than zero.
    HookExitFailure { status: Option<i32>, stderr: Vec<u8> },
    /// The bytes to decode are no encoding of a response.
    DecodingFailure { raw: Vec<u8>, diagnostic: String },
}

/// The mathematical value of a [`HookError`].
pub enum HookErrorView {
    EnvironmentLookupFailure,
    SpawnFailure { cause: Seq<char> },
    EncodingFailure { cause: Seq<char> },
    HookExitFailure { status: Option<i32>, stderr: Seq<u8> },
    DecodingFailure { raw: Seq<u8>, diagnostic: Seq<char> },
}

impl View for HookError {
    type V = HookErrorView;

    open spec fn view(&self) -> HookErrorView {
        match *self {
            HookError::EnvironmentLookupFailure => HookErrorView::EnvironmentLookupFailure,
            HookError::SpawnFailure { cause } => HookErrorView::SpawnFailure { cause: cause@ },
            HookError::EncodingFailure { cause } => HookErrorView::EncodingFailure {
                cause: cause@,
            },
            HookError::HookExitFailure { status, stderr } => HookErrorView::HookExitFailure {
                status,
                stderr: stderr@,
            },
            HookError::DecodingFailure { raw, diagnostic } => HookErrorView::DecodingFailure {
                raw: raw@,
                diagnostic: diagnostic@,
            },
        }
    }
}

/// The mathematical value of a transform's result: the response as it is, or
/// the value of the error.
pub open spec fn result_view<U>(result: Result<U, HookError>) -> Result<U, HookErrorView> {
    match result {
        Ok(response) => Ok(response),
        Err(error) => Err(error@),
    }
}

} // verus!
