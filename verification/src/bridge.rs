//! The bridge between a caller's payload and a hook.
//!
//! A transform hands a payload to a hook and takes the hook's response. It
//! needs work that only the owner of the process can do: reading and changing
//! the environment, looking for the hook, starting it, and turning payloads
//! into bytes and back. The bridge does none of that itself. It is a machine
//! that says, step by step, what is to be done, and decides from each reply
//! what comes next. The driver carries out each [`Directive`] and hands the
//! [`Reply`] to [`Transform::step`], until the directive's request is
//! [`Request::Finish`].

use vstd::prelude::*;
use crate::environment::{ScopeView, ScopedEnvironment};
use crate::outcome::{result_view, HookError, HookErrorView, Invocation, InvocationView};

verus! {

/// What a directive does to the scoped environment.
#[derive(Debug, PartialEq, Eq)]
pub enum ScopeChange {
    /// Leave the environment as it is.
    Keep,
    /// Install the scope: carry out its install operations. From here on its
    /// release operations must be carried out on every way out.
    Acquire(ScopedEnvironment),
    /// Release the scope that was acquired: carry out its release operations.
    Release,
}

/// The mathematical value of a [`ScopeChange`].
pub enum ScopeChangeView {
    Keep,
    Acquire(ScopeView),
    Release,
}

impl View for ScopeChange {
    type V = ScopeChangeView;

    open spec fn view(&self) -> ScopeChangeView {
        match *self {
            ScopeChange::Keep => ScopeChangeView::Keep,
            ScopeChange::Acquire(scope) => ScopeChangeView::Acquire(scope@),
            ScopeChange::Release => ScopeChangeView::Release,
        }
    }
}

/// What the bridge asks of its driver.
#[derive(Debug, PartialEq, Eq)]
pub enum Request<U> {
    /// Read the search path from the environment.
    SearchPath,
    /// Say whether an executable named `name` is on `search_path`.
    Locate { name: String, search_path: String },
    /// Encode the payload.
    Encode,
    /// Start the program `name`, write `input` to its input stream and close
    /// it, wait for the program to end, and collect its output and error
    /// streams in full.
    Invoke { name: String, input: Vec<u8> },
    /// Decode `bytes` as a response.
    Decode { bytes: Vec<u8> },
    /// The transform is over, with this result.
    Finish(Result<U, HookError>),
}

/// The mathematical value of a [`Request`].
pub enum RequestView<U> {
    SearchPath,
    Locate { name: Seq<char>, search_path: Seq<char> },
    Encode,
    Invoke { name: Seq<char>, input: Seq<u8> },
    Decode { bytes: Seq<u8> },
    Finish(Result<U, HookErrorView>),
}

impl<U> View for Request<U> {
    type V = RequestView<U>;

    open spec fn view(&self) -> RequestView<U> {
        match *self {
            Request::SearchPath => RequestView::SearchPath,
            Request::Locate { name, search_path } => RequestView::Locate {
                name: name@,
                search_path: search_path@,
            },
            Request::Encode => RequestView::Encode,
            Request::Invoke { name, input } => RequestView::Invoke { name: name@, input: input@ },
            Request::Decode { bytes } => RequestView::Decode { bytes: bytes@ },
            Request::Finish(result) => RequestView::Finish(result_view(result)),
        }
    }
}

/// One step of work for the driver. The scope change comes first, then the
/// diagnostics are shown to the operator, then the request is answered.
#[derive(Debug, PartialEq, Eq)]
pub struct Directive<U> {
    pub scope: ScopeChange,
    /// Bytes to show to the operator as they are; empty where there are none.
    pub diagnostics: Vec<u8>,
    pub request: Request<U>,
}

/// The mathematical value of a [`Directive`].
pub struct DirectiveView<U> {
    pub scope: ScopeChangeView,
    pub diagnostics: Seq<u8>,
    pub request: RequestView<U>,
}

impl<U> View for Directive<U> {
    type V = DirectiveView<U>;

    open spec fn view(&self) -> DirectiveView<U> {
        DirectiveView {
            scope: self.scope@,
            diagnostics: self.diagnostics@,
            request: self.request@,
        }
    }
}

/// The driver's answer to a request.
#[derive(Debug, PartialEq, Eq)]
pub enum Reply<U> {
    /// The search path; none where it could not be read.
    SearchPath(Option<String>),
    /// Whether the hook is on the search path.
    Located(bool),
    /// The payload's encoding, or why it has none.
    Encoded(Result<Vec<u8>, String>),
    /// How the hook ended, or why it could not be started.
    Invoked(Result<Invocation, String>),
    /// The response that the bytes encode, or why they encode none.
    Decoded(Result<U, String>),
}

/// The mathematical value of a [`Reply`].
pub enum ReplyView<U> {
    SearchPath(Option<Seq<char>>),
    Located(bool),
    Encoded(Result<Seq<u8>, Seq<char>>),
    Invoked(Result<InvocationView, Seq<char>>),
    Decoded(Result<U, Seq<char>>),
}

impl<U> View for Reply<U> {
    type V = ReplyView<U>;

    open spec fn view(&self) -> ReplyView<U> {
        match *self {
            Reply::SearchPath(path) => ReplyView::SearchPath(
                match path {
                    Some(p) => Some(p@),
                    None => None,
                },
            ),
            Reply::Located(found) => ReplyView::Located(found),
            Reply::Encoded(encoded) => ReplyView::Encoded(
                match encoded {
                    Ok(bytes) => Ok(bytes@),
                    Err(cause) => Err(cause@),
                },
            ),
            Reply::Invoked(invoked) => ReplyView::Invoked(
                match invoked {
                    Ok(invocation) => Ok(invocation@),
                    Err(cause) => Err(cause@),
                },
            ),
            Reply::Decoded(decoded) => ReplyView::Decoded(
                match decoded {
                    Ok(response) => Ok(response),
                    Err(diagnostic) => Err(diagnostic@),
                },
            ),
        }
    }
}

/// Where a transform stands.
#[derive(Debug, PartialEq, Eq)]
pub enum Phase {
    /// The search path was asked for.
    AwaitingSearchPath { hooks_dir: String, bindings: Vec<(String, String)> },
    /// The scope is installed, and the hook is being looked for.
    Locating,
    /// The payload is being encoded; `installed` says whether the scope is
    /// still installed, which it is where the hook was found.
    Encoding { installed: bool },
    /// The hook runs.
    Invoking,
    /// `raw` is being decoded.
    Decoding { raw: Vec<u8> },
    /// The result was given.
    Finished,
}

/// The mathematical value of a [`Phase`].
pub enum PhaseView {
    AwaitingSearchPath { hooks_dir: Seq<char>, bindings: Seq<(Seq<char>, Seq<char>)> },
    Locating,
    Encoding { installed: bool },
    Invoking,
    Decoding { raw: Seq<u8> },
    Finished,
}

impl View for Phase {
    type V = PhaseView;

    open spec fn view(&self) -> PhaseView {
        match *self {
            Phase::AwaitingSearchPath { hooks_dir, bindings } => PhaseView::AwaitingSearchPath {
                hooks_dir: hooks_dir@,
                bindings: bindings.deep_view(),
            },
            Phase::Locating => PhaseView::Locating,
            Phase::Encoding { installed } => PhaseView::Encoding { installed },
            Phase::Invoking => PhaseView::Invoking,
            Phase::Decoding { raw } => PhaseView::Decoding { raw: raw@ },
            Phase::Finished => PhaseView::Finished,
        }
    }
}

/// One transform in progress.
#[derive(Debug, PartialEq, Eq)]
pub struct Transform {
    pub hook_name: String,
    pub phase: Phase,
}

/// The mathematical value of a [`Transform`].
pub struct TransformView {
    pub hook_name: Seq<char>,
    pub phase: PhaseView,
}

impl View for Transform {
    type V = TransformView;

    open spec fn view(&self) -> TransformView {
        TransformView { hook_name: self.hook_name@, phase: self.phase@ }
    }
}

/// A directive that changes nothing and shows nothing.
pub open spec fn plain<U>(request: RequestView<U>) -> DirectiveView<U> {
    DirectiveView { scope: ScopeChangeView::Keep, diagnostics: Seq::empty(), request }
}

/// A directive that releases the scope and shows nothing.
pub open spec fn releasing<U>(request: RequestView<U>) -> DirectiveView<U> {
    DirectiveView { scope: ScopeChangeView::Release, diagnostics: Seq::empty(), request }
}

/// A transform that has given its result.
pub open spec fn finished(hook_name: Seq<char>) -> TransformView {
    TransformView { hook_name, phase: PhaseView::Finished }
}

/// How a transform starts: nothing is changed yet, and the search path is
/// asked for.
pub open spec fn begin_spec<U>(
    hook_name: Seq<char>,
    hooks_dir: Seq<char>,
    bindings: Seq<(Seq<char>, Seq<char>)>,
) -> (TransformView, DirectiveView<U>) {
    (
        TransformView { hook_name, phase: PhaseView::AwaitingSearchPath { hooks_dir, bindings } },
        plain(RequestView::SearchPath),
    )
}

/// What follows the hook's end. The scope is released and the error stream is
/// shown in either case. After the exit status zero the output stream is
/// decoded; after any other end the transform fails with the error stream,
/// and the output stream is left alone.
pub open spec fn after_invocation<U>(hook_name: Seq<char>, invocation: InvocationView) -> (
    TransformView,
    DirectiveView<U>,
) {
    if invocation.succeeded() {
        (
            TransformView { hook_name, phase: PhaseView::Decoding { raw: invocation.stdout } },
            DirectiveView {
                scope: ScopeChangeView::Release,
                diagnostics: invocation.stderr,
                request: RequestView::Decode { bytes: invocation.stdout },
            },
        )
    } else {
        (
            finished(hook_name),
            DirectiveView {
                scope: ScopeChangeView::Release,
                diagnostics: invocation.stderr,
                request: RequestView::Finish(
                    Err(
                        HookErrorView::HookExitFailure {
                            status: invocation.status,
                            stderr: invocation.stderr,
                        },
                    ),
                ),
            },
        )
    }
}

/// The transition of the bridge: the next state and the next directive, or
/// none where the reply does not answer the request that is open.
pub open spec fn step_spec<U>(transform: TransformView, reply: ReplyView<U>) -> Option<
    (TransformView, DirectiveView<U>),
> {
    let name = transform.hook_name;
    match (transform.phase, reply) {
        (PhaseView::AwaitingSearchPath { .. }, ReplyView::SearchPath(None)) => Some(
            (
                finished(name),
                plain(RequestView::Finish(Err(HookErrorView::EnvironmentLookupFailure))),
            ),
        ),
        (
            PhaseView::AwaitingSearchPath { hooks_dir, bindings },
            ReplyView::SearchPath(Some(original_path)),
        ) => {
            let scope = ScopeView { hooks_dir, original_path, bindings };
            Some(
                (
                    TransformView { hook_name: name, phase: PhaseView::Locating },
                    DirectiveView {
                        scope: ScopeChangeView::Acquire(scope),
                        diagnostics: Seq::empty(),
                        request: RequestView::Locate {
                            name,
                            search_path: scope.augmented_path(),
                        },
                    },
                ),
            )
        },
        (PhaseView::Locating, ReplyView::Located(found)) => Some(
            (
                TransformView { hook_name: name, phase: PhaseView::Encoding { installed: found } },
                if found {
                    plain(RequestView::Encode)
                } else {
                    releasing(RequestView::Encode)
                },
            ),
        ),
        (PhaseView::Encoding { installed }, ReplyView::Encoded(Err(cause))) => {
            let failure = RequestView::Finish(Err(HookErrorView::EncodingFailure { cause }));
            Some(
                (
                    finished(name),
                    if installed {
                        releasing(failure)
                    } else {
                        plain(failure)
                    },
                ),
            )
        },
        (PhaseView::Encoding { installed }, ReplyView::Encoded(Ok(bytes))) => Some(
            if installed {
                (
                    TransformView { hook_name: name, phase: PhaseView::Invoking },
                    plain(RequestView::Invoke { name, input: bytes }),
                )
            } else {
                (
                    TransformView { hook_name: name, phase: PhaseView::Decoding { raw: bytes } },
                    plain(RequestView::Decode { bytes }),
                )
            },
        ),
        (PhaseView::Invoking, ReplyView::Invoked(Err(cause))) => Some(
            (
                finished(name),
                releasing(RequestView::Finish(Err(HookErrorView::SpawnFailure { cause }))),
            ),
        ),
        (PhaseView::Invoking, ReplyView::Invoked(Ok(invocation))) => Some(
            after_invocation(name, invocation),
        ),
        (PhaseView::Decoding { .. }, ReplyView::Decoded(Ok(response))) => Some(
            (finished(name), plain(RequestView::Finish(Ok(response)))),
        ),
        (PhaseView::Decoding { raw }, ReplyView::Decoded(Err(diagnostic))) => Some(
            (
                finished(name),
                plain(
                    RequestView::Finish(Err(HookErrorView::DecodingFailure { raw, diagnostic })),
                ),
            ),
        ),
        _ => None,
    }
}

impl<U> Directive<U> {
    fn plain(request: Request<U>) -> (directive: Directive<U>)
        ensures
            directive@ == plain(request@),
    {
        Directive { scope: ScopeChange::Keep, diagnostics: Vec::new(), request }
    }

    fn releasing(request: Request<U>) -> (directive: Directive<U>)
        ensures
            directive@ == releasing(request@),
    {
        Directive { scope: ScopeChange::Release, diagnostics: Vec::new(), request }
    }
}

impl Transform {
    /// Starts a transform through the hook `hook_name`, which is looked for in
    /// `hooks_dir` before the search path, and which runs with `bindings` in
    /// its environment.
    pub fn begin<U>(
        hook_name: String,
        hooks_dir: String,
        bindings: Vec<(String, String)>,
    ) -> (start: (Transform, Directive<U>))
        ensures
            (start.0@, start.1@) == begin_spec::<U>(hook_name@, hooks_dir@, bindings.deep_view()),
    {
        (
            Transform { hook_name, phase: Phase::AwaitingSearchPath { hooks_dir, bindings } },
            Directive::plain(Request::SearchPath),
        )
    }

    /// Whether the transform has given its result.
    pub fn is_finished(&self) -> (yes: bool)
        ensures
            yes == (self@.phase is Finished),
    {
        match self.phase {
            Phase::Finished => true,
            _ => false,
        }
    }

    /// Takes the reply to the open request and says what comes next: the next
    /// state and the next directive. Returns none where the reply does not
    /// answer the request that is open.
    pub fn step<U>(self, reply: Reply<U>) -> (next: Option<(Transform, Directive<U>)>)
        ensures
            (match next {
                Some((transform, directive)) => step_spec(self@, reply@) == Some(
                    (transform@, directive@),
                ),
                None => step_spec(self@, reply@) is None,
            }),
    {
        let name = self.hook_name;
        match self.phase {
            Phase::AwaitingSearchPath { hooks_dir, bindings } => match reply {
                Reply::SearchPath(None) => Some(
                    (
                        Transform { hook_name: name, phase: Phase::Finished },
                        Directive::plain(
                            Request::Finish(Err(HookError::EnvironmentLookupFailure)),
                        ),
                    ),
                ),
                Reply::SearchPath(Some(original_path)) => {
                    let scope = ScopedEnvironment::acquire(original_path, hooks_dir, bindings);
                    let search_path = scope.augmented_path();
                    let request = Request::Locate { name: name.clone(), search_path };
                    Some(
                        (
                            Transform { hook_name: name, phase: Phase::Locating },
                            Directive {
                                scope: ScopeChange::Acquire(scope),
                                diagnostics: Vec::new(),
                                request,
                            },
                        ),
                    )
                },
                _ => None,
            },
            Phase::Locating => match reply {
                Reply::Located(found) => {
                    let directive = if found {
                        Directive::plain(Request::Encode)
                    } else {
                        Directive::releasing(Request::Encode)
                    };
                    Some(
                        (
                            Transform {
                                hook_name: name,
                                phase: Phase::Encoding { installed: found },
                            },
                            directive,
                        ),
                    )
                },
                _ => None,
            },
            Phase::Encoding { installed } => match reply {
                Reply::Encoded(Err(cause)) => {
                    let failure = Request::Finish(Err(HookError::EncodingFailure { cause }));
                    let directive = if installed {
                        Directive::releasing(failure)
                    } else {
                        Directive::plain(failure)
                    };
                    Some((Transform { hook_name: name, phase: Phase::Finished }, directive))
                },
                Reply::Encoded(Ok(bytes)) => {
                    if installed {
                        let request = Request::Invoke { name: name.clone(), input: bytes };
                        Some(
                            (
                                Transform { hook_name: name, phase: Phase::Invoking },
                                Directive::plain(request),
                            ),
                        )
                    } else {
                        let request = Request::Decode { bytes: bytes.clone() };
                        let phase = Phase::Decoding { raw: bytes };
                        Some((Transform { hook_name: name, phase }, Directive::plain(request)))
                    }
                },
                _ => None,
            },
            Phase::Invoking => match reply {
                Reply::Invoked(Err(cause)) => Some(
                    (
                        Transform { hook_name: name, phase: Phase::Finished },
                        Directive::releasing(
                            Request::Finish(Err(HookError::SpawnFailure { cause })),
                        ),
                    ),
                ),
                Reply::Invoked(Ok(invocation)) => {
                    if invocation.succeeded() {
                        let request = Request::Decode { bytes: invocation.stdout.clone() };
                        Some(
                            (
                                Transform {
                                    hook_name: name,
                                    phase: Phase::Decoding { raw: invocation.stdout },
                                },
                                Directive {
                                    scope: ScopeChange::Release,
                                    diagnostics: invocation.stderr,
                                    request,
                                },
                            ),
                        )
                    } else {
                        let request = Request::Finish(
                            Err(
                                HookError::HookExitFailure {
                                    status: invocation.status,
                                    stderr: invocation.stderr.clone(),
                                },
                            ),
                        );
                        Some(
                            (
                                Transform { hook_name: name, phase: Phase::Finished },
                                Directive {
                                    scope: ScopeChange::Release,
                                    diagnostics: invocation.stderr,
                                    request,
                                },
                            ),
                        )
                    }
                },
                _ => None,
            },
            Phase::Decoding { raw } => match reply {
                Reply::Decoded(Ok(response)) => Some(
                    (
                        Transform { hook_name: name, phase: Phase::Finished },
                        Directive::plain(Request::Finish(Ok(response))),
                    ),
                ),
                Reply::Decoded(Err(diagnostic)) => Some(
                    (
                        Transform { hook_name: name, phase: Phase::Finished },
                        Directive::plain(
                            Request::Finish(Err(HookError::DecodingFailure { raw, diagnostic })),
                        ),
                    ),
                ),
                _ => None,
            },
            Phase::Finished => None,
        }
    }
}

} // verus!
