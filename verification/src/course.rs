//! What a transform does from its first directive to its result.
//!
//! The bridge decides step by step; this module says what the steps add up to.
//! A [`World`] stands for everything that the bridge cannot know in advance:
//! the environment, what is on the search path, how the payload encodes, what
//! the hook does, and which bytes decode. [`course`] is the run of a transform
//! in a world, with a driver that carries out each directive as it stands.
//! The laws below hold of that run in every world.

use vstd::prelude::*;
use crate::bridge::{
    begin_spec, step_spec, DirectiveView, ReplyView, RequestView, ScopeChangeView, TransformView,
};
use crate::environment::{
    apply_all, lemma_partial_install_is_rolled_back, lemma_release_removes_bindings,
    search_path_key, EnvOpView, Environment, ScopeView,
};
use crate::outcome::{HookErrorView, InvocationView};

verus! {

/// Everything outside the bridge that a transform depends on.
pub struct World<U> {
    /// The environment before the transform.
    pub env: Environment,
    /// Whether an executable of the given name is on the given search path.
    pub locate: spec_fn(Seq<char>, Seq<char>) -> bool,
    /// The payload's encoding, or why it has none.
    pub encoded: Result<Seq<u8>, Seq<char>>,
    /// How the program of the given name ends when it is given the input, in
    /// the given environment; or why it cannot be started.
    pub invoke: spec_fn(Seq<char>, Seq<u8>, Environment) -> Result<InvocationView, Seq<char>>,
    /// The response that the given bytes encode, or why they encode none.
    pub decode: spec_fn(Seq<u8>) -> Result<U, Seq<char>>,
}

impl<U> World<U> {
    /// The reply to a request that is made while the environment is `env`;
    /// none to the request that ends the transform.
    pub open spec fn answer(self, request: RequestView<U>, env: Environment) -> Option<
        ReplyView<U>,
    > {
        match request {
            RequestView::SearchPath => Some(
                ReplyView::SearchPath(
                    if env.contains_key(search_path_key()) {
                        Some(env[search_path_key()])
                    } else {
                        None
                    },
                ),
            ),
            RequestView::Locate { name, search_path } => Some(
                ReplyView::Located((self.locate)(name, search_path)),
            ),
            RequestView::Encode => Some(ReplyView::Encoded(self.encoded)),
            RequestView::Invoke { name, input } => Some(
                ReplyView::Invoked((self.invoke)(name, input, env)),
            ),
            RequestView::Decode { bytes } => Some(ReplyView::Decoded((self.decode)(bytes))),
            RequestView::Finish(_) => None,
        }
    }

    /// What decoding `bytes` gives a transform: the response, or the failure
    /// with the bytes as they are and the diagnostic.
    pub open spec fn decoded(self, bytes: Seq<u8>) -> Result<U, HookErrorView> {
        match (self.decode)(bytes) {
            Ok(response) => Ok(response),
            Err(diagnostic) => Err(HookErrorView::DecodingFailure { raw: bytes, diagnostic }),
        }
    }
}

/// What a run has done so far.
pub struct Course<U> {
    /// The environment as the run has left it.
    pub env: Environment,
    /// The scope that is installed, if one is.
    pub scope: Option<ScopeView>,
    /// The changes that were made to the environment, in order.
    pub changes: Seq<EnvOpView>,
    /// The bytes that were shown to the operator.
    pub shown: Seq<u8>,
    /// The requests that were made, in order.
    pub asked: Seq<RequestView<U>>,
    /// The result, once the transform has given it.
    pub result: Option<Result<U, HookErrorView>>,
}

impl<U> Course<U> {
    /// The run before its first directive.
    pub open spec fn start(env: Environment) -> Course<U> {
        Course {
            env,
            scope: None,
            changes: Seq::empty(),
            shown: Seq::empty(),
            asked: Seq::empty(),
            result: None,
        }
    }

    /// The run after a directive was carried out: the scope change first, then
    /// the diagnostics, then the request.
    pub open spec fn after(self, directive: DirectiveView<U>) -> Course<U> {
        let (ops, scope) = match directive.scope {
            ScopeChangeView::Keep => (Seq::empty(), self.scope),
            ScopeChangeView::Acquire(scope) => (scope.install_ops(), Some(scope)),
            ScopeChangeView::Release => match self.scope {
                Some(scope) => (scope.release_ops(), None),
                None => (Seq::empty(), None),
            },
        };
        Course {
            env: apply_all(self.env, ops),
            scope,
            changes: self.changes + ops,
            shown: self.shown + directive.diagnostics,
            asked: self.asked.push(directive.request),
            result: match directive.request {
                RequestView::Finish(result) => Some(result),
                _ => self.result,
            },
        }
    }

    /// No hook was started.
    pub open spec fn started_no_hook(self) -> bool {
        forall|i: int| 0 <= i < self.asked.len() ==> !(#[trigger] self.asked[i] is Invoke)
    }

    /// Nothing but `bytes` was decoded.
    pub open spec fn decoded_only(self, bytes: Seq<u8>) -> bool {
        forall|i: int|
            0 <= i < self.asked.len() ==> (#[trigger] self.asked[i] matches RequestView::Decode {
                bytes: decoded,
            } ==> decoded == bytes)
    }

    /// Nothing was decoded.
    pub open spec fn decoded_nothing(self) -> bool {
        forall|i: int| 0 <= i < self.asked.len() ==> !(#[trigger] self.asked[i] is Decode)
    }
}

/// The run of a transform from the state `transform` and the directive
/// `directive`, in the world `world`, for at most `steps` replies.
pub open spec fn run<U>(
    world: World<U>,
    transform: TransformView,
    directive: DirectiveView<U>,
    so_far: Course<U>,
    steps: nat,
) -> Course<U>
    decreases steps,
{
    let now = so_far.after(directive);
    match world.answer(directive.request, now.env) {
        Some(reply) if steps > 0 => match step_spec(transform, reply) {
            Some((next, then)) => run(world, next, then, now, (steps - 1) as nat),
            None => now,
        },
        _ => now,
    }
}

/// The number of replies that a transform takes at most.
pub open spec fn most_replies() -> nat {
    5
}

/// The whole run of a transform in a world.
pub open spec fn course<U>(
    world: World<U>,
    hook_name: Seq<char>,
    hooks_dir: Seq<char>,
    bindings: Seq<(Seq<char>, Seq<char>)>,
) -> Course<U> {
    let start = begin_spec::<U>(hook_name, hooks_dir, bindings);
    run(world, start.0, start.1, Course::start(world.env), most_replies())
}

/// The scope that a transform installs in a world whose search path can be
/// read.
pub open spec fn scope_in<U>(
    world: World<U>,
    hooks_dir: Seq<char>,
    bindings: Seq<(Seq<char>, Seq<char>)>,
) -> ScopeView {
    ScopeView { hooks_dir, original_path: world.env[search_path_key()], bindings }
}

/// Whether the hook is installed, as a transform sees it: an executable of its
/// name is on the search path with the hooks directory in front.
pub open spec fn installed<U>(
    world: World<U>,
    hook_name: Seq<char>,
    hooks_dir: Seq<char>,
    bindings: Seq<(Seq<char>, Seq<char>)>,
) -> bool {
    (world.locate)(hook_name, scope_in(world, hooks_dir, bindings).augmented_path())
}

/// How the hook ends when a transform starts it: it is given the payload's
/// encoding, and it runs in the environment with the scope installed.
pub open spec fn invocation<U>(
    world: World<U>,
    hook_name: Seq<char>,
    hooks_dir: Seq<char>,
    bindings: Seq<(Seq<char>, Seq<char>)>,
    payload: Seq<u8>,
) -> Result<InvocationView, Seq<char>> {
    (world.invoke)(
        hook_name,
        payload,
        apply_all(world.env, scope_in(world, hooks_dir, bindings).install_ops()),
    )
}

/// The result of a transform in a world.
///
/// Without a search path the transform fails. Without the hook the payload's
/// own encoding is decoded. With the hook, the hook's output is decoded where
/// the hook ended with the exit status zero; else the transform fails with the
/// hook's exit status and error stream, or with the reason why the hook could
/// not be started. A payload without an encoding fails the transform in
/// either case.
pub open spec fn transform_result<U>(
    world: World<U>,
    hook_name: Seq<char>,
    hooks_dir: Seq<char>,
    bindings: Seq<(Seq<char>, Seq<char>)>,
) -> Result<U, HookErrorView> {
    if !world.env.contains_key(search_path_key()) {
        Err(HookErrorView::EnvironmentLookupFailure)
    } else {
        match world.encoded {
            Err(cause) => Err(HookErrorView::EncodingFailure { cause }),
            Ok(payload) => if !installed(world, hook_name, hooks_dir, bindings) {
                world.decoded(payload)
            } else {
                match invocation(world, hook_name, hooks_dir, bindings, payload) {
                    Err(cause) => Err(HookErrorView::SpawnFailure { cause }),
                    Ok(ended) => if ended.succeeded() {
                        world.decoded(ended.stdout)
                    } else {
                        Err(
                            HookErrorView::HookExitFailure {
                                status: ended.status,
                                stderr: ended.stderr,
                            },
                        )
                    },
                }
            },
        }
    }
}

/// Every transform comes to its result, and the result is the one that
/// [`transform_result`] states.
pub proof fn lemma_course_gives_result<U>(
    world: World<U>,
    hook_name: Seq<char>,
    hooks_dir: Seq<char>,
    bindings: Seq<(Seq<char>, Seq<char>)>,
)
    ensures
        course(world, hook_name, hooks_dir, bindings).result == Some(
            transform_result(world, hook_name, hooks_dir, bindings),
        ),
{
    reveal_with_fuel(run, 6);
}

/// Without a search path a transform fails before it has changed anything.
pub proof fn lemma_lookup_failure_changes_nothing<U>(
    world: World<U>,
    hook_name: Seq<char>,
    hooks_dir: Seq<char>,
    bindings: Seq<(Seq<char>, Seq<char>)>,
)
    requires
        !world.env.contains_key(search_path_key()),
    ensures
        course(world, hook_name, hooks_dir, bindings).result == Some(
            Err::<U, HookErrorView>(HookErrorView::EnvironmentLookupFailure),
        ),
        course(world, hook_name, hooks_dir, bindings).changes == Seq::<EnvOpView>::empty(),
        course(world, hook_name, hooks_dir, bindings).asked == seq![
            RequestView::<U>::SearchPath,
            RequestView::<U>::Finish(Err(HookErrorView::EnvironmentLookupFailure)),
        ],
{
    reveal_with_fuel(run, 6);
}

/// Without the hook a transform gives the payload back.
///
/// Where no executable of the hook's name is on the augmented search path, no
/// program is started, nothing but the payload's own encoding is decoded, and
/// the result is what decoding it gives. So where decoding undoes encoding, as
/// it does where the payload and the response are of one type, the result is
/// the payload `payload_value` itself.
pub proof fn lemma_absent_hook_is_identity<U>(
    world: World<U>,
    hook_name: Seq<char>,
    hooks_dir: Seq<char>,
    bindings: Seq<(Seq<char>, Seq<char>)>,
    payload: Seq<u8>,
    payload_value: U,
)
    requires
        world.env.contains_key(search_path_key()),
        !installed(world, hook_name, hooks_dir, bindings),
        world.encoded == Ok::<Seq<u8>, Seq<char>>(payload),
        (world.decode)(payload) == Ok::<U, Seq<char>>(payload_value),
    ensures
        course(world, hook_name, hooks_dir, bindings).result == Some(
            Ok::<U, HookErrorView>(payload_value),
        ),
        course(world, hook_name, hooks_dir, bindings).started_no_hook(),
        course(world, hook_name, hooks_dir, bindings).decoded_only(payload),
{
    reveal_with_fuel(run, 6);
}

/// A transform leaves the environment as it found it.
///
/// However the transform ends, with a response or with any failure, the scope
/// is released by then, and the environment is the one from before the
/// transform: the search path and every other variable. Where a scope is
/// installed at all, this holds if no binding names a variable that the
/// environment already has, other than the search path: releasing a scope
/// removes the bindings' keys, so a variable that a binding overwrote is not
/// brought back.
pub proof fn lemma_environment_is_restored<U>(
    world: World<U>,
    hook_name: Seq<char>,
    hooks_dir: Seq<char>,
    bindings: Seq<(Seq<char>, Seq<char>)>,
)
    requires
        world.env.contains_key(search_path_key()) ==> scope_in(
            world,
            hooks_dir,
            bindings,
        ).captured_from(world.env),
    ensures
        course(world, hook_name, hooks_dir, bindings).env == world.env,
        course(world, hook_name, hooks_dir, bindings).scope is None,
{
    reveal_with_fuel(run, 6);
    if world.env.contains_key(search_path_key()) {
        let scope = scope_in(world, hooks_dir, bindings);
        let all = scope.install_ops();
        assert(all.take(all.len() as int) =~= all);
        lemma_partial_install_is_rolled_back(scope, world.env, all.len() as int);
    }
}

/// A variable that a binding overwrote is lost.
///
/// Where a scope is installed and one of its bindings names a variable other
/// than the search path, the environment holds no such variable once the
/// transform is over, whether it held one before or not.
pub proof fn lemma_overwritten_variable_is_lost<U>(
    world: World<U>,
    hook_name: Seq<char>,
    hooks_dir: Seq<char>,
    bindings: Seq<(Seq<char>, Seq<char>)>,
    i: int,
)
    requires
        world.env.contains_key(search_path_key()),
        0 <= i < bindings.len(),
        bindings[i].0 != search_path_key(),
    ensures
        !course(world, hook_name, hooks_dir, bindings).env.contains_key(bindings[i].0),
{
    reveal_with_fuel(run, 6);
    let scope = scope_in(world, hooks_dir, bindings);
    lemma_release_removes_bindings(scope, apply_all(world.env, scope.install_ops()), i);
}

/// A hook that ends with the exit status zero and writes an encoded response
/// gives the transform that response.
///
/// The result is the response that the hook's output stream decodes to,
/// whatever the hook wrote to its error stream; the error stream is shown to
/// the operator as it is.
pub proof fn lemma_success_gives_response<U>(
    world: World<U>,
    hook_name: Seq<char>,
    hooks_dir: Seq<char>,
    bindings: Seq<(Seq<char>, Seq<char>)>,
    payload: Seq<u8>,
    ended: InvocationView,
    response: U,
)
    requires
        world.env.contains_key(search_path_key()),
        installed(world, hook_name, hooks_dir, bindings),
        world.encoded == Ok::<Seq<u8>, Seq<char>>(payload),
        invocation(world, hook_name, hooks_dir, bindings, payload) == Ok::<
            InvocationView,
            Seq<char>,
        >(ended),
        ended.succeeded(),
        (world.decode)(ended.stdout) == Ok::<U, Seq<char>>(response),
    ensures
        course(world, hook_name, hooks_dir, bindings).result == Some(
            Ok::<U, HookErrorView>(response),
        ),
        course(world, hook_name, hooks_dir, bindings).shown == ended.stderr,
{
    reveal_with_fuel(run, 6);
}

/// A hook that ends in any other way than with the exit status zero fails the
/// transform with its error stream.
///
/// The failure carries the exit status and exactly the bytes that the hook
/// wrote to its error stream, which are also shown to the operator. The
/// output stream is not decoded, whatever it holds.
pub proof fn lemma_failed_exit_gives_error_stream<U>(
    world: World<U>,
    hook_name: Seq<char>,
    hooks_dir: Seq<char>,
    bindings: Seq<(Seq<char>, Seq<char>)>,
    payload: Seq<u8>,
    ended: InvocationView,
)
    requires
        world.env.contains_key(search_path_key()),
        installed(world, hook_name, hooks_dir, bindings),
        world.encoded == Ok::<Seq<u8>, Seq<char>>(payload),
        invocation(world, hook_name, hooks_dir, bindings, payload) == Ok::<
            InvocationView,
            Seq<char>,
        >(ended),
        !ended.succeeded(),
    ensures
        course(world, hook_name, hooks_dir, bindings).result == Some(
            Err::<U, HookErrorView>(
                HookErrorView::HookExitFailure { status: ended.status, stderr: ended.stderr },
            ),
        ),
        course(world, hook_name, hooks_dir, bindings).shown == ended.stderr,
        course(world, hook_name, hooks_dir, bindings).decoded_nothing(),
{
    reveal_with_fuel(run, 6);
}

/// A hook that ends with the exit status zero and writes what is no encoded
/// response fails the transform with its output.
///
/// The failure carries the bytes of the output stream as they are, and the
/// diagnostic of the decoding.
pub proof fn lemma_malformed_output_gives_raw_bytes<U>(
    world: World<U>,
    hook_name: Seq<char>,
    hooks_dir: Seq<char>,
    bindings: Seq<(Seq<char>, Seq<char>)>,
    payload: Seq<u8>,
    ended: InvocationView,
    diagnostic: Seq<char>,
)
    requires
        world.env.contains_key(search_path_key()),
        installed(world, hook_name, hooks_dir, bindings),
        world.encoded == Ok::<Seq<u8>, Seq<char>>(payload),
        invocation(world, hook_name, hooks_dir, bindings, payload) == Ok::<
            InvocationView,
            Seq<char>,
        >(ended),
        ended.succeeded(),
        (world.decode)(ended.stdout) == Err::<U, Seq<char>>(diagnostic),
    ensures
        course(world, hook_name, hooks_dir, bindings).result == Some(
            Err::<U, HookErrorView>(
                HookErrorView::DecodingFailure { raw: ended.stdout, diagnostic },
            ),
        ),
{
    reveal_with_fuel(run, 6);
}

/// A hook is started at most once in a transform: nothing is tried again.
pub proof fn lemma_hook_starts_at_most_once<U>(
    world: World<U>,
    hook_name: Seq<char>,
    hooks_dir: Seq<char>,
    bindings: Seq<(Seq<char>, Seq<char>)>,
)
    ensures
        ({
            let asked = course(world, hook_name, hooks_dir, bindings).asked;
            forall|i: int, j: int|
                0 <= i < j < asked.len() ==> !(#[trigger] asked[i] is Invoke
                    && #[trigger] asked[j] is Invoke)
        }),
{
    reveal_with_fuel(run, 6);
}

} // verus!
