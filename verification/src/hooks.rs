//! The hooks that the client knows, and what their callers keep.

use vstd::prelude::*;
use vstd::string::*;
use crate::bridge::{begin_spec, Directive, Transform};
use crate::environment::{hooks_directory, hooks_directory_of};
use crate::outcome::HookError;

verus! {

/// The name of the hook that is consulted before the program exits.
pub open spec fn before_exit_hook() -> Seq<char> {
    "before_exit"@
}

/// The name of the hook that is consulted once the data of a chat completion
/// is prepared.
pub open spec fn after_prepare_hook() -> Seq<char> {
    "after_prepare_chat_completion_data"@
}

/// The variable that tells a hook the name of the active role.
pub open spec fn role_key() -> Seq<char> {
    "AICHAT_HOOKS_ROLE"@
}

/// Starts a transform through the hook `hook_name`. The hooks directory is the
/// one of the configuration directory `config_dir`; the hook runs with
/// `env_vars` in its environment, where there are any.
pub fn run_hook<U>(
    hook_name: &str,
    config_dir: &str,
    env_vars: Option<Vec<(String, String)>>,
) -> (start: (Transform, Directive<U>))
    ensures
        (start.0@, start.1@) == begin_spec::<U>(
            hook_name@,
            hooks_directory_of(config_dir@),
            match env_vars {
                Some(bindings) => bindings.deep_view(),
                None => Seq::empty(),
            },
        ),
{
    let bindings = match env_vars {
        Some(bindings) => bindings,
        None => {
            let none: Vec<(String, String)> = Vec::new();
            assert(none.deep_view() =~= Seq::empty());
            none
        },
    };
    Transform::begin(hook_name.to_owned(), hooks_directory(config_dir), bindings)
}

/// Starts the transform of a session through the hook that is consulted
/// before the program exits. The hook gets no extra variables.
pub fn before_exit<U>(config_dir: &str) -> (start: (Transform, Directive<U>))
    ensures
        (start.0@, start.1@) == begin_spec::<U>(
            before_exit_hook(),
            hooks_directory_of(config_dir@),
            Seq::empty(),
        ),
{
    run_hook("before_exit", config_dir, None)
}

/// Starts the transform of the data of a chat completion through the hook
/// that is consulted once that data is prepared. The hook is told the name of
/// the active role.
pub fn after_prepare_chat_completion_data<U>(config_dir: &str, role_name: String) -> (start: (
    Transform,
    Directive<U>,
))
    ensures
        (start.0@, start.1@) == begin_spec::<U>(
            after_prepare_hook(),
            hooks_directory_of(config_dir@),
            seq![(role_key(), role_name@)],
        ),
{
    let mut env_vars: Vec<(String, String)> = Vec::new();
    env_vars.push(("AICHAT_HOOKS_ROLE".to_owned(), role_name));
    assert(env_vars.deep_view() =~= seq![(role_key(), role_name@)]);
    run_hook("after_prepare_chat_completion_data", config_dir, Some(env_vars))
}

/// What a caller holds after a transform of its own data. A response takes
/// the data's place. After a failure the data stays as it was, and the
/// failure is handed back to be reported: a failing hook does not stop the
/// caller.
pub fn adopt<T>(data: &mut T, result: Result<T, HookError>) -> (failure: Option<HookError>)
    ensures
        (match result {
            Ok(response) => *final(data) == response && failure is None,
            Err(error) => *final(data) == *old(data) && failure == Some(error),
        }),
{
    match result {
        Ok(response) => {
            *data = response;
            None
        },
        Err(error) => Some(error),
    }
}

} // verus!
