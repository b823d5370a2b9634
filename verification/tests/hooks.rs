use aichat_hooks::bridge::{Directive, Phase, Request, ScopeChange, Transform};
use aichat_hooks::hooks::{adopt, after_prepare_chat_completion_data, before_exit, run_hook};
use aichat_hooks::outcome::HookError;

#[test]
fn before_exit_uses_its_hook_without_bindings() {
    let (transform, directive): (Transform, Directive<String>) = before_exit("/cfg");
    assert_eq!(
        transform,
        Transform {
            hook_name: "before_exit".to_string(),
            phase: Phase::AwaitingSearchPath {
                hooks_dir: "/cfg/hooks".to_string(),
                bindings: Vec::new(),
            },
        }
    );
    assert_eq!(directive.scope, ScopeChange::Keep);
    assert_eq!(directive.request, Request::SearchPath);
}

#[test]
fn after_prepare_tells_the_hook_the_role() {
    let (transform, directive): (Transform, Directive<String>) =
        after_prepare_chat_completion_data("/cfg", "coder".to_string());
    assert_eq!(
        transform,
        Transform {
            hook_name: "after_prepare_chat_completion_data".to_string(),
            phase: Phase::AwaitingSearchPath {
                hooks_dir: "/cfg/hooks".to_string(),
                bindings: vec![("AICHAT_HOOKS_ROLE".to_string(), "coder".to_string())],
            },
        }
    );
    assert_eq!(directive.request, Request::SearchPath);
}

#[test]
fn run_hook_takes_any_name_and_bindings() {
    let bindings = vec![("A".to_string(), "1".to_string()), ("B".to_string(), "2".to_string())];
    let (transform, _): (Transform, Directive<u32>) =
        run_hook("my_hook", "/home/u/.config/aichat", Some(bindings.clone()));
    assert_eq!(
        transform,
        Transform {
            hook_name: "my_hook".to_string(),
            phase: Phase::AwaitingSearchPath {
                hooks_dir: "/home/u/.config/aichat/hooks".to_string(),
                bindings,
            },
        }
    );
    let (plain, _): (Transform, Directive<u32>) = run_hook("my_hook", "/c", None);
    assert_eq!(
        plain.phase,
        Phase::AwaitingSearchPath { hooks_dir: "/c/hooks".to_string(), bindings: Vec::new() }
    );
}

#[test]
fn adopt_takes_a_response() {
    let mut data = 1u32;
    assert_eq!(adopt(&mut data, Ok(7)), None);
    assert_eq!(data, 7);
}

#[test]
fn adopt_keeps_the_data_after_a_failure() {
    let mut data = "mine".to_string();
    let failure = HookError::HookExitFailure { status: Some(1), stderr: b"no".to_vec() };
    assert_eq!(
        adopt(&mut data, Err(HookError::HookExitFailure { status: Some(1), stderr: b"no".to_vec() })),
        Some(failure)
    );
    assert_eq!(data, "mine");
}
