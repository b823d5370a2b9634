use aichat_hooks::bridge::{Directive, Phase, Reply, Request, ScopeChange, Transform};
use aichat_hooks::environment::{EnvOp, ScopedEnvironment};
use aichat_hooks::outcome::{HookError, Invocation};
use std::collections::BTreeMap;

type Env = BTreeMap<String, String>;

struct World {
    env: Env,
    hook_on: Option<&'static str>,
    encoded: Result<Vec<u8>, String>,
    invoke: fn(&str, &[u8], &Env) -> Result<Invocation, String>,
    decode: fn(&[u8]) -> Result<String, String>,
}

struct Trace {
    result: Result<String, HookError>,
    env: Env,
    shown: Vec<u8>,
    asked: Vec<&'static str>,
    scope_left_installed: bool,
}

fn carry_out(env: &mut Env, ops: &[EnvOp]) {
    for op in ops {
        match op {
            EnvOp::Assign { key, value } => {
                env.insert(key.clone(), value.clone());
            }
            EnvOp::Unset { key } => {
                env.remove(key);
            }
        }
    }
}

fn decode_text(bytes: &[u8]) -> Result<String, String> {
    match std::str::from_utf8(bytes) {
        Ok(text) if text.starts_with('"') && text.ends_with('"') && text.len() >= 2 => {
            Ok(text[1..text.len() - 1].to_string())
        }
        Ok(_) => Err("expected a quoted text".to_string()),
        Err(_) => Err("not text".to_string()),
    }
}

fn never_invoked(_: &str, _: &[u8], _: &Env) -> Result<Invocation, String> {
    panic!("no hook may be started")
}

fn never_decoded(_: &[u8]) -> Result<String, String> {
    panic!("nothing may be decoded")
}

fn upper_case_hook(name: &str, input: &[u8], env: &Env) -> Result<Invocation, String> {
    assert_eq!(name, "after_prepare");
    assert_eq!(env.get("PATH").unwrap(), "/cfg/hooks:/usr/bin:/bin");
    assert_eq!(env.get("AICHAT_HOOKS_ROLE").unwrap(), "coder");
    Ok(Invocation {
        status: Some(0),
        stdout: input.to_ascii_uppercase(),
        stderr: b"note: shouting\n".to_vec(),
    })
}

fn failing_hook(_: &str, _: &[u8], _: &Env) -> Result<Invocation, String> {
    Ok(Invocation {
        status: Some(3),
        stdout: b"\"looks fine\"".to_vec(),
        stderr: b"boom \xff\n".to_vec(),
    })
}

fn killed_hook(_: &str, _: &[u8], _: &Env) -> Result<Invocation, String> {
    Ok(Invocation { status: None, stdout: Vec::new(), stderr: Vec::new() })
}

fn garbling_hook(_: &str, _: &[u8], _: &Env) -> Result<Invocation, String> {
    Ok(Invocation { status: Some(0), stdout: b"not quoted".to_vec(), stderr: Vec::new() })
}

fn vanished_hook(_: &str, _: &[u8], _: &Env) -> Result<Invocation, String> {
    Err("No such file or directory (os error 2)".to_string())
}

fn sample_env() -> Env {
    let mut env = Env::new();
    env.insert("PATH".to_string(), "/usr/bin:/bin".to_string());
    env.insert("HOME".to_string(), "/home/u".to_string());
    env
}

fn sample_world(invoke: fn(&str, &[u8], &Env) -> Result<Invocation, String>) -> World {
    World {
        env: sample_env(),
        hook_on: Some("/cfg/hooks:/usr/bin:/bin"),
        encoded: Ok(b"\"hello\"".to_vec()),
        invoke,
        decode: decode_text,
    }
}

fn role_binding() -> Vec<(String, String)> {
    vec![("AICHAT_HOOKS_ROLE".to_string(), "coder".to_string())]
}

fn drive(world: &World, bindings: Vec<(String, String)>) -> Trace {
    let (mut transform, mut directive): (Transform, Directive<String>) =
        Transform::begin("after_prepare".to_string(), "/cfg/hooks".to_string(), bindings);
    let mut env = world.env.clone();
    let mut scope: Option<ScopedEnvironment> = None;
    let mut shown = Vec::new();
    let mut asked = Vec::new();
    loop {
        match directive.scope {
            ScopeChange::Keep => {}
            ScopeChange::Acquire(acquired) => {
                carry_out(&mut env, &acquired.install_ops());
                scope = Some(acquired);
            }
            ScopeChange::Release => {
                let acquired = scope.take().expect("a scope is released only once acquired");
                carry_out(&mut env, &acquired.release_ops());
            }
        }
        shown.extend_from_slice(&directive.diagnostics);
        let reply = match directive.request {
            Request::SearchPath => {
                asked.push("search path");
                Reply::SearchPath(env.get("PATH").cloned())
            }
            Request::Locate { name, search_path } => {
                asked.push("locate");
                assert_eq!(name, "after_prepare");
                Reply::Located(world.hook_on == Some(search_path.as_str()))
            }
            Request::Encode => {
                asked.push("encode");
                Reply::Encoded(world.encoded.clone())
            }
            Request::Invoke { name, input } => {
                asked.push("invoke");
                Reply::Invoked((world.invoke)(&name, &input, &env))
            }
            Request::Decode { bytes } => {
                asked.push("decode");
                Reply::Decoded((world.decode)(&bytes))
            }
            Request::Finish(result) => {
                assert!(transform.is_finished());
                return Trace { result, env, shown, asked, scope_left_installed: scope.is_some() };
            }
        };
        assert!(!transform.is_finished());
        let next = transform.step(reply).expect("the reply answers the request");
        transform = next.0;
        directive = next.1;
    }
}

#[test]
fn begin_asks_for_the_search_path_and_changes_nothing() {
    let (transform, directive): (Transform, Directive<String>) =
        Transform::begin("h".to_string(), "/cfg/hooks".to_string(), role_binding());
    assert_eq!(
        transform,
        Transform {
            hook_name: "h".to_string(),
            phase: Phase::AwaitingSearchPath {
                hooks_dir: "/cfg/hooks".to_string(),
                bindings: role_binding(),
            },
        }
    );
    assert_eq!(
        directive,
        Directive { scope: ScopeChange::Keep, diagnostics: Vec::new(), request: Request::SearchPath }
    );
}

#[test]
fn search_path_reply_acquires_the_scope_and_asks_for_the_hook() {
    let (transform, _): (Transform, Directive<String>) =
        Transform::begin("h".to_string(), "/cfg/hooks".to_string(), role_binding());
    let (transform, directive) =
        transform.step::<String>(Reply::SearchPath(Some("/bin".to_string()))).unwrap();
    assert_eq!(transform, Transform { hook_name: "h".to_string(), phase: Phase::Locating });
    assert_eq!(
        directive,
        Directive {
            scope: ScopeChange::Acquire(ScopedEnvironment {
                hooks_dir: "/cfg/hooks".to_string(),
                original_path: "/bin".to_string(),
                bindings: role_binding(),
            }),
            diagnostics: Vec::new(),
            request: Request::Locate {
                name: "h".to_string(),
                search_path: "/cfg/hooks:/bin".to_string(),
            },
        }
    );
}

#[test]
fn missing_search_path_fails_before_any_change() {
    let mut world = sample_world(never_invoked);
    world.env.remove("PATH");
    world.decode = never_decoded;
    let trace = drive(&world, role_binding());
    assert_eq!(trace.result, Err(HookError::EnvironmentLookupFailure));
    assert_eq!(trace.asked, vec!["search path"]);
    assert_eq!(trace.env, world.env);
    assert!(!trace.scope_left_installed);
}

#[test]
fn absent_hook_gives_the_payload_back() {
    let mut world = sample_world(never_invoked);
    world.hook_on = None;
    let trace = drive(&world, role_binding());
    assert_eq!(trace.result, Ok("hello".to_string()));
    assert_eq!(trace.asked, vec!["search path", "locate", "encode", "decode"]);
    assert_eq!(trace.shown, Vec::<u8>::new());
    assert_eq!(trace.env, sample_env());
    assert!(!trace.scope_left_installed);
}

#[test]
fn absent_hook_with_a_payload_of_another_shape_fails_to_decode() {
    let mut world = sample_world(never_invoked);
    world.hook_on = None;
    world.encoded = Ok(b"{\"n\":1}".to_vec());
    let trace = drive(&world, Vec::new());
    assert_eq!(
        trace.result,
        Err(HookError::DecodingFailure {
            raw: b"{\"n\":1}".to_vec(),
            diagnostic: "expected a quoted text".to_string(),
        })
    );
    assert_eq!(trace.env, sample_env());
}

#[test]
fn absent_hook_with_a_payload_without_encoding_fails() {
    let mut world = sample_world(never_invoked);
    world.hook_on = None;
    world.encoded = Err("key must be a string".to_string());
    world.decode = never_decoded;
    let trace = drive(&world, role_binding());
    assert_eq!(
        trace.result,
        Err(HookError::EncodingFailure { cause: "key must be a string".to_string() })
    );
    assert_eq!(trace.env, sample_env());
    assert!(!trace.scope_left_installed);
}

#[test]
fn hook_that_succeeds_gives_its_response() {
    let world = sample_world(upper_case_hook);
    let trace = drive(&world, role_binding());
    assert_eq!(trace.result, Ok("HELLO".to_string()));
    assert_eq!(trace.asked, vec!["search path", "locate", "encode", "invoke", "decode"]);
    assert_eq!(trace.shown, b"note: shouting\n".to_vec());
    assert_eq!(trace.env, sample_env());
    assert!(!trace.scope_left_installed);
}

#[test]
fn hook_that_fails_reports_its_error_stream_and_is_not_decoded() {
    let mut world = sample_world(failing_hook);
    world.decode = never_decoded;
    let trace = drive(&world, role_binding());
    assert_eq!(
        trace.result,
        Err(HookError::HookExitFailure { status: Some(3), stderr: b"boom \xff\n".to_vec() })
    );
    assert_eq!(trace.asked, vec!["search path", "locate", "encode", "invoke"]);
    assert_eq!(trace.shown, b"boom \xff\n".to_vec());
    assert_eq!(trace.env, sample_env());
    assert!(!trace.scope_left_installed);
}

#[test]
fn hook_that_ends_without_exit_status_fails() {
    let mut world = sample_world(killed_hook);
    world.decode = never_decoded;
    let trace = drive(&world, Vec::new());
    assert_eq!(
        trace.result,
        Err(HookError::HookExitFailure { status: None, stderr: Vec::new() })
    );
    assert_eq!(trace.env, sample_env());
}

#[test]
fn hook_that_writes_no_encoding_fails_with_its_output() {
    let world = sample_world(garbling_hook);
    let trace = drive(&world, role_binding());
    assert_eq!(
        trace.result,
        Err(HookError::DecodingFailure {
            raw: b"not quoted".to_vec(),
            diagnostic: "expected a quoted text".to_string(),
        })
    );
    assert_eq!(trace.env, sample_env());
    assert!(!trace.scope_left_installed);
}

#[test]
fn hook_that_cannot_be_started_fails_and_the_scope_is_released() {
    let mut world = sample_world(vanished_hook);
    world.decode = never_decoded;
    let trace = drive(&world, role_binding());
    assert_eq!(
        trace.result,
        Err(HookError::SpawnFailure { cause: "No such file or directory (os error 2)".to_string() })
    );
    assert_eq!(trace.asked, vec!["search path", "locate", "encode", "invoke"]);
    assert_eq!(trace.env, sample_env());
    assert!(!trace.scope_left_installed);
}

#[test]
fn payload_without_encoding_fails_and_the_scope_is_released() {
    let mut world = sample_world(never_invoked);
    world.encoded = Err("cannot encode".to_string());
    world.decode = never_decoded;
    let trace = drive(&world, role_binding());
    assert_eq!(trace.result, Err(HookError::EncodingFailure { cause: "cannot encode".to_string() }));
    assert_eq!(trace.asked, vec!["search path", "locate", "encode"]);
    assert_eq!(trace.env, sample_env());
    assert!(!trace.scope_left_installed);
}

#[test]
fn found_hook_keeps_the_scope_until_it_ended() {
    let transform = Transform { hook_name: "h".to_string(), phase: Phase::Locating };
    let (transform, directive) = transform.step::<String>(Reply::Located(true)).unwrap();
    assert_eq!(directive.scope, ScopeChange::Keep);
    assert_eq!(directive.request, Request::Encode);
    let (transform, directive) =
        transform.step::<String>(Reply::Encoded(Ok(b"in".to_vec()))).unwrap();
    assert_eq!(transform.phase, Phase::Invoking);
    assert_eq!(directive.scope, ScopeChange::Keep);
    assert_eq!(directive.request, Request::Invoke { name: "h".to_string(), input: b"in".to_vec() });
    let ended = Invocation { status: Some(0), stdout: b"out".to_vec(), stderr: b"err".to_vec() };
    let (transform, directive) = transform.step::<String>(Reply::Invoked(Ok(ended))).unwrap();
    assert_eq!(transform.phase, Phase::Decoding { raw: b"out".to_vec() });
    assert_eq!(
        directive,
        Directive {
            scope: ScopeChange::Release,
            diagnostics: b"err".to_vec(),
            request: Request::Decode { bytes: b"out".to_vec() },
        }
    );
}

#[test]
fn absent_hook_releases_the_scope_at_once() {
    let transform = Transform { hook_name: "h".to_string(), phase: Phase::Locating };
    let (transform, directive) = transform.step::<String>(Reply::Located(false)).unwrap();
    assert_eq!(transform.phase, Phase::Encoding { installed: false });
    assert_eq!(directive.scope, ScopeChange::Release);
    assert_eq!(directive.request, Request::Encode);
}

#[test]
fn reply_that_does_not_answer_the_request_is_refused() {
    let locating = Transform { hook_name: "h".to_string(), phase: Phase::Locating };
    assert_eq!(locating.step::<String>(Reply::SearchPath(None)), None);
    let invoking = Transform { hook_name: "h".to_string(), phase: Phase::Invoking };
    assert_eq!(invoking.step::<String>(Reply::Decoded(Ok("x".to_string()))), None);
    let decoding = Transform { hook_name: "h".to_string(), phase: Phase::Decoding { raw: Vec::new() } };
    assert_eq!(decoding.step::<String>(Reply::Located(true)), None);
    let encoding = Transform { hook_name: "h".to_string(), phase: Phase::Encoding { installed: true } };
    assert_eq!(encoding.step::<String>(Reply::Located(true)), None);
    let (start, _): (Transform, Directive<String>) =
        Transform::begin("h".to_string(), "/d".to_string(), Vec::new());
    assert_eq!(start.step::<String>(Reply::Located(true)), None);
}

#[test]
fn finished_transform_takes_no_reply() {
    let finished = Transform { hook_name: "h".to_string(), phase: Phase::Finished };
    assert!(finished.is_finished());
    assert_eq!(finished.step::<String>(Reply::Located(true)), None);
}

#[test]
fn invocation_succeeded_only_with_status_zero() {
    let ended = |status| Invocation { status, stdout: Vec::new(), stderr: Vec::new() };
    assert!(ended(Some(0)).succeeded());
    assert!(!ended(Some(1)).succeeded());
    assert!(!ended(Some(-1)).succeeded());
    assert!(!ended(None).succeeded());
}
