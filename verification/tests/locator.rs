use aichat_hooks::locator::{accept_hit, hook_exists, locate, valid_hook_name};

#[test]
fn hook_names_are_file_names() {
    assert!(valid_hook_name("before_exit"));
    assert!(valid_hook_name("after_prepare_chat_completion_data"));
    assert!(valid_hook_name("h"));
    assert!(valid_hook_name("é.sh"));
    assert!(!valid_hook_name(""));
    assert!(!valid_hook_name("/bin/sh"));
    assert!(!valid_hook_name("hooks/before_exit"));
    assert!(!valid_hook_name("before_exit/"));
}

#[test]
fn a_hook_that_is_nowhere_is_not_found() {
    assert_eq!(locate("no_such_hook_q7x2", "/no/such/dir/hooks:/no/such/dir/bin"), None);
    assert!(!hook_exists("no_such_hook_q7x2", "/no/such/dir/hooks:/no/such/dir/bin"));
    assert!(!hook_exists("no_such_hook_q7x2", ""));
}

#[test]
fn a_name_with_a_separator_is_never_found() {
    assert_eq!(locate("/bin/sh", "/bin:/usr/bin"), None);
    assert!(!hook_exists("/bin/sh", "/bin:/usr/bin"));
    assert!(!hook_exists("", "/bin:/usr/bin"));
}

#[test]
fn an_executable_on_the_search_path_is_found() {
    assert!(hook_exists("sh", "/no/such/dir/hooks:/bin:/usr/bin"));
    let hit = locate("sh", "/no/such/dir/hooks:/bin:/usr/bin").unwrap();
    assert!(hit.ends_with("/sh"));
    assert!(!hook_exists("sh", "/no/such/dir/hooks"));
}

#[test]
fn a_hit_for_a_file_name_is_kept() {
    let on_path = Some("/cfg/hooks/before_exit".to_string());
    assert_eq!(accept_hit("before_exit", on_path.clone()), on_path);
    assert_eq!(accept_hit("before_exit", None), None);
}

#[test]
fn a_hit_for_a_name_that_is_no_file_name_is_dropped() {
    assert_eq!(accept_hit("/bin/sh", Some("/bin/sh".to_string())), None);
    assert_eq!(accept_hit("hooks/before_exit", Some("/cfg/hooks/before_exit".to_string())), None);
    assert_eq!(accept_hit("", Some("/bin/".to_string())), None);
    assert_eq!(accept_hit("a/b", None), None);
}
