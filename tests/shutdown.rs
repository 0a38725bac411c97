use desktop_shell::{on_host_exit, Shutdown};

#[test]
fn clean_exit_when_loop_returns_ok() {
    assert_eq!(on_host_exit(Ok(())), Shutdown::Clean);
}

#[test]
fn abort_message_carries_error_detail() {
    let r = on_host_exit(Err("Runtime(CreateWebview)".to_string()));
    assert_eq!(
        r,
        Shutdown::Abort("error while running tauri application: Runtime(CreateWebview)".to_string())
    );
}

#[test]
fn abort_message_with_empty_detail() {
    match on_host_exit(Err(String::new())) {
        Shutdown::Abort(msg) => assert_eq!(msg, "error while running tauri application: "),
        Shutdown::Clean => panic!("an error must not end cleanly"),
    }
}
