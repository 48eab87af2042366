use markmind_backend::host;

#[test]
fn greet_wraps_the_name() {
    assert_eq!(
        host::greet("World"),
        "Hello, World! You've been greeted from Rust!"
    );
}

#[test]
fn greet_with_empty_name() {
    assert_eq!(host::greet(""), "Hello, ! You've been greeted from Rust!");
}

#[test]
fn fixed_host_names() {
    assert_eq!(host::save_shortcut(), "CmdOrCtrl+S");
    assert_eq!(host::save_event(), "save-triggered");
    assert_eq!(host::service_name(), "MarkMind");
    assert_eq!(host::key_name(), "gemini_api_key");
}
