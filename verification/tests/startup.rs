use vinyl_viz::{startup_message, APP_NAME, STATUS};

#[test]
fn startup_message_mentions_rust_rewrite() {
    let message = startup_message();
    assert!(message.contains(APP_NAME));
    assert!(message.contains("Rust rewrite"));
}

#[test]
fn startup_message_is_name_dash_status() {
    assert_eq!(startup_message(), format!("{} - {}", APP_NAME, STATUS));
    assert_eq!(
        startup_message(),
        "Vinyl Audio Visualizer - Rust rewrite baseline is ready."
    );
}
