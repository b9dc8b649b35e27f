use necron_prism::config::runtime::LogRotation;
use necron_prism::proxy::logging::fmt::{rotation_step, RotationStep};
use necron_prism::proxy::config::types::LogLevel;
use necron_prism::proxy::logging::line::{event_line, EventFields, Tone};

fn line_text(pieces: &[necron_prism::proxy::logging::line::Piece]) -> String {
    pieces.iter().map(|p| p.text.as_str()).collect()
}

#[test]
fn event_fields_take_the_message_apart() {
    let mut event = EventFields::new();
    event.record_debug("message", "\"hello\"");
    event.record_value("port", 25565.to_string());
    event.record_str("peer", "1.2.3.4");
    event.record_debug("state", "Status");
    assert_eq!(event.message.as_deref(), Some("hello"));
    assert_eq!(
        event.fields,
        vec![
            ("port".to_string(), "25565".to_string()),
            ("peer".to_string(), "1.2.3.4".to_string()),
            ("state".to_string(), "Status".to_string()),
        ]
    );
    let mut event = EventFields::new();
    event.record_str("msg", "plain");
    assert_eq!(event.message.as_deref(), Some("plain"));
    event.record_debug("msg", "\"");
    assert_eq!(event.message.as_deref(), Some("\""));
    assert!(event.fields.is_empty());
}

#[test]
fn event_line_layout() {
    let mut event = EventFields::new();
    event.record_str("message", "started");
    event.record_value("port", "25565".to_string());
    event.record_value("ok", "true".to_string());
    let spans = vec![("conn".to_string(), "id=1".to_string()), ("login".to_string(), String::new())];
    let pieces = event_line("12:00:00", LogLevel::Info, Some("src/proxy/app.rs"), Some(42), &event, Some(&spans));
    assert_eq!(
        line_text(&pieces),
        format!(
            "[12:00:00]   INFO  \u{2502} {:>28} \u{276f} started port=25565 ok=true \u{2507}conn{{id=1}}\u{b7}login\n",
            "proxy/app.rs:42"
        )
    );
    assert_eq!(pieces[3].tone, Tone::Badge(LogLevel::Info));
    assert_eq!(pieces[0].tone, Tone::Frame);

    let mut bare = EventFields::new();
    bare.record_value("n", "1".to_string());
    let pieces = event_line("00:00:01", LogLevel::Error, None, None, &bare, None);
    assert_eq!(
        line_text(&pieces),
        format!("[00:00:01]  ERROR  \u{2502} {:>28} \u{276f} n=1\n", "?:0")
    );
}

#[test]
fn rotation_extensions() {
    match rotation_step(LogRotation::Rename, "2024-01-02_03-04-05") {
        RotationStep::Rename { extension } => assert_eq!(extension, "2024-01-02_03-04-05.log"),
        other => panic!("unexpected {other:?}"),
    }
    match rotation_step(LogRotation::Compress, "2024-01-02_03-04-05") {
        RotationStep::Compress { extension } => assert_eq!(extension, "2024-01-02_03-04-05.log.gz"),
        other => panic!("unexpected {other:?}"),
    }
    assert!(matches!(rotation_step(LogRotation::Keep, "x"), RotationStep::Keep));
}
