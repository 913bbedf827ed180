use gl_playground::debug::{gl_debug_callback, kind_name, level, severity_name, source_name, Level};

#[test]
fn source_names() {
    assert_eq!(source_name(0x8246), "API");
    assert_eq!(source_name(0x8247), "WINDOW_SYSTEM");
    assert_eq!(source_name(0x8248), "SHADER_COMPILER");
    assert_eq!(source_name(0x8249), "THIRD_PARTY");
    assert_eq!(source_name(0x824A), "APPLICATION");
    assert_eq!(source_name(0x824B), "OTHER");
    assert_eq!(source_name(0), "!UNKNOWN");
    assert_eq!(source_name(0x824C), "!UNKNOWN");
}

#[test]
fn kind_names() {
    assert_eq!(kind_name(0x824C), "ERROR");
    assert_eq!(kind_name(0x824D), "DEPRECATED_BEHAVIOR");
    assert_eq!(kind_name(0x824E), "UNDEFINED_BEHAVIOR");
    assert_eq!(kind_name(0x824F), "PORTABILITY");
    assert_eq!(kind_name(0x8250), "PERFORMANCE");
    assert_eq!(kind_name(0x8268), "MARKER");
    assert_eq!(kind_name(0x8269), "PUSH_GROUP");
    assert_eq!(kind_name(0x826A), "POP_GROUP");
    assert_eq!(kind_name(0x8251), "!UNKNOWN");
    assert_eq!(kind_name(7), "!UNKNOWN");
}

#[test]
fn severity_names_and_levels() {
    assert_eq!(severity_name(0x9146), "HIGH");
    assert_eq!(severity_name(0x9147), "MEDIUM");
    assert_eq!(severity_name(0x9148), "LOW");
    assert_eq!(severity_name(0x826B), "NOTIFICATION");
    assert_eq!(severity_name(1), "!UNKNOWN");
    assert_eq!(level(0x9146), Level::Error);
    assert_eq!(level(0x9147), Level::Warn);
    assert_eq!(level(0x9148), Level::Warn);
    assert_eq!(level(0x826B), Level::Info);
    assert_eq!(level(1), Level::Debug);
}

#[test]
fn readable_message_gives_the_full_line() {
    let record = gl_debug_callback(0x8246, 0x824C, 1282, 0x9146, Some("GL_INVALID_OPERATION"));
    assert_eq!(record.level, Level::Error);
    assert_eq!(
        record.text,
        "OpenGL: [source: API][type: ERROR][severity: HIGH][id: 1282] GL_INVALID_OPERATION"
    );
}

#[test]
fn line_is_what_formatting_gives() {
    let cases: Vec<(u32, u32, u32, u32, &str)> = vec![
        (0x8248, 0x8250, 0, 0x9147, "slow path"),
        (0x824A, 0x8268, 7, 0x826B, ""),
        (0x824B, 0x826A, 10, 0x9148, "ten"),
        (3, 4, 99, 5, "unknown everything"),
        (0x8249, 0x824F, 100, 0x9146, "hundred"),
        (0x8247, 0x824D, 4294967295, 0x9146, "largest"),
        (0x8246, 0x824E, 1234567890, 0x9148, "digits"),
    ];
    for (source, kind, id, severity, message) in cases {
        let record = gl_debug_callback(source, kind, id, severity, Some(message));
        assert_eq!(
            record.text,
            format!(
                "OpenGL: [source: {}][type: {}][severity: {}][id: {}] {}",
                source_name(source),
                kind_name(kind),
                severity_name(severity),
                id,
                message
            )
        );
        assert_eq!(record.level, level(severity));
    }
}

#[test]
fn unknown_severity_is_logged_for_debugging() {
    let record = gl_debug_callback(0x8246, 0x824C, 5, 0, Some("m"));
    assert_eq!(record.level, Level::Debug);
    assert_eq!(
        record.text,
        "OpenGL: [source: API][type: ERROR][severity: !UNKNOWN][id: 5] m"
    );
}

#[test]
fn unreadable_message_gives_an_error_line() {
    let record = gl_debug_callback(0x8246, 0x824C, 1, 0x826B, None);
    assert_eq!(record.level, Level::Error);
    assert_eq!(record.text, "OpenGL: Failed to convert message from pointer to str");
}
