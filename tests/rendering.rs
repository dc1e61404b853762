use dzl::clock::timestamp;
use dzl::log::Log;
use dzl::render::render;

#[test]
fn render_debug_line() {
    let line = render("2022-12-03 11:30:55.23172315 +08:00:00", &Log::Debug("Something...".to_string()));
    assert_eq!(line, "2022-12-03 11:30:55.23172315 +08:00:00 DEBUG Something...\n");
}

#[test]
fn render_custom_line_uses_label_verbatim() {
    let line = render("T", &Log::Custom("CustomType".to_string(), "Something...".to_string()));
    assert_eq!(line, "T CustomType Something...\n");
}

#[test]
fn render_empty_message() {
    assert_eq!(render("T", &Log::Warn(String::new())), "T WARN \n");
}

#[test]
fn rendered_line_has_one_trailing_newline() {
    let entries = vec![
        Log::Trace("a".to_string()),
        Log::Debug("b c".to_string()),
        Log::Info("d".to_string()),
        Log::Warn("e".to_string()),
        Log::Error("f".to_string()),
        Log::Custom("Mine".to_string(), "g".to_string()),
    ];
    for e in entries {
        let line = render("2024-01-01 00:00:00.0 +00:00:00", &e);
        assert!(line.ends_with('\n'));
        assert_eq!(line.matches('\n').count(), 1);
        let expected_start = format!("2024-01-01 00:00:00.0 +00:00:00 {} {}", e.get_level(), e.content());
        assert!(line.starts_with(&expected_start));
    }
}

#[test]
fn timestamp_is_one_nonempty_line() {
    let t = timestamp();
    assert!(!t.is_empty());
    assert!(!t.contains('\n'));
    assert!(t.chars().any(|c| c.is_ascii_digit()));
}
