use lsp_playground::analyzer::analyze;
use lsp_playground::protocol::{Diagnostic, DiagnosticSeverity, Position, Range};

fn expect_line(d: &Diagnostic, line: u32, end: u32) {
    assert_eq!(
        d.range,
        Range {
            start: Position { line, character: 0 },
            end: Position { line, character: end },
        }
    );
    assert_eq!(d.severity, DiagnosticSeverity::Warning);
    assert_eq!(d.source, "todo-checker");
    assert_eq!(d.message, "TODO found");
}

#[test]
fn empty_text_has_no_diagnostics() {
    assert!(analyze("").is_empty());
}

#[test]
fn text_without_marker_has_no_diagnostics() {
    assert!(analyze("line0\nline1\nTOD O\ntodo").is_empty());
}

#[test]
fn one_diagnostic_per_marked_line_in_order() {
    let ds = analyze("a TODO\nb\nc TODO");
    assert_eq!(ds.len(), 2);
    expect_line(&ds[0], 0, 6);
    expect_line(&ds[1], 2, 6);
}

#[test]
fn marker_in_middle_line() {
    let ds = analyze("line0\nline1 TODO\nline2");
    assert_eq!(ds.len(), 1);
    expect_line(&ds[0], 1, 10);
}

#[test]
fn repeated_marker_gives_one_diagnostic() {
    let ds = analyze("TODO TODO TODO");
    assert_eq!(ds.len(), 1);
    expect_line(&ds[0], 0, 14);
}

#[test]
fn marker_split_over_lines_is_not_found() {
    assert!(analyze("TO\nDO").is_empty());
}

#[test]
fn marker_at_line_edges() {
    let ds = analyze("TODO\n\nxTODO\nTODOx\n");
    assert_eq!(ds.len(), 3);
    expect_line(&ds[0], 0, 4);
    expect_line(&ds[1], 2, 5);
    expect_line(&ds[2], 3, 5);
}

#[test]
fn carriage_return_stays_in_line() {
    let ds = analyze("a TODO\r\nb");
    assert_eq!(ds.len(), 1);
    expect_line(&ds[0], 0, 7);
}

#[test]
fn length_counts_characters_not_bytes() {
    let ds = analyze("\u{e9}\u{e9} TODO");
    assert_eq!(ds.len(), 1);
    expect_line(&ds[0], 0, 7);
}

#[test]
fn analysis_is_deterministic() {
    let text = "x TODO\ny\nTODO z";
    let a = analyze(text);
    let b = analyze(text);
    assert_eq!(a.len(), b.len());
    for (d, e) in a.iter().zip(b.iter()) {
        assert_eq!(d.range, e.range);
        assert_eq!(d.severity, e.severity);
        assert_eq!(d.source, e.source);
        assert_eq!(d.message, e.message);
    }
}
