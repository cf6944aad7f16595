use mjml::text::{html_output_path, is_whitespace_char, strip_blank_lines};

#[test]
fn strip_removes_blank_lines() {
    let input = "<mjml>\n\n  \n  <mj-body />\n</mjml>";
    let out = strip_blank_lines(input);
    assert_eq!(out, "<mjml>\n  <mj-body />\n</mjml>");
}

#[test]
fn strip_empty_input_gives_empty_output() {
    assert_eq!(strip_blank_lines(""), "");
    assert_eq!(strip_blank_lines("\n"), "");
    assert_eq!(strip_blank_lines("\n\n\n"), "");
    assert_eq!(strip_blank_lines("  \t \n \t"), "");
}

#[test]
fn strip_normalizes_crlf() {
    assert_eq!(strip_blank_lines("a\r\n\r\nb"), "a\nb");
    assert_eq!(strip_blank_lines("a\r\nb\r\n"), "a\nb");
}

#[test]
fn strip_keeps_interior_spacing() {
    assert_eq!(strip_blank_lines("  a b \nc"), "  a b \nc");
}

#[test]
fn strip_output_has_no_blank_lines() {
    let input = " x\n\n\t\n y\n\u{a0}\n z\n\n";
    let out = strip_blank_lines(input);
    for line in out.lines() {
        assert!(!line.trim().is_empty());
    }
    assert_eq!(out, " x\n y\n z");
}

#[test]
fn whitespace_matches_std() {
    for c in [' ', '\t', '\n', '\r', '\u{a0}', '\u{2003}', '\u{3000}', 'a', '-', '\u{0}'] {
        assert_eq!(is_whitespace_char(c), c.is_whitespace());
    }
}

#[test]
fn html_path_replaces_extension() {
    assert_eq!(html_output_path("a.mjml"), "a.html");
    assert_eq!(html_output_path("a.tmpl"), "a.html");
    assert_eq!(html_output_path("mail.template.mjml"), "mail.template.html");
}

#[test]
fn html_path_appends_when_no_extension() {
    assert_eq!(html_output_path("report"), "report.html");
    assert_eq!(html_output_path(""), ".html");
}

#[test]
fn html_path_reads_only_the_final_segment() {
    assert_eq!(html_output_path("dir/file.mjml"), "dir/file.html");
    assert_eq!(html_output_path("out.d/mail"), "out.d/mail.html");
    assert_eq!(html_output_path("out.d/mail.mjml"), "out.d/mail.html");
}
