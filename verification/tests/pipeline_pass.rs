use mjml::options::RenderConfig;
use mjml::pipeline::{convert, ConvertError, Document};

const MINIMAL: &str = "<mjml><mj-head></mj-head><mj-body></mj-body></mjml>";

const TITLED: &str = "<mjml>\
<mj-head><mj-title>Hello</mj-title><mj-preview>Peek</mj-preview></mj-head>\
<mj-body><mj-section><mj-column><mj-text>Body text</mj-text></mj-column></mj-section></mj-body>\
</mjml>";

#[test]
fn parse_accepts_minimal_document() {
    assert!(Document::parse(MINIMAL).is_ok());
}

#[test]
fn parse_rejects_bad_root() {
    let r = Document::parse("<bad-root/>");
    assert!(r.is_err());
    assert!(!r.err().unwrap().message.is_empty());
}

#[test]
fn convert_with_defaults_succeeds_on_valid_markup() {
    let out = convert(TITLED, &RenderConfig::new()).unwrap();
    assert!(out.contains("<html"));
    assert!(out.contains("</html>"));
    assert!(out.contains("Body text"));
}

#[test]
fn convert_reports_parse_failure_as_such() {
    let r = convert("<bad-root/>", &RenderConfig::new());
    match r {
        Err(ConvertError::Parse(e)) => assert!(!e.message.is_empty()),
        _ => panic!("expected a parse failure"),
    }
}

#[test]
fn title_and_preview_are_derived() {
    let doc = Document::parse(TITLED).unwrap();
    assert_eq!(doc.title(), Some("Hello".to_string()));
    assert_eq!(doc.preview(), Some("Peek".to_string()));
    let bare = Document::parse(MINIMAL).unwrap();
    assert_eq!(bare.title(), None);
    assert_eq!(bare.preview(), None);
}

const COMMENTED: &str = "<mjml><mj-body><mj-section><mj-column>\
<mj-text>Body text</mj-text></mj-column></mj-section>\
<!-- secret note --></mj-body></mjml>";

#[test]
fn disable_comments_removes_source_comments() {
    let doc = Document::parse(COMMENTED).unwrap();
    let out = doc.render(&RenderConfig::from_cli_flags(true, None)).unwrap();
    assert!(!out.contains("secret note"));
    assert!(out.contains("Body text"));
    let kept = doc.render(&RenderConfig::new()).unwrap();
    assert!(kept.contains("secret note"));
}

const SOCIAL: &str = "<mjml><mj-body><mj-section><mj-column>\
<mj-social><mj-social-element name=\"facebook\" /></mj-social>\
</mj-column></mj-section></mj-body></mjml>";

#[test]
fn omitted_origin_keeps_engine_social_base_url() {
    let doc = Document::parse(SOCIAL).unwrap();
    let out = doc.render(&RenderConfig::from_cli_flags(true, None)).unwrap();
    assert!(out.contains("https://www.mailjet.com/images/theme/v1/icons/ico-social/"));
}

#[test]
fn supplied_origin_replaces_engine_social_base_url() {
    let doc = Document::parse(SOCIAL).unwrap();
    let config = RenderConfig::from_cli_flags(true, Some("https://icons.example/".to_string()));
    let out = doc.render(&config).unwrap();
    assert!(out.contains("https://icons.example/"));
    assert!(!out.contains("mailjet.com"));
}

const LATO: &str = "<mjml><mj-body><mj-section><mj-column>\
<mj-text font-family=\"Lato\">styled</mj-text>\
</mj-column></mj-section></mj-body></mjml>";

#[test]
fn omitted_fonts_keep_the_default_table() {
    let doc = Document::parse(LATO).unwrap();
    let out = doc.render(&RenderConfig::new()).unwrap();
    assert!(out.contains("https://fonts.googleapis.com/css?family=Lato:300,400,500,700"));
}

#[test]
fn supplied_fonts_replace_the_table_wholesale() {
    let doc = Document::parse(LATO).unwrap();
    let config = RenderConfig {
        disable_comments: false,
        social_icon_origin: None,
        fonts: Some(vec![("Lato".to_string(), "https://fonts.example/lato".to_string())]),
    };
    let out = doc.render(&config).unwrap();
    assert!(out.contains("https://fonts.example/lato"));
    assert!(!out.contains("fonts.googleapis.com"));
}

#[test]
fn later_font_entry_for_the_same_key_wins() {
    let doc = Document::parse(LATO).unwrap();
    let config = RenderConfig {
        disable_comments: false,
        social_icon_origin: None,
        fonts: Some(vec![
            ("Lato".to_string(), "https://fonts.example/old".to_string()),
            ("Lato".to_string(), "https://fonts.example/new".to_string()),
        ]),
    };
    let out = doc.render(&config).unwrap();
    assert!(out.contains("https://fonts.example/new"));
    assert!(!out.contains("https://fonts.example/old"));
}

#[test]
fn canonical_print_strips_blank_lines_and_round_trips() {
    let spaced = "<mjml>\n\n  <mj-head>\n<mj-title>Hello</mj-title>\n\n</mj-head>\n\
<mj-body><mj-section><mj-column><mj-text>Body text</mj-text></mj-column></mj-section></mj-body>\n\
</mjml>";
    let doc = Document::parse(spaced).unwrap();
    let canon = doc.canonical_print();
    for line in canon.lines() {
        assert!(!line.trim().is_empty());
    }
    let again = Document::parse(&canon).unwrap();
    let config = RenderConfig::new();
    // Reformatting may move white space inside text nodes, which the
    // renderer preserves verbatim; apart from that the two renders agree.
    let collapse = |s: String| -> String { s.chars().filter(|c| !c.is_whitespace()).collect() };
    assert_eq!(
        collapse(doc.render(&config).unwrap()),
        collapse(again.render(&config).unwrap())
    );
    let canon_again = again.canonical_print();
    assert_eq!(canon, canon_again);
}

#[test]
fn canonical_print_reformats_a_dense_document() {
    let doc = Document::parse(MINIMAL).unwrap();
    let canon = doc.canonical_print();
    assert!(canon.contains('\n'));
    assert_ne!(canon, MINIMAL);
    assert!(Document::parse(&canon).is_ok());
}

#[test]
fn fragment_reference_fails_under_default_resolver() {
    let markup = format!(
        "<mjml><mj-body><mj-inc{} path=\"partial.mjml\" /></mj-body></mjml>",
        "lude"
    );
    let r = Document::parse(&markup);
    assert!(r.is_err());
    assert!(r.err().unwrap().message.contains("partial.mjml"));
}

const MSO_CONDITIONAL: &str = "<mjml><mj-body><mj-raw>\
<!--[if mso]><p>outlook only</p><![endif]--></mj-raw></mj-body></mjml>";

#[test]
fn well_formed_conditional_comments_parse_and_render() {
    let doc = Document::parse(MSO_CONDITIONAL).unwrap();
    let out = doc.render(&RenderConfig::new()).unwrap();
    assert!(out.contains("outlook only"));
}

#[test]
fn malformed_conditional_comments_are_a_parse_error() {
    for text in [
        "<mjml><mj-body><!--[if mso]uh-oh--></mj-body></mjml>",
        "<mjml><mj-body><![if x]y</mj-body></mjml>",
        "<mjml><mj-body><![endif x]></mj-body></mjml>",
        "<mjml><mj-body><!--[if mso]",
    ] {
        let r = Document::parse(text);
        assert!(r.is_err());
        assert_eq!(r.err().unwrap().message, "malformed conditional comment in input");
    }
}

#[test]
fn conditional_comment_screen_accepts_ordinary_markup() {
    assert!(mjml::guard::conditional_comments_ok(MINIMAL));
    assert!(mjml::guard::conditional_comments_ok(MSO_CONDITIONAL));
    assert!(mjml::guard::conditional_comments_ok(""));
    assert!(!mjml::guard::conditional_comments_ok("<![endif>"));
    assert!(!mjml::guard::conditional_comments_ok("a <!--[if ie]-- b"));
    assert!(mjml::guard::conditional_comments_ok("<![endif]>"));
    assert!(mjml::guard::conditional_comments_ok("<!--<![endif]-->"));
}
