use mjml::cli::{execute_plan, exit_code, validate, ArgError, CliError, CliInvocation, Mode};
use mjml::pipeline::Document;

fn invocation(inputs: &[&str]) -> CliInvocation {
    CliInvocation {
        inputs: inputs.iter().map(|s| s.to_string()).collect(),
        migrate: false,
        certify: false,
        stdout: false,
        output: None,
        disable_comments: Some(true),
        social_icon_origin: Some("https://icons.example/".to_string()),
    }
}

const VALID: &str = "<mjml><mj-head><mj-title>Hello</mj-title></mj-head>\
<mj-body><mj-section><mj-column><mj-text>Body text</mj-text></mj-column></mj-section></mj-body>\
</mjml>";

#[test]
fn zero_inputs_is_an_argument_error() {
    let r = validate(&invocation(&[]));
    assert_eq!(r.err(), Some(ArgError::NoInput));
}

#[test]
fn two_inputs_is_an_argument_error() {
    let r = validate(&invocation(&["a.mjml", "b.mjml"]));
    assert_eq!(r.err(), Some(ArgError::MultipleInputs));
}

#[test]
fn render_mode_requires_both_sub_options() {
    let mut inv = invocation(&["a.mjml"]);
    inv.disable_comments = None;
    assert_eq!(validate(&inv).err(), Some(ArgError::MissingDisableComments));
    let mut inv = invocation(&["a.mjml"]);
    inv.social_icon_origin = None;
    assert_eq!(validate(&inv).err(), Some(ArgError::MissingSocialIconOrigin));
}

#[test]
fn certify_mode_needs_no_render_sub_options() {
    let mut inv = invocation(&["a.mjml"]);
    inv.certify = true;
    inv.disable_comments = None;
    inv.social_icon_origin = None;
    let plan = validate(&inv).unwrap();
    assert_eq!(plan.mode, Mode::Certify);
}

#[test]
fn certify_wins_over_migrate_when_both_are_set() {
    let mut inv = invocation(&["a.mjml"]);
    inv.certify = true;
    inv.migrate = true;
    let plan = validate(&inv).unwrap();
    assert_eq!(plan.mode, Mode::Certify);
}

#[test]
fn argument_errors_have_diagnostics() {
    assert_eq!(ArgError::NoInput.message(), "no input file provided");
    assert_eq!(ArgError::MultipleInputs.message(), "only one input file is allowed");
    assert_eq!(ArgError::MissingDisableComments.message(), "--disable-comments is required");
    assert_eq!(ArgError::MissingSocialIconOrigin.message(), "--social-icon-origin is required");
}

#[test]
fn certify_on_valid_markup_exits_zero_and_writes_nothing() {
    let mut inv = invocation(&["a.mjml"]);
    inv.certify = true;
    let plan = validate(&inv).unwrap();
    let r = execute_plan(&plan, VALID);
    assert_eq!(exit_code(&r), 0);
    let s = r.ok().unwrap();
    assert!(s.write.is_none());
    assert!(s.echo.is_none());
    assert_eq!(s.note, Some("input is valid mjml".to_string()));
}

#[test]
fn certify_on_invalid_markup_exits_one_and_writes_nothing() {
    let mut inv = invocation(&["a.mjml"]);
    inv.certify = true;
    let plan = validate(&inv).unwrap();
    let r = execute_plan(&plan, "<bad-root/>");
    assert_eq!(exit_code(&r), 1);
    assert!(matches!(r, Err(CliError::Parse(_))));
}

#[test]
fn bad_root_in_render_mode_exits_one_without_output() {
    let plan = validate(&invocation(&["a.mjml"])).unwrap();
    let r = execute_plan(&plan, "<bad-root/>");
    assert_eq!(exit_code(&r), 1);
    match r {
        Err(CliError::Parse(e)) => {
            assert!(!e.message.is_empty());
        },
        _ => panic!("expected a parse failure"),
    }
}

#[test]
fn migrate_defaults_to_rewriting_the_input_path() {
    let mut inv = invocation(&["a.tmpl"]);
    inv.migrate = true;
    inv.stdout = true;
    let plan = validate(&inv).unwrap();
    let r = execute_plan(&plan, VALID);
    assert_eq!(exit_code(&r), 0);
    let s = r.ok().unwrap();
    let w = s.write.unwrap();
    assert_eq!(w.path, "a.tmpl");
    let expected = Document::parse(VALID).unwrap().canonical_print();
    assert_eq!(w.content, expected);
    assert_eq!(s.echo, Some(expected));
}

#[test]
fn migrate_honors_an_explicit_output_path() {
    let mut inv = invocation(&["a.tmpl"]);
    inv.migrate = true;
    inv.output = Some("elsewhere.tmpl".to_string());
    let plan = validate(&inv).unwrap();
    let s = execute_plan(&plan, VALID).ok().unwrap();
    assert_eq!(s.write.unwrap().path, "elsewhere.tmpl");
    assert!(s.echo.is_none());
}

#[test]
fn render_defaults_to_the_html_sibling_path() {
    let plan = validate(&invocation(&["a.tmpl"])).unwrap();
    let r = execute_plan(&plan, VALID);
    assert_eq!(exit_code(&r), 0);
    let s = r.ok().unwrap();
    let w = s.write.unwrap();
    assert_eq!(w.path, "a.html");
    assert!(w.content.contains("<html"));
    assert!(w.content.contains("Hello"));
    assert!(s.echo.is_none());
}

#[test]
fn render_honors_an_explicit_output_path() {
    let mut inv = invocation(&["a.mjml"]);
    inv.output = Some("out/mail.html".to_string());
    let plan = validate(&inv).unwrap();
    let s = execute_plan(&plan, VALID).ok().unwrap();
    assert_eq!(s.write.unwrap().path, "out/mail.html");
}

#[test]
fn cli_failures_carry_prefixed_diagnostics() {
    let plan = validate(&invocation(&["a.mjml"])).unwrap();
    let r = execute_plan(&plan, "<bad-root/>");
    let msg = r.err().unwrap().message();
    assert!(msg.starts_with("error parsing input file: "));
    assert!(msg.len() > "error parsing input file: ".len());
}
