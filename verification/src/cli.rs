//! The CLI orchestrator: a state machine over exactly one input document per
//! run.  Argument validation decides the mode — certify, migrate or render —
//! and its output routing before any parsing; execution then drives the
//! document pipeline and says what to write where.  Reading the input file
//! and performing the writes belong to the thin shell around the library,
//! which hands the file's contents in and carries the planned writes out.

use vstd::prelude::*;

verus! {

use crate::options::{RenderConfig, opt_text, effective_fonts, effective_origin};
use crate::pipeline::{Document, ParseError, RenderError, accepts, printed_of, rendered_of};
use crate::text::{strip_blank_spec, html_path_spec, html_output_path};

/// The parsed command-line arguments of one run, read-only once built.
#[derive(Debug)]
pub struct CliInvocation {
    /// Every input path supplied; exactly one is required.
    pub inputs: Vec<String>,
    /// Reformat the input to its canonical form.
    pub migrate: bool,
    /// Only validate the input.
    pub certify: bool,
    /// Echo the produced output to standard output as well.
    pub stdout: bool,
    /// Explicit output path; each mode has its own default when absent.
    pub output: Option<String>,
    /// The render sub-option, `None` when the flag was not supplied.
    pub disable_comments: Option<bool>,
    /// The render sub-option, `None` when the flag was not supplied.
    pub social_icon_origin: Option<String>,
}

/// The mode a run executes.  Priority, not mutual exclusion: certify wins
/// over migrate when both flags are set, and render is the default when
/// neither is.
#[derive(Clone, Copy, PartialEq, Eq, Structural, Debug)]
pub enum Mode {
    Certify,
    Migrate,
    Render,
}

/// The mode the two flags select: certify is checked first, then migrate,
/// and render is what remains.
pub open spec fn mode_of(certify: bool, migrate: bool) -> Mode {
    if certify {
        Mode::Certify
    } else if migrate {
        Mode::Migrate
    } else {
        Mode::Render
    }
}

/// A malformed invocation, fatal before any parsing begins.
#[derive(Clone, Copy, PartialEq, Eq, Structural, Debug)]
pub enum ArgError {
    /// No input path was supplied.
    NoInput,
    /// More than one input path was supplied.
    MultipleInputs,
    /// Render mode without the comments sub-option: the CLI surface may not
    /// fall back to render defaults silently.
    MissingDisableComments,
    /// Render mode without the social icon origin sub-option.
    MissingSocialIconOrigin,
}

impl ArgError {
    /// The diagnostic line for standard error.
    pub fn message(&self) -> (r: String)
        ensures
            *self is NoInput ==> r@ == "no input file provided"@,
            *self is MultipleInputs ==> r@ == "only one input file is allowed"@,
            *self is MissingDisableComments ==> r@ == "--disable-comments is required"@,
            *self is MissingSocialIconOrigin ==> r@ == "--social-icon-origin is required"@,
    {
        match self {
            ArgError::NoInput => "no input file provided".to_owned(),
            ArgError::MultipleInputs => "only one input file is allowed".to_owned(),
            ArgError::MissingDisableComments => "--disable-comments is required".to_owned(),
            ArgError::MissingSocialIconOrigin => "--social-icon-origin is required".to_owned(),
        }
    }
}

/// A validated run, ready to execute once the input file is read.
#[derive(Debug)]
pub struct Plan {
    /// The single input path.
    pub input_path: String,
    /// The mode the flags selected.
    pub mode: Mode,
    /// Echo the produced output to standard output as well.
    pub echo_stdout: bool,
    /// Explicit output path, if any.
    pub output: Option<String>,
    /// The render configuration built from the sub-options.
    pub config: RenderConfig,
}

/// Checks the argument-level requirements of a run: exactly one input path,
/// and — for the render mode only — both render sub-options present.  On
/// success the returned plan carries the mode, the routing and the render
/// configuration; each violation is reported as the error naming it.
pub fn validate(inv: &CliInvocation) -> (r: Result<Plan, ArgError>)
    ensures
        ({
            let m = mode_of(inv.certify, inv.migrate);
            match r {
                Ok(plan) => inv.inputs@.len() == 1 && (m is Render ==> inv.disable_comments
                    is Some && inv.social_icon_origin is Some) && plan.mode == m
                    && plan.input_path@ == inv.inputs@[0]@ && plan.echo_stdout == inv.stdout
                    && opt_text(plan.output) == opt_text(inv.output) && plan.config.fonts is None
                    && opt_text(plan.config.social_icon_origin) == opt_text(
                    inv.social_icon_origin,
                ) && (inv.disable_comments is Some ==> plan.config.disable_comments
                    == inv.disable_comments->0) && (inv.disable_comments is None
                    ==> plan.config.disable_comments == false),
                Err(ArgError::NoInput) => inv.inputs@.len() == 0,
                Err(ArgError::MultipleInputs) => inv.inputs@.len() > 1,
                Err(ArgError::MissingDisableComments) => inv.inputs@.len() == 1 && m is Render
                    && inv.disable_comments is None,
                Err(ArgError::MissingSocialIconOrigin) => inv.inputs@.len() == 1 && m is Render
                    && inv.disable_comments is Some && inv.social_icon_origin is None,
            }
        }),
{
    if inv.inputs.len() == 0 {
        return Err(ArgError::NoInput);
    }
    if inv.inputs.len() > 1 {
        return Err(ArgError::MultipleInputs);
    }
    let mode = if inv.certify {
        Mode::Certify
    } else if inv.migrate {
        Mode::Migrate
    } else {
        Mode::Render
    };
    let disable_comments = match &inv.disable_comments {
        Some(b) => Some(*b),
        None => None,
    };
    if mode == Mode::Render && disable_comments.is_none() {
        return Err(ArgError::MissingDisableComments);
    }
    let origin = match &inv.social_icon_origin {
        Some(s) => Some(s.clone()),
        None => None,
    };
    if mode == Mode::Render && origin.is_none() {
        return Err(ArgError::MissingSocialIconOrigin);
    }
    let output = match &inv.output {
        Some(s) => Some(s.clone()),
        None => None,
    };
    let dc = match disable_comments {
        Some(b) => b,
        None => false,
    };
    Ok(
        Plan {
            input_path: inv.inputs[0].clone(),
            mode,
            echo_stdout: inv.stdout,
            output,
            config: RenderConfig::from_cli_flags(dc, origin),
        },
    )
}

/// A pending file write a successful run asks its caller to perform.
#[derive(Debug)]
pub struct FileWrite {
    pub path: String,
    pub content: String,
}

/// What a successful run produced: an optional confirmation line for
/// standard output, at most one pending file write, and the output to echo
/// when the echo flag was set.  Certify asks for no write at all.
#[derive(Debug)]
pub struct CliSuccess {
    pub note: Option<String>,
    pub write: Option<FileWrite>,
    pub echo: Option<String>,
}

/// Why a run failed after validation: the input did not parse, or it
/// parsed and the renderer could not emit the document.
#[derive(Debug)]
pub enum CliError {
    Parse(ParseError),
    Render(RenderError),
}

impl CliError {
    /// The diagnostic line for standard error: the failure kind, then the
    /// engine's own message.
    pub fn message(&self) -> (r: String)
        ensures
            match *self {
                CliError::Parse(ref e) => r@ == "error parsing input file: "@ + e.message@,
                CliError::Render(ref e) => r@ == "error rendering input file: "@ + e.message@,
            },
    {
        match self {
            CliError::Parse(e) => {
                let mut m = "error parsing input file: ".to_owned();
                m.append(e.message.as_str());
                m
            },
            CliError::Render(e) => {
                let mut m = "error rendering input file: ".to_owned();
                m.append(e.message.as_str());
                m
            },
        }
    }
}

/// The migrate mode's output path: the explicit output path when given,
/// else the input path itself — migrate rewrites in place by default.
pub open spec fn migrate_target(plan: Plan) -> Seq<char> {
    match plan.output {
        Some(p) => p@,
        None => plan.input_path@,
    }
}

/// The render mode's output path: the explicit output path when given, else
/// the input path with its markup extension replaced by the HTML one.
pub open spec fn render_target(plan: Plan) -> Seq<char> {
    match plan.output {
        Some(p) => p@,
        None => html_path_spec(plan.input_path@),
    }
}

/// Executes a validated plan over the input file's contents: parse first —
/// a parse failure ends every mode — then certify stops with a confirmation
/// and no write, migrate asks to write the canonical print to its target,
/// and render asks to write the rendered HTML to its target; either of the
/// two echoes its output when the echo flag was set.
pub fn execute_plan(plan: &Plan, contents: &str) -> (r: Result<CliSuccess, CliError>)
    ensures
        r is Ok ==> accepts(contents@),
        !accepts(contents@) ==> r matches Err(CliError::Parse(_)),
        plan.mode is Certify ==> match r {
            Ok(s) => s.write is None && s.echo is None && (s.note matches Some(n) && n@
                == "input is valid mjml"@),
            Err(e) => e is Parse && !accepts(contents@),
        },
        plan.mode is Migrate ==> match r {
            Ok(s) => ({
                let canon = strip_blank_spec(printed_of(contents@));
                s.note is None && (s.write matches Some(w) && w.path@ == migrate_target(*plan)
                    && w.content@ == canon) && (plan.echo_stdout ==> (s.echo matches Some(e) && e@
                    == canon)) && (!plan.echo_stdout ==> s.echo is None)
            }),
            Err(CliError::Parse(_)) => !accepts(contents@),
            Err(CliError::Render(_)) => false,
        },
        plan.mode is Render ==> match r {
            Ok(s) => ({
                let out = rendered_of(
                    contents@,
                    plan.config.disable_comments,
                    effective_origin(plan.config),
                    effective_fonts(plan.config),
                );
                out is Some && s.note is None && (s.write matches Some(w) && w.path@
                    == render_target(*plan) && w.content@ == out->0) && (plan.echo_stdout
                    ==> (s.echo matches Some(e) && e@ == out->0)) && (!plan.echo_stdout ==> s.echo
                    is None)
            }),
            Err(CliError::Parse(_)) => !accepts(contents@),
            Err(CliError::Render(_)) => accepts(contents@) && rendered_of(
                contents@,
                plan.config.disable_comments,
                effective_origin(plan.config),
                effective_fonts(plan.config),
            ) is None,
        },
{
    let doc = match Document::parse(contents) {
        Ok(d) => d,
        Err(e) => {
            return Err(CliError::Parse(e));
        },
    };
    match plan.mode {
        Mode::Certify => Ok(
            CliSuccess { note: Some("input is valid mjml".to_owned()), write: None, echo: None },
        ),
        Mode::Migrate => {
            let canon = doc.canonical_print();
            let path = match &plan.output {
                Some(p) => p.clone(),
                None => plan.input_path.clone(),
            };
            let echo = if plan.echo_stdout {
                Some(canon.clone())
            } else {
                None
            };
            Ok(CliSuccess { note: None, write: Some(FileWrite { path, content: canon }), echo })
        },
        Mode::Render => {
            let html = match doc.render(&plan.config) {
                Ok(h) => h,
                Err(e) => {
                    return Err(CliError::Render(e));
                },
            };
            let path = match &plan.output {
                Some(p) => p.clone(),
                None => html_output_path(plan.input_path.as_str()),
            };
            let echo = if plan.echo_stdout {
                Some(html.clone())
            } else {
                None
            };
            Ok(CliSuccess { note: None, write: Some(FileWrite { path, content: html }), echo })
        },
    }
}

/// The process exit code an outcome maps to: zero exactly on success, one
/// on any failure.
pub fn exit_code(r: &Result<CliSuccess, CliError>) -> (c: i32)
    ensures
        c == 0 <==> r is Ok,
        c == 1 <==> r is Err,
{
    match r {
        Ok(_) => 0,
        Err(_) => 1,
    }
}

} // verus!
