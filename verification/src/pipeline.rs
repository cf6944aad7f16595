//! The document pipeline: one conversion owns the parse step, and — once the
//! document is parsed — the derived facts (title, preview), the canonical
//! print used by the migrate mode, and the render step.  The grammar and the
//! HTML generation belong to the `mrml` engine and are consumed here through
//! a narrow trusted boundary; everything around that boundary is verified.

use vstd::prelude::*;

use mrml::prelude::print::Printable;

verus! {

use crate::options::{
    RenderConfig,
    opt_text,
    pairs_view,
    map_of_pairs,
    effective_fonts,
    effective_origin,
    default_fonts,
};
use crate::text::{
    strip_blank_lines,
    strip_blank_spec,
    has_no_blank_lines,
    lemma_stripped_has_no_blank_lines,
};
use crate::guard::{cc_well_formed, conditional_comments_ok};

#[verifier::external_type_specification]
#[verifier::external_body]
#[verifier::reject_recursive_types(Tag)]
#[verifier::reject_recursive_types(Attributes)]
#[verifier::reject_recursive_types(Children)]
pub struct ExComponent<Tag, Attributes, Children>(
    mrml::prelude::Component<Tag, Attributes, Children>,
);

#[verifier::external_type_specification]
#[verifier::external_body]
pub struct ExMjmlTag(mrml::mjml::MjmlTag);

#[verifier::external_type_specification]
#[verifier::external_body]
pub struct ExMjmlAttributes(mrml::mjml::MjmlAttributes);

#[verifier::external_type_specification]
#[verifier::external_body]
pub struct ExMjmlChildren(mrml::mjml::MjmlChildren);

/// The outcome of `mrml::parse` under its default parser options: `Ok` when
/// the text parses, else the engine's diagnostic text, its cause chain
/// appended.  Deterministic in the input text alone.
pub uninterp spec fn parse_outcome(text: Seq<char>) -> Result<(), Seq<char>>;

/// Whether the engine parses the text.
pub open spec fn parses(text: Seq<char>) -> bool {
    parse_outcome(text) is Ok
}

/// Whether the pipeline accepts the text: its conditional comments pass the
/// screen of `crate::guard` — so the engine's tokenizer returns at all —
/// and the engine parses it.
pub open spec fn accepts(text: Seq<char>) -> bool {
    cc_well_formed(text) && parses(text)
}

/// The engine's pretty-printed form of the document parsed from `text`.
pub uninterp spec fn printed_of(text: Seq<char>) -> Seq<char>;

/// The HTML the engine renders from the document parsed from `text` under
/// the given options, when rendering succeeds.  The font table is consulted
/// by name only, so the result depends on the mapping, not on the order its
/// entries were supplied in.
pub uninterp spec fn rendered_of(
    text: Seq<char>,
    disable_comments: bool,
    origin: Option<Seq<char>>,
    fonts: Map<Seq<char>, Seq<char>>,
) -> Option<Seq<char>>;

/// The title the engine derives from the document parsed from `text`.
pub uninterp spec fn title_of(text: Seq<char>) -> Option<Seq<char>>;

/// The preview the engine derives from the document parsed from `text`.
pub uninterp spec fn preview_of(text: Seq<char>) -> Option<Seq<char>>;

/// A parse failure: the markup was structurally invalid, or a referenced
/// fragment could not be resolved.  Carries the engine's diagnostic text.
#[derive(Debug)]
pub struct ParseError {
    pub message: String,
}

/// A render failure: the parsed tree holds a construct the renderer cannot
/// emit.  Strictly distinct from a parse failure; it occurs only after a
/// successful parse.  Carries the engine's diagnostic text.
#[derive(Debug)]
pub struct RenderError {
    pub message: String,
}

/// A parsed document: the engine's handle, immutable once constructed and
/// owned by one conversion, beside the text it was parsed from.  Its
/// mathematical identity is that source text, which parsing is
/// deterministic in.
pub struct Document {
    inner: mrml::mjml::Mjml,
    src: String,
}

impl View for Document {
    type V = Seq<char>;

    closed spec fn view(&self) -> Seq<char> {
        self.src@
    }
}

/// Relies on `mrml::parse`: under the default parser options (whose loader
/// resolves no fragment reference) it is deterministic in the input text;
/// `parse_outcome` names its result.  Its tokenizer panics on malformed
/// conditional comments, so only texts the screen accepts are admitted.
#[verifier::external_body]
fn engine_parse(text: &str) -> (r: Result<Document, String>)
    requires
        cc_well_formed(text@),
    ensures
        r is Ok <==> parse_outcome(text@) is Ok,
        r is Ok ==> r->Ok_0@ == text@,
        r is Err ==> r->Err_0@ == parse_outcome(text@)->Err_0,
{
    match mrml::parse(text) {
        Ok(out) => Ok(Document { inner: out.element, src: text.to_owned() }),
        Err(e) => {
            let mut msg = e.to_string();
            let mut cause = std::error::Error::source(&e);
            while let Some(c) = cause {
                msg = format!("{}: {}", msg, c);
                cause = std::error::Error::source(c);
            }
            Err(msg)
        },
    }
}

/// Relies on mrml's `Printable::print_pretty`: the pretty-printed form is
/// deterministic in the parsed document, hence in the text it was parsed
/// from, and total — its printers write only into a `String`, which cannot
/// fail; `printed_of` names the printed text.
#[verifier::external_body]
fn engine_print(d: &Document) -> (r: String)
    ensures
        r@ == printed_of(d@),
{
    d.inner.print_pretty().unwrap_or_default()
}

/// Relies on mrml's `Mjml::render`: rendering is deterministic in the parsed
/// document and the options, and reads the font table by name only;
/// `rendered_of` names its outcome.
#[verifier::external_body]
fn engine_render(
    d: &Document,
    disable_comments: bool,
    origin: &Option<String>,
    fonts: &Vec<(String, String)>,
) -> (r: Result<String, String>)
    ensures
        r is Ok <==> rendered_of(
            d@,
            disable_comments,
            opt_text(*origin),
            map_of_pairs(pairs_view(fonts@)),
        ) is Some,
        r is Ok ==> Some(r->Ok_0@) == rendered_of(
            d@,
            disable_comments,
            opt_text(*origin),
            map_of_pairs(pairs_view(fonts@)),
        ),
{
    let opts = mrml::prelude::render::RenderOptions {
        disable_comments,
        social_icon_origin: origin.clone().map(std::borrow::Cow::Owned),
        fonts: fonts.iter().map(
            |p: &(String, String)| (p.0.clone(), std::borrow::Cow::Owned(p.1.clone())),
        ).collect(),
    };
    d.inner.render(&opts).map_err(|e| e.to_string())
}

/// Relies on mrml's `Mjml::get_title`: the derived title is deterministic in
/// the parsed document; `title_of` names it.
#[verifier::external_body]
fn engine_title(d: &Document) -> (r: Option<String>)
    ensures
        opt_text(r) == title_of(d@),
{
    d.inner.get_title()
}

/// Relies on mrml's `Mjml::get_preview`: the derived preview is
/// deterministic in the parsed document; `preview_of` names it.
#[verifier::external_body]
fn engine_preview(d: &Document) -> (r: Option<String>)
    ensures
        opt_text(r) == preview_of(d@),
{
    d.inner.get_preview()
}

impl Document {
    /// Parses raw markup text with the engine, under the default resolver:
    /// a document without fragment references parses on its own merits, one
    /// with a reference fails with a parse error carrying the engine's
    /// diagnostic and the failing path.  A text whose conditional comments
    /// the engine's tokenizer would not survive is screened out first and
    /// reported as a parse error of its own.
    pub fn parse(text: &str) -> (r: Result<Document, ParseError>)
        ensures
            r is Ok <==> accepts(text@),
            r is Ok ==> r->Ok_0@ == text@,
            r is Err && cc_well_formed(text@) ==> r->Err_0.message@ == parse_outcome(
                text@,
            )->Err_0,
            !cc_well_formed(text@) ==> (r matches Err(e) && e.message@
                == "malformed conditional comment in input"@),
    {
        if !conditional_comments_ok(text) {
            return Err(
                ParseError { message: "malformed conditional comment in input".to_owned() },
            );
        }
        match engine_parse(text) {
            Ok(d) => Ok(d),
            Err(m) => Err(ParseError { message: m }),
        }
    }

    /// The title element's content, when the document has one; absence is a
    /// normal outcome, not an error.
    pub fn title(&self) -> (r: Option<String>)
        ensures
            opt_text(r) == title_of(self@),
    {
        engine_title(self)
    }

    /// The preview element's content, when the document has one; absence is
    /// a normal outcome, not an error.
    pub fn preview(&self) -> (r: Option<String>)
        ensures
            opt_text(r) == preview_of(self@),
    {
        engine_preview(self)
    }

    /// The canonical, re-parseable textual form of the document: the
    /// engine's pretty print, followed by the required pass that strips
    /// every line whose trimmed content is empty.  Total, as the engine's
    /// printer is; the result never holds a blank line, whatever the engine
    /// printed.
    pub fn canonical_print(&self) -> (r: String)
        ensures
            r@ == strip_blank_spec(printed_of(self@)),
            has_no_blank_lines(r@),
    {
        let raw = engine_print(self);
        let out = strip_blank_lines(raw.as_str());
        proof {
            lemma_stripped_has_no_blank_lines(printed_of(self@));
        }
        out
    }

    /// Renders the document to an HTML string under the given
    /// configuration: the engine receives exactly the configuration's
    /// effective options — a supplied font table wholesale, the built-in
    /// table otherwise.
    pub fn render(&self, config: &RenderConfig) -> (r: Result<String, RenderError>)
        ensures
            r is Ok <==> rendered_of(
                self@,
                config.disable_comments,
                effective_origin(*config),
                effective_fonts(*config),
            ) is Some,
            r is Ok ==> Some(r->Ok_0@) == rendered_of(
                self@,
                config.disable_comments,
                effective_origin(*config),
                effective_fonts(*config),
            ),
    {
        let outcome = match &config.fonts {
            Some(v) => engine_render(self, config.disable_comments, &config.social_icon_origin, v),
            None => {
                let defaults = default_fonts();
                engine_render(self, config.disable_comments, &config.social_icon_origin, &defaults)
            },
        };
        match outcome {
            Ok(html) => Ok(html),
            Err(m) => Err(RenderError { message: m }),
        }
    }
}

/// Why a one-shot conversion failed: the markup did not parse, or it parsed
/// and the renderer could not emit it.
#[derive(Debug)]
pub enum ConvertError {
    Parse(ParseError),
    Render(RenderError),
}

/// One-shot parse-and-render: the embeddable entry point.  Parses the input
/// under the default resolver and renders it under the given configuration;
/// each failure kind surfaces as its own error.
pub fn convert(input: &str, config: &RenderConfig) -> (r: Result<String, ConvertError>)
    ensures
        !accepts(input@) ==> r matches Err(ConvertError::Parse(_)),
        accepts(input@) ==> ({
            let out = rendered_of(
                input@,
                config.disable_comments,
                effective_origin(*config),
                effective_fonts(*config),
            );
            match r {
                Ok(html) => out == Some(html@),
                Err(e) => e matches ConvertError::Render(_) && out is None,
            }
        }),
{
    let doc = match Document::parse(input) {
        Ok(d) => d,
        Err(e) => {
            return Err(ConvertError::Parse(e));
        },
    };
    match doc.render(config) {
        Ok(html) => Ok(html),
        Err(e) => Err(ConvertError::Render(e)),
    }
}

} // verus!
