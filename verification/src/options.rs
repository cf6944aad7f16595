//! The render-options model: a sparse set of caller-supplied overrides over
//! the engine-defined defaults.  A field left at `None` keeps the engine
//! default verbatim; a supplied field replaces the default wholesale — the
//! font table in particular is substituted all-or-nothing, never merged
//! key by key.

use vstd::prelude::*;

verus! {

/// Render-time configuration.  `disable_comments` omits HTML comments from
/// the rendered output; `social_icon_origin` overrides the base URL of the
/// built-in social icon assets; `fonts` replaces the engine's built-in
/// font-family table wholesale.
#[derive(Debug)]
pub struct RenderConfig {
    pub disable_comments: bool,
    pub social_icon_origin: Option<String>,
    pub fonts: Option<Vec<(String, String)>>,
}

/// The text of an optional string.
pub open spec fn opt_text(o: Option<String>) -> Option<Seq<char>> {
    match o {
        Some(s) => Some(s@),
        None => None,
    }
}

/// The texts of a list of string pairs.
pub open spec fn pairs_view(ps: Seq<(String, String)>) -> Seq<(Seq<char>, Seq<char>)> {
    ps.map(|i: int, p: (String, String)| (p.0@, p.1@))
}

/// The mapping that a list of key/value pairs describes: entries are taken
/// left to right, a later entry for the same key replacing an earlier one.
pub open spec fn map_of_pairs(ps: Seq<(Seq<char>, Seq<char>)>) -> Map<Seq<char>, Seq<char>>
    decreases ps.len(),
{
    if ps.len() == 0 {
        Map::empty()
    } else {
        map_of_pairs(ps.drop_last()).insert(ps.last().0, ps.last().1)
    }
}

/// The engine's built-in font table, as the pairs it is made of.  The same
/// five entries as `mrml::prelude::render::default_fonts`.
pub open spec fn default_font_pairs() -> Seq<(Seq<char>, Seq<char>)> {
    seq![
        ("Open Sans"@, "https://fonts.googleapis.com/css?family=Open+Sans:300,400,500,700"@),
        ("Droid Sans"@, "https://fonts.googleapis.com/css?family=Droid+Sans:300,400,500,700"@),
        ("Lato"@, "https://fonts.googleapis.com/css?family=Lato:300,400,500,700"@),
        ("Roboto"@, "https://fonts.googleapis.com/css?family=Roboto:300,400,500,700"@),
        ("Ubuntu"@, "https://fonts.googleapis.com/css?family=Ubuntu:300,400,500,700"@),
    ]
}

/// The engine's built-in font table, as a mapping.
pub open spec fn default_fonts_map() -> Map<Seq<char>, Seq<char>> {
    map_of_pairs(default_font_pairs())
}

/// The font table a configuration asks the render step to use: the supplied
/// table when there is one, the engine default otherwise.
pub open spec fn effective_fonts(c: RenderConfig) -> Map<Seq<char>, Seq<char>> {
    match c.fonts {
        None => default_fonts_map(),
        Some(v) => map_of_pairs(pairs_view(v@)),
    }
}

/// The social icon origin a configuration asks the render step to use;
/// `None` stands for the engine-defined base URL.
pub open spec fn effective_origin(c: RenderConfig) -> Option<Seq<char>> {
    opt_text(c.social_icon_origin)
}

/// Field-independent defaulting: a configuration that leaves the font table
/// unsupplied keeps the engine's default table whole, whatever its other
/// fields hold, and one that leaves the social icon origin unsupplied keeps
/// the engine-defined base URL, whatever its other fields hold.  No partial
/// merge of the font table ever takes place: a supplied table is used as
/// given, entry for entry.
pub proof fn lemma_field_independent_defaulting(c: RenderConfig)
    ensures
        c.fonts is None ==> effective_fonts(c) == default_fonts_map(),
        c.social_icon_origin is None ==> effective_origin(c) is None,
        c.fonts is Some ==> effective_fonts(c) == map_of_pairs(pairs_view(c.fonts->0@)),
{
}

impl RenderConfig {
    /// The configuration that keeps every engine default: comments kept,
    /// engine social icon origin, engine font table.
    pub fn new() -> (r: RenderConfig)
        ensures
            r.disable_comments == false,
            r.social_icon_origin is None,
            r.fonts is None,
    {
        RenderConfig { disable_comments: false, social_icon_origin: None, fonts: None }
    }

    /// The configuration the CLI render mode builds from its two sub-options;
    /// the CLI surface never supplies a font table.
    pub fn from_cli_flags(disable_comments: bool, social_icon_origin: Option<String>) -> (r:
        RenderConfig)
        ensures
            r.disable_comments == disable_comments,
            r.social_icon_origin == social_icon_origin,
            r.fonts is None,
    {
        RenderConfig { disable_comments, social_icon_origin, fonts: None }
    }
}

/// The engine's built-in font table as an explicit list of pairs, for
/// handing to the render step when the configuration supplies no table of
/// its own.
pub fn default_fonts() -> (r: Vec<(String, String)>)
    ensures
        pairs_view(r@) == default_font_pairs(),
        map_of_pairs(pairs_view(r@)) == default_fonts_map(),
{
    let mut v: Vec<(String, String)> = Vec::new();
    v.push(
        (
            "Open Sans".to_owned(),
            "https://fonts.googleapis.com/css?family=Open+Sans:300,400,500,700".to_owned(),
        ),
    );
    v.push(
        (
            "Droid Sans".to_owned(),
            "https://fonts.googleapis.com/css?family=Droid+Sans:300,400,500,700".to_owned(),
        ),
    );
    v.push(
        (
            "Lato".to_owned(),
            "https://fonts.googleapis.com/css?family=Lato:300,400,500,700".to_owned(),
        ),
    );
    v.push(
        (
            "Roboto".to_owned(),
            "https://fonts.googleapis.com/css?family=Roboto:300,400,500,700".to_owned(),
        ),
    );
    v.push(
        (
            "Ubuntu".to_owned(),
            "https://fonts.googleapis.com/css?family=Ubuntu:300,400,500,700".to_owned(),
        ),
    );
    proof {
        assert(pairs_view(v@) =~= default_font_pairs());
    }
    v
}

} // verus!
