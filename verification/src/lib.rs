//! Conversion of MJML markup documents to HTML, with a CLI-style workflow
//! around the conversion: validation ("certify"), canonical reformatting
//! ("migrate") and rendering.  The parsing and HTML generation themselves are
//! done by the `mrml` engine; this crate owns and verifies the orchestration
//! around it: render-option defaulting, include-resolution bridging, the
//! document pipeline and the CLI mode state machine.

pub mod text;

pub mod options;

pub mod guard;

pub mod resolve;

pub mod pipeline;

pub mod cli;

