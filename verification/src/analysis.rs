//! What the analysis of one file gives, and the options it is asked with.

use vstd::prelude::*;
use crate::discovery::{invalid_json, is_json};
use crate::json::{analyze_json, json_output, json_top_level_keys};
use crate::text::{ends_with, names};

verus! {

/// What one file offers: the names it exports itself, and the specifiers of the
/// modules whose exports it hands on. A specifier may end in the call marker.
#[derive(Clone, Debug, PartialEq, Eq)]
pub struct Output {
    pub exports: Vec<String>,
    pub reexports: Vec<String>,
}

/// An `Output` with its names as sequences of characters.
pub struct OutputView {
    pub exports: Seq<Seq<char>>,
    pub reexports: Seq<Seq<char>>,
}

impl View for Output {
    type V = OutputView;

    open spec fn view(&self) -> OutputView {
        OutputView { exports: names(self.exports@), reexports: names(self.reexports@) }
    }
}

/// The environment mode that holds where none is given.
pub open spec fn default_env_mode() -> Seq<char> {
    "production"@
}

/// What the caller of a single-file analysis may set. What is left out takes
/// its default.
#[derive(Clone, Debug, PartialEq, Eq)]
pub struct Options {
    pub node_env: Option<String>,
    pub call_mode: Option<bool>,
}

impl Options {
    /// The environment mode: the one given, or the default.
    pub open spec fn env_mode_spec(&self) -> Seq<char> {
        match self.node_env {
            Some(mode) => mode@,
            None => default_env_mode(),
        }
    }

    /// Whether the file's exported value is called before use: as given, or not.
    pub open spec fn call_indirection_spec(&self) -> bool {
        match self.call_mode {
            Some(flag) => flag,
            None => false,
        }
    }

    /// Options with nothing set.
    pub fn unset() -> (r: Options)
        ensures
            r.node_env is None,
            r.call_mode is None,
    {
        Options { node_env: None, call_mode: None }
    }

    /// The environment mode: the one given, or the default.
    pub fn env_mode(&self) -> (r: String)
        ensures
            r@ == self.env_mode_spec(),
    {
        match &self.node_env {
            Some(mode) => mode.clone(),
            None => "production".to_owned(),
        }
    }

    /// Whether the file's exported value is called before use: as given, or not.
    pub fn call_indirection(&self) -> (r: bool)
        ensures
            r == self.call_indirection_spec(),
    {
        match self.call_mode {
            Some(flag) => flag,
            None => false,
        }
    }
}

/// What the analysis of a script is asked with.
#[derive(Clone, Debug, PartialEq, Eq)]
pub struct ScriptRequest {
    pub filename: String,
    pub source: String,
    pub env_mode: String,
    pub call_indirection: bool,
}

/// A `ScriptRequest` with its texts as sequences of characters.
pub struct ScriptRequestView {
    pub filename: Seq<char>,
    pub source: Seq<char>,
    pub env_mode: Seq<char>,
    pub call_indirection: bool,
}

impl View for ScriptRequest {
    type V = ScriptRequestView;

    open spec fn view(&self) -> ScriptRequestView {
        ScriptRequestView {
            filename: self.filename@,
            source: self.source@,
            env_mode: self.env_mode@,
            call_indirection: self.call_indirection,
        }
    }
}

/// What the analysis of one file comes to before a script is looked into.
pub enum Parsed {
    /// The file is JSON: this is what it offers, or why it does not parse.
    Json(Result<Output, String>),
    /// The file is a script: its analysis is to be asked with this.
    Script(ScriptRequest),
}

/// A `Parsed` with its texts as sequences of characters.
pub enum ParsedView {
    Json(Result<OutputView, Seq<char>>),
    Script(ScriptRequestView),
}

impl View for Parsed {
    type V = ParsedView;

    open spec fn view(&self) -> ParsedView {
        match *self {
            Parsed::Json(Ok(output)) => ParsedView::Json(Ok(output@)),
            Parsed::Json(Err(message)) => ParsedView::Json(Err(message@)),
            Parsed::Script(request) => ParsedView::Script(request@),
        }
    }
}

/// What the analysis of the one file `filename` comes to: a JSON file offers
/// what its top-level keys say; a script is to be analysed under the options'
/// environment mode and call flag.
pub open spec fn parsed(filename: Seq<char>, source: Seq<char>, options: Options) -> ParsedView {
    if is_json(filename) {
        match json_top_level_keys(source) {
            Some(keys) => ParsedView::Json(Ok(json_output(keys))),
            None => ParsedView::Json(Err(invalid_json())),
        }
    } else {
        ParsedView::Script(
            ScriptRequestView {
                filename,
                source,
                env_mode: options.env_mode_spec(),
                call_indirection: options.call_indirection_spec(),
            },
        )
    }
}

/// The analysis of one file, with nothing resolved and no other file read.
pub fn parse(filename: &str, code: &str, options: &Options) -> (r: Parsed)
    ensures
        r@ == parsed(filename@, code@, *options),
{
    if ends_with(filename, ".json") {
        match analyze_json(code) {
            Ok(output) => Parsed::Json(Ok(output)),
            Err(_) => Parsed::Json(Err("invalid JSON".to_owned())),
        }
    } else {
        Parsed::Script(
            ScriptRequest {
                filename: filename.to_owned(),
                source: code.to_owned(),
                env_mode: options.env_mode(),
                call_indirection: options.call_indirection(),
            },
        )
    }
}

} // verus!
