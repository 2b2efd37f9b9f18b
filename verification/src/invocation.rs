//! What a discovery is asked for: the directory to resolve from, the module,
//! and the environment mode. It is given as one argument beside the process's
//! own directory and environment, or as lines of text.

use vstd::prelude::*;
use crate::analysis::default_env_mode;
use crate::discovery::{orderly, start};
use crate::engine::{discover, DiscoveryStep};
use crate::text::{names, optional};

verus! {

/// What a discovery is asked for.
#[derive(Clone, Debug, PartialEq, Eq)]
pub struct Invocation {
    /// The directory from which specifiers are resolved.
    pub base_dir: String,
    /// The package on whose behalf the module is asked for, where one is named.
    pub package: Option<String>,
    /// The module whose exports are asked for.
    pub specifier: String,
    /// The environment mode that scripts are analysed under.
    pub env_mode: String,
}

/// An `Invocation` with its texts as sequences of characters.
pub struct InvocationView {
    pub base_dir: Seq<char>,
    pub package: Option<Seq<char>>,
    pub specifier: Seq<char>,
    pub env_mode: Seq<char>,
}

impl View for Invocation {
    type V = InvocationView;

    open spec fn view(&self) -> InvocationView {
        InvocationView {
            base_dir: self.base_dir@,
            package: optional(self.package),
            specifier: self.specifier@,
            env_mode: self.env_mode@,
        }
    }
}

/// Why nothing can be discovered from what was given.
#[derive(Clone, Copy, Debug, PartialEq, Eq)]
pub enum InvocationError {
    /// No module was named.
    MissingSpecifier,
    /// There are fewer lines than the working directory, the package and the
    /// module take.
    MissingLines,
}

/// The environment mode that holds for `given`: the default where none is
/// given.
pub open spec fn env_mode_or_default(given: Option<Seq<char>>) -> Seq<char> {
    match given {
        Some(mode) => mode,
        None => default_env_mode(),
    }
}

/// What is asked for by one argument: the module it names, resolved from
/// `working_dir`, under `env_mode` or the default.
pub open spec fn argument_invocation(
    argument: Option<Seq<char>>,
    working_dir: Seq<char>,
    env_mode: Option<Seq<char>>,
) -> Result<InvocationView, InvocationError> {
    match argument {
        Some(specifier) => Ok(
            InvocationView {
                base_dir: working_dir,
                package: None,
                specifier,
                env_mode: env_mode_or_default(env_mode),
            },
        ),
        None => Err(InvocationError::MissingSpecifier),
    }
}

/// What is asked for by lines of text: the working directory, the package on
/// whose behalf the module is asked for, the module, and then, if there is a
/// fourth line, the environment mode.
pub open spec fn lines_invocation(lines: Seq<Seq<char>>) -> Result<
    InvocationView,
    InvocationError,
> {
    if lines.len() < 3 {
        Err(InvocationError::MissingLines)
    } else {
        Ok(
            InvocationView {
                base_dir: lines[0],
                package: Some(lines[1]),
                specifier: lines[2],
                env_mode: if lines.len() > 3 {
                    lines[3]
                } else {
                    default_env_mode()
                },
            },
        )
    }
}

/// The view of what was made of what was given.
pub open spec fn invocation_view(
    made: Result<Invocation, InvocationError>,
) -> Result<InvocationView, InvocationError> {
    match made {
        Ok(invocation) => Ok(invocation@),
        Err(error) => Err(error),
    }
}

impl Invocation {
    /// What is asked for by one argument, in `working_dir` and with `env_mode`
    /// as the environment has it.
    pub fn from_argument(
        argument: Option<String>,
        working_dir: String,
        env_mode: Option<String>,
    ) -> (r: Result<Invocation, InvocationError>)
        ensures
            invocation_view(r) == argument_invocation(
                optional(argument),
                working_dir@,
                optional(env_mode),
            ),
    {
        match argument {
            Some(specifier) => {
                let env_mode = match env_mode {
                    Some(mode) => mode,
                    None => "production".to_owned(),
                };
                Ok(Invocation { base_dir: working_dir, package: None, specifier, env_mode })
            },
            None => Err(InvocationError::MissingSpecifier),
        }
    }

    /// What is asked for by lines of text.
    pub fn from_lines(lines: &Vec<String>) -> (r: Result<Invocation, InvocationError>)
        ensures
            invocation_view(r) == lines_invocation(names(lines@)),
    {
        if lines.len() < 3 {
            return Err(InvocationError::MissingLines);
        }
        let env_mode = if lines.len() > 3 {
            lines[3].clone()
        } else {
            "production".to_owned()
        };
        Ok(
            Invocation {
                base_dir: lines[0].clone(),
                package: Some(lines[1].clone()),
                specifier: lines[2].clone(),
                env_mode,
            },
        )
    }

    /// The first step of the discovery that is asked for.
    pub fn begin(&self) -> (r: DiscoveryStep)
        ensures
            r@ == start(self@.base_dir, self@.specifier, self@.env_mode),
            orderly(r@),
    {
        discover(self.base_dir.as_str(), self.specifier.as_str(), self.env_mode.as_str())
    }
}

} // verus!
