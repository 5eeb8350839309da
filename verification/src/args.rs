//! The configuration of a run, and what is refused before any record is
//! looked at.

use crate::fixed::{build_finders, byte_forms, needles_of};
use crate::predicate::Criteria;
use crate::processor::GrepProcessor;
use crate::regexp::{
    all_compile, compile_all, compiled_all, first_refused, spans_of_all, texts_of,
};
use memchr::memmem::Finder;
use regex::bytes::Regex;
use vstd::prelude::*;

verus! {

/// The read, or reads, that a list of patterns is looked for in.
#[derive(Debug, Clone, Copy, PartialEq, Eq, Structural)]
pub enum PatternRole {
    Primary,
    Secondary,
    Either,
}

/// Why a configuration is refused.
#[derive(Debug, Clone, Copy, PartialEq, Eq, Structural)]
pub enum ConfigurationError {
    /// All six lists of patterns are empty.
    NoPatterns,
    /// The source at `index` of the expressions for `role` does not compile.
    InvalidRegex { role: PatternRole, index: usize },
    /// Neither one nor two inputs were named.
    InputCount { given: usize },
}

impl ConfigurationError {
    /// A sentence for the user.
    pub fn message(&self) -> (text: String)
        ensures
            text@ == match *self {
                ConfigurationError::NoPatterns => "At least one pattern must be specified"@,
                ConfigurationError::InvalidRegex { .. } => "Could not build regex from pattern"@,
                ConfigurationError::InputCount { .. } => "Must provide either 1 or 2 input files"@,
            },
    {
        match self {
            ConfigurationError::NoPatterns => "At least one pattern must be specified".to_string(),
            ConfigurationError::InvalidRegex { .. } => {
                "Could not build regex from pattern".to_string()
            },
            ConfigurationError::InputCount { .. } => {
                "Must provide either 1 or 2 input files".to_string()
            },
        }
    }
}

/// The search options: fixed patterns and regular-expression sources for the
/// primary read, the secondary read and either read, and whether the
/// selection is inverted.
#[derive(Debug)]
pub struct GrepArgs {
    /// Fixed patterns to find in the primary read.
    pub pat1: Vec<String>,
    /// Fixed patterns to find in the secondary read.
    pub pat2: Vec<String>,
    /// Fixed patterns to find in either read.
    pub pat: Vec<String>,
    /// Expressions to match in the primary read.
    pub reg1: Vec<String>,
    /// Expressions to match in the secondary read.
    pub reg2: Vec<String>,
    /// Expressions to match in either read.
    pub reg: Vec<String>,
    /// Select what the criteria do not hold of.
    pub invert: bool,
}

impl GrepArgs {
    /// No list holds a pattern.
    pub open spec fn is_blank(&self) -> bool {
        &&& self.pat1@.len() == 0
        &&& self.pat2@.len() == 0
        &&& self.pat@.len() == 0
        &&& self.reg1@.len() == 0
        &&& self.reg2@.len() == 0
        &&& self.reg@.len() == 0
    }

    /// The criteria that these options ask for: the bytes of each fixed
    /// pattern, and of each expression what its source compiles to.
    pub open spec fn criteria(&self) -> Criteria {
        Criteria {
            fixed_primary: byte_forms(self.pat1@),
            fixed_secondary: byte_forms(self.pat2@),
            fixed_either: byte_forms(self.pat@),
            regex_primary: compiled_all(texts_of(self.reg1@)),
            regex_secondary: compiled_all(texts_of(self.reg2@)),
            regex_either: compiled_all(texts_of(self.reg@)),
            invert: self.invert,
        }
    }

    /// Compiling the expressions in the order primary, secondary, either
    /// stops at the source at `index` of the list for `role`.
    pub open spec fn stops_at(&self, role: PatternRole, index: int) -> bool {
        match role {
            PatternRole::Primary => first_refused(texts_of(self.reg1@), index),
            PatternRole::Secondary => all_compile(texts_of(self.reg1@)) && first_refused(
                texts_of(self.reg2@),
                index,
            ),
            PatternRole::Either => all_compile(texts_of(self.reg1@)) && all_compile(
                texts_of(self.reg2@),
            ) && first_refused(texts_of(self.reg@), index),
        }
    }

    /// Every expression of the three lists compiles.
    pub open spec fn compiles(&self) -> bool {
        &&& all_compile(texts_of(self.reg1@))
        &&& all_compile(texts_of(self.reg2@))
        &&& all_compile(texts_of(self.reg@))
    }

    /// Refuses options that name no pattern at all.
    pub fn validate(&self) -> (checked: Result<(), ConfigurationError>)
        ensures
            checked == if self.is_blank() {
                Err::<(), ConfigurationError>(ConfigurationError::NoPatterns)
            } else {
                Ok::<(), ConfigurationError>(())
            },
    {
        if self.pat1.is_empty() && self.pat2.is_empty() && self.pat.is_empty()
            && self.reg1.is_empty() && self.reg2.is_empty() && self.reg.is_empty() {
            return Err(ConfigurationError::NoPatterns);
        }
        Ok(())
    }

    /// Searchers for the fixed patterns of the primary read.
    pub fn bytes_mp1(&self) -> (finders: Vec<Finder<'static>>)
        ensures
            needles_of(finders@) == self.criteria().fixed_primary,
    {
        build_finders(&self.pat1)
    }

    /// Searchers for the fixed patterns of the secondary read.
    pub fn bytes_mp2(&self) -> (finders: Vec<Finder<'static>>)
        ensures
            needles_of(finders@) == self.criteria().fixed_secondary,
    {
        build_finders(&self.pat2)
    }

    /// Searchers for the fixed patterns of either read.
    pub fn bytes_pat(&self) -> (finders: Vec<Finder<'static>>)
        ensures
            needles_of(finders@) == self.criteria().fixed_either,
    {
        build_finders(&self.pat)
    }

    /// The compiled expressions for the primary read, or the first source
    /// among them that does not compile.
    pub fn bytes_reg1(&self) -> (built: Result<Vec<Regex>, ConfigurationError>)
        ensures
            compiled_as(built, texts_of(self.reg1@), PatternRole::Primary),
    {
        match compile_all(&self.reg1) {
            Ok(res) => Ok(res),
            Err(index) => Err(ConfigurationError::InvalidRegex { role: PatternRole::Primary, index }),
        }
    }

    /// The compiled expressions for the secondary read, or the first source
    /// among them that does not compile.
    pub fn bytes_reg2(&self) -> (built: Result<Vec<Regex>, ConfigurationError>)
        ensures
            compiled_as(built, texts_of(self.reg2@), PatternRole::Secondary),
    {
        match compile_all(&self.reg2) {
            Ok(res) => Ok(res),
            Err(index) => Err(
                ConfigurationError::InvalidRegex { role: PatternRole::Secondary, index },
            ),
        }
    }

    /// The compiled expressions for either read, or the first source among
    /// them that does not compile.
    pub fn bytes_reg(&self) -> (built: Result<Vec<Regex>, ConfigurationError>)
        ensures
            compiled_as(built, texts_of(self.reg@), PatternRole::Either),
    {
        match compile_all(&self.reg) {
            Ok(res) => Ok(res),
            Err(index) => Err(ConfigurationError::InvalidRegex { role: PatternRole::Either, index }),
        }
    }

    /// A fresh worker for these options. The expressions are compiled in the
    /// order primary, secondary, either, and the first source that does not
    /// compile is reported.
    pub fn build_processor(&self) -> (built: Result<GrepProcessor, ConfigurationError>)
        ensures
            built_as(built, *self),
    {
        let mp1 = self.bytes_mp1();
        let mp2 = self.bytes_mp2();
        let pat = self.bytes_pat();
        let re1 = match self.bytes_reg1() {
            Ok(res) => res,
            Err(e) => {
                return Err(e);
            },
        };
        let re2 = match self.bytes_reg2() {
            Ok(res) => res,
            Err(e) => {
                return Err(e);
            },
        };
        let re = match self.bytes_reg() {
            Ok(res) => res,
            Err(e) => {
                return Err(e);
            },
        };
        Ok(GrepProcessor::new(mp1, mp2, pat, re1, re2, re, self.invert))
    }
}

/// `built` is what building a worker for `args` owes: a fresh worker with
/// the criteria that the options ask for where every expression compiles,
/// and otherwise the refusal that names the first source that does not.
pub open spec fn built_as(built: Result<GrepProcessor, ConfigurationError>, args: GrepArgs) -> bool {
    match built {
        Ok(worker) => {
            &&& args.compiles()
            &&& worker.criteria() == args.criteria()
            &&& worker.buffered() == Seq::<u8>::empty()
            &&& worker.counted() == 0
        },
        Err(ConfigurationError::InvalidRegex { role, index }) => args.stops_at(role, index as int),
        Err(_) => false,
    }
}

/// Whether the reads come alone or in pairs.
#[derive(Debug, Clone, Copy, PartialEq, Eq, Structural)]
pub enum InputMode {
    /// One input: single reads.
    Single,
    /// Two inputs: the reads of the second are the secondary reads.
    Paired,
}

/// The whole command: inputs, output, number of workers and search options.
#[derive(Debug)]
pub struct GrepCommand {
    /// Input file paths (two files are assumed paired).
    pub inputs: Vec<String>,
    /// Output file path; standard output where there is none.
    pub output: Option<String>,
    /// Number of workers.
    pub threads: usize,
    /// The search options.
    pub grep: GrepArgs,
}

impl GrepCommand {
    /// One input means single reads, two mean pairs; any other number is
    /// refused.
    pub fn input_mode(&self) -> (mode: Result<InputMode, ConfigurationError>)
        ensures
            mode == if self.inputs@.len() == 2 {
                Ok::<InputMode, ConfigurationError>(InputMode::Paired)
            } else if self.inputs@.len() == 1 {
                Ok::<InputMode, ConfigurationError>(InputMode::Single)
            } else {
                Err::<InputMode, ConfigurationError>(
                    ConfigurationError::InputCount { given: self.inputs@.len() as usize },
                )
            },
    {
        if self.inputs.len() == 2 {
            Ok(InputMode::Paired)
        } else if self.inputs.len() == 1 {
            Ok(InputMode::Single)
        } else {
            Err(ConfigurationError::InputCount { given: self.inputs.len() })
        }
    }

    /// Everything that is decided before an input is opened: the options
    /// name a pattern, the inputs are one or two, and every expression
    /// compiles. The checks are made in that order, and the first that fails
    /// is reported.
    pub fn prepare(&self) -> (plan: Result<(InputMode, GrepProcessor), ConfigurationError>)
        ensures
            prepared_as(plan, *self),
    {
        match self.grep.validate() {
            Ok(()) => {},
            Err(e) => {
                return Err(e);
            },
        }
        let mode = match self.input_mode() {
            Ok(mode) => mode,
            Err(e) => {
                return Err(e);
            },
        };
        match self.grep.build_processor() {
            Ok(worker) => Ok((mode, worker)),
            Err(e) => Err(e),
        }
    }
}

/// `plan` is what preparing `command` owes.
pub open spec fn prepared_as(
    plan: Result<(InputMode, GrepProcessor), ConfigurationError>,
    command: GrepCommand,
) -> bool {
    if command.grep.is_blank() {
        plan == Err::<(InputMode, GrepProcessor), ConfigurationError>(
            ConfigurationError::NoPatterns,
        )
    } else if command.inputs@.len() != 1 && command.inputs@.len() != 2 {
        plan == Err::<(InputMode, GrepProcessor), ConfigurationError>(
            ConfigurationError::InputCount { given: command.inputs@.len() as usize },
        )
    } else {
        match plan {
            Ok((mode, worker)) => {
                &&& mode == if command.inputs@.len() == 2 {
                    InputMode::Paired
                } else {
                    InputMode::Single
                }
                &&& built_as(Ok(worker), command.grep)
            },
            Err(e) => built_as(Err(e), command.grep),
        }
    }
}

/// `built` is what compiling `texts` for `role` owes: the expressions, one
/// for each source, where all sources compile, and otherwise the refusal that
/// names the first source that does not.
pub open spec fn compiled_as(
    built: Result<Vec<Regex>, ConfigurationError>,
    texts: Seq<Seq<char>>,
    role: PatternRole,
) -> bool {
    match built {
        Ok(res) => all_compile(texts) && spans_of_all(res@) == compiled_all(texts),
        Err(ConfigurationError::InvalidRegex { role: r, index }) => r == role && first_refused(
            texts,
            index as int,
        ),
        Err(_) => false,
    }
}

} // verus!
