//! Compile-and-report pipeline: resolve an execution mode and a source
//! path, hand the source text to the Python bytecode compiler, and render
//! the resulting artifact as an escaped header line plus its recursively
//! expanded disassembly text. Control flow is strictly linear, and every
//! error is terminal: either a complete report is produced, or an error
//! that names the operation it aborted on.
//!
//! The pipeline's decisions are the library's; the outside work is not.
//! The shell around it reads and canonicalizes the configured path and
//! makes the single compile attempt, and hands each outcome in as a plain
//! value: `resolve_run` decides everything up to the compiler invocation,
//! and `compiler::compile_report` decides the report from the compiler's
//! outcome.

pub mod compiler;
pub mod errors;
pub mod escape;
pub mod modes;
pub mod paths;

use vstd::prelude::*;
use crate::errors::CliError;
use crate::modes::ExecutionMode;
use crate::paths::ResolvedSource;
use crate::paths::file_name_spec;
use crate::paths::resolve_source;

verus! {

/// The configuration one run works from, created once from the command
/// line and never mutated: the source path as the user gave it, the
/// execution mode, and the optimization level to carry through to the
/// compiler.
pub struct Configuration {
    pub source_path: String,
    pub mode: ExecutionMode,
    pub optimize: u8,
}

/// Decides the pipeline up to the compiler invocation. `text` is the
/// source file's contents if it could be read, `canonical` the canonical
/// absolute form of the configured path if it exists. A failed read is
/// reported before a failed canonicalization; then the canonical path's
/// final component — never the user-supplied string — becomes the display
/// name that names the artifact everywhere after.
pub fn resolve_run(config: &Configuration, text: Option<String>, canonical: Option<String>) -> (r:
    Result<ResolvedSource, CliError>)
    ensures
        (match (text, canonical) {
            (None, _) => r matches Err(CliError::SourceRead { path }) && path@
                == config.source_path@,
            (Some(_), None) => r matches Err(CliError::PathResolution { path }) && path@
                == config.source_path@,
            (Some(t), Some(c)) => match file_name_spec(c@) {
                None => r matches Err(CliError::MissingFileName { path }) && path@ == c@,
                Some(n) => r matches Ok(res) && res.text@ == t@ && res.canonical@ == c@
                    && res.display_name@ == n,
            },
        }),
{
    resolve_source(config.source_path.as_str(), text, canonical)
}

} // verus!
