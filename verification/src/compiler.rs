//! Assembly of the report from the external compiler's outcome. The
//! compiler is a collaborator behind a narrow boundary: its outcome — the
//! recursively expanded disassembly text, or a diagnostic — enters as a
//! plain value, so every caller of these functions is covered whatever
//! the collaborator did. A diagnostic is terminal and is wrapped with a
//! fixed context phrase; on success the report carries a header line
//! naming the artifact, with the display name escaped.

use vstd::prelude::*;
use crate::errors::CliError;
use crate::escape::escape_seq;
use crate::escape::escape_str;

verus! {

/// The header line owed on success: `dis("<name>"):` with the display
/// name escaped.
pub open spec fn header_spec(name: Seq<char>) -> Seq<char> {
    "dis(\""@ + escape_seq(name) + "\"):"@
}

/// Builds the header line naming the artifact.
pub fn header_line(name: &str) -> (r: String)
    ensures
        r@ == header_spec(name@),
{
    let mut h = String::from_str("dis(\"");
    let escaped = escape_str(name);
    h.append(escaped.as_str());
    h.append("\"):");
    h
}

/// The two blocks a successful run prints on the standard output channel,
/// in order: the header line, then the disassembly text.
#[derive(Debug)]
pub struct Report {
    pub header: String,
    pub disassembly: String,
}

/// A report is the one owed for a compiler output and a display name:
/// its disassembly is that output unchanged, and its header names the
/// artifact, escaped.
pub open spec fn report_matches(rep: &Report, disassembly: Seq<char>, name: Seq<char>) -> bool {
    &&& rep.disassembly@ == disassembly
    &&& rep.header@ == header_spec(name)
}

/// Decides the outcome of the compile-and-report step. `outcome` carries
/// what the single compile attempt yielded: the disassembly text, or the
/// compiler's diagnostic. A diagnostic is re-reported as a `Compilation`
/// error wrapping it, and no report is produced then; on success the
/// report is exactly the one owed for the output and the display name.
pub fn compile_report(outcome: Result<String, String>, name: &str) -> (r: Result<
    Report,
    CliError,
>)
    ensures
        (match outcome {
            Ok(d) => r matches Ok(rep) && report_matches(&rep, d@, name@),
            Err(e) => r matches Err(CliError::Compilation { diagnostic }) && diagnostic@ == e@,
        }),
{
    match outcome {
        Ok(disassembly) => Ok(Report { header: header_line(name), disassembly }),
        Err(diagnostic) => Err(CliError::Compilation { diagnostic }),
    }
}

/// Law: report assembly is deterministic — two reports owed for the same
/// compiler output and the same display name are byte-identical in both
/// the header and the disassembly text.
pub proof fn lemma_report_idempotent(
    r1: &Report,
    r2: &Report,
    disassembly: Seq<char>,
    name: Seq<char>,
)
    requires
        report_matches(r1, disassembly, name),
        report_matches(r2, disassembly, name),
    ensures
        r1.header@ == r2.header@,
        r1.disassembly@ == r2.disassembly@,
{
}

} // verus!
