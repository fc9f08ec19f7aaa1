//! The closed set of execution modes and the resolver that maps a free-text
//! token onto it. Exactly four case-sensitive tokens are accepted; any
//! other token is rejected before any compilation work begins.

use vstd::prelude::*;
use crate::errors::CliError;

verus! {

/// The compilation target shape: a whole program, a single evaluated
/// expression, one interactive statement, or a block treated as an
/// expression. No other values are valid.
#[derive(Clone, Copy, PartialEq, Eq, Structural, Debug)]
pub enum ExecutionMode {
    Exec,
    Eval,
    Single,
    BlockExpr,
}

impl Default for ExecutionMode {
    /// The default mode is whole-program execution.
    fn default() -> (r: Self)
        ensures
            r == ExecutionMode::Exec,
    {
        ExecutionMode::Exec
    }
}

/// Character-for-character string equality.
pub fn str_eq(a: &str, b: &str) -> (r: bool)
    ensures
        r == (a@ == b@),
{
    let alen = a.unicode_len();
    let blen = b.unicode_len();
    if alen != blen {
        return false;
    }
    let mut i: usize = 0;
    while i < alen
        invariant
            alen == a@.len(),
            blen == b@.len(),
            alen == blen,
            i <= alen,
            forall|j: int| 0 <= j < i ==> a@[j] == b@[j],
        decreases alen - i,
    {
        if a.get_char(i) != b.get_char(i) {
            return false;
        }
        i += 1;
    }
    proof {
        assert(a@ =~= b@);
    }
    true
}

/// Resolves a mode token: exactly `exec`, `eval`, `single` and `block-expr`
/// map to the four modes; every other token (the empty string, other case,
/// surrounding whitespace) is rejected with an `InvalidMode` error that
/// carries the offending token.
pub fn parse_mode(token: &str) -> (r: Result<ExecutionMode, CliError>)
    ensures
        token@ == "exec"@ ==> r == Ok::<ExecutionMode, CliError>(ExecutionMode::Exec),
        token@ == "eval"@ ==> r == Ok::<ExecutionMode, CliError>(ExecutionMode::Eval),
        token@ == "single"@ ==> r == Ok::<ExecutionMode, CliError>(ExecutionMode::Single),
        token@ == "block-expr"@ ==> r == Ok::<ExecutionMode, CliError>(ExecutionMode::BlockExpr),
        !(token@ == "exec"@ || token@ == "eval"@ || token@ == "single"@ || token@
            == "block-expr"@) ==> (r matches Err(CliError::InvalidMode { token: t }) && t@
            == token@),
{
    proof {
        reveal_strlit("exec");
        reveal_strlit("eval");
        reveal_strlit("single");
        reveal_strlit("block-expr");
        assert("exec"@.len() == 4);
        assert("eval"@.len() == 4);
        assert("single"@.len() == 6);
        assert("block-expr"@.len() == 10);
        assert("exec"@[1] == 'x');
        assert("eval"@[1] == 'v');
    }
    if str_eq(token, "exec") {
        Ok(ExecutionMode::Exec)
    } else if str_eq(token, "eval") {
        Ok(ExecutionMode::Eval)
    } else if str_eq(token, "single") {
        Ok(ExecutionMode::Single)
    } else if str_eq(token, "block-expr") {
        Ok(ExecutionMode::BlockExpr)
    } else {
        Err(CliError::InvalidMode { token: token.to_owned() })
    }
}

} // verus!
