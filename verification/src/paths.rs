//! Resolution of the configured source path. The read and canonicalization
//! results come in as plain values; this module decides, in the order the
//! pipeline owes, which error a failed run reports, and extracts the final
//! path component of the canonical path as the display name.

use vstd::prelude::*;
use crate::errors::CliError;

verus! {

/// The characters after the last `/` of `p` (all of `p` if it has none);
/// empty when `p` ends in `/` or is empty.
pub open spec fn after_last_slash(p: Seq<char>) -> Seq<char>
    decreases p.len(),
{
    if p.len() == 0 {
        Seq::empty()
    } else if p.last() == '/' {
        Seq::empty()
    } else {
        after_last_slash(p.drop_last()).push(p.last())
    }
}

/// The final component of a canonical path: the part after the last
/// separator, or nothing when that part is empty (the filesystem root).
pub open spec fn file_name_spec(p: Seq<char>) -> Option<Seq<char>> {
    if after_last_slash(p).len() == 0 {
        None
    } else {
        Some(after_last_slash(p))
    }
}

proof fn lemma_after_last_slash_tail(p: Seq<char>, j: int)
    requires
        0 <= j <= p.len(),
        forall|k: int| j <= k < p.len() ==> p[k] != '/',
        j == 0 || p[j - 1] == '/',
    ensures
        after_last_slash(p) == p.subrange(j, p.len() as int),
    decreases p.len(),
{
    if p.len() == j {
        assert(p.subrange(j, p.len() as int) =~= Seq::<char>::empty());
    } else {
        assert(p.last() != '/');
        lemma_after_last_slash_tail(p.drop_last(), j);
        assert(after_last_slash(p) =~= p.subrange(j, p.len() as int));
    }
}

/// Extracts the final path component, as `file_name_spec` describes it.
pub fn file_name_of(path: &str) -> (r: Option<String>)
    ensures
        match r {
            Some(name) => file_name_spec(path@) == Some(name@),
            None => file_name_spec(path@) == None::<Seq<char>>,
        },
{
    let len = path.unicode_len();
    let mut j: usize = len;
    while j > 0 && path.get_char(j - 1) != '/'
        invariant
            len == path@.len(),
            j <= len,
            forall|k: int| j <= k < len ==> path@[k] != '/',
        decreases j,
    {
        j -= 1;
    }
    proof {
        lemma_after_last_slash_tail(path@, j as int);
    }
    if j == len {
        None
    } else {
        let name = path.substring_char(j, len);
        Some(name.to_owned())
    }
}

/// What a successful resolution yields: the canonical absolute path, its
/// final component as the display name, and the raw source text.
pub struct ResolvedSource {
    pub canonical: String,
    pub display_name: String,
    pub text: String,
}

/// Decides the outcome of the source-resolution step. `text` and
/// `canonical` carry the results of reading and canonicalizing the
/// configured path; a failed read is reported first, so an unreadable
/// file always yields `SourceRead`, never `PathResolution`. A canonical
/// path without a final component yields `MissingFileName`.
pub fn resolve_source(path_display: &str, text: Option<String>, canonical: Option<String>) -> (r:
    Result<ResolvedSource, CliError>)
    ensures
        (match (text, canonical) {
            (None, _) => r matches Err(CliError::SourceRead { path }) && path@ == path_display@,
            (Some(_), None) => r matches Err(CliError::PathResolution { path }) && path@
                == path_display@,
            (Some(t), Some(c)) => match file_name_spec(c@) {
                None => r matches Err(CliError::MissingFileName { path }) && path@ == c@,
                Some(n) => r matches Ok(res) && res.text@ == t@ && res.canonical@ == c@
                    && res.display_name@ == n,
            },
        }),
{
    match text {
        None => Err(CliError::SourceRead { path: path_display.to_owned() }),
        Some(t) => match canonical {
            None => Err(CliError::PathResolution { path: path_display.to_owned() }),
            Some(c) => match file_name_of(c.as_str()) {
                None => Err(CliError::MissingFileName { path: c }),
                Some(name) => Ok(
                    ResolvedSource { canonical: c, display_name: name, text: t },
                ),
            },
        },
    }
}

} // verus!
