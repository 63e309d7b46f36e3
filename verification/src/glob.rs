//! Glob matching of paths, delegated to the `globset` crate.
use vstd::prelude::*;

verus! {

#[verifier::external_type_specification]
#[verifier::external_body]
pub struct ExGlobSet(globset::GlobSet);

/// Whether the `globset` crate accepts `pattern` as a glob and builds a set of that one
/// glob from it.
pub uninterp spec fn glob_valid(pattern: Seq<char>) -> bool;

/// Whether the set of the one glob `pattern`, as the `globset` crate builds it, matches `path`.
pub uninterp spec fn glob_match(pattern: Seq<char>, path: Seq<char>) -> bool;

/// A compiled glob together with the source it was compiled from.
pub struct CompiledGlob {
    set: globset::GlobSet,
    source: String,
}

impl CompiledGlob {
    /// The source text of the glob.
    pub closed spec fn source(&self) -> Seq<char> {
        self.source@
    }
}

/// Calls `globset::Glob::new` and builds a set of that one glob with `globset::GlobSet::new`,
/// which reports a pattern too large to compile as an error; trusted to succeed exactly on
/// the patterns that `glob_valid` holds of, and to remember the source it was given.
#[verifier::external_body]
pub(crate) fn compile_glob(pattern: &str) -> (r: Option<CompiledGlob>)
    ensures
        r is Some <==> glob_valid(pattern@),
        r matches Some(c) ==> c.source() == pattern@,
{
    let glob = globset::Glob::new(pattern).ok()?;
    let set = globset::GlobSet::new([glob]).ok()?;
    Some(CompiledGlob { set, source: pattern.to_string() })
}

/// Calls `globset::GlobSet::is_match`; trusted to give `glob_match` of the glob's source
/// and the path.
#[verifier::external_body]
pub(crate) fn glob_is_match(g: &CompiledGlob, path: &str) -> (r: bool)
    ensures
        r == glob_match(g.source(), path@),
{
    g.set.is_match(path)
}

} // verus!
