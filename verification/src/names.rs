//! Identifier synthesis: the companion names derived from a record's name.

use vstd::prelude::*;
use vstd::string::StringExecFns;

verus! {

/// The builder type's name: the record's name followed by `Builder`.
pub open spec fn spec_builder_name(name: Seq<char>) -> Seq<char> {
    name + "Builder"@
}

/// The error type's name: the record's name followed by `BuildError`.
pub open spec fn spec_error_name(name: Seq<char>) -> Seq<char> {
    name + "BuildError"@
}

/// Each record name owns its companion names: two record names share a
/// derived builder name, or a derived error name, only when they are the
/// same name — so no two record types share a builder type or an error type.
pub proof fn lemma_companion_names_injective(a: Seq<char>, b: Seq<char>)
    ensures
        spec_builder_name(a) == spec_builder_name(b) ==> a == b,
        spec_error_name(a) == spec_error_name(b) ==> a == b,
{
    if spec_builder_name(a) == spec_builder_name(b) {
        assert(a =~= spec_builder_name(a).subrange(0, a.len() as int));
        assert(b =~= spec_builder_name(b).subrange(0, b.len() as int));
    }
    if spec_error_name(a) == spec_error_name(b) {
        assert(a =~= spec_error_name(a).subrange(0, a.len() as int));
        assert(b =~= spec_error_name(b).subrange(0, b.len() as int));
    }
}

/// Derives the companion builder type's name from the record's name.
pub fn builder_name(name: &str) -> (r: String)
    ensures
        r@ == spec_builder_name(name@),
{
    let mut s = name.to_owned();
    s.append("Builder");
    s
}

/// Derives the companion error type's name from the record's name.
pub fn error_name(name: &str) -> (r: String)
    ensures
        r@ == spec_error_name(name@),
{
    let mut s = name.to_owned();
    s.append("BuildError");
    s
}

} // verus!
