//! The library's version string.
use vstd::prelude::*;

verus! {

/// The version this library reports.
pub open spec fn library_version() -> Seq<char> {
    "0.2.0-frost-real"@
}

/// The library's version string.
pub fn frost_get_version() -> (v: String)
    ensures
        v@ == library_version(),
{
    "0.2.0-frost-real".to_owned()
}

/// The version names the build as the real FROST implementation: it holds
/// the text `frost-real`.
pub proof fn lemma_version_names_frost_real()
    ensures
        library_version().len() >= 10,
        library_version().subrange(library_version().len() - 10, library_version().len() as int)
            == "frost-real"@,
{
    reveal_strlit("0.2.0-frost-real");
    reveal_strlit("frost-real");
    assert(library_version().subrange(6, 16) =~= "frost-real"@);
}

} // verus!
