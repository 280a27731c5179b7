//! Reading a crate's declared name from its manifest.

use vstd::prelude::*;
use vstd::string::StringExecFns;
use crate::toml_doc::{get_key, parse_document, string_value, toml_document, toml_strings};

verus! {

/// Why a crate reference could not be resolved to an artifact path.
#[derive(Clone, Copy, Debug, PartialEq, Eq, Structural)]
pub enum ResolutionError {
    /// The crate directory does not exist or cannot be canonicalized.
    PathNotFound,
    /// The manifest cannot be read or is not a TOML document.
    ManifestInvalid,
    /// The manifest has no string `package.name`.
    NameMissing,
}

pub open spec fn package_key() -> Seq<char> {
    seq!['p', 'a', 'c', 'k', 'a', 'g', 'e']
}

pub open spec fn name_key() -> Seq<char> {
    seq!['n', 'a', 'm', 'e']
}

/// The crate name that a manifest's string leaves declare, if any.
pub open spec fn declared_name(doc: Map<Seq<Seq<char>>, Seq<char>>) -> Option<Seq<char>> {
    let at = seq![package_key(), name_key()];
    if doc.contains_key(at) {
        Some(doc[at])
    } else {
        None
    }
}

/// What reading the name out of manifest text yields.
pub open spec fn manifest_name(text: Seq<char>) -> Result<Seq<char>, ResolutionError> {
    match toml_document(text) {
        None => Err(ResolutionError::ManifestInvalid),
        Some(doc) => match declared_name(doc) {
            Some(n) => Ok(n),
            None => Err(ResolutionError::NameMissing),
        },
    }
}

/// The crate name declared as `package.name` in the manifest `text`.
pub fn crate_name_from_manifest(text: &str) -> (r: Result<String, ResolutionError>)
    ensures
        match manifest_name(text@) {
            Ok(n) => r is Ok && r->Ok_0@ == n,
            Err(e) => r == Err::<String, ResolutionError>(e),
        },
{
    let doc = match parse_document(text) {
        Ok(doc) => doc,
        Err(_) => return Err(ResolutionError::ManifestInvalid),
    };
    let ghost leaves = toml_document(text@)->Some_0;
    proof {
        reveal_strlit("package");
        reveal_strlit("name");
    }
    let ghost at = seq![package_key(), name_key()];
    assert(seq![package_key()] + seq![name_key()] =~= at);
    assert(seq![package_key()] + (seq![name_key()] + Seq::<Seq<char>>::empty()) =~= at);
    let pk = String::from_str("package");
    assert(pk@ == package_key());
    let package = match get_key(&doc, pk) {
        Some(p) => p,
        None => {
            assert(!leaves.contains_key(seq![pk@] + seq![name_key()]));
            return Err(ResolutionError::NameMissing);
        },
    };
    let nk = String::from_str("name");
    assert(nk@ == name_key());
    let name = match get_key(package, nk) {
        Some(n) => n,
        None => {
            assert(!toml_strings(*package).contains_key(seq![nk@] + Seq::empty()));
            return Err(ResolutionError::NameMissing);
        },
    };
    match string_value(name) {
        Some(s) => Ok(s),
        None => Err(ResolutionError::NameMissing),
    }
}

} // verus!
