//! Locating a guest program's artifact from a crate reference.

use vstd::prelude::*;
use vstd::string::StrSliceExecFns;
use vstd::string::StringExecFns;
use crate::manifest::{crate_name_from_manifest, manifest_name, ResolutionError};
use crate::path::{join_path, joined};

verus! {

/// The build profile whose output directory holds the artifact.
#[derive(Clone, Copy, Debug, PartialEq, Eq, Structural)]
pub enum Profile {
    Debug,
    Release,
}

/// Where built artifacts are looked for: the target triple and the profile.
pub struct ArtifactLayout {
    pub target_triple: String,
    pub profile: Profile,
}

/// A request to bind the guest program of a crate under a module name.
pub struct BindingRequest {
    /// The name of the generated module.
    pub binding_name: String,
    /// The guest crate's directory, absolute or relative to the base directory.
    pub crate_reference: String,
    pub layout: ArtifactLayout,
}

/// The artifact of a guest crate, and the crate name it was derived from.
pub struct ResolvedArtifactPath {
    pub path: String,
    pub crate_name: String,
}

pub open spec fn is_ident_start(c: char) -> bool {
    ('a' <= c && c <= 'z') || ('A' <= c && c <= 'Z') || c == '_'
}

pub open spec fn is_ident_continue(c: char) -> bool {
    is_ident_start(c) || ('0' <= c && c <= '9')
}

/// An ASCII identifier that can name a module: a letter or `_`, then letters,
/// digits and `_`, and not `_` alone.
pub open spec fn is_binding_name(s: Seq<char>) -> bool {
    &&& s.len() > 0
    &&& is_ident_start(s[0])
    &&& forall|i: int| 1 <= i < s.len() ==> is_ident_continue(#[trigger] s[i])
    &&& s != seq!['_']
}

/// The output directory name of a profile.
pub open spec fn profile_dir(p: Profile) -> Seq<char> {
    match p {
        Profile::Debug => "debug"@,
        Profile::Release => "release"@,
    }
}

/// Where the artifact of crate `name` lies: under the workspace root (the
/// directory above `base_dir`), in `target/<triple>/<profile>/<name>`.
pub open spec fn artifact_location(
    base_dir: Seq<char>,
    triple: Seq<char>,
    profile: Profile,
    name: Seq<char>,
) -> Seq<char> {
    joined(
        joined(joined(joined(joined(base_dir, ".."@), "target"@), triple), profile_dir(profile)),
        name,
    )
}

/// The manifest file of a crate directory.
pub open spec fn manifest_location(crate_dir: Seq<char>) -> Seq<char> {
    joined(crate_dir, "Cargo.toml"@)
}

/// Whether `s` can name a binding module (see [`is_binding_name`]).
pub fn is_valid_binding_name(s: &str) -> (r: bool)
    ensures
        r == is_binding_name(s@),
{
    let n = s.unicode_len();
    if n == 0 {
        return false;
    }
    let c0 = s.get_char(0);
    if !(('a' <= c0 && c0 <= 'z') || ('A' <= c0 && c0 <= 'Z') || c0 == '_') {
        return false;
    }
    let mut i: usize = 1;
    while i < n
        invariant
            n == s@.len(),
            1 <= i <= n,
            forall|j: int| 1 <= j < i ==> is_ident_continue(#[trigger] s@[j]),
        decreases n - i,
    {
        let c = s.get_char(i);
        if !(('a' <= c && c <= 'z') || ('A' <= c && c <= 'Z') || c == '_' || ('0' <= c && c <= '9')) {
            return false;
        }
        i = i + 1;
    }
    if n == 1 && c0 == '_' {
        assert(s@ =~= seq!['_']);
        return false;
    }
    assert(s@ != seq!['_']) by {
        if s@ == seq!['_'] {
            assert(s@[0] == '_');
        }
    }
    true
}

/// The path of the crate directory that `reference` names, taken relative to
/// `base_dir` unless it is absolute.
pub fn crate_dir_candidate(reference: &str, base_dir: &str) -> (r: String)
    ensures
        r@ == joined(base_dir@, reference@),
{
    join_path(base_dir, reference)
}

/// The manifest file of a crate directory.
pub fn manifest_path(crate_dir: &str) -> (r: String)
    ensures
        r@ == manifest_location(crate_dir@),
{
    join_path(crate_dir, "Cargo.toml")
}

fn profile_dir_name(p: Profile) -> (r: &'static str)
    ensures
        r@ == profile_dir(p),
{
    match p {
        Profile::Debug => "debug",
        Profile::Release => "release",
    }
}

/// Where the artifact of `crate_name` lies (see [`artifact_location`]).
pub fn artifact_path(base_dir: &str, layout: &ArtifactLayout, crate_name: &str) -> (r: String)
    ensures
        r@ == artifact_location(base_dir@, layout.target_triple@, layout.profile, crate_name@),
{
    let root = join_path(base_dir, "..");
    let target = join_path(root.as_str(), "target");
    let triple = join_path(target.as_str(), layout.target_triple.as_str());
    let profile = join_path(triple.as_str(), profile_dir_name(layout.profile));
    join_path(profile.as_str(), crate_name)
}

/// What locating yields for a crate whose manifest reads `text`: the crate
/// name and its artifact path, or why there is none.
pub open spec fn located(
    base_dir: Seq<char>,
    triple: Seq<char>,
    profile: Profile,
    text: Seq<char>,
) -> Result<(Seq<char>, Seq<char>), ResolutionError> {
    match manifest_name(text) {
        Ok(name) => Ok((artifact_location(base_dir, triple, profile, name), name)),
        Err(e) => Err(e),
    }
}

/// Locates the artifact of the crate whose manifest reads `manifest_text`.
pub fn locate(base_dir: &str, layout: &ArtifactLayout, manifest_text: &str) -> (r: Result<
    ResolvedArtifactPath,
    ResolutionError,
>)
    ensures
        match located(base_dir@, layout.target_triple@, layout.profile, manifest_text@) {
            Ok((path, name)) => r is Ok && r->Ok_0.path@ == path && r->Ok_0.crate_name@ == name,
            Err(e) => r is Err && r->Err_0 == e,
        },
{
    match crate_name_from_manifest(manifest_text) {
        Ok(name) => {
            let path = artifact_path(base_dir, layout, name.as_str());
            Ok(ResolvedArtifactPath { path, crate_name: name })
        },
        Err(e) => Err(e),
    }
}

/// Two spellings of a crate reference that canonicalize to the same
/// directory locate the same artifact: past canonicalization nothing depends
/// on the spelling, so one manifest file is read and one path results.
pub proof fn lemma_location_ignores_spelling(
    base_dir: Seq<char>,
    triple: Seq<char>,
    profile: Profile,
    first_dir: Seq<char>,
    second_dir: Seq<char>,
    first_text: Seq<char>,
    second_text: Seq<char>,
)
    requires
        first_dir == second_dir,
        manifest_location(first_dir) == manifest_location(second_dir) ==> first_text == second_text,
    ensures
        manifest_location(first_dir) == manifest_location(second_dir),
        located(base_dir, triple, profile, first_text) == located(
            base_dir,
            triple,
            profile,
            second_text,
        ),
{
}

impl ArtifactLayout {
    /// The layout of release builds for the RISC Zero guest target.
    pub fn risc0_release() -> (r: ArtifactLayout)
        ensures
            r.target_triple@ == "riscv32im-risc0-zkvm-elf"@,
            r.profile == Profile::Release,
    {
        ArtifactLayout { target_triple: String::from_str("riscv32im-risc0-zkvm-elf"), profile: Profile::Release }
    }
}

} // verus!
