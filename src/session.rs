//! One binding request, from the crate reference to the generated binding.
//!
//! The session decides; its caller does the filesystem work. Each action
//! names the one read to perform, and the outcome comes back as an event.

use vstd::prelude::*;
use crate::binding::{generate, BindingView, GeneratedBinding, GenerationError};
use crate::digest::image_id_of;
use crate::locate::{
    crate_dir_candidate, is_binding_name, is_valid_binding_name, locate, located,
    manifest_location, manifest_path, BindingRequest, ResolvedArtifactPath,
};
use crate::manifest::ResolutionError;
use crate::path::joined;

verus! {

/// Why a binding request failed.
#[derive(Clone, Copy, Debug, PartialEq, Eq, Structural)]
pub enum BindingError {
    /// The binding name cannot name a module.
    InvalidBindingName,
    Resolution(ResolutionError),
    Generation(GenerationError),
}

/// How far a session has come.
pub enum Stage {
    /// Waiting for the canonical crate directory.
    FindCrate,
    /// Waiting for the text of the crate's manifest.
    ReadManifest,
    /// Waiting for the bytes of the located artifact.
    ReadArtifact(ResolvedArtifactPath),
    /// Done, with a binding or an error.
    Finished,
}

/// What the caller performs next.
pub enum Action {
    /// Canonicalize this path (symbolic links, `.` and `..` resolved) and
    /// report the directory, or `None` where it does not exist.
    Canonicalize(String),
    /// Read this manifest file as text, or report `None`.
    ReadManifest(String),
    /// Read this artifact file whole, or report `None`.
    ReadArtifact(String),
    /// The binding is ready.
    Emit(GeneratedBinding),
    /// The request failed; nothing is bound.
    Fail(BindingError),
}

/// The outcome of the last action.
pub enum Event {
    CrateDir(Option<String>),
    ManifestText(Option<String>),
    ArtifactBytes(Option<Vec<u8>>),
}

/// A binding request under way.
pub struct Session {
    pub request: BindingRequest,
    /// The directory that relative references are taken from.
    pub base_dir: String,
    pub stage: Stage,
}

/// Whether a session at `stage` waits for `event`.
pub open spec fn awaits(stage: Stage, event: Event) -> bool {
    match (stage, event) {
        (Stage::FindCrate, Event::CrateDir(_)) => true,
        (Stage::ReadManifest, Event::ManifestText(_)) => true,
        (Stage::ReadArtifact(_), Event::ArtifactBytes(_)) => true,
        _ => false,
    }
}

impl Session {
    /// Opens a session for `request`; its first action canonicalizes the
    /// crate directory, unless the binding name is refused.
    pub fn start(request: BindingRequest, base_dir: String) -> (r: (Session, Action))
        ensures
            r.0.request == request,
            r.0.base_dir == base_dir,
            is_binding_name(request.binding_name@) ==> {
                &&& r.0.stage == Stage::FindCrate
                &&& r.1 matches Action::Canonicalize(p)
                &&& p@ == joined(base_dir@, request.crate_reference@)
            },
            !is_binding_name(request.binding_name@) ==> {
                &&& r.0.stage == Stage::Finished
                &&& r.1 == Action::Fail(BindingError::InvalidBindingName)
            },
    {
        if !is_valid_binding_name(request.binding_name.as_str()) {
            let s = Session { request, base_dir, stage: Stage::Finished };
            return (s, Action::Fail(BindingError::InvalidBindingName));
        }
        let dir = crate_dir_candidate(request.crate_reference.as_str(), base_dir.as_str());
        (Session { request, base_dir, stage: Stage::FindCrate }, Action::Canonicalize(dir))
    }

    /// Whether the session waits for `event`.
    pub fn accepts(&self, event: &Event) -> (r: bool)
        ensures
            r == awaits(self.stage, *event),
    {
        match (&self.stage, event) {
            (Stage::FindCrate, Event::CrateDir(_)) => true,
            (Stage::ReadManifest, Event::ManifestText(_)) => true,
            (Stage::ReadArtifact(_), Event::ArtifactBytes(_)) => true,
            _ => false,
        }
    }

    /// Takes the outcome of the last action and decides the next one.
    pub fn advance(&mut self, event: Event) -> (r: Action)
        requires
            awaits(old(self).stage, event),
        ensures
            final(self).request == old(self).request,
            final(self).base_dir == old(self).base_dir,
            match event {
                Event::CrateDir(None) => {
                    &&& r == Action::Fail(BindingError::Resolution(ResolutionError::PathNotFound))
                    &&& final(self).stage == Stage::Finished
                },
                Event::CrateDir(Some(dir)) => {
                    &&& r matches Action::ReadManifest(p)
                    &&& p@ == manifest_location(dir@)
                    &&& final(self).stage == Stage::ReadManifest
                },
                Event::ManifestText(None) => {
                    &&& r == Action::Fail(BindingError::Resolution(ResolutionError::ManifestInvalid))
                    &&& final(self).stage == Stage::Finished
                },
                Event::ManifestText(Some(text)) => match located(
                    old(self).base_dir@,
                    old(self).request.layout.target_triple@,
                    old(self).request.layout.profile,
                    text@,
                ) {
                    Ok((path, name)) => {
                        &&& r matches Action::ReadArtifact(p)
                        &&& p@ == path
                        &&& final(self).stage matches Stage::ReadArtifact(res)
                        &&& res.path@ == path
                        &&& res.crate_name@ == name
                    },
                    Err(e) => {
                        &&& r == Action::Fail(BindingError::Resolution(e))
                        &&& final(self).stage == Stage::Finished
                    },
                },
                Event::ArtifactBytes(None) => {
                    &&& r == Action::Fail(BindingError::Generation(GenerationError::ArtifactUnreadable))
                    &&& final(self).stage == Stage::Finished
                },
                Event::ArtifactBytes(Some(bytes)) => {
                    &&& final(self).stage == Stage::Finished
                    &&& match image_id_of(bytes@) {
                        None => r == Action::Fail(BindingError::Generation(GenerationError::DigestFailure)),
                        Some(id) => r matches Action::Emit(g) && g@ == (BindingView {
                            name: old(self).request.binding_name@,
                            bytes: bytes@,
                            id,
                        }),
                    }
                },
            },
    {
        match event {
            Event::CrateDir(None) => {
                self.stage = Stage::Finished;
                Action::Fail(BindingError::Resolution(ResolutionError::PathNotFound))
            },
            Event::CrateDir(Some(dir)) => {
                self.stage = Stage::ReadManifest;
                Action::ReadManifest(manifest_path(dir.as_str()))
            },
            Event::ManifestText(None) => {
                self.stage = Stage::Finished;
                Action::Fail(BindingError::Resolution(ResolutionError::ManifestInvalid))
            },
            Event::ManifestText(Some(text)) => {
                match locate(self.base_dir.as_str(), &self.request.layout, text.as_str()) {
                    Ok(resolved) => {
                        let path = resolved.path.clone();
                        self.stage = Stage::ReadArtifact(resolved);
                        Action::ReadArtifact(path)
                    },
                    Err(e) => {
                        self.stage = Stage::Finished;
                        Action::Fail(BindingError::Resolution(e))
                    },
                }
            },
            Event::ArtifactBytes(None) => {
                self.stage = Stage::Finished;
                Action::Fail(BindingError::Generation(GenerationError::ArtifactUnreadable))
            },
            Event::ArtifactBytes(Some(bytes)) => {
                self.stage = Stage::Finished;
                match generate(self.request.binding_name.clone(), bytes) {
                    Ok(g) => Action::Emit(g),
                    Err(e) => Action::Fail(BindingError::Generation(e)),
                }
            },
        }
    }
}

} // verus!
