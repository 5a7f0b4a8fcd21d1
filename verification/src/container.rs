//! The engine capability.
//!
//! Both supported engines expose the same operations — pull an image, check
//! whether it is cached, create a container, copy a path out of it, remove
//! it — over two structurally different wire protocols. [`Container`]
//! captures the part of that surface the library decides: what each request
//! carries. The requests themselves are plain values; the caller puts them
//! on the wire. [`new`] parses the raw reference once and builds the
//! capability variant matching the selected runtime.

use vstd::prelude::*;

use crate::error::Fault;
use crate::image::{split, splittable, trim};
use crate::runtime::Runtime;

verus! {

/// Registry credentials passed through to the engine's pull call.
pub struct Auth {
    pub username: String,
    pub password: String,
}

/// An image pull request, in the shape the engine's wire protocol takes:
/// the primary engine pulls by repository and tag, the alternative engine by
/// the whole reference.
pub enum PullRequest {
    ByRepoTag { repository: String, tag: String, auth: Auth },
    ByReference { reference: String, auth: Auth },
}

/// A container creation request. `blank_entrypoint` asks for a no-op
/// command override, so that images built from scratch, with no shell or
/// executable, still instantiate.
pub struct CreateRequest {
    pub image: String,
    pub blank_entrypoint: bool,
}

/// A container removal request: exact per-identifier deletion.
pub struct RemoveRequest {
    pub id: String,
    pub force: bool,
}

/// True when the literal reference `image` appears among the engine-reported
/// tag strings.
pub open spec fn tag_listed(tags: Seq<String>, image: Seq<char>) -> bool {
    exists|i: int| 0 <= i < tags.len() && tags[i]@ == image
}

/// What one engine backend decides for the pipeline. The two
/// implementations must look identical from the pipeline's point of view;
/// only the request shapes differ.
pub trait Container: Sized {
    /// The literal reference string the capability was built from.
    spec fn image_ref(&self) -> Seq<char>;

    /// Well-formed: the stored fields agree with parsing the reference.
    spec fn wf(&self) -> bool;

    /// The pull request this backend's wire protocol takes.
    spec fn spec_pull_request(&self, username: String, password: String) -> PullRequest;

    /// Builds the pull request carrying the supplied credentials.
    fn pull_request(&self, username: String, password: String) -> (r: PullRequest)
        ensures
            r == self.spec_pull_request(username, password),
    ;

    /// The create request this backend's wire protocol takes.
    spec fn spec_create_request(&self) -> CreateRequest;

    /// Builds the create request; the entrypoint override is always asked
    /// for.
    fn create_request(&self) -> (r: CreateRequest)
        ensures
            r == self.spec_create_request(),
            r.blank_entrypoint,
    ;

    /// Builds the removal request for the container `id`: per-identifier,
    /// forced deletion on either backend.
    fn remove_request(&self, id: String) -> (r: RemoveRequest)
        ensures
            r == (RemoveRequest { id, force: true }),
    ;

    /// Scans the engine-reported tag strings for an exact match of the
    /// original literal reference string. A reference with no explicit tag
    /// is compared as given, so it can miss an image the engine reports in
    /// `repo:latest` shape; that known limitation is preserved deliberately.
    fn present_locally(&self, reported_tags: &Vec<String>) -> (r: bool)
        ensures
            r == tag_listed(reported_tags@, self.image_ref()),
    ;
}

/// The selected engine's capability: exactly one of the two variants.
pub enum Capability {
    Docker(crate::docker::Image),
    Podman(crate::podman::Image),
}

impl Container for Capability {
    open spec fn image_ref(&self) -> Seq<char> {
        match self {
            Capability::Docker(c) => c.image_ref(),
            Capability::Podman(c) => c.image_ref(),
        }
    }

    open spec fn wf(&self) -> bool {
        match self {
            Capability::Docker(c) => c.wf(),
            Capability::Podman(c) => c.wf(),
        }
    }

    open spec fn spec_pull_request(&self, username: String, password: String) -> PullRequest {
        match self {
            Capability::Docker(c) => c.spec_pull_request(username, password),
            Capability::Podman(c) => c.spec_pull_request(username, password),
        }
    }

    fn pull_request(&self, username: String, password: String) -> (r: PullRequest) {
        match self {
            Capability::Docker(c) => c.pull_request(username, password),
            Capability::Podman(c) => c.pull_request(username, password),
        }
    }

    open spec fn spec_create_request(&self) -> CreateRequest {
        match self {
            Capability::Docker(c) => c.spec_create_request(),
            Capability::Podman(c) => c.spec_create_request(),
        }
    }

    fn create_request(&self) -> (r: CreateRequest) {
        match self {
            Capability::Docker(c) => c.create_request(),
            Capability::Podman(c) => c.create_request(),
        }
    }

    fn remove_request(&self, id: String) -> (r: RemoveRequest) {
        match self {
            Capability::Docker(c) => c.remove_request(id),
            Capability::Podman(c) => c.remove_request(id),
        }
    }

    fn present_locally(&self, reported_tags: &Vec<String>) -> (r: bool) {
        match self {
            Capability::Docker(c) => c.present_locally(reported_tags),
            Capability::Podman(c) => c.present_locally(reported_tags),
        }
    }
}

/// Builds the capability for `image` on the selected `runtime`. The
/// reference is parsed once here; a reference whose repository segment is
/// empty is rejected with a parse fault.
pub fn new(image: String, runtime: Runtime) -> (r: Result<Capability, Fault>)
    ensures
        r is Ok <==> splittable(image@),
        r matches Ok(c) ==> c.wf() && c.image_ref() == image@,
        r matches Ok(c) ==> (c is Docker <==> runtime is Docker),
        r matches Err(f) ==> f is ReferenceParse,
{
    let parts = match split(image.clone()) {
        Some(p) => p,
        None => {
            return Err(Fault::ReferenceParse);
        },
    };
    match runtime {
        Runtime::Docker { socket: _ } => Ok(
            Capability::Docker(crate::docker::Image { image, repo: parts.0, tag: parts.1 }),
        ),
        Runtime::Podman { socket: _ } => {
            let pull_ref = trim(image.as_str());
            Ok(
                Capability::Podman(
                    crate::podman::Image { image, repo: parts.0, tag: parts.1, pull_ref },
                ),
            )
        },
    }
}

} // verus!
