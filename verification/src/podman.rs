//! The alternative engine's capability.
//!
//! This backend pulls and creates by the whole reference, trimmed of
//! surrounding whitespace, and removes containers by identifier with force
//! set. The presence check still compares the untrimmed literal reference,
//! exactly as the primary backend does.

use vstd::prelude::*;

use crate::container::{Auth, Container, CreateRequest, PullRequest, RemoveRequest};
use crate::image::{split_spec, splittable, trimmed};

verus! {

/// One image as the alternative engine sees it: the literal reference, the
/// repository and tag it parses to, and the trimmed reference its pull and
/// create calls take.
pub struct Image {
    pub image: String,
    pub repo: String,
    pub tag: String,
    pub pull_ref: String,
}

impl Container for Image {
    open spec fn image_ref(&self) -> Seq<char> {
        self.image@
    }

    open spec fn wf(&self) -> bool {
        &&& splittable(self.image@)
        &&& self.repo@ == split_spec(self.image@).0
        &&& self.tag@ == split_spec(self.image@).1
        &&& trimmed(self.image@, self.pull_ref@)
    }

    open spec fn spec_pull_request(&self, username: String, password: String) -> PullRequest {
        PullRequest::ByReference { reference: self.pull_ref, auth: Auth { username, password } }
    }

    fn pull_request(&self, username: String, password: String) -> (r: PullRequest) {
        PullRequest::ByReference {
            reference: self.pull_ref.clone(),
            auth: Auth { username, password },
        }
    }

    open spec fn spec_create_request(&self) -> CreateRequest {
        CreateRequest { image: self.pull_ref, blank_entrypoint: true }
    }

    fn create_request(&self) -> (r: CreateRequest) {
        CreateRequest { image: self.pull_ref.clone(), blank_entrypoint: true }
    }

    fn remove_request(&self, id: String) -> (r: RemoveRequest) {
        RemoveRequest { id, force: true }
    }

    fn present_locally(&self, reported_tags: &Vec<String>) -> (r: bool) {
        let n = reported_tags.len();
        let mut i: usize = 0;
        while i < n
            invariant
                i <= n,
                n == reported_tags@.len(),
                forall|j: int| 0 <= j < i ==> reported_tags@[j]@ != self.image@,
            decreases n - i,
        {
            if reported_tags[i] == self.image {
                return true;
            }
            i = i + 1;
        }
        false
    }
}

} // verus!
