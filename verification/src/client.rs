//! The shared handle to the container runtime's API endpoint.

use std::sync::Arc;
use vstd::prelude::*;

verus! {

/// shiplift's runtime client value. Opaque to this library: every runtime
/// request the unverified driver makes goes through a borrow of it.
#[verifier::external_type_specification]
#[verifier::external_body]
pub struct ExDocker(shiplift::Docker);

/// A shareable, reference-counted handle to the container runtime's API
/// endpoint. Clones share the same underlying connection; the handle lives as
/// long as its longest-lived holder.
pub struct Client {
    inner: Arc<shiplift::Docker>,
}

impl Client {
    /// Wraps an existing runtime client value in a shareable handle.
    /// Relies on `Arc::new` only; no request is made.
    #[verifier::external_body]
    pub fn from_docker(docker: shiplift::Docker) -> (r: Client) {
        Client { inner: Arc::new(docker) }
    }

    /// Borrows the underlying runtime client, for the unverified driver to
    /// issue requests on. Relies on `Arc`'s deref only.
    #[verifier::external_body]
    pub fn docker(&self) -> (r: &shiplift::Docker) {
        &self.inner
    }
}

impl Clone for Client {
    /// Relies on `Arc::clone`: the clone shares the same runtime client value.
    #[verifier::external_body]
    fn clone(&self) -> (r: Client)
        ensures
            r == *self,
    {
        Client { inner: Arc::clone(&self.inner) }
    }
}

} // verus!
