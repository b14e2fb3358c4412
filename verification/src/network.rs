//! Virtual networks: a reduced form of the container pattern. The builder
//! carries only a name, and the pipeline has a single creation stage —
//! networks are created directly in a ready state, with no start or
//! inspection.

use crate::error::Error;
use vstd::prelude::*;

verus! {

/// Abstraction of a virtual network managed by the runtime: the output of a
/// successful creation. Its view is the runtime-assigned identifier.
///
/// A handle does not clean its resource up when dropped: the network stays
/// in the runtime until a removal is driven to completion through
/// [`Network::into_removal`].
#[derive(Debug)]
pub struct Network {
    id: String,
}

impl View for Network {
    type V = Seq<char>;

    closed spec fn view(&self) -> Seq<char> {
        self.id@
    }
}

impl Network {
    /// A handle always identifies its resource: the runtime-assigned
    /// identifier embedded in it is never empty.
    #[verifier::type_invariant]
    spec fn identified(self) -> bool {
        self.id@.len() > 0
    }

    /// Opens a builder for a network called `name`.
    pub fn builder(name: &str) -> (r: Builder)
        ensures
            r@ == name@,
    {
        Builder::new(name)
    }

    /// Returns the unique identifier of the network; it is never empty.
    pub fn id(&self) -> (r: &str)
        ensures
            r@ == self@,
            r@.len() > 0,
    {
        proof {
            use_type_invariant(self);
        }
        self.id.as_str()
    }

    /// Consumes the handle and yields the identifier for the removal
    /// request the driver must issue. The in-process handle has no further
    /// validity; the runtime's own semantics govern the removal's outcome.
    pub fn into_removal(self) -> (r: String)
        ensures
            r@ == self@,
            r@.len() > 0,
    {
        proof {
            use_type_invariant(&self);
        }
        let Network { id } = self;
        id
    }
}

/// Builder for a network: the reduced declarative specification, holding
/// only the requested name. Its view is that name.
#[derive(Debug)]
pub struct Builder {
    name: String,
}

impl View for Builder {
    type V = Seq<char>;

    closed spec fn view(&self) -> Seq<char> {
        self.name@
    }
}

impl Builder {
    /// Initializes a builder for a network called `name`.
    fn new(name: &str) -> (r: Self)
        ensures
            r@ == name@,
    {
        Builder { name: name.to_owned() }
    }

    /// The name the creation request will carry, verbatim.
    pub fn name(&self) -> (r: &str)
        ensures
            r@ == self@,
    {
        self.name.as_str()
    }

    /// Completes the single-stage network pipeline from the creation
    /// outcome the driver observed: an accepted creation with a non-empty
    /// identifier yields the ready handle; a rejection — or a success that
    /// carries no identifier — fails with [`Error::CreateFailed`].
    pub fn finish_create(self, created: Option<String>) -> (r: Result<Network, Error>)
        ensures
            match r {
                Ok(n) => created matches Some(id) && id@ == n@ && n@.len() > 0,
                Err(e) => e == Error::CreateFailed && (created matches Some(id) ==> id@.len()
                    == 0),
            },
    {
        match created {
            Some(id) => {
                if id.as_str().is_empty() {
                    Err(Error::CreateFailed)
                } else {
                    Ok(Network { id })
                }
            },
            None => Err(Error::CreateFailed),
        }
    }
}

} // verus!
