//! The protocol of an exposed port.

use vstd::prelude::*;

verus! {

/// A port's communication protocol: a two-valued, immutable enumeration.
#[derive(Clone, Copy, Debug, PartialEq, Eq, Structural)]
pub enum Protocol {
    /// TCP protocol
    Tcp,
    /// UDP protocol
    Udp,
}

impl Protocol {
    /// The canonical lowercase wire string of this protocol.
    pub open spec fn spec_str(self) -> Seq<char> {
        match self {
            Protocol::Tcp => "tcp"@,
            Protocol::Udp => "udp"@,
        }
    }

    /// Returns the canonical lowercase wire-string representation.
    pub fn as_str(&self) -> (r: &'static str)
        ensures
            r@ == self.spec_str(),
    {
        match self {
            Protocol::Tcp => "tcp",
            Protocol::Udp => "udp",
        }
    }
}

} // verus!
