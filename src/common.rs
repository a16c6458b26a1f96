//! What every venue's request shares: the action it asks for.

use vstd::prelude::*;

verus! {

/// Whether a request adds channels to the connection or removes them.
#[derive(Debug, Clone, Copy, PartialEq, Eq, Structural)]
pub enum RequestKind {
    Subscribe,
    Unsubscribe,
}

impl RequestKind {
    /// The action as the venues that shout it write it.
    pub open spec fn upper_spec(self) -> Seq<char> {
        match self {
            RequestKind::Subscribe => "SUBSCRIBE"@,
            RequestKind::Unsubscribe => "UNSUBSCRIBE"@,
        }
    }

    /// The action as the other venues write it.
    pub open spec fn lower_spec(self) -> Seq<char> {
        match self {
            RequestKind::Subscribe => "subscribe"@,
            RequestKind::Unsubscribe => "unsubscribe"@,
        }
    }

    pub fn upper_name(&self) -> (r: &'static str)
        ensures
            r@ == self.upper_spec(),
    {
        match self {
            RequestKind::Subscribe => "SUBSCRIBE",
            RequestKind::Unsubscribe => "UNSUBSCRIBE",
        }
    }

    pub fn lower_name(&self) -> (r: &'static str)
        ensures
            r@ == self.lower_spec(),
    {
        match self {
            RequestKind::Subscribe => "subscribe",
            RequestKind::Unsubscribe => "unsubscribe",
        }
    }
}

} // verus!
