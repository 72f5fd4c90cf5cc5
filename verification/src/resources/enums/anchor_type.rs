//! The entity types by which a webhook list is filtered.

use vstd::prelude::*;

verus! {

/// Filters the webhooks in the response by an anchor entity type.
#[derive(Copy, Clone, Debug, PartialEq, Eq, Structural)]
pub enum AnchorType {
    Application,
    Account,
}

impl AnchorType {
    /// The name of the type on the wire.
    pub open spec fn name(self) -> Seq<char> {
        match self {
            AnchorType::Application => "APPLICATION"@,
            AnchorType::Account => "ACCOUNT"@,
        }
    }

    /// The name of the type on the wire: `APPLICATION` or `ACCOUNT`.
    pub fn as_str(self) -> (r: &'static str)
        ensures
            r@ == self.name(),
    {
        match self {
            AnchorType::Application => "APPLICATION",
            AnchorType::Account => "ACCOUNT",
        }
    }

    /// The name of the type on the wire, as an owned text.
    pub fn to_string(&self) -> (r: String)
        ensures
            r@ == self.name(),
    {
        self.as_str().to_owned()
    }
}

impl AsRef<str> for AnchorType {
    fn as_ref(&self) -> (r: &str)
        ensures
            r@ == self.name(),
    {
        self.as_str()
    }
}

impl Default for AnchorType {
    fn default() -> (r: AnchorType)
        ensures
            r == AnchorType::Application,
    {
        AnchorType::Application
    }
}

} // verus!
