//! Links between resources.

use vstd::prelude::*;

verus! {

/// A request-related HATEOAS link.
#[derive(Clone, Debug, PartialEq, Eq)]
pub struct LinkDescription {
    /// The complete target URL.
    pub href: String,
    /// The relation of the link to the resource.
    pub rel: String,
    /// The HTTP method that the link is called with.
    pub method: Option<String>,
}

} // verus!
