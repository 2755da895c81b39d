//! The closed set of HTTP verbs that a request may carry.

use vstd::prelude::*;

verus! {

/// An HTTP request method.
///
/// The set is closed: a request carries exactly one of these verbs. `List` is
/// a non-standard verb used by some servers to enumerate resources.
#[derive(Debug, Clone, Copy, PartialEq, Eq, Structural)]
pub enum RequestMethod {
    Delete,
    Get,
    Head,
    List,
    Patch,
    Post,
    Put,
}

} // verus!
