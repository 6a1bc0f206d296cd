//! The two flat records of the wire contract: a request carrying a name and
//! a reply carrying the formatted message.

use vstd::prelude::*;

verus! {

/// Request of the one remote method. Any text is allowed as the name,
/// including the empty string.
pub struct HelloRequest {
    pub name: String,
}

/// Reply of the one remote method: the greeting built from the request's name.
pub struct HelloReply {
    pub message: String,
}

} // verus!
