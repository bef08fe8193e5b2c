//! The service-wide state that every request handler shares.
use vstd::prelude::*;

verus! {

/// The handles of the authorization layer, the catalog's persistence and the
/// secret store, put together once at start-up and only read afterwards.
#[derive(Debug, Clone)]
pub struct State<A, C, S> {
    pub auth: A,
    pub catalog: C,
    pub secrets: S,
}

impl<A, C, S> State<A, C, S> {
    pub fn new(auth: A, catalog: C, secrets: S) -> (r: State<A, C, S>)
        ensures
            r.auth == auth,
            r.catalog == catalog,
            r.secrets == secrets,
    {
        State { auth, catalog, secrets }
    }
}

} // verus!
