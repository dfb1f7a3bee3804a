//! The pluggable authentication backend the session engine binds against.

use vstd::prelude::*;

verus! {

/// A credential pair handed to the backend for verification.
pub struct BindRequest {
    pub name: String,
    pub password: String,
}

/// A backend-side bind failure. It carries no detail on purpose: the
/// session maps every backend failure to one generic protocol response,
/// so that a client cannot tell an unknown identity from a wrong
/// credential.
pub struct BackendError;

/// The capability the session engine needs from a directory backend:
/// verifying one credential pair.
///
/// `accepts` is the backend's own statement of which credential pairs it
/// considers valid; `bind` must decide exactly that. Implementations must
/// be safe to share across connections.
pub trait BackendHandler: Sized {
    /// Which (name, password) pairs this backend accepts.
    spec fn accepts(&self, name: Seq<char>, password: Seq<char>) -> bool;

    /// Verify one credential pair.
    fn bind(&self, request: &BindRequest) -> (r: Result<(), BackendError>)
        ensures
            r is Ok <==> self.accepts(request.name@, request.password@),
    ;
}

/// A backend that accepts exactly one credential pair, kept in memory.
#[derive(Clone)]
pub struct SingleUserBackend {
    pub user_dn: String,
    pub password: String,
}

impl SingleUserBackend {
    pub fn new(user_dn: String, password: String) -> (b: Self)
        ensures
            b.user_dn@ == user_dn@,
            b.password@ == password@,
    {
        SingleUserBackend { user_dn, password }
    }
}

impl BackendHandler for SingleUserBackend {
    open spec fn accepts(&self, name: Seq<char>, password: Seq<char>) -> bool {
        name == self.user_dn@ && password == self.password@
    }

    fn bind(&self, request: &BindRequest) -> (r: Result<(), BackendError>) {
        if request.name == self.user_dn && request.password == self.password {
            Ok(())
        } else {
            Err(BackendError)
        }
    }
}

} // verus!
