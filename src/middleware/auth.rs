//! The API-key guard: every path but the health check needs the shared key.
use vstd::prelude::*;

use crate::errors::{AppError, UNAUTHORIZED_MESSAGE};

verus! {

/// The path that is served without a key.
pub const HEALTH_PATH: &'static str = "/health";

/// The request header that carries the key.
pub const API_KEY_HEADER: &'static str = "X-API-Key";

/// Whether two texts are the same, character for character.
pub fn same_text(a: &str, b: &str) -> (r: bool)
    ensures
        r == (a@ == b@),
{
    let n = a.unicode_len();
    if n != b.unicode_len() {
        return false;
    }
    let mut i: usize = 0;
    while i < n
        invariant
            n == a@.len(),
            n == b@.len(),
            i <= n,
            forall|j: int| 0 <= j < i ==> a@[j] == b@[j],
        decreases n - i,
    {
        if a.get_char(i) != b.get_char(i) {
            return false;
        }
        i = i + 1;
    }
    assert(a@ =~= b@);
    true
}

/// A request passes the guard: it is for the health check, or its key
/// header holds exactly the configured key.
pub open spec fn admits(path: Seq<char>, header: Option<Seq<char>>, key: Seq<char>) -> bool {
    path == HEALTH_PATH@ || header == Some(key)
}

/// The header's text, if the header is there.
pub open spec fn header_text(header: Option<&str>) -> Option<Seq<char>> {
    match header {
        Some(h) => Some(h@),
        None => None,
    }
}

/// The guard's configuration: the shared key.
pub struct ApiKeyAuth {
    api_key: String,
}

impl ApiKeyAuth {
    pub closed spec fn key(&self) -> Seq<char> {
        self.api_key@
    }

    pub fn new(api_key: &str) -> (r: ApiKeyAuth)
        ensures
            r.key() == api_key@,
    {
        ApiKeyAuth { api_key: String::from_str(api_key) }
    }

    /// The guard in front of `service`, with this key.
    pub fn new_transform<S>(&self, service: S) -> (r: ApiKeyAuthMiddleware<S>)
        ensures
            r.inner() == service,
            r.key() == self.key(),
    {
        ApiKeyAuthMiddleware { service, api_key: self.api_key.clone() }
    }
}

/// The guard in front of a service.
pub struct ApiKeyAuthMiddleware<S> {
    service: S,
    api_key: String,
}

impl<S> ApiKeyAuthMiddleware<S> {
    pub closed spec fn key(&self) -> Seq<char> {
        self.api_key@
    }

    pub closed spec fn inner(&self) -> S {
        self.service
    }

    /// The service behind the guard.
    pub fn service(&self) -> (r: &S)
        ensures
            *r == self.inner(),
    {
        &self.service
    }

    /// Decides a request from its path and its key header: `Ok` lets it
    /// through to the service, an error answers it at once.
    pub fn check(&self, path: &str, header: Option<&str>) -> (r: Result<(), AppError>)
        ensures
            r is Ok <==> admits(path@, header_text(header), self.key()),
            r matches Err(e) ==> e == AppError::Unauthorized(e->Unauthorized_0) && e->Unauthorized_0@
                == UNAUTHORIZED_MESSAGE@,
    {
        if same_text(path, HEALTH_PATH) {
            return Ok(());
        }
        match header {
            Some(h) => {
                if same_text(h, self.api_key.as_str()) {
                    return Ok(());
                }
            },
            None => {},
        }
        Err(AppError::Unauthorized(String::from_str(UNAUTHORIZED_MESSAGE)))
    }
}

} // verus!
