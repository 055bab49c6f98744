use std::rc::Rc;
use vstd::prelude::*;
use vstd::string::*;
use vstd::utf8::encode_utf8;

verus! {

/// The middleware that lets a request through only with the right `X-API-Key` header.
pub struct ApiKeyMiddleware;

/// The service that the middleware wraps around the inner service.
pub struct ApiKeyMiddlewareService<S> {
    pub service: Rc<S>,
}

/// A request is let through exactly when its key header is present and its bytes are those
/// of the configured key.
pub open spec fn key_admits(header: Option<Seq<u8>>, api_key: Seq<char>) -> bool {
    match header {
        Some(h) => h == encode_utf8(api_key),
        None => false,
    }
}

fn bytes_equal(a: &[u8], b: &[u8]) -> (r: bool)
    ensures
        r == (a@ == b@),
{
    if a.len() != b.len() {
        return false;
    }
    let mut i: usize = 0;
    while i < a.len()
        invariant
            i <= a@.len(),
            a@.len() == b@.len(),
            forall|k: int| 0 <= k < i ==> a@[k] == b@[k],
        decreases a@.len() - i,
    {
        if a[i] != b[i] {
            return false;
        }
        i = i + 1;
    }
    assert(a@ =~= b@);
    true
}

/// The configured key's own bytes are always let through, any other header bytes never,
/// and a request without the header never.
pub proof fn law_only_the_key_passes(header: Seq<u8>, api_key: Seq<char>)
    ensures
        key_admits(Some(encode_utf8(api_key)), api_key),
        header != encode_utf8(api_key) ==> !key_admits(Some(header), api_key),
        !key_admits(None, api_key),
{
}

impl ApiKeyMiddleware {
    /// Wraps `service`.
    pub fn new_transform<S>(&self, service: S) -> (r: ApiKeyMiddlewareService<S>)
        ensures
            *r.service == service,
    {
        ApiKeyMiddlewareService { service: Rc::new(service) }
    }
}

impl<S> ApiKeyMiddlewareService<S> {
    /// Whether a request whose `X-API-Key` header holds `header` (`None` where it has no
    /// such header) goes on to the inner service; every other request is answered 401.
    pub fn admits(header: Option<&[u8]>, api_key: &str) -> (r: bool)
        ensures
            r == key_admits(
                match header {
                    Some(h) => Some(h@),
                    None => None,
                },
                api_key@,
            ),
            r <==> (header is Some && header->0@ == encode_utf8(api_key@)),
    {
        match header {
            Some(h) => bytes_equal(h, api_key.as_bytes()),
            None => false,
        }
    }
}

} // verus!
