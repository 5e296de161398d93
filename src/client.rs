use vstd::prelude::*;
use crate::params::{Params, qs_encoding};

verus! {

/// The address of every request: the service's root, the endpoint path and
/// the query.
pub open spec fn url_text(path: Seq<char>, query: Seq<char>) -> Seq<char> {
    "https://dev.virtualearth.net/REST/v1/"@ + path + "?"@ + query
}

/// The name of the query parameter that carries the credential.
pub open spec fn key_param() -> Seq<char> {
    "key"@
}

/// The request side of a client of the service: it holds the credential,
/// which is set when the client is made and never changes, so that a client
/// can be shared between threads.
pub struct Client {
    key: String,
}

impl Client {
    /// The credential that every request carries.
    pub closed spec fn credential(&self) -> Seq<char> {
        self.key@
    }

    pub fn new(key: &str) -> (r: Client)
        ensures
            r.credential() == key@,
    {
        Client { key: String::from_str(key) }
    }

    /// The credential that every request carries.
    pub fn key(&self) -> (r: &str)
        ensures
            r@ == self.credential(),
    {
        self.key.as_str()
    }

    /// The address of a request to `path` with the query `params`.
    pub fn url(path: &str, params: &Params) -> (r: String)
        requires
            params.wf(),
        ensures
            r@ == url_text(path@, qs_encoding(params@)),
    {
        let mut s = String::from_str("https://dev.virtualearth.net/REST/v1/");
        s.append(path);
        s.append("?");
        let query = params.encode();
        s.append(query.as_str());
        s
    }

    /// Sets the credential in `params`, replacing any value given for it, and
    /// returns the address of a request to `path` with those parameters.
    pub fn request_url(&self, path: &str, params: &mut Params) -> (r: String)
        requires
            old(params).wf(),
        ensures
            final(params).wf(),
            final(params)@ == old(params)@.insert(key_param(), self.credential()),
            r@ == url_text(path@, qs_encoding(final(params)@)),
    {
        params.insert("key", self.key.as_str());
        proof {
            reveal_strlit("key");
        }
        Client::url(path, params)
    }
}

} // verus!
