use vstd::prelude::*;
use std::collections::HashMap;

verus! {

/// An incoming request, as built by the transport layer. The router never
/// changes it; `url` is the exact key used for lookup.
pub struct Request {
    pub method: String,
    pub url: String,
    pub headers: HashMap<String, String>,
    pub body: Vec<u8>,
}

/// The answer a handler produces for a request.
pub struct Response {
    pub code: u32,
    pub headers: HashMap<String, String>,
    pub body: Vec<u8>,
}

impl Request {
    pub fn new(method: String, url: String, headers: HashMap<String, String>, body: Vec<u8>) -> (r:
        Request)
        ensures
            r.method == method,
            r.url == url,
            r.headers == headers,
            r.body == body,
    {
        Request { method, url, headers, body }
    }
}

impl Response {
    pub fn new(code: u32, headers: HashMap<String, String>, body: Vec<u8>) -> (r: Response)
        ensures
            r.code == code,
            r.headers == headers,
            r.body == body,
    {
        Response { code, headers, body }
    }
}

} // verus!
