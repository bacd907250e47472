//! Per-request overrides: extra headers, query parameters, JSON body fields
//! and a timeout, applied on top of the client's defaults.

use vstd::prelude::*;
use core::time::Duration;
use crate::json::{JsonValue, jview, json_clone};
use crate::strmap::StringMap;

verus! {

/// Overrides for a single request.
#[derive(Debug)]
pub struct RequestOptions {
    /// Headers added to (or replacing) the client's default headers.
    pub extra_headers: StringMap,
    /// Query parameters appended after the client's default ones.
    pub extra_query: StringMap,
    /// Fields merged into the JSON body (see `merge_extra_body`).
    pub extra_body: Option<JsonValue>,
    /// Timeout of this request.
    pub timeout: Option<Duration>,
}

/// Whether `o` overrides nothing.
pub open spec fn is_no_override(o: RequestOptions) -> bool {
    &&& o.extra_headers@ == Map::<Seq<char>, Seq<char>>::empty()
    &&& o.extra_query@ == Map::<Seq<char>, Seq<char>>::empty()
    &&& o.extra_body is None
    &&& o.timeout is None
}

impl RequestOptions {
    /// No overrides.
    pub fn new() -> (o: RequestOptions)
        ensures
            is_no_override(o),
    {
        RequestOptions {
            extra_headers: StringMap::new(),
            extra_query: StringMap::new(),
            extra_body: None,
            timeout: None,
        }
    }

    /// Adds (or replaces) a header.
    pub fn header(self, key: &str, value: &str) -> (o: RequestOptions)
        ensures
            o.extra_headers@ == self.extra_headers@.insert(key@, value@),
            o.extra_query == self.extra_query,
            o.extra_body == self.extra_body,
            o.timeout == self.timeout,
    {
        let mut o = self;
        o.extra_headers.insert(key.to_string(), value.to_string());
        o
    }

    /// Adds (or replaces) a query parameter.
    pub fn query(self, key: &str, value: &str) -> (o: RequestOptions)
        ensures
            o.extra_query@ == self.extra_query@.insert(key@, value@),
            o.extra_headers == self.extra_headers,
            o.extra_body == self.extra_body,
            o.timeout == self.timeout,
    {
        let mut o = self;
        o.extra_query.insert(key.to_string(), value.to_string());
        o
    }

    /// Sets the fields merged into the JSON body.
    pub fn extra_body(self, value: JsonValue) -> (o: RequestOptions)
        ensures
            o.extra_body == Some(value),
            o.extra_headers == self.extra_headers,
            o.extra_query == self.extra_query,
            o.timeout == self.timeout,
    {
        let mut o = self;
        o.extra_body = Some(value);
        o
    }

    /// Sets this request's timeout.
    pub fn timeout(self, timeout: Duration) -> (o: RequestOptions)
        ensures
            o.timeout == Some(timeout),
            o.extra_headers == self.extra_headers,
            o.extra_query == self.extra_query,
            o.extra_body == self.extra_body,
    {
        let mut o = self;
        o.timeout = Some(timeout);
        o
    }

    /// A copy of these overrides, equal to them in every field's model.
    pub fn duplicate(&self) -> (o: RequestOptions)
        ensures
            o.extra_headers@ == self.extra_headers@,
            o.extra_query@ == self.extra_query@,
            o.extra_body is Some <==> self.extra_body is Some,
            self.extra_body is Some ==> jview(o.extra_body->0) == jview(self.extra_body->0),
            o.timeout == self.timeout,
    {
        let extra_body = match &self.extra_body {
            Some(b) => Some(json_clone(b)),
            None => None,
        };
        RequestOptions {
            extra_headers: self.extra_headers.duplicate(),
            extra_query: self.extra_query.duplicate(),
            extra_body,
            timeout: self.timeout,
        }
    }
}

} // verus!
