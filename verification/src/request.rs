//! Requests: what is handed to the service under test.

use vstd::prelude::*;
use crate::error::{serialization_cause, DispatchError};

verus! {

/// Whether a text is accepted as a request target.
pub uninterp spec fn well_formed_target(path: Seq<char>) -> bool;

/// `Uri::from_str` of the `http` crate, reached as `actix_web::http::Uri`
/// through `str::parse`: reports whether the text parses. The parser reads
/// nothing but the text and returns an error where it rejects it, so its
/// verdict is named `well_formed_target` of the text; the contract claims no
/// more than that, and it is not proved here.
#[verifier::external_body]
fn parses_as_target(path: &str) -> (ok: bool)
    ensures
        ok == well_formed_target(path@),
{
    path.parse::<actix_web::http::Uri>().is_ok()
}

/// The request methods the harness issues.
#[derive(Clone, Copy, Debug, PartialEq, Eq, Structural)]
pub enum Method {
    Get,
    Post,
}

/// A request as a mathematical value.
pub ghost struct RequestView {
    pub method: Method,
    pub path: Seq<char>,
    pub json: Option<Seq<u8>>,
}

impl RequestView {
    /// A GET request for `path`: no body.
    pub open spec fn get(path: Seq<char>) -> RequestView {
        RequestView { method: Method::Get, path, json: None }
    }

    /// A POST request for `path` whose body is exactly `body`, marked as JSON.
    pub open spec fn post_json(path: Seq<char>, body: Seq<u8>) -> RequestView {
        RequestView { method: Method::Post, path, json: Some(body) }
    }

    /// The two shapes a built request can have, on a well-formed target.
    pub open spec fn valid(self) -> bool {
        &&& well_formed_target(self.path)
        &&& self.method is Get <==> self.json is None
    }
}

/// One request, built fresh for one dispatch and not changed afterwards.
#[derive(Debug, PartialEq, Eq)]
pub struct Request {
    method: Method,
    path: String,
    json: Option<Vec<u8>>,
}

impl View for Request {
    type V = RequestView;

    closed spec fn view(&self) -> RequestView {
        RequestView {
            method: self.method,
            path: self.path@,
            json: match self.json {
                Some(body) => Some(body@),
                None => None,
            },
        }
    }
}

impl Request {
    #[verifier::type_invariant]
    spec fn well_formed(self) -> bool {
        self@.valid()
    }

    /// A GET request for `path`.
    pub fn get(path: &str) -> (req: Request)
        requires
            well_formed_target(path@),
        ensures
            req@ == RequestView::get(path@),
    {
        Request { method: Method::Get, path: path.to_owned(), json: None }
    }

    /// A GET request for `path`, where `path` is a well-formed target;
    /// otherwise nothing.
    pub fn try_get(path: &str) -> (out: Option<Request>)
        ensures
            out is Some <==> well_formed_target(path@),
            out matches Some(req) ==> req@ == RequestView::get(path@),
    {
        if parses_as_target(path) {
            Some(Request::get(path))
        } else {
            None
        }
    }

    /// A POST request for `path` that carries `body`, the serializer's
    /// output, byte for byte and marked as JSON.
    pub fn post_json(path: &str, body: Vec<u8>) -> (req: Request)
        requires
            well_formed_target(path@),
        ensures
            req@ == RequestView::post_json(path@, body@),
    {
        Request { method: Method::Post, path: path.to_owned(), json: Some(body) }
    }

    /// Decides what a JSON POST to `path` starts with, given what the
    /// serializer made of the payload. A payload that did not serialize is a
    /// dispatch failure and no request is built, whatever the path. Otherwise
    /// the request is built where `path` is a well-formed target, and
    /// nothing is where it is not.
    pub fn try_post_json(path: &str, serialized: Result<Vec<u8>, String>) -> (out: Result<
        Option<Request>,
        DispatchError,
    >)
        ensures
            match (serialized, out) {
                (Ok(body), Ok(Some(req))) => well_formed_target(path@) && req@
                    == RequestView::post_json(path@, body@),
                (Ok(_), Ok(None)) => !well_formed_target(path@),
                (Err(detail), Err(err)) => err@ == serialization_cause(detail@),
                _ => false,
            },
    {
        match serialized {
            Ok(body) => {
                if parses_as_target(path) {
                    Ok(Some(Request::post_json(path, body)))
                } else {
                    Ok(None)
                }
            },
            Err(detail) => Err(DispatchError::serialization(detail.as_str())),
        }
    }

    pub fn method(&self) -> (m: Method)
        ensures
            m == self@.method,
            self@.valid(),
    {
        proof {
            use_type_invariant(self);
        }
        self.method
    }

    pub fn path(&self) -> (p: &str)
        ensures
            p@ == self@.path,
            well_formed_target(p@),
    {
        proof {
            use_type_invariant(self);
        }
        self.path.as_str()
    }

    /// The JSON body, if the request has one.
    pub fn json(&self) -> (body: &Option<Vec<u8>>)
        ensures
            body is Some <==> self@.json is Some,
            body matches Some(b) ==> self@.json == Some(b@),
            body is Some <==> self@.method is Post,
    {
        proof {
            use_type_invariant(self);
        }
        &self.json
    }
}

} // verus!
