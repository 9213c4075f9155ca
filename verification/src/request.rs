//! Uniform request values handed to the transport, and the
//! `application/x-www-form-urlencoded` encoding of form payloads.

use crate::urls::abs_url;
use crate::urls::abs_url_spec;
use vstd::prelude::*;

verus! {

/// HTTP method of a pipeline request.
#[derive(Clone, Copy, PartialEq, Eq, Structural, Debug)]
pub enum Method {
    Get,
    Post,
}

/// A planned form submission: a relative path and the key-value pairs of
/// its body, still unencoded.
#[derive(Debug)]
pub struct FormRequest {
    pub path: String,
    pub fields: Vec<(String, String)>,
}

/// A fully-formed request: method, absolute target and, for a form
/// submission, the encoded body.
#[derive(Debug)]
pub struct HttpRequest {
    pub method: Method,
    pub url: String,
    pub form_body: Option<String>,
}

/// View of a pair list as character sequences.
pub open spec fn pair_views(fields: Seq<(String, String)>) -> Seq<(Seq<char>, Seq<char>)> {
    fields.map_values(|p: (String, String)| (p.0@, p.1@))
}

/// What form encoding returns for a pair list: the output depends on the
/// pairs alone.
pub uninterp spec fn form_encoding(pairs: Seq<(Seq<char>, Seq<char>)>) -> Seq<char>;

/// Relies on serde_urlencoded::to_string: for a sequence of string pairs it
/// joins percent-encoded `key=value` entries with `&`; the result is a
/// function of the pairs alone, an empty pair list encodes to the empty
/// string, and no sequence of string pairs is rejected (its ser/pair.rs
/// routes every 2-tuple of strings through the always-successful string
/// sink, so the unwrap below cannot panic).
#[verifier::external_body]
fn urlencode_fields(fields: &Vec<(String, String)>) -> (r: String)
    ensures
        r@ == form_encoding(pair_views(fields@)),
        fields@.len() == 0 ==> r@.len() == 0,
{
    serde_urlencoded::to_string(fields).unwrap()
}

impl HttpRequest {
    /// The GET request for a relative path on the fixed origin.
    pub fn get_to(rel: &str) -> (r: HttpRequest)
        ensures
            r.method == Method::Get,
            r.url@ == abs_url_spec(rel@),
            r.form_body is None,
    {
        HttpRequest { method: Method::Get, url: abs_url(rel), form_body: None }
    }
}

impl FormRequest {
    /// Encodes this form submission into a POST request on the fixed
    /// origin, with the form content carried as the request body.
    pub fn to_http(&self) -> (r: HttpRequest)
        ensures
            r.method == Method::Post,
            r.url@ == abs_url_spec(self.path@),
            r.form_body matches Some(b) && b@ == form_encoding(pair_views(self.fields@)),
    {
        HttpRequest {
            method: Method::Post,
            url: abs_url(self.path.as_str()),
            form_body: Some(urlencode_fields(&self.fields)),
        }
    }
}

} // verus!
