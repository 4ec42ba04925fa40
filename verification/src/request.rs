//! The requests that the client sends, as plain values.

use vstd::prelude::*;
use vstd::string::*;
use crate::model::{CreateLink, PartialLinkView, SignInRequest, SignInView};
use crate::text::{decimal, push_decimal};

verus! {

/// The HTTP method of a request.
#[derive(Debug, Clone, Copy, PartialEq, Eq)]
pub enum Method {
    Get,
    Post,
    Delete,
}

/// The JSON body that a request carries, if any.
#[derive(Debug, Clone, PartialEq, Eq)]
pub enum Payload {
    Empty,
    SignIn(SignInRequest),
    Create(CreateLink),
}

/// One request to the service: where it goes, with which credential, and
/// what it carries.
#[derive(Debug, Clone, PartialEq, Eq)]
pub struct Request {
    pub method: Method,
    pub url: String,
    pub bearer: Option<String>,
    pub payload: Payload,
}

/// The mathematical content of a [`Payload`].
pub enum PayloadView {
    Empty,
    SignIn(SignInView),
    Create(PartialLinkView),
}

impl View for Payload {
    type V = PayloadView;

    open spec fn view(&self) -> PayloadView {
        match self {
            Payload::Empty => PayloadView::Empty,
            Payload::SignIn(body) => PayloadView::SignIn(body@),
            Payload::Create(body) => PayloadView::Create(body@),
        }
    }
}

/// The mathematical content of a [`Request`].
pub struct RequestView {
    pub method: Method,
    pub url: Seq<char>,
    pub bearer: Option<Seq<char>>,
    pub payload: PayloadView,
}

impl View for Request {
    type V = RequestView;

    open spec fn view(&self) -> RequestView {
        RequestView {
            method: self.method,
            url: self.url@,
            bearer: self.bearer.deep_view(),
            payload: self.payload@,
        }
    }
}

/// The address of the discovery endpoint of the server at `base`.
pub open spec fn discovery_url(base: Seq<char>) -> Seq<char> {
    base + "/api/v1/_lb-discover"@
}

/// The address of the sign-in endpoint of the server at `base`.
pub open spec fn signin_url(base: Seq<char>) -> Seq<char> {
    base + "/api/v1/signin"@
}

/// The address of the collection of links of the server at `base`.
pub open spec fn links_url(base: Seq<char>) -> Seq<char> {
    base + "/api/v1/links"@
}

/// The address of the link numbered `id` of the server at `base`.
pub open spec fn link_url(base: Seq<char>, id: int) -> Seq<char> {
    base + "/api/v1/links/"@ + decimal(id)
}

/// The text by which the client names itself to the server: its name, a
/// slash, its version, and in brackets where its source is found.
pub open spec fn spec_user_agent(name: Seq<char>, version: Seq<char>) -> Seq<char> {
    name + "/"@ + version + " (https://github.com/ashisbored/linkbox-cli)"@
}

/// Builds the text by which the client names itself to the server.
pub fn user_agent(name: &str, version: &str) -> (agent: String)
    ensures
        agent@ == spec_user_agent(name@, version@),
{
    String::from_str(name).concat("/").concat(version).concat(
        " (https://github.com/ashisbored/linkbox-cli)",
    )
}

/// Builds the address of the discovery endpoint.
pub fn make_discovery_url(base: &str) -> (url: String)
    ensures
        url@ == discovery_url(base@),
{
    String::from_str(base).concat("/api/v1/_lb-discover")
}

/// Builds the address of the sign-in endpoint.
pub fn make_signin_url(base: &str) -> (url: String)
    ensures
        url@ == signin_url(base@),
{
    String::from_str(base).concat("/api/v1/signin")
}

/// Builds the address of the collection of links.
pub fn make_links_url(base: &str) -> (url: String)
    ensures
        url@ == links_url(base@),
{
    String::from_str(base).concat("/api/v1/links")
}

/// Builds the address of the link numbered `id`.
pub fn make_link_url(base: &str, id: i32) -> (url: String)
    ensures
        url@ == link_url(base@, id as int),
{
    let mut url: String = String::from_str(base).concat("/api/v1/links/");
    push_decimal(&mut url, id);
    url
}

} // verus!
