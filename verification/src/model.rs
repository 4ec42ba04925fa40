//! The values exchanged with the service.

use vstd::prelude::*;

verus! {

/// The reply to a discovery request: a marker that names the service.
#[derive(Debug, Clone, PartialEq, Eq)]
pub struct DiscoveryData {
    pub link: String,
}

/// A bookmarked URL with a free-text note, as the service holds it.
#[derive(Debug, Clone, PartialEq, Eq)]
pub struct Link {
    pub id: i32,
    pub url: String,
    pub note: String,
}

/// The fields of a link that the client supplies when it creates one.
#[derive(Debug, Clone, PartialEq, Eq)]
pub struct PartialLink {
    pub url: String,
    pub note: String,
}

/// The reply to a listing request.
#[derive(Debug, Clone, PartialEq, Eq)]
pub struct ListLinksData {
    pub data: Vec<Link>,
}

/// The reply that carries a single link.
#[derive(Debug, Clone, PartialEq, Eq)]
pub struct GetLinkData {
    pub data: Link,
}

/// The body of a request that creates a link.
#[derive(Debug, Clone, PartialEq, Eq)]
pub struct CreateLink {
    pub link: PartialLink,
}

/// The body of a sign-in request.
#[derive(Debug, Clone, PartialEq, Eq)]
pub struct SignInRequest {
    pub username: String,
    pub password: String,
}

/// The reply to a successful sign-in: the bearer token.
#[derive(Debug, Clone, PartialEq, Eq)]
pub struct JwtResponse {
    pub jwt: String,
}

/// The mathematical content of a [`Link`].
pub struct LinkView {
    pub id: int,
    pub url: Seq<char>,
    pub note: Seq<char>,
}

impl View for Link {
    type V = LinkView;

    open spec fn view(&self) -> LinkView {
        LinkView { id: self.id as int, url: self.url@, note: self.note@ }
    }
}

impl DeepView for Link {
    type V = LinkView;

    open spec fn deep_view(&self) -> LinkView {
        self@
    }
}

/// The mathematical content of a [`PartialLink`].
pub struct PartialLinkView {
    pub url: Seq<char>,
    pub note: Seq<char>,
}

impl View for PartialLink {
    type V = PartialLinkView;

    open spec fn view(&self) -> PartialLinkView {
        PartialLinkView { url: self.url@, note: self.note@ }
    }
}

impl View for DiscoveryData {
    type V = Seq<char>;

    /// A discovery reply is its marker.
    open spec fn view(&self) -> Seq<char> {
        self.link@
    }
}

impl View for ListLinksData {
    type V = Seq<LinkView>;

    /// A listing is the sequence of its links, in the order received.
    open spec fn view(&self) -> Seq<LinkView> {
        self.data.deep_view()
    }
}

impl View for GetLinkData {
    type V = LinkView;

    open spec fn view(&self) -> LinkView {
        self.data@
    }
}

impl View for CreateLink {
    type V = PartialLinkView;

    open spec fn view(&self) -> PartialLinkView {
        self.link@
    }
}

/// The mathematical content of a [`SignInRequest`].
pub struct SignInView {
    pub username: Seq<char>,
    pub password: Seq<char>,
}

impl View for SignInRequest {
    type V = SignInView;

    open spec fn view(&self) -> SignInView {
        SignInView { username: self.username@, password: self.password@ }
    }
}

impl View for JwtResponse {
    type V = Seq<char>;

    /// A sign-in reply is its token.
    open spec fn view(&self) -> Seq<char> {
        self.jwt@
    }
}

} // verus!
