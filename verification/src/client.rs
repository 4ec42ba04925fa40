//! The client: a session and the operations of the service.
//!
//! Each operation comes in two parts. A function whose name ends in
//! `_request` says which request is to be sent, or refuses when the session
//! holds no token. The function that bears the operation's name takes what
//! came back, the status code and the decoded body, and says what the
//! operation yields.

use vstd::prelude::*;
use vstd::string::*;
use crate::error::{
    not_authorized_view, outcome, AuthError, AuthErrorView, ClientError, ClientErrorView,
};
use crate::model::{
    CreateLink, DiscoveryData, GetLinkData, JwtResponse, Link, ListLinksData, PartialLink,
    PartialLinkView, SignInRequest, SignInView,
};
use crate::request::{
    discovery_url, link_url, links_url, make_discovery_url, make_link_url, make_links_url,
    make_signin_url, signin_url, Method, Payload, PayloadView, Request, RequestView,
};
use crate::status::{is_not_found, is_success, spec_is_success, spec_not_found};
use crate::text::{ends_with_slash, strip_trailing_slash, without_trailing_slash};

verus! {

/// The mathematical content of a client: where the server is, and the token
/// that proves who the user is, once there is one.
pub struct SessionView {
    pub base_url: Seq<char>,
    pub token: Option<Seq<char>>,
}

/// A session with the service.
#[derive(Debug, Clone, PartialEq, Eq)]
pub struct LinkboxClient {
    base_url: String,
    jwt: Option<String>,
}

impl View for LinkboxClient {
    type V = SessionView;

    closed spec fn view(&self) -> SessionView {
        SessionView { base_url: self.base_url@, token: self.jwt.deep_view() }
    }
}

/// A request plan with both sides replaced by their content.
pub open spec fn plan(r: Result<Request, AuthError>) -> Result<RequestView, AuthErrorView> {
    match r {
        Ok(request) => Ok(request@),
        Err(e) => Err(e@),
    }
}

/// The marker by which a compatible server makes itself known.
pub open spec fn marker() -> Seq<char> {
    "box"@
}

/// The session of a client just built for the server at `base_url`: one
/// trailing `/` of the address is dropped, and there is no token yet.
pub open spec fn spec_new(base_url: Seq<char>) -> SessionView {
    SessionView { base_url: strip_trailing_slash(base_url), token: None }
}

/// The request that asks the server at `base` whether it is compatible.
pub open spec fn spec_discovery_request(base: Seq<char>) -> RequestView {
    RequestView {
        method: Method::Get,
        url: discovery_url(base),
        bearer: None,
        payload: PayloadView::Empty,
    }
}

/// What a discovery reply says: a failing status means "not compatible"; a
/// successful one is compatible exactly when its marker is the expected one.
pub open spec fn spec_is_valid_instance(status: u16, body: Option<DiscoveryData>) -> Result<
    bool,
    ClientErrorView,
> {
    if !spec_is_success(status) {
        Ok(false)
    } else {
        match body {
            Some(data) => Ok(data@ == marker()),
            None => Err(ClientErrorView::Decode),
        }
    }
}

/// The request that signs in.
pub open spec fn spec_login_request(
    session: SessionView,
    username: Seq<char>,
    password: Seq<char>,
) -> RequestView {
    RequestView {
        method: Method::Post,
        url: signin_url(session.base_url),
        bearer: None,
        payload: PayloadView::SignIn(SignInView { username, password }),
    }
}

/// What a sign-in reply yields.
pub open spec fn spec_login(status: u16, body: Option<JwtResponse>) -> Result<(), ClientErrorView> {
    if !spec_is_success(status) {
        Err(ClientErrorView::Auth(AuthErrorView::InvalidCredentials("signin"@)))
    } else {
        match body {
            Some(_) => Ok(()),
            None => Err(ClientErrorView::Decode),
        }
    }
}

/// The session after a sign-in reply: the token of a successful reply is
/// taken, anything else leaves the session as it was.
pub open spec fn spec_login_session(
    session: SessionView,
    status: u16,
    body: Option<JwtResponse>,
) -> SessionView {
    if spec_is_success(status) && body is Some {
        SessionView { base_url: session.base_url, token: Some(body->0@) }
    } else {
        session
    }
}

/// An authenticated request without a body.
pub open spec fn bearer_request(method: Method, url: Seq<char>, token: Seq<char>) -> RequestView {
    RequestView { method, url, bearer: Some(token), payload: PayloadView::Empty }
}

/// The request that lists the links, or the refusal for want of a token.
pub open spec fn spec_list_links_request(session: SessionView) -> Result<
    RequestView,
    AuthErrorView,
> {
    match session.token {
        Some(token) => Ok(bearer_request(Method::Get, links_url(session.base_url), token)),
        None => Err(AuthErrorView::NotAuthorized("list links"@)),
    }
}

/// What a listing reply yields: the links in the order received.
pub open spec fn spec_list_links(
    session: SessionView,
    status: u16,
    body: Option<ListLinksData>,
) -> Result<Vec<Link>, ClientErrorView> {
    if session.token is None || !spec_is_success(status) {
        Err(not_authorized_view("list links"@))
    } else {
        match body {
            Some(listing) => Ok(listing.data),
            None => Err(ClientErrorView::Decode),
        }
    }
}

/// The request that fetches one link, or the refusal for want of a token.
pub open spec fn spec_fetch_link_request(session: SessionView, id: int) -> Result<
    RequestView,
    AuthErrorView,
> {
    match session.token {
        Some(token) => Ok(bearer_request(Method::Get, link_url(session.base_url, id), token)),
        None => Err(AuthErrorView::NotAuthorized("get link"@)),
    }
}

/// What the reply to a fetch yields: "not found" is an ordinary answer, every
/// other failing status counts as a lack of authorization.
pub open spec fn spec_fetch_link(
    session: SessionView,
    status: u16,
    body: Option<GetLinkData>,
) -> Result<Option<Link>, ClientErrorView> {
    if session.token is None {
        Err(not_authorized_view("get link"@))
    } else if status == spec_not_found() {
        Ok(None)
    } else if !spec_is_success(status) {
        Err(not_authorized_view("get link"@))
    } else {
        match body {
            Some(found) => Ok(Some(found.data)),
            None => Err(ClientErrorView::Decode),
        }
    }
}

/// The request that creates a link, or the refusal for want of a token.
pub open spec fn spec_create_link_request(
    session: SessionView,
    url: Seq<char>,
    note: Seq<char>,
) -> Result<RequestView, AuthErrorView> {
    match session.token {
        Some(token) => Ok(
            RequestView {
                method: Method::Post,
                url: links_url(session.base_url),
                bearer: Some(token),
                payload: PayloadView::Create(PartialLinkView { url, note }),
            },
        ),
        None => Err(AuthErrorView::NotAuthorized("create link"@)),
    }
}

/// What the reply to a creation yields: the number that the server gave the
/// new link, or the failing status code as it came.
pub open spec fn spec_create_link(
    session: SessionView,
    status: u16,
    body: Option<GetLinkData>,
) -> Result<i32, ClientErrorView> {
    if session.token is None {
        Err(not_authorized_view("create link"@))
    } else if !spec_is_success(status) {
        Err(ClientErrorView::Auth(AuthErrorView::ServerError(status)))
    } else {
        match body {
            Some(created) => Ok(created.data.id),
            None => Err(ClientErrorView::Decode),
        }
    }
}

/// The request that deletes a link, or the refusal for want of a token.
pub open spec fn spec_delete_link_request(session: SessionView, id: int) -> Result<
    RequestView,
    AuthErrorView,
> {
    match session.token {
        Some(token) => Ok(bearer_request(Method::Delete, link_url(session.base_url, id), token)),
        None => Err(AuthErrorView::NotAuthorized("delete link"@)),
    }
}

/// What the reply to a deletion yields.
pub open spec fn spec_delete_link(session: SessionView, status: u16) -> Result<
    (),
    ClientErrorView,
> {
    if session.token is None {
        Err(not_authorized_view("delete link"@))
    } else if !spec_is_success(status) {
        Err(ClientErrorView::Auth(AuthErrorView::ServerError(status)))
    } else {
        Ok(())
    }
}

impl LinkboxClient {
    /// The request that asks the server at `base_url` whether it is a
    /// compatible instance. It carries no credential.
    pub fn discovery_request(base_url: &str) -> (request: Request)
        ensures
            request@ == spec_discovery_request(base_url@),
    {
        Request {
            method: Method::Get,
            url: make_discovery_url(base_url),
            bearer: None,
            payload: Payload::Empty,
        }
    }

    /// Reads the reply to a discovery request.
    pub fn is_valid_instance(status: u16, body: Option<DiscoveryData>) -> (r: Result<
        bool,
        ClientError,
    >)
        ensures
            outcome(r) == spec_is_valid_instance(status, body),
    {
        if !is_success(status) {
            return Ok(false);
        }
        match body {
            Some(data) => {
                let expected: String = String::from_str("box");
                Ok(data.link == expected)
            },
            None => Err(ClientError::Decode),
        }
    }

    /// A client for the server at `base_url`, without a token. One trailing
    /// `/` of the address is dropped.
    pub fn new(base_url: String) -> (client: LinkboxClient)
        ensures
            client@ == spec_new(base_url@),
    {
        LinkboxClient { base_url: without_trailing_slash(base_url), jwt: None }
    }

    /// The same client, holding `jwt` as its token.
    pub fn with_jwt(self, jwt: String) -> (client: LinkboxClient)
        ensures
            client@ == (SessionView { base_url: self@.base_url, token: Some(jwt@) }),
    {
        LinkboxClient { base_url: self.base_url, jwt: Some(jwt) }
    }

    /// The request that signs in with `username` and `password`.
    pub fn login_request(&self, username: String, password: String) -> (request: Request)
        ensures
            request@ == spec_login_request(self@, username@, password@),
    {
        Request {
            method: Method::Post,
            url: make_signin_url(self.base_url.as_str()),
            bearer: None,
            payload: Payload::SignIn(SignInRequest { username, password }),
        }
    }

    /// Reads the reply to a sign-in request and, when the server accepted,
    /// takes the token it sent.
    pub fn login(&mut self, status: u16, body: Option<JwtResponse>) -> (r: Result<(), ClientError>)
        ensures
            outcome(r) == spec_login(status, body),
            final(self)@ == spec_login_session(old(self)@, status, body),
    {
        if !is_success(status) {
            return Err(
                ClientError::Auth(AuthError::InvalidCredentials(String::from_str("signin"))),
            );
        }
        match body {
            Some(reply) => {
                self.jwt = Some(reply.jwt);
                Ok(())
            },
            None => Err(ClientError::Decode),
        }
    }

    /// The request that lists the links.
    pub fn list_links_request(&self) -> (r: Result<Request, AuthError>)
        ensures
            plan(r) == spec_list_links_request(self@),
    {
        match &self.jwt {
            None => Err(AuthError::not_authorized("list links")),
            Some(token) => Ok(
                Request {
                    method: Method::Get,
                    url: make_links_url(self.base_url.as_str()),
                    bearer: Some(token.clone()),
                    payload: Payload::Empty,
                },
            ),
        }
    }

    /// Reads the reply to a listing request.
    pub fn list_links(&self, status: u16, body: Option<ListLinksData>) -> (r: Result<
        Vec<Link>,
        ClientError,
    >)
        ensures
            outcome(r) == spec_list_links(self@, status, body),
    {
        if self.jwt.is_none() || !is_success(status) {
            return Err(ClientError::Auth(AuthError::not_authorized("list links")));
        }
        match body {
            Some(listing) => Ok(listing.data),
            None => Err(ClientError::Decode),
        }
    }

    /// The request that fetches the link numbered `id`.
    pub fn fetch_link_request(&self, id: i32) -> (r: Result<Request, AuthError>)
        ensures
            plan(r) == spec_fetch_link_request(self@, id as int),
    {
        match &self.jwt {
            None => Err(AuthError::not_authorized("get link")),
            Some(token) => Ok(
                Request {
                    method: Method::Get,
                    url: make_link_url(self.base_url.as_str(), id),
                    bearer: Some(token.clone()),
                    payload: Payload::Empty,
                },
            ),
        }
    }

    /// Reads the reply to a fetch request.
    pub fn fetch_link(&self, status: u16, body: Option<GetLinkData>) -> (r: Result<
        Option<Link>,
        ClientError,
    >)
        ensures
            outcome(r) == spec_fetch_link(self@, status, body),
    {
        if self.jwt.is_none() {
            Err(ClientError::Auth(AuthError::not_authorized("get link")))
        } else if is_not_found(status) {
            Ok(None)
        } else if !is_success(status) {
            Err(ClientError::Auth(AuthError::not_authorized("get link")))
        } else {
            match body {
                Some(found) => Ok(Some(found.data)),
                None => Err(ClientError::Decode),
            }
        }
    }

    /// The request that creates a link to `url` with the note `note`.
    pub fn create_link_request(&self, url: String, note: String) -> (r: Result<Request, AuthError>)
        ensures
            plan(r) == spec_create_link_request(self@, url@, note@),
    {
        match &self.jwt {
            None => Err(AuthError::not_authorized("create link")),
            Some(token) => Ok(
                Request {
                    method: Method::Post,
                    url: make_links_url(self.base_url.as_str()),
                    bearer: Some(token.clone()),
                    payload: Payload::Create(CreateLink { link: PartialLink { url, note } }),
                },
            ),
        }
    }

    /// Reads the reply to a creation request.
    pub fn create_link(&self, status: u16, body: Option<GetLinkData>) -> (r: Result<
        i32,
        ClientError,
    >)
        ensures
            outcome(r) == spec_create_link(self@, status, body),
    {
        if self.jwt.is_none() {
            Err(ClientError::Auth(AuthError::not_authorized("create link")))
        } else if !is_success(status) {
            Err(ClientError::Auth(AuthError::ServerError(status)))
        } else {
            match body {
                Some(created) => Ok(created.data.id),
                None => Err(ClientError::Decode),
            }
        }
    }

    /// The request that deletes the link numbered `id`.
    pub fn delete_link_request(&self, id: i32) -> (r: Result<Request, AuthError>)
        ensures
            plan(r) == spec_delete_link_request(self@, id as int),
    {
        match &self.jwt {
            None => Err(AuthError::not_authorized("delete link")),
            Some(token) => Ok(
                Request {
                    method: Method::Delete,
                    url: make_link_url(self.base_url.as_str(), id),
                    bearer: Some(token.clone()),
                    payload: Payload::Empty,
                },
            ),
        }
    }

    /// Reads the reply to a deletion request.
    pub fn delete_link(&self, status: u16) -> (r: Result<(), ClientError>)
        ensures
            outcome(r) == spec_delete_link(self@, status),
    {
        if self.jwt.is_none() {
            Err(ClientError::Auth(AuthError::not_authorized("delete link")))
        } else if !is_success(status) {
            Err(ClientError::Auth(AuthError::ServerError(status)))
        } else {
            Ok(())
        }
    }

    /// The address of the server, as the client holds it.
    pub fn get_base_url(&self) -> (base_url: String)
        ensures
            base_url@ == self@.base_url,
    {
        self.base_url.clone()
    }

    /// The token, if the client holds one.
    pub fn get_jwt(&self) -> (jwt: Option<String>)
        ensures
            jwt.deep_view() == self@.token,
    {
        match &self.jwt {
            Some(token) => Some(token.clone()),
            None => None,
        }
    }
}

/// Building a client drops one trailing `/` from the address.
pub proof fn lemma_new_normalizes(base_url: Seq<char>)
    ensures
        spec_new(base_url).token is None,
        ends_with_slash(base_url) ==> spec_new(base_url).base_url == base_url.drop_last(),
        !ends_with_slash(base_url) ==> spec_new(base_url).base_url == base_url,
{
}

/// Building a client from the address of a client just built yields that
/// client again, provided that its address does not still end in `/`, which
/// it does only when the address it was built from ended in two of them.
pub proof fn lemma_new_idempotent(base_url: Seq<char>)
    requires
        !ends_with_slash(spec_new(base_url).base_url),
    ensures
        spec_new(spec_new(base_url).base_url) == spec_new(base_url),
{
}

/// Where the address of a client just built still ends in `/`, building
/// again drops that one too: the two clients differ.
pub proof fn lemma_new_drops_one_slash_at_a_time(base_url: Seq<char>)
    requires
        ends_with_slash(spec_new(base_url).base_url),
    ensures
        spec_new(spec_new(base_url).base_url) != spec_new(base_url),
        spec_new(spec_new(base_url).base_url).base_url == spec_new(base_url).base_url.drop_last(),
{
    let once = spec_new(base_url).base_url;
    assert(once.drop_last().len() != once.len());
}

/// A server is taken for a compatible instance exactly when it answers with
/// a successful status and the expected marker; a failing status is never an
/// error.
pub proof fn lemma_valid_instance(status: u16, body: Option<DiscoveryData>)
    ensures
        spec_is_valid_instance(status, body) == Ok::<bool, ClientErrorView>(true) <==> (
        spec_is_success(status) && body is Some && body->0.link@ == "box"@),
        !spec_is_success(status) ==> spec_is_valid_instance(status, body) == Ok::<
            bool,
            ClientErrorView,
        >(false),
        spec_is_success(status) && body is Some && body->0.link@ != "box"@
            ==> spec_is_valid_instance(status, body) == Ok::<bool, ClientErrorView>(false),
{
}

/// Without a token no authenticated request is planned, and every
/// authenticated operation is refused as not authorized, whatever reply it
/// is shown.
pub proof fn lemma_token_required(
    session: SessionView,
    id: int,
    url: Seq<char>,
    note: Seq<char>,
    status: u16,
    listing: Option<ListLinksData>,
    link: Option<GetLinkData>,
)
    requires
        session.token is None,
    ensures
        spec_list_links_request(session) == Err::<RequestView, AuthErrorView>(
            AuthErrorView::NotAuthorized("list links"@),
        ),
        spec_fetch_link_request(session, id) == Err::<RequestView, AuthErrorView>(
            AuthErrorView::NotAuthorized("get link"@),
        ),
        spec_create_link_request(session, url, note) == Err::<RequestView, AuthErrorView>(
            AuthErrorView::NotAuthorized("create link"@),
        ),
        spec_delete_link_request(session, id) == Err::<RequestView, AuthErrorView>(
            AuthErrorView::NotAuthorized("delete link"@),
        ),
        spec_list_links(session, status, listing) == Err::<Vec<Link>, ClientErrorView>(
            not_authorized_view("list links"@),
        ),
        spec_fetch_link(session, status, link) == Err::<Option<Link>, ClientErrorView>(
            not_authorized_view("get link"@),
        ),
        spec_create_link(session, status, link) == Err::<i32, ClientErrorView>(
            not_authorized_view("create link"@),
        ),
        spec_delete_link(session, status) == Err::<(), ClientErrorView>(
            not_authorized_view("delete link"@),
        ),
{
}

/// With a token, a fetch that meets status 404 yields no link and no error,
/// and one that meets any other failing status is refused as not authorized.
pub proof fn lemma_fetch_link_status(session: SessionView, status: u16, body: Option<GetLinkData>)
    requires
        session.token is Some,
    ensures
        status == 404 ==> spec_fetch_link(session, status, body) == Ok::<
            Option<Link>,
            ClientErrorView,
        >(None),
        status != 404 && !spec_is_success(status) ==> spec_fetch_link(session, status, body)
            == Err::<Option<Link>, ClientErrorView>(not_authorized_view("get link"@)),
        spec_is_success(status) && body is Some ==> spec_fetch_link(session, status, body) == Ok::<
            Option<Link>,
            ClientErrorView,
        >(Some(body->0.data)),
{
}

/// With a token, a creation that meets a successful status yields the number
/// of the link in the reply, and one that meets a failing status yields a
/// server error that carries that very status.
pub proof fn lemma_create_link_status(session: SessionView, status: u16, body: Option<GetLinkData>)
    requires
        session.token is Some,
    ensures
        spec_is_success(status) && body is Some ==> spec_create_link(session, status, body) == Ok::<
            i32,
            ClientErrorView,
        >(body->0.data.id),
        !spec_is_success(status) ==> spec_create_link(session, status, body) == Err::<
            i32,
            ClientErrorView,
        >(ClientErrorView::Auth(AuthErrorView::ServerError(status))),
{
}

} // verus!
