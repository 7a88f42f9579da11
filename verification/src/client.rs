//! The account settings of a client, and the requests that it sends.

use crate::error::{Error, ErrorView};
use crate::namespace::Namespace;
use crate::text::{join, join3};
use crate::value::{Json, Value};
use crate::wire::optional_view;
use vstd::prelude::*;

verus! {

/// The address of the service where no region is chosen.
pub open spec fn default_base_url() -> Seq<char> {
    "https://api.turbopuffer.com"@
}

/// The address of the service in a region.
pub open spec fn region_base_url(region: Seq<char>) -> Seq<char> {
    "https://"@ + region + ".turbopuffer.com"@
}

/// The message of the error that reports a missing key.
pub open spec fn missing_key_message() -> Seq<char> {
    "TURBOPUFFER_API_KEY not set"@
}

/// The method of a request.
#[derive(Debug, Clone, Copy, PartialEq, Eq, Structural)]
pub enum Method {
    Get,
    Post,
    Delete,
}

/// A request, ready to be sent.
pub struct Request {
    pub method: Method,
    pub url: String,
    /// Header names and values, in the order in which they are set.
    pub headers: Vec<(String, String)>,
    /// The body, which is sent as JSON.
    pub body: Option<Value>,
}

/// The mathematical model of a [`Request`].
pub struct RequestView {
    pub method: Method,
    pub url: Seq<char>,
    pub headers: Seq<(Seq<char>, Seq<char>)>,
    pub body: Option<Json>,
}

impl View for Request {
    type V = RequestView;

    open spec fn view(&self) -> RequestView {
        RequestView {
            method: self.method,
            url: self.url@,
            headers: self.headers@.map_values(|h: (String, String)| (h.0@, h.1@)),
            body: optional_view(self.body),
        }
    }
}

/// The account settings of a client: the key and the address of the service.
pub struct Client {
    api_key: String,
    base_url: String,
}

/// The mathematical model of a [`Client`].
pub struct ClientView {
    pub api_key: Seq<char>,
    pub base_url: Seq<char>,
}

impl View for Client {
    type V = ClientView;

    closed spec fn view(&self) -> ClientView {
        ClientView { api_key: self.api_key@, base_url: self.base_url@ }
    }
}

impl ClientView {
    /// The settings that the environment gives: an error if the key is
    /// missing; else the key, with the address of the region if one is
    /// named and the default address if none is.
    pub open spec fn from_env(api_key: Option<String>, region: Option<String>) -> Result<
        ClientView,
        ErrorView,
    > {
        match api_key {
            None => Err(ErrorView::Api { status: 0, message: missing_key_message() }),
            Some(key) => Ok(
                ClientView {
                    api_key: key@,
                    base_url: match region {
                        Some(name) => region_base_url(name@),
                        None => default_base_url(),
                    },
                },
            ),
        }
    }

    /// The headers that every request carries: the key as a bearer token,
    /// and the content type of the body.
    pub open spec fn headers(self) -> Seq<(Seq<char>, Seq<char>)> {
        seq![
            ("Authorization"@, "Bearer "@ + self.api_key),
            ("Content-Type"@, "application/json"@),
        ]
    }

    /// The request that the client sends for a method, a path and a body.
    pub open spec fn request(
        self,
        method: Method,
        path: Seq<char>,
        body: Option<Json>,
    ) -> RequestView {
        RequestView { method, url: self.base_url + path, headers: self.headers(), body }
    }
}

impl Client {
    /// A client of the default address.
    pub fn new(api_key: &str) -> (client: Client)
        ensures
            client@ == (ClientView { api_key: api_key@, base_url: default_base_url() }),
    {
        Client { api_key: api_key.to_owned(), base_url: "https://api.turbopuffer.com".to_owned() }
    }

    /// A client of the service in a region.
    pub fn with_region(api_key: &str, region: &str) -> (client: Client)
        ensures
            client@ == (ClientView { api_key: api_key@, base_url: region_base_url(region@) }),
    {
        let base_url = join3("https://", region, ".turbopuffer.com");
        Client { api_key: api_key.to_owned(), base_url }
    }

    /// A client of the given address.
    pub fn with_base_url(api_key: &str, base_url: &str) -> (client: Client)
        ensures
            client@ == (ClientView { api_key: api_key@, base_url: base_url@ }),
    {
        Client { api_key: api_key.to_owned(), base_url: base_url.to_owned() }
    }

    /// A client from the settings of the environment: the key, which must be
    /// there, and the region, which is optional. The caller reads the two
    /// variables and hands in what it found.
    pub fn from_env(api_key: Option<String>, region: Option<String>) -> (r: Result<Client, Error>)
        ensures
            match r {
                Ok(client) => ClientView::from_env(api_key, region) == Ok::<
                    ClientView,
                    ErrorView,
                >(client@),
                Err(e) => ClientView::from_env(api_key, region) == Err::<ClientView, ErrorView>(e@),
            },
    {
        match api_key {
            None => Err(
                Error::Api { status: 0, message: "TURBOPUFFER_API_KEY not set".to_owned() },
            ),
            Some(key) => {
                let base_url = match region {
                    Some(name) => join3("https://", &name, ".turbopuffer.com"),
                    None => "https://api.turbopuffer.com".to_owned(),
                };
                Ok(Client { api_key: key, base_url })
            },
        }
    }

    /// The key of the account.
    pub fn api_key(&self) -> (key: &str)
        ensures
            key@ == self@.api_key,
    {
        &self.api_key
    }

    /// The address of the service.
    pub fn base_url(&self) -> (url: &str)
        ensures
            url@ == self@.base_url,
    {
        &self.base_url
    }

    /// The namespace of the given name, as this client sees it.
    pub fn namespace(&self, name: &str) -> (ns: Namespace<'_>)
        ensures
            ns@.client == self@,
            ns@.name == name@,
    {
        Namespace::new(self, name.to_owned())
    }

    /// The request for a method, a path below the address, and a body.
    pub fn request(&self, method: Method, path: &str, body: Option<Value>) -> (r: Request)
        ensures
            r@ == self@.request(method, path@, optional_view(body)),
    {
        let url = join(&self.base_url, path);
        let mut headers: Vec<(String, String)> = Vec::new();
        headers.push(("Authorization".to_owned(), join("Bearer ", &self.api_key)));
        headers.push(("Content-Type".to_owned(), "application/json".to_owned()));
        let r = Request { method, url, headers, body };
        assert(r@.headers =~= self@.headers());
        r
    }

    /// The request for a method and a path below the address, without a body.
    pub fn request_no_body(&self, method: Method, path: &str) -> (r: Request)
        ensures
            r@ == self@.request(method, path@, None),
    {
        self.request(method, path, None)
    }

    /// Whether a status reports success: it lies between 200 and 299.
    pub fn is_success(status: u16) -> (ok: bool)
        ensures
            ok == (200 <= status < 300),
    {
        200 <= status && status < 300
    }

    /// The error for an answer whose status does not report success. The
    /// message is the text of the answer, or empty if the text could not be
    /// read.
    pub fn api_error(status: u16, text: Option<String>) -> (e: Error)
        ensures
            e@ == (ErrorView::Api {
                status,
                message: match text {
                    Some(t) => t@,
                    None => Seq::empty(),
                },
            }),
    {
        let message = match text {
            Some(t) => t,
            None => String::new(),
        };
        Error::Api { status, message }
    }
}

} // verus!
