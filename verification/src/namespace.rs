//! The requests of one namespace.

use crate::client::{Client, ClientView, Method, Request};
use crate::error::Error;
use crate::params::{MultiQueryParams, QueryParams, WriteParams};
use crate::text::join3;
use vstd::prelude::*;

verus! {

/// One namespace of the service, as a client sees it.
pub struct Namespace<'a> {
    client: &'a Client,
    name: String,
}

/// The mathematical model of a [`Namespace`].
pub struct NamespaceView {
    pub client: ClientView,
    pub name: Seq<char>,
}

impl<'a> View for Namespace<'a> {
    type V = NamespaceView;

    closed spec fn view(&self) -> NamespaceView {
        NamespaceView { client: self.client@, name: self.name@ }
    }
}

impl NamespaceView {
    /// A path of the first version of the interface.
    pub open spec fn v1_path(self, suffix: Seq<char>) -> Seq<char> {
        "/v1/namespaces/"@ + self.name + suffix
    }

    /// A path of the second version of the interface.
    pub open spec fn v2_path(self, suffix: Seq<char>) -> Seq<char> {
        "/v2/namespaces/"@ + self.name + suffix
    }
}

impl<'a> Namespace<'a> {
    pub(crate) fn new(client: &'a Client, name: String) -> (ns: Namespace<'a>)
        ensures
            ns@.client == client@,
            ns@.name == name@,
    {
        Namespace { client, name }
    }

    /// The name of the namespace.
    pub fn name(&self) -> (name: &str)
        ensures
            name@ == self@.name,
    {
        &self.name
    }

    /// A path of the first version of the interface.
    pub fn v1_path(&self, suffix: &str) -> (path: String)
        ensures
            path@ == self@.v1_path(suffix@),
    {
        join3("/v1/namespaces/", &self.name, suffix)
    }

    /// A path of the second version of the interface.
    pub fn v2_path(&self, suffix: &str) -> (path: String)
        ensures
            path@ == self@.v2_path(suffix@),
    {
        join3("/v2/namespaces/", &self.name, suffix)
    }

    /// The request that writes rows.
    pub fn write(&self, params: WriteParams) -> (r: Request)
        ensures
            r@ == self@.client.request(Method::Post, self@.v2_path(""@), Some(params.wire())),
    {
        let path = self.v2_path("");
        self.client.request(Method::Post, &path, Some(params.encode()))
    }

    /// The request that runs a query.
    pub fn query(&self, params: QueryParams) -> (r: Request)
        ensures
            r@ == self@.client.request(Method::Post, self@.v2_path("/query"@), Some(params.wire())),
    {
        let path = self.v2_path("/query");
        self.client.request(Method::Post, &path, Some(params.encode()))
    }

    /// The request that runs several queries at once.
    pub fn multi_query(&self, params: MultiQueryParams) -> (r: Request)
        ensures
            r@ == self@.client.request(Method::Post, self@.v2_path("/query"@), Some(params.wire())),
    {
        let path = self.v2_path("/query");
        self.client.request(Method::Post, &path, Some(params.encode()))
    }

    /// The request that deletes the namespace with all its rows.
    pub fn delete_all(&self) -> (r: Request)
        ensures
            r@ == self@.client.request(Method::Delete, self@.v2_path(""@), None),
    {
        let path = self.v2_path("");
        self.client.request_no_body(Method::Delete, &path)
    }

    /// The request that reads the metadata of the namespace.
    pub fn metadata(&self) -> (r: Request)
        ensures
            r@ == self@.client.request(Method::Get, self@.v1_path("/metadata"@), None),
    {
        let path = self.v1_path("/metadata");
        self.client.request_no_body(Method::Get, &path)
    }

    /// The request that reads the schema of the namespace.
    pub fn schema(&self) -> (r: Request)
        ensures
            r@ == self@.client.request(Method::Get, self@.v1_path("/schema"@), None),
    {
        let path = self.v1_path("/schema");
        self.client.request_no_body(Method::Get, &path)
    }

    /// The request that asks the service to warm its cache for the namespace.
    pub fn hint_cache_warm(&self) -> (r: Request)
        ensures
            r@ == self@.client.request(Method::Get, self@.v1_path("/hint_cache_warm"@), None),
    {
        let path = self.v1_path("/hint_cache_warm");
        self.client.request_no_body(Method::Get, &path)
    }

    /// Whether the namespace exists, from the outcome of a request for its
    /// metadata: it does if the request succeeded, it does not if the service
    /// answered with status 404, and any other error is handed on.
    pub fn exists_from<T>(metadata: Result<T, Error>) -> (r: Result<bool, Error>)
        ensures
            metadata is Ok ==> r == Ok::<bool, Error>(true),
            metadata matches Err(e) ==> r == (match e {
                Error::Api { status, message } if status == 404 => Ok::<bool, Error>(false),
                _ => Err(e),
            }),
    {
        match metadata {
            Ok(_) => Ok(true),
            Err(e) => {
                match e {
                    Error::Api { status, message } => {
                        if status == 404 {
                            Ok(false)
                        } else {
                            Err(Error::Api { status, message })
                        }
                    },
                    other => Err(other),
                }
            },
        }
    }
}

} // verus!
