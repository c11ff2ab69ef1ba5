//! Authorization: a credential and the scheme that says where it travels.

use vstd::prelude::*;
use vstd::string::*;

verus! {

/// How a credential is presented to the target.
#[derive(Debug)]
pub enum AuthScheme {
    /// In the `Authorization` header, after the word `Bearer`.
    Bearer,
    /// As the value of the header `header`.
    ApiKeyHeader { header: String },
    /// As the value of the query parameter `param`.
    ApiKeyQuery { param: String },
}

/// The mathematical value of a scheme.
pub ghost enum SchemeView {
    Bearer,
    ApiKeyHeader { header: Seq<char> },
    ApiKeyQuery { param: Seq<char> },
}

impl View for AuthScheme {
    type V = SchemeView;

    open spec fn view(&self) -> SchemeView {
        match self {
            AuthScheme::Bearer => SchemeView::Bearer,
            AuthScheme::ApiKeyHeader { header } => SchemeView::ApiKeyHeader { header: header@ },
            AuthScheme::ApiKeyQuery { param } => SchemeView::ApiKeyQuery { param: param@ },
        }
    }
}

impl Clone for AuthScheme {
    fn clone(&self) -> (out: Self)
        ensures
            out == *self,
    {
        match self {
            AuthScheme::Bearer => AuthScheme::Bearer,
            AuthScheme::ApiKeyHeader { header } => AuthScheme::ApiKeyHeader {
                header: header.clone(),
            },
            AuthScheme::ApiKeyQuery { param } => AuthScheme::ApiKeyQuery { param: param.clone() },
        }
    }
}

/// A named credential with its scheme. It is made once and attached to any
/// number of requests; nothing changes it afterwards.
#[derive(Debug)]
pub struct TestAuthorization {
    pub name: String,
    pub scheme: AuthScheme,
    pub credential: String,
}

/// The mathematical value of an authorization.
pub ghost struct AuthView {
    pub name: Seq<char>,
    pub scheme: SchemeView,
    pub credential: Seq<char>,
}

impl View for TestAuthorization {
    type V = AuthView;

    open spec fn view(&self) -> AuthView {
        AuthView { name: self.name@, scheme: self.scheme@, credential: self.credential@ }
    }
}

impl Clone for TestAuthorization {
    fn clone(&self) -> (out: Self)
        ensures
            out == *self,
    {
        TestAuthorization {
            name: self.name.clone(),
            scheme: self.scheme.clone(),
            credential: self.credential.clone(),
        }
    }
}

/// The name of the header that carries a bearer token.
pub open spec fn authorization_header() -> Seq<char> {
    "Authorization"@
}

/// What precedes a bearer token in its header.
pub open spec fn bearer_prefix() -> Seq<char> {
    "Bearer "@
}

/// The header that `auth` adds to a request, as name and value, if its scheme
/// puts the credential in a header.
pub open spec fn header_credential(auth: AuthView) -> Option<(Seq<char>, Seq<char>)> {
    match auth.scheme {
        SchemeView::Bearer => Some((authorization_header(), bearer_prefix() + auth.credential)),
        SchemeView::ApiKeyHeader { header } => Some((header, auth.credential)),
        SchemeView::ApiKeyQuery { param } => None,
    }
}

/// The query parameter that `auth` adds to a request, as name and value, if
/// its scheme puts the credential in the query.
pub open spec fn query_credential(auth: AuthView) -> Option<(Seq<char>, Seq<char>)> {
    match auth.scheme {
        SchemeView::Bearer => None,
        SchemeView::ApiKeyHeader { header } => None,
        SchemeView::ApiKeyQuery { param } => Some((param, auth.credential)),
    }
}

impl TestAuthorization {
    /// A bearer token.
    pub fn bearer(name: &str, token: &str) -> (out: Self)
        ensures
            out@ == (AuthView { name: name@, scheme: SchemeView::Bearer, credential: token@ }),
    {
        TestAuthorization {
            name: name.to_owned(),
            scheme: AuthScheme::Bearer,
            credential: token.to_owned(),
        }
    }

    /// An API key sent in the header `header`.
    pub fn api_key_header(name: &str, header: &str, key: &str) -> (out: Self)
        ensures
            out@ == (AuthView {
                name: name@,
                scheme: SchemeView::ApiKeyHeader { header: header@ },
                credential: key@,
            }),
    {
        TestAuthorization {
            name: name.to_owned(),
            scheme: AuthScheme::ApiKeyHeader { header: header.to_owned() },
            credential: key.to_owned(),
        }
    }

    /// An API key sent in the query parameter `param`.
    pub fn api_key_query(name: &str, param: &str, key: &str) -> (out: Self)
        ensures
            out@ == (AuthView {
                name: name@,
                scheme: SchemeView::ApiKeyQuery { param: param@ },
                credential: key@,
            }),
    {
        TestAuthorization {
            name: name.to_owned(),
            scheme: AuthScheme::ApiKeyQuery { param: param.to_owned() },
            credential: key.to_owned(),
        }
    }

    /// The header that this authorization adds to a request, if any.
    pub fn header(&self) -> (out: Option<(String, String)>)
        ensures
            match header_credential(self@) {
                Some(h) => out matches Some(pair) && pair.0@ == h.0 && pair.1@ == h.1,
                None => out is None,
            },
    {
        match &self.scheme {
            AuthScheme::Bearer => {
                let value = "Bearer ".to_owned().concat(self.credential.as_str());
                Some(("Authorization".to_owned(), value))
            },
            AuthScheme::ApiKeyHeader { header } => Some((header.clone(), self.credential.clone())),
            AuthScheme::ApiKeyQuery { param } => None,
        }
    }

    /// The query parameter that this authorization adds to a request, if any.
    pub fn query(&self) -> (out: Option<(String, String)>)
        ensures
            match query_credential(self@) {
                Some(q) => out matches Some(pair) && pair.0@ == q.0 && pair.1@ == q.1,
                None => out is None,
            },
    {
        match &self.scheme {
            AuthScheme::Bearer => None,
            AuthScheme::ApiKeyHeader { header } => None,
            AuthScheme::ApiKeyQuery { param } => Some((param.clone(), self.credential.clone())),
        }
    }
}

} // verus!
