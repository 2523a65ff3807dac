//! A typed client for a service that quotes swaps between assets and builds
//! the transactions that carry them out.
//!
//! The library decides and the caller's transport acts. For each operation a
//! method of [`JupiterSwapApiClient`] says which request is to be sent;
//! [`check_is_success`] says what the answer's body is to be read for; and
//! [`request_failed`], [`deserialized`] and [`normalized`] say what the caller
//! gets. Nothing here opens a connection.

use crate::extra_args::{pairs_of, ExtraArgs, Pairs};
use crate::header::{header_text_allowed, header_value_from_str, lemma_header_bytes_are_text};
use crate::quote::{
    optional_pair, optional_pairs, push_pair, query_of, shaped, InternalQuoteRequest,
    QuoteRequest, QuoteRequestView,
};
use crate::swap::{
    flattens, instruction_count, is_body_of, SwapBody, SwapInstructionsResponse,
    SwapInstructionsResponseInternal, SwapRequest,
};
use crate::text::optional_text;
use reqwest::header::InvalidHeaderValue;
use vstd::prelude::*;
use vstd::string::StringExecFns;

pub mod extra_args;
pub mod header;
pub mod quote;
pub mod route_plan_with_metadata;
pub mod swap;
pub mod text;
pub mod transaction_config;

verus! {

/// What a client is configured with: where the service lives, and the key
/// that it is asked with, if any.
#[derive(Clone, Debug)]
pub struct JupiterSwapApiClient {
    pub base_path: String,
    pub api_key: Option<String>,
}

/// Why a call gave no result.
#[derive(Debug)]
pub enum ClientError {
    /// The service answered with a status that is no success. `body` is the
    /// text of the answer, empty where it could not be read.
    RequestFailed { status: u16, body: String },
    /// No answer arrived, or the answer could not be decoded. The text says
    /// what went wrong.
    DeserializationError(String),
    /// The API key cannot stand in a header.
    InvalidHeader(InvalidHeaderValue),
}

/// The method of a request.
#[derive(Clone, Copy, Debug, PartialEq, Eq)]
pub enum Method {
    Get,
    Post,
}

/// One request to the service, ready to be sent.
#[derive(Clone, Debug, PartialEq, Eq)]
pub struct HttpRequest<'a> {
    pub method: Method,
    pub url: String,
    /// The parameters of the query string, in order, not yet escaped.
    pub query: Vec<(String, String)>,
    /// The headers to send with the request.
    pub headers: Vec<(String, String)>,
    /// What the body says in JSON, where the request has a body.
    pub json: Option<SwapBody<'a>>,
}

/// What the body of an answer is read for.
#[derive(Clone, Copy, Debug, PartialEq, Eq)]
pub enum BodyUse {
    /// The body holds the result: decode it.
    Decode,
    /// The body says why the request failed: read it as text.
    Diagnose,
}

/// The API key may stand in a header, or there is none.
pub open spec fn api_key_allowed(api_key: Option<Seq<char>>) -> bool {
    match api_key {
        Some(key) => header_text_allowed(key),
        None => true,
    }
}

/// The headers of every request: the API key under its name where the client
/// has one, and no header at all where it has none.
pub open spec fn api_key_headers(api_key: Option<Seq<char>>) -> Pairs {
    optional_pair("x-api-key"@, api_key)
}

/// The open-ended arguments as query parameters: none where there is no
/// mapping.
pub open spec fn extra_query(args: Option<Pairs>) -> Pairs {
    match args {
        Some(pairs) => pairs,
        None => Seq::empty(),
    }
}

/// The query string of a quote: the parameters of the shaped request, then
/// the request's open-ended arguments as they are.
pub open spec fn quote_query(request: QuoteRequestView) -> Pairs {
    query_of(shaped(request)) + extra_query(request.quote_args)
}

/// The open-ended arguments of a quote request reach the service as they
/// are: each of them stands in the query of the quote, behind the parameters
/// of the modelled fields, at its place in the mapping, with the key and the
/// value that the caller wrote.
pub proof fn lemma_quote_args_reach_query(request: QuoteRequestView, i: int)
    requires
        request.quote_args is Some,
        0 <= i < request.quote_args->0.len(),
    ensures
        quote_query(request)[query_of(shaped(request)).len() + i] == request.quote_args->0[i],
        quote_query(request).contains(request.quote_args->0[i]),
{
    let at = query_of(shaped(request)).len() + i;
    assert(quote_query(request)[at] == request.quote_args->0[i]);
}

/// A status that means success: 200 to 299.
pub open spec fn is_success(status: u16) -> bool {
    200 <= status < 300
}

/// The text of an answer that failed: empty where none could be read.
pub open spec fn diagnostic(body: Option<String>) -> Seq<char> {
    match body {
        Some(text) => text@,
        None => Seq::empty(),
    }
}

fn extra_pairs(args: &Option<ExtraArgs>) -> (pairs: Vec<(String, String)>)
    ensures
        pairs_of(pairs@) == extra_query(optional_pairs(*args)),
{
    match args {
        Some(a) => a.to_pairs(),
        None => {
            let pairs: Vec<(String, String)> = Vec::new();
            assert(pairs_of(pairs@) =~= Seq::<(Seq<char>, Seq<char>)>::empty());
            pairs
        },
    }
}

impl JupiterSwapApiClient {
    /// A client for the service at `base_path`.
    pub fn new(base_path: String, api_key: Option<String>) -> (client: Self)
        ensures
            client.base_path == base_path,
            client.api_key == api_key,
    {
        Self { base_path, api_key }
    }

    /// The headers of a request, or the error where the key cannot be sent.
    fn headers(&self) -> (built: Result<Vec<(String, String)>, ClientError>)
        ensures
            match built {
                Ok(headers) => api_key_allowed(optional_text(self.api_key)) && pairs_of(headers@)
                    == api_key_headers(optional_text(self.api_key)),
                Err(error) => !api_key_allowed(optional_text(self.api_key))
                    && error is InvalidHeader,
            },
    {
        let mut headers: Vec<(String, String)> = Vec::new();
        assert(pairs_of(headers@) =~= Seq::<(Seq<char>, Seq<char>)>::empty());
        match &self.api_key {
            Some(key) => {
                proof {
                    lemma_header_bytes_are_text(key@);
                }
                match header_value_from_str(key.as_str()) {
                    Ok(_) => {
                        push_pair(&mut headers, "x-api-key", key.clone());
                        assert(pairs_of(headers@) =~= api_key_headers(Some(key@)));
                        Ok(headers)
                    },
                    Err(error) => Err(ClientError::InvalidHeader(error)),
                }
            },
            None => Ok(headers),
        }
    }

    /// The address of an operation: its path behind the base path.
    fn url(&self, path: &str) -> (url: String)
        ensures
            url@ == self.base_path@ + path@,
    {
        let mut url = self.base_path.clone();
        url.append(path);
        url
    }

    /// The request that asks for a quote: a GET of `/quote` under the base
    /// path, with the shaped request and then its open-ended arguments as the
    /// query. Where the API key cannot stand in a header there is no request
    /// to send, and the error says so.
    pub fn quote(&self, quote_request: &QuoteRequest) -> (planned: Result<
        HttpRequest<'static>,
        ClientError,
    >)
        ensures
            match planned {
                Ok(request) => {
                    &&& api_key_allowed(optional_text(self.api_key))
                    &&& request.method == Method::Get
                    &&& request.url@ == self.base_path@ + "/quote"@
                    &&& pairs_of(request.query@) == quote_query(quote_request@)
                    &&& pairs_of(request.headers@) == api_key_headers(optional_text(self.api_key))
                    &&& request.json is None
                },
                Err(error) => !api_key_allowed(optional_text(self.api_key))
                    && error is InvalidHeader,
            },
    {
        let url = self.url("/quote");
        let mut extra_args = extra_pairs(&quote_request.quote_args);
        let internal_quote_request = InternalQuoteRequest::from(quote_request);
        let headers = match self.headers() {
            Ok(headers) => headers,
            Err(error) => {
                return Err(error);
            },
        };
        let mut query = internal_quote_request.query_pairs();
        let ghost shaped_pairs = pairs_of(query@);
        let ghost extras = pairs_of(extra_args@);
        query.append(&mut extra_args);
        assert(pairs_of(query@) =~= shaped_pairs + extras);
        Ok(HttpRequest { method: Method::Get, url, query, headers, json: None })
    }

    /// The request that asks for the transaction of a swap: a POST of `/swap`
    /// under the base path, with the body that carries the swap request and
    /// with `extra_args`, where there are any, as the query.
    pub fn swap<'a>(&self, swap_request: &'a SwapRequest, extra_args: Option<ExtraArgs>) -> (planned:
        Result<HttpRequest<'a>, ClientError>)
        ensures
            match planned {
                Ok(request) => {
                    &&& api_key_allowed(optional_text(self.api_key))
                    &&& request.method == Method::Post
                    &&& request.url@ == self.base_path@ + "/swap"@
                    &&& pairs_of(request.query@) == extra_query(optional_pairs(extra_args))
                    &&& pairs_of(request.headers@) == api_key_headers(optional_text(self.api_key))
                    &&& request.json matches Some(body) && is_body_of(body, swap_request)
                },
                Err(error) => !api_key_allowed(optional_text(self.api_key))
                    && error is InvalidHeader,
            },
    {
        let headers = match self.headers() {
            Ok(headers) => headers,
            Err(error) => {
                return Err(error);
            },
        };
        Ok(
            HttpRequest {
                method: Method::Post,
                url: self.url("/swap"),
                query: extra_pairs(&extra_args),
                headers,
                json: Some(swap_request.body()),
            },
        )
    }

    /// The request that asks for the instructions of a swap: a POST of
    /// `/swap-instructions` under the base path, with the body that carries
    /// the swap request and no query.
    pub fn swap_instructions<'a>(&self, swap_request: &'a SwapRequest) -> (planned: Result<
        HttpRequest<'a>,
        ClientError,
    >)
        ensures
            match planned {
                Ok(request) => {
                    &&& api_key_allowed(optional_text(self.api_key))
                    &&& request.method == Method::Post
                    &&& request.url@ == self.base_path@ + "/swap-instructions"@
                    &&& request.query@.len() == 0
                    &&& pairs_of(request.headers@) == api_key_headers(optional_text(self.api_key))
                    &&& request.json matches Some(body) && is_body_of(body, swap_request)
                },
                Err(error) => !api_key_allowed(optional_text(self.api_key))
                    && error is InvalidHeader,
            },
    {
        let headers = match self.headers() {
            Ok(headers) => headers,
            Err(error) => {
                return Err(error);
            },
        };
        Ok(
            HttpRequest {
                method: Method::Post,
                url: self.url("/swap-instructions"),
                query: Vec::new(),
                headers,
                json: Some(swap_request.body()),
            },
        )
    }
}

/// Decides from the status of an answer what its body is read for.
pub fn check_is_success(status: u16) -> (body_use: BodyUse)
    ensures
        body_use == (if is_success(status) {
            BodyUse::Decode
        } else {
            BodyUse::Diagnose
        }),
{
    if 200 <= status && status < 300 {
        BodyUse::Decode
    } else {
        BodyUse::Diagnose
    }
}

/// The error of an answer whose status is no success. `body` is the text of
/// the answer, `None` where it could not be read: the error then holds the
/// empty string, and is a `RequestFailed` all the same.
pub fn request_failed(status: u16, body: Option<String>) -> (error: ClientError)
    ensures
        error matches ClientError::RequestFailed { status: failed, body: text } && failed == status
            && text@ == diagnostic(body),
{
    let text = match body {
        Some(text) => text,
        None => String::new(),
    };
    ClientError::RequestFailed { status, body: text }
}

/// What the caller gets from an answer whose body was to be decoded: the
/// decoded value, or a `DeserializationError` with the text of the failure.
pub fn deserialized<T>(decoded: Result<T, String>) -> (result: Result<T, ClientError>)
    ensures
        match decoded {
            Ok(value) => result == Ok::<T, ClientError>(value),
            Err(failure) => result == Err::<T, ClientError>(
                ClientError::DeserializationError(failure),
            ),
        },
{
    match decoded {
        Ok(value) => Ok(value),
        Err(failure) => Err(ClientError::DeserializationError(failure)),
    }
}

/// What the caller gets from an answer to `swap_instructions`: the groups
/// that the service sent as one list in their order, or a
/// `DeserializationError` with the text of the failure.
pub fn normalized(decoded: Result<SwapInstructionsResponseInternal, String>) -> (result: Result<
    SwapInstructionsResponse,
    ClientError,
>)
    ensures
        match decoded {
            Ok(internal) => {
                &&& result matches Ok(response)
                &&& flattens(response, internal)
                &&& response.instructions@.len() == instruction_count(internal)
            },
            Err(failure) => result == Err::<SwapInstructionsResponse, ClientError>(
                ClientError::DeserializationError(failure),
            ),
        },
{
    match deserialized(decoded) {
        Ok(internal) => Ok(SwapInstructionsResponse::from(internal)),
        Err(error) => Err(error),
    }
}

} // verus!
