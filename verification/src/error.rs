//! The errors of the library.
use vstd::prelude::*;
use vstd::std_specs::convert::FromSpecImpl;

verus! {

#[verifier::external_type_specification]
#[verifier::external_body]
pub struct ExRequestError(reqwest::Error);

#[verifier::external_type_specification]
#[verifier::external_body]
pub struct ExWebsocketError(tokio_tungstenite::tungstenite::Error);

#[verifier::external_type_specification]
#[verifier::external_body]
pub struct ExJsonError(serde_json::Error);

#[derive(Debug)]
pub enum StreckenInfoError {
    /// A HTTP error occured while requesting
    RequestError(reqwest::Error),
    /// A websocket error occured
    WebsocketError(tokio_tungstenite::tungstenite::Error),
    /// The websocket sent no revision
    WebSocketNoRevisionError,
    JsonError(serde_json::Error),
    /// The server did not answer with a response of the requested kind
    InvalidResponse,
    /// The server answered with an error field other than `OK`
    ResponseError(String),
    /// A reference inside a response points to no entry
    ReferenceError,
}

impl From<reqwest::Error> for StreckenInfoError {
    fn from(value: reqwest::Error) -> (res: Self) {
        StreckenInfoError::RequestError(value)
    }
}

impl FromSpecImpl<reqwest::Error> for StreckenInfoError {
    open spec fn obeys_from_spec() -> bool {
        true
    }

    open spec fn from_spec(value: reqwest::Error) -> Self {
        StreckenInfoError::RequestError(value)
    }
}

impl From<tokio_tungstenite::tungstenite::Error> for StreckenInfoError {
    fn from(value: tokio_tungstenite::tungstenite::Error) -> (res: Self) {
        StreckenInfoError::WebsocketError(value)
    }
}

impl FromSpecImpl<tokio_tungstenite::tungstenite::Error> for StreckenInfoError {
    open spec fn obeys_from_spec() -> bool {
        true
    }

    open spec fn from_spec(value: tokio_tungstenite::tungstenite::Error) -> Self {
        StreckenInfoError::WebsocketError(value)
    }
}

impl From<serde_json::Error> for StreckenInfoError {
    fn from(value: serde_json::Error) -> (res: Self) {
        StreckenInfoError::JsonError(value)
    }
}

impl FromSpecImpl<serde_json::Error> for StreckenInfoError {
    open spec fn obeys_from_spec() -> bool {
        true
    }

    open spec fn from_spec(value: serde_json::Error) -> Self {
        StreckenInfoError::JsonError(value)
    }
}

} // verus!
