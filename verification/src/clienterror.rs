//! The failures of handling an event.

use vstd::prelude::*;
use crate::config::ConfigError;
use crate::errors::ApiErrors;
use crate::plextvclient::RequestError;

verus! {

/// How handling an event fails: in a call to the service, or in the
/// settings store.
#[derive(Debug)]
pub enum ClientError {
    RequestError(RequestError),
    ConfigError(ConfigError),
}

impl From<RequestError> for ClientError {
    fn from(err: RequestError) -> (r: Self) {
        ClientError::RequestError(err)
    }
}

impl vstd::std_specs::convert::FromSpecImpl<RequestError> for ClientError {
    open spec fn obeys_from_spec() -> bool {
        true
    }

    open spec fn from_spec(err: RequestError) -> Self {
        ClientError::RequestError(err)
    }
}

impl From<ConfigError> for ClientError {
    fn from(err: ConfigError) -> (r: Self) {
        ClientError::ConfigError(err)
    }
}

impl vstd::std_specs::convert::FromSpecImpl<ConfigError> for ClientError {
    open spec fn obeys_from_spec() -> bool {
        true
    }

    open spec fn from_spec(err: ConfigError) -> Self {
        ClientError::ConfigError(err)
    }
}

impl ClientError {
    /// The errors that the service itself reported, where this failure is
    /// of that kind: only those can change the login state.
    pub fn api_errors(&self) -> (r: Option<&ApiErrors>)
        ensures
            r == (match *self {
                ClientError::RequestError(RequestError::Error(errors)) => Some(&errors),
                _ => None,
            }),
    {
        match self {
            ClientError::RequestError(RequestError::Error(errors)) => Some(errors),
            _ => None,
        }
    }
}

} // verus!
