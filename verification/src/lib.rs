//! HTTP-layer rules of the API: how API objects are framed into response
//! bodies, which responses the handlers answer with, and what the bootstrap
//! agent client sends and accepts.
pub mod body;
pub mod framing;
pub mod api_http_util;
pub mod bootstrap_agent_client;
