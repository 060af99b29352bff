//! A typed client library for the GitHub Gist REST API.
//!
//! The library resolves the client configuration, plans each HTTP request
//! (method, URL, headers and JSON body) and interprets each response status.
//! Sending the request and decoding a JSON response happen outside it.
pub mod client;
pub mod constants;
pub mod error;
pub mod json;
pub mod laws;
pub mod models;
pub mod request;

pub use client::{with_since, GistClient};
pub use constants::{
    ACCEPT_HEADER, DEFAULT_API_HOST, ENV_API_HOST, ENV_TOKEN, UNEXPECTED_STAR_STATUS,
    UNKNOWN_ERROR, UNREADABLE_BODY, USER_AGENT,
};
pub use error::GistError;
pub use models::{
    CreateComment, CreateGist, FullGist, GistChangeStatus, GistComment, GistCommit, GistFile,
    GistFork, GistOwner, StarGistResponse, Timestamp, UpdateComment, UpdateGist,
};
pub use request::{interpret_response, is_success, needs_text, HttpMethod, HttpRequest, Outcome, RequestBody, ResponseKind};
