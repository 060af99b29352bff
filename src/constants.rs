use vstd::prelude::*;

verus! {

/// The API host used when neither an explicit host nor the environment gives one.
pub const DEFAULT_API_HOST: &'static str = "https://api.github.com";

/// The value of the `User-Agent` header sent with every request.
pub const USER_AGENT: &'static str = "Rust-Gist-Client";

/// The value of the `Accept` header sent with every request.
pub const ACCEPT_HEADER: &'static str = "application/vnd.github.v3+json";

/// The environment variable that supplies the bearer token.
pub const ENV_TOKEN: &'static str = "GITHUB_GIST_TOKEN";

/// The environment variable that selects another API host.
pub const ENV_API_HOST: &'static str = "GITHUB_GIST_API_HOST";

/// The message carried by an API error whose response text could not be read.
pub const UNKNOWN_ERROR: &'static str = "Unknown error";

/// The message of a failed request whose successful response body could not be read.
pub const UNREADABLE_BODY: &'static str = "the response body could not be read";

/// The message carried by an API error when checking a star meets an unexpected status.
pub const UNEXPECTED_STAR_STATUS: &'static str = "Unexpected status when checking star";

} // verus!
