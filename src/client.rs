use vstd::prelude::*;
use vstd::string::*;
use crate::constants::{ACCEPT_HEADER, DEFAULT_API_HOST, USER_AGENT};
use crate::error::GistError;
use crate::json::{decimal, number_text};
use crate::models::{
    comment_json, create_gist_members, update_gist_members, CreateComment, CreateGist,
    UpdateComment, UpdateGist,
};
use crate::json::object_text;
use crate::request::{HttpMethod, HttpRequest, RequestBody, ResponseKind};

verus! {

/// A client for the Gist API: the host that requests go to and the bearer
/// token they carry, both fixed when the client is made.
#[derive(Debug, Clone)]
pub struct GistClient {
    pub api_host: String,
    pub token: Option<String>,
}

/// The host a client uses: the explicit one, else the one from the
/// environment, else the default host.
pub open spec fn resolved_host(api_host: Option<String>, env_api_host: Option<String>) -> Seq<char> {
    match api_host {
        Some(h) => h@,
        None => match env_api_host {
            Some(e) => e@,
            None => DEFAULT_API_HOST@,
        },
    }
}

/// The token a client uses: the explicit one, else the one from the
/// environment, else none.
pub open spec fn resolved_token(token: Option<String>, env_token: Option<String>) -> Option<Seq<char>> {
    match token {
        Some(t) => Some(t@),
        None => match env_token {
            Some(e) => Some(e@),
            None => None,
        },
    }
}

pub open spec fn token_view(token: Option<String>) -> Option<Seq<char>> {
    match token {
        Some(t) => Some(t@),
        None => None,
    }
}

/// The names and values of a list of headers.
pub open spec fn header_pairs(h: Seq<(String, String)>) -> Seq<(Seq<char>, Seq<char>)> {
    h.map_values(|p: (String, String)| (p.0@, p.1@))
}

/// The headers of every request: user agent and accept; the bearer token
/// where there is one; the JSON content type where the body is JSON.
pub open spec fn expected_headers(token: Option<Seq<char>>, json: bool) -> Seq<(Seq<char>, Seq<char>)> {
    seq![("User-Agent"@, USER_AGENT@), ("Accept"@, ACCEPT_HEADER@)] + match token {
        Some(t) => seq![("Authorization"@, "Bearer "@ + t)],
        None => Seq::empty(),
    } + if json {
        seq![("Content-Type"@, "application/json"@)]
    } else {
        Seq::empty()
    }
}

/// A path with the listing cursor appended as its one query parameter,
/// or the bare path where there is no cursor.
pub open spec fn with_since_spec(path: Seq<char>, since: Option<&str>) -> Seq<char> {
    match since {
        Some(s) => path + "?since="@ + s@,
        None => path,
    }
}

pub open spec fn gist_path(id: Seq<char>) -> Seq<char> {
    "/gists/"@ + id
}

pub open spec fn gist_sub_path(id: Seq<char>, sub: Seq<char>) -> Seq<char> {
    "/gists/"@ + id + sub
}

pub open spec fn comment_path(id: Seq<char>, comment_id: u64) -> Seq<char> {
    "/gists/"@ + id + "/comments/"@ + decimal(comment_id as nat)
}

pub open spec fn user_gists_path(username: Seq<char>) -> Seq<char> {
    "/users/"@ + username + "/gists"@
}

fn gist_sub(id: &str, sub: &str) -> (r: String)
    ensures
        r@ == gist_sub_path(id@, sub@),
{
    String::from_str("/gists/").concat(id).concat(sub)
}

fn comment_sub(id: &str, comment_id: u64) -> (r: String)
    ensures
        r@ == comment_path(id@, comment_id),
{
    String::from_str("/gists/").concat(id).concat("/comments/").concat(number_text(comment_id).as_str())
}

/// Appends the listing cursor to a path where there is one.
pub fn with_since(path: String, since: Option<&str>) -> (r: String)
    ensures
        r@ == with_since_spec(path@, since),
{
    match since {
        Some(s) => path.concat("?since=").concat(s),
        None => path,
    }
}

impl GistClient {
    /// Whether `r` is the request with this method, path and expected
    /// response, sent to this client's host with this client's headers.
    pub open spec fn plans(
        self,
        r: HttpRequest,
        method: HttpMethod,
        path: Seq<char>,
        expect: ResponseKind,
    ) -> bool {
        &&& r.method == method
        &&& r.url@ == self.api_host@ + path
        &&& header_pairs(r.headers@) == expected_headers(token_view(self.token), r.body is Json)
        &&& r.expect == expect
    }

    /// A client whose host and token are the explicit ones where given, else
    /// those of the environment; the host falls back to the default host and
    /// the token may be absent.
    pub fn new(
        token: Option<String>,
        api_host: Option<String>,
        env_token: Option<String>,
        env_api_host: Option<String>,
    ) -> (r: GistClient)
        ensures
            r.api_host@ == resolved_host(api_host, env_api_host),
            token_view(r.token) == resolved_token(token, env_token),
    {
        let api_host = match api_host {
            Some(h) => h,
            None => match env_api_host {
                Some(e) => e,
                None => String::from_str(DEFAULT_API_HOST),
            },
        };
        let token = match token {
            Some(t) => Some(t),
            None => env_token,
        };
        GistClient { api_host, token }
    }

    /// A client whose host and token come from the environment alone.
    pub fn from_env(env_token: Option<String>, env_api_host: Option<String>) -> (r: GistClient)
        ensures
            r.api_host@ == resolved_host(None, env_api_host),
            token_view(r.token) == resolved_token(None, env_token),
    {
        GistClient::new(None, None, env_token, env_api_host)
    }

    /// The request with a method and a path (which begins with `/`) against
    /// this client's host, with the common headers and the given body.
    pub fn build_request(
        &self,
        method: HttpMethod,
        path: &str,
        body: RequestBody,
        expect: ResponseKind,
    ) -> (r: HttpRequest)
        ensures
            self.plans(r, method, path@, expect),
            r.body == body,
    {
        let url = self.api_host.clone().concat(path);
        let mut headers: Vec<(String, String)> = Vec::new();
        headers.push((String::from_str("User-Agent"), String::from_str(USER_AGENT)));
        headers.push((String::from_str("Accept"), String::from_str(ACCEPT_HEADER)));
        match &self.token {
            Some(t) => {
                headers.push(
                    (String::from_str("Authorization"), String::from_str("Bearer ").concat(t.as_str())),
                );
            },
            None => {},
        }
        let json = match &body {
            RequestBody::Json(_) => true,
            _ => false,
        };
        if json {
            headers.push((String::from_str("Content-Type"), String::from_str("application/json")));
        }
        assert(header_pairs(headers@) =~= expected_headers(token_view(self.token), json));
        HttpRequest { method, url, headers, body, expect }
    }

    fn get_json(&self, path: String) -> (r: HttpRequest)
        ensures
            self.plans(r, HttpMethod::Get, path@, ResponseKind::JsonBody),
            r.body is Empty,
    {
        self.build_request(HttpMethod::Get, path.as_str(), RequestBody::Empty, ResponseKind::JsonBody)
    }

    fn without_body(&self, method: HttpMethod, path: String) -> (r: HttpRequest)
        ensures
            self.plans(r, method, path@, ResponseKind::NoBody),
            r.body is Empty,
    {
        self.build_request(method, path.as_str(), RequestBody::Empty, ResponseKind::NoBody)
    }

    /// `POST /gists` with the gist as its JSON body.
    pub fn create_gist(&self, gist: &CreateGist) -> (r: Result<HttpRequest, GistError>)
        requires
            gist.wf(),
        ensures
            r is Ok,
            r matches Ok(q) ==> (self.plans(q, HttpMethod::Post, "/gists"@, ResponseKind::JsonBody)
                && (q.body matches RequestBody::Json(t) && t@ == object_text(create_gist_members(*gist)))),
    {
        let body = match gist.to_json() {
            Ok(t) => t,
            Err(e) => return Err(e),
        };
        Ok(self.build_request(HttpMethod::Post, "/gists", RequestBody::Json(body), ResponseKind::JsonBody))
    }

    /// `GET /gists/{id}`.
    pub fn get_gist(&self, gist_id: &str) -> (r: HttpRequest)
        ensures
            self.plans(r, HttpMethod::Get, gist_path(gist_id@), ResponseKind::JsonBody),
            r.body is Empty,
    {
        self.get_json(String::from_str("/gists/").concat(gist_id))
    }

    /// `PATCH /gists/{id}` with the update as its JSON body.
    pub fn update_gist(&self, gist_id: &str, update: &UpdateGist) -> (r: Result<HttpRequest, GistError>)
        requires
            update.wf(),
        ensures
            r is Ok,
            r matches Ok(q) ==> (self.plans(q, HttpMethod::Patch, gist_path(gist_id@), ResponseKind::JsonBody)
                && (q.body matches RequestBody::Json(t) && t@ == object_text(update_gist_members(*update)))),
    {
        let body = match update.to_json() {
            Ok(t) => t,
            Err(e) => return Err(e),
        };
        let path = String::from_str("/gists/").concat(gist_id);
        Ok(self.build_request(HttpMethod::Patch, path.as_str(), RequestBody::Json(body), ResponseKind::JsonBody))
    }

    /// `DELETE /gists/{id}`; the response body is not read.
    pub fn delete_gist(&self, gist_id: &str) -> (r: HttpRequest)
        ensures
            self.plans(r, HttpMethod::Delete, gist_path(gist_id@), ResponseKind::NoBody),
            r.body is Empty,
    {
        self.without_body(HttpMethod::Delete, String::from_str("/gists/").concat(gist_id))
    }

    /// `GET /gists/{id}/comments`.
    pub fn list_gist_comments(&self, gist_id: &str) -> (r: HttpRequest)
        ensures
            self.plans(r, HttpMethod::Get, gist_sub_path(gist_id@, "/comments"@), ResponseKind::JsonBody),
            r.body is Empty,
    {
        self.get_json(gist_sub(gist_id, "/comments"))
    }

    /// `GET /gists/{id}/comments/{comment_id}`.
    pub fn get_gist_comment(&self, gist_id: &str, comment_id: u64) -> (r: HttpRequest)
        ensures
            self.plans(r, HttpMethod::Get, comment_path(gist_id@, comment_id), ResponseKind::JsonBody),
            r.body is Empty,
    {
        self.get_json(comment_sub(gist_id, comment_id))
    }

    /// `POST /gists/{id}/comments` with the comment as its JSON body.
    pub fn create_gist_comment(&self, gist_id: &str, comment: &CreateComment) -> (r: Result<HttpRequest, GistError>)
        ensures
            r is Ok,
            r matches Ok(q) ==> (self.plans(q, HttpMethod::Post, gist_sub_path(gist_id@, "/comments"@), ResponseKind::JsonBody)
                && (q.body matches RequestBody::Json(t) && t@ == comment_json(comment.body@))),
    {
        let body = match comment.to_json() {
            Ok(t) => t,
            Err(e) => return Err(e),
        };
        let path = gist_sub(gist_id, "/comments");
        Ok(self.build_request(HttpMethod::Post, path.as_str(), RequestBody::Json(body), ResponseKind::JsonBody))
    }

    /// `PATCH /gists/{id}/comments/{comment_id}` with the comment as its JSON body.
    pub fn update_gist_comment(&self, gist_id: &str, comment_id: u64, comment: &UpdateComment) -> (r: Result<HttpRequest, GistError>)
        ensures
            r is Ok,
            r matches Ok(q) ==> (self.plans(q, HttpMethod::Patch, comment_path(gist_id@, comment_id), ResponseKind::JsonBody)
                && (q.body matches RequestBody::Json(t) && t@ == comment_json(comment.body@))),
    {
        let body = match comment.to_json() {
            Ok(t) => t,
            Err(e) => return Err(e),
        };
        let path = comment_sub(gist_id, comment_id);
        Ok(self.build_request(HttpMethod::Patch, path.as_str(), RequestBody::Json(body), ResponseKind::JsonBody))
    }

    /// `DELETE /gists/{id}/comments/{comment_id}`; the response body is not read.
    pub fn delete_gist_comment(&self, gist_id: &str, comment_id: u64) -> (r: HttpRequest)
        ensures
            self.plans(r, HttpMethod::Delete, comment_path(gist_id@, comment_id), ResponseKind::NoBody),
            r.body is Empty,
    {
        self.without_body(HttpMethod::Delete, comment_sub(gist_id, comment_id))
    }

    /// `GET /gists/{id}/commits`.
    pub fn list_gist_commits(&self, gist_id: &str) -> (r: HttpRequest)
        ensures
            self.plans(r, HttpMethod::Get, gist_sub_path(gist_id@, "/commits"@), ResponseKind::JsonBody),
            r.body is Empty,
    {
        self.get_json(gist_sub(gist_id, "/commits"))
    }

    /// `GET /gists/{id}/{sha}`: the gist as it was at one revision.
    pub fn get_gist_revision(&self, gist_id: &str, sha: &str) -> (r: HttpRequest)
        ensures
            self.plans(r, HttpMethod::Get, gist_path(gist_id@) + "/"@ + sha@, ResponseKind::JsonBody),
            r.body is Empty,
    {
        let path = String::from_str("/gists/").concat(gist_id).concat("/").concat(sha);
        self.get_json(path)
    }

    /// `POST /gists/{id}/forks`.
    pub fn fork_gist(&self, gist_id: &str) -> (r: HttpRequest)
        ensures
            self.plans(r, HttpMethod::Post, gist_sub_path(gist_id@, "/forks"@), ResponseKind::JsonBody),
            r.body is Empty,
    {
        let path = gist_sub(gist_id, "/forks");
        self.build_request(HttpMethod::Post, path.as_str(), RequestBody::Empty, ResponseKind::JsonBody)
    }

    /// `GET /gists/{id}/forks`.
    pub fn list_gist_forks(&self, gist_id: &str) -> (r: HttpRequest)
        ensures
            self.plans(r, HttpMethod::Get, gist_sub_path(gist_id@, "/forks"@), ResponseKind::JsonBody),
            r.body is Empty,
    {
        self.get_json(gist_sub(gist_id, "/forks"))
    }

    /// `PUT /gists/{id}/star`; the response body is not read.
    pub fn star_gist(&self, gist_id: &str) -> (r: HttpRequest)
        ensures
            self.plans(r, HttpMethod::Put, gist_sub_path(gist_id@, "/star"@), ResponseKind::NoBody),
            r.body is Empty,
    {
        self.without_body(HttpMethod::Put, gist_sub(gist_id, "/star"))
    }

    /// `DELETE /gists/{id}/star`; the response body is not read.
    pub fn unstar_gist(&self, gist_id: &str) -> (r: HttpRequest)
        ensures
            self.plans(r, HttpMethod::Delete, gist_sub_path(gist_id@, "/star"@), ResponseKind::NoBody),
            r.body is Empty,
    {
        self.without_body(HttpMethod::Delete, gist_sub(gist_id, "/star"))
    }

    /// `GET /gists/{id}/star`, whose answer is its status alone.
    pub fn check_gist_star(&self, gist_id: &str) -> (r: HttpRequest)
        ensures
            self.plans(r, HttpMethod::Get, gist_sub_path(gist_id@, "/star"@), ResponseKind::StarStatus),
            r.body is Empty,
    {
        let path = gist_sub(gist_id, "/star");
        self.build_request(HttpMethod::Get, path.as_str(), RequestBody::Empty, ResponseKind::StarStatus)
    }

    /// `GET /gists/public`, with the cursor as its query where there is one.
    pub fn list_public_gists(&self, since: Option<&str>) -> (r: HttpRequest)
        ensures
            self.plans(r, HttpMethod::Get, with_since_spec("/gists/public"@, since), ResponseKind::JsonBody),
            r.body is Empty,
    {
        self.get_json(with_since(String::from_str("/gists/public"), since))
    }

    /// `GET /gists/starred`, with the cursor as its query where there is one.
    pub fn list_starred_gists(&self, since: Option<&str>) -> (r: HttpRequest)
        ensures
            self.plans(r, HttpMethod::Get, with_since_spec("/gists/starred"@, since), ResponseKind::JsonBody),
            r.body is Empty,
    {
        self.get_json(with_since(String::from_str("/gists/starred"), since))
    }

    /// `GET /users/{username}/gists`, with the cursor as its query where there is one.
    pub fn list_user_gists(&self, username: &str, since: Option<&str>) -> (r: HttpRequest)
        ensures
            self.plans(r, HttpMethod::Get, with_since_spec(user_gists_path(username@), since), ResponseKind::JsonBody),
            r.body is Empty,
    {
        let path = String::from_str("/users/").concat(username).concat("/gists");
        self.get_json(with_since(path, since))
    }
}

} // verus!
