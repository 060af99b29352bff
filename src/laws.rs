use vstd::prelude::*;
use crate::client::{resolved_host, resolved_token, with_since_spec};
use crate::constants::DEFAULT_API_HOST;
use crate::error::GistError;
use crate::json::{joined, json_quoted, lemma_json_quoted_injective, member_text, null_text, object_text};
use crate::models::{
    create_entries, file_json, file_members, set_field_count, update_entries, update_entry_text,
    update_entry_value, update_gist_members, CreateGist, GistFile, UpdateGist,
};
use crate::request::{interprets, is_success_status, text_needed, Outcome, ResponseKind};

verus! {

/// The host of a client is the explicit one where given, else the one from
/// the environment, else the default host; the token is the explicit one,
/// else the one from the environment, and may be absent.
pub proof fn lemma_config_priority(
    token: Option<String>,
    api_host: Option<String>,
    env_token: Option<String>,
    env_api_host: Option<String>,
)
    ensures
        api_host matches Some(h) ==> resolved_host(api_host, env_api_host) == h@,
        api_host is None ==> (env_api_host matches Some(e) ==> resolved_host(
            api_host,
            env_api_host,
        ) == e@),
        api_host is None && env_api_host is None ==> resolved_host(api_host, env_api_host)
            == DEFAULT_API_HOST@,
        token matches Some(t) ==> resolved_token(token, env_token) == Some(t@),
        token is None ==> (env_token matches Some(e) ==> resolved_token(token, env_token) == Some(
            e@,
        )),
        token is None && env_token is None ==> resolved_token(token, env_token) is None,
{
}

/// A file is written with one member for each field that is set, and none
/// for a field that is unset.
pub proof fn lemma_unset_fields_omitted(f: GistFile)
    ensures
        file_members(f).len() == set_field_count(f),
{
}

/// The body of a request that creates a gist holds one member per file,
/// made of the file's name and the file's object, in order.
pub proof fn lemma_create_keeps_files(g: CreateGist)
    ensures
        create_entries(g.files@).len() == g.files@.len(),
        forall|i: int|
            0 <= i < g.files@.len() ==> #[trigger] create_entries(g.files@)[i] == member_text(
                json_quoted(g.files@[i].0@),
                file_json(g.files@[i].1),
            ),
{
}

/// In the body of a request that creates a gist, files with different names
/// get different keys, and each key gives back its file name exactly; the
/// content of a file, where set, is its first member and gives back the
/// content exactly.
pub proof fn lemma_create_names_and_contents_recoverable(g: CreateGist)
    requires
        g.wf(),
    ensures
        forall|i: int, j: int|
            0 <= i < g.files@.len() && 0 <= j < g.files@.len() && i != j ==> json_quoted(
                #[trigger] g.files@[i].0@,
            ) != json_quoted(#[trigger] g.files@[j].0@),
        forall|i: int, n: Seq<char>|
            0 <= i < g.files@.len() && #[trigger] json_quoted(n) == json_quoted(#[trigger] g.files@[i].0@)
                ==> n == g.files@[i].0@,
        forall|i: int|
            0 <= i < g.files@.len() ==> ((#[trigger] g.files@[i]).1.content matches Some(c)
                ==> file_members(g.files@[i].1)[0] == member_text("\"content\""@, json_quoted(c@))),
        forall|i: int, d: Seq<char>|
            0 <= i < g.files@.len() ==> ((#[trigger] g.files@[i]).1.content matches Some(c)
                ==> (#[trigger] json_quoted(d) == json_quoted(c@) ==> d == c@)),
{
    assert forall|i: int, n: Seq<char>|
        0 <= i < g.files@.len() && #[trigger] json_quoted(n) == json_quoted(#[trigger] g.files@[i].0@)
        implies n == g.files@[i].0@ by {
        lemma_json_quoted_injective(n, g.files@[i].0@);
    }
    assert forall|i: int, d: Seq<char>|
        0 <= i < g.files@.len() && (#[trigger] g.files@[i]).1.content is Some
            && #[trigger] json_quoted(d) == json_quoted(g.files@[i].1.content->Some_0@)
        implies d == g.files@[i].1.content->Some_0@ by {
        lemma_json_quoted_injective(d, g.files@[i].1.content->Some_0@);
    }
}

proof fn lemma_joined_push_len(ms: Seq<Seq<char>>, x: Seq<char>)
    ensures
        joined(ms.push(x)).len() == joined(ms).len() + x.len() + if ms.len() > 0 {
            1int
        } else {
            0int
        },
{
    assert(ms.push(x).drop_last() =~= ms);
}

/// In an update, a file to delete is written as its name with `null`,
/// while a file to keep or replace is written as an object.
pub proof fn lemma_deletion_is_null(name: String, f: GistFile)
    ensures
        update_entry_text((name, None)) == member_text(json_quoted(name@), null_text()),
        update_entry_value(Some(f)) != update_entry_value(None),
{
    reveal_strlit("null");
    assert(update_entry_value(Some(f))[0] == '{');
}

/// An update that lists a file to delete is written differently from the
/// same update without that file's name.
pub proof fn lemma_deletion_distinguished(u: UpdateGist, v: UpdateGist, name: String)
    requires
        v.description == u.description,
        v.public == u.public,
        u.files is Some,
        v.files is Some,
        v.files->Some_0@ == u.files->Some_0@.push((name, None)),
    ensures
        object_text(update_gist_members(v)) != object_text(update_gist_members(u)),
{
    let es = u.files->Some_0@;
    let x = update_entry_text((name, None));
    assert(update_entries(es.push((name, None))) =~= update_entries(es).push(x));
    lemma_joined_push_len(update_entries(es), x);
    let fu = member_text("\"files\""@, object_text(update_entries(es)));
    let fv = member_text("\"files\""@, object_text(update_entries(v.files->Some_0@)));
    assert(fv.len() > fu.len());
    let pre = update_gist_members(u).drop_last();
    assert(update_gist_members(u) =~= pre.push(fu));
    assert(update_gist_members(v) =~= pre.push(fv));
    lemma_joined_push_len(pre, fu);
    lemma_joined_push_len(pre, fv);
    assert(joined(update_gist_members(v)).len() > joined(update_gist_members(u)).len());
    assert(object_text(update_gist_members(v)).len() > object_text(update_gist_members(u)).len());
}

/// Checking a star answers `true` for 204 and `false` for 404; any other
/// status, a success or not, is an error.
pub proof fn lemma_star_status(status: u16, text: Option<String>, r: Result<Outcome, GistError>)
    requires
        interprets(ResponseKind::StarStatus, status, text, r),
    ensures
        status == 204 ==> r == Ok::<Outcome, GistError>(Outcome::Starred(true)),
        status == 404 ==> r == Ok::<Outcome, GistError>(Outcome::Starred(false)),
        status != 204 && status != 404 ==> r is Err,
{
}

/// Outside checking a star, 401 is `Unauthorized` and 404 is `NotFound`
/// whatever the body; any other unsuccessful status is an API error that
/// carries the status and the response text unchanged.
pub proof fn lemma_status_errors(
    kind: ResponseKind,
    status: u16,
    text: Option<String>,
    r: Result<Outcome, GistError>,
)
    requires
        !(kind is StarStatus),
        interprets(kind, status, text, r),
    ensures
        status == 401 ==> r == Err::<Outcome, GistError>(GistError::Unauthorized),
        status == 404 ==> r == Err::<Outcome, GistError>(GistError::NotFound),
        !is_success_status(status) && status != 401 && status != 404 ==> (r matches Err(
            GistError::ApiError { status: s, message: m },
        ) && s == status && (text matches Some(t) ==> m@ == t@)),
{
}

/// A listing path with a cursor has exactly one query: its first `?` comes
/// right after the bare path and is followed by `since=` and the cursor.
/// Without a cursor the path is bare and has no query.
pub proof fn lemma_since_query(path: Seq<char>, since: Option<&str>)
    requires
        !path.contains('?'),
    ensures
        since is None ==> with_since_spec(path, since) == path,
        since is None ==> !with_since_spec(path, since).contains('?'),
        since matches Some(s) ==> {
            let r = with_since_spec(path, since);
            &&& r.len() > path.len()
            &&& r[path.len() as int] == '?'
            &&& forall|i: int| 0 <= i < path.len() ==> r[i] != '?'
            &&& r.subrange(path.len() as int + 1, r.len() as int) == "since="@ + s@
        },
{
    reveal_strlit("?since=");
    reveal_strlit("since=");
    if let Some(s) = since {
        let r = with_since_spec(path, since);
        assert forall|i: int| 0 <= i < path.len() implies r[i] != '?' by {
            assert(r[i] == path[i]);
        }
        assert(r.subrange(path.len() as int + 1, r.len() as int) =~= "since="@ + s@);
    }
}

/// A request that expects no body, such as deleting a gist or a comment or
/// removing a star, succeeds with no value on any success status, whatever
/// the body holds, and the body is never decoded.
pub proof fn lemma_no_body_success(status: u16, text: Option<String>, r: Result<Outcome, GistError>)
    requires
        is_success_status(status),
        interprets(ResponseKind::NoBody, status, text, r),
    ensures
        r == Ok::<Outcome, GistError>(Outcome::Done),
{
}

/// Where the text of a response is not needed, leaving it unread does not
/// change what the response comes to.
pub proof fn lemma_unread_text_irrelevant(
    kind: ResponseKind,
    status: u16,
    text: Option<String>,
    r: Result<Outcome, GistError>,
)
    requires
        !text_needed(kind, status),
    ensures
        interprets(kind, status, text, r) == interprets(kind, status, None, r),
{
}

} // verus!
