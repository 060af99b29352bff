use vstd::prelude::*;
use vstd::string::*;
use crate::error::GistError;
use crate::json::{
    bool_text, boolean_text, decimal, json_quoted, member, member_text, null_text, number_text,
    object_text, quote, render_object, texts,
};

verus! {

/// An instant in UTC, as whole seconds since the Unix epoch and the
/// nanoseconds past that second; a leap second counts a second more of
/// nanoseconds.
#[derive(Debug, Clone, Copy, PartialEq, Eq, Structural)]
pub struct Timestamp {
    pub seconds: i64,
    pub nanos: u32,
}

impl Timestamp {
    pub open spec fn wf(self) -> bool {
        self.nanos < 2_000_000_000
    }

    /// The instant `seconds` seconds and `nanos` nanoseconds after the epoch;
    /// `None` where `nanos` is two whole seconds or more.
    pub fn new(seconds: i64, nanos: u32) -> (r: Option<Timestamp>)
        ensures
            nanos < 2_000_000_000 <==> r is Some,
            r matches Some(t) ==> t.wf() && t.seconds == seconds && t.nanos == nanos,
    {
        if nanos < 2_000_000_000 {
            Some(Timestamp { seconds, nanos })
        } else {
            None
        }
    }
}

/// One file of a gist. Every field is optional: the server leaves unset
/// fields out, and a caller writes only the fields it changes.
#[derive(Debug, Clone, Default, PartialEq, Eq)]
pub struct GistFile {
    pub content: Option<String>,
    pub filename: Option<String>,
    pub size: Option<u64>,
    pub language: Option<String>,
    pub truncated: Option<bool>,
    /// The media type of the file (the key `type` on the wire).
    pub kind: Option<String>,
}

/// The owner of a gist, or the author of a comment, commit or fork.
#[derive(Debug, Clone, PartialEq, Eq)]
pub struct GistOwner {
    pub login: String,
    pub id: u64,
    pub avatar_url: Option<String>,
    pub url: Option<String>,
    pub html_url: Option<String>,
    pub gists_url: Option<String>,
}

/// The body of a request that creates a gist: files by name.
#[derive(Debug, Clone, PartialEq, Eq)]
pub struct CreateGist {
    pub description: Option<String>,
    pub public: Option<bool>,
    pub files: Vec<(String, GistFile)>,
}

/// The body of a request that updates a gist. Under `files`, a name mapped
/// to `None` deletes that file, a name mapped to a file replaces or adds
/// it, and a name that is not there leaves the file as it is.
#[derive(Debug, Clone, PartialEq, Eq)]
pub struct UpdateGist {
    pub description: Option<String>,
    pub public: Option<bool>,
    pub files: Option<Vec<(String, Option<GistFile>)>>,
}

/// A gist as the server returns it.
#[derive(Debug, Clone, PartialEq, Eq)]
pub struct FullGist {
    pub id: String,
    pub description: Option<String>,
    pub public: bool,
    pub owner: Option<GistOwner>,
    pub files: Vec<(String, GistFile)>,
    pub html_url: String,
    pub git_pull_url: String,
    pub git_push_url: String,
    pub created_at: Timestamp,
    pub updated_at: Timestamp,
    pub comments: u64,
    pub comments_url: String,
    pub forks: Option<Vec<GistFork>>,
    pub history: Option<Vec<GistCommit>>,
}

/// One revision in the history of a gist.
#[derive(Debug, Clone, PartialEq, Eq)]
pub struct GistCommit {
    pub url: String,
    pub version: String,
    pub user: Option<GistOwner>,
    pub change_status: GistChangeStatus,
    pub committed_at: Timestamp,
}

/// The line counts of a revision, where the server gives them.
#[derive(Debug, Clone, Copy, PartialEq, Eq, Structural)]
pub struct GistChangeStatus {
    pub total: Option<u64>,
    pub additions: Option<u64>,
    pub deletions: Option<u64>,
}

/// A fork of a gist.
#[derive(Debug, Clone, PartialEq, Eq)]
pub struct GistFork {
    pub id: String,
    pub url: String,
    pub user: GistOwner,
    pub created_at: Timestamp,
    pub updated_at: Timestamp,
}

/// A comment on a gist.
#[derive(Debug, Clone, PartialEq, Eq)]
pub struct GistComment {
    pub id: u64,
    pub body: String,
    pub user: Option<GistOwner>,
    pub created_at: Timestamp,
    pub updated_at: Timestamp,
}

/// The body of a request that creates a comment.
#[derive(Debug, Clone, PartialEq, Eq)]
pub struct CreateComment {
    pub body: String,
}

/// The body of a request that changes a comment.
#[derive(Debug, Clone, PartialEq, Eq)]
pub struct UpdateComment {
    pub body: String,
}

/// Whether a gist is starred.
#[derive(Debug, Clone, Copy, PartialEq, Eq, Structural)]
pub struct StarGistResponse {
    pub starred: bool,
}

/// Whether no two entries of a list of files share a name.
pub open spec fn names_unique<F>(files: Seq<(String, F)>) -> bool {
    forall|i: int, j: int|
        0 <= i < files.len() && 0 <= j < files.len() && i != j ==> files[i].0@ != files[j].0@
}

/// Whether a list of files has an entry under this name.
pub open spec fn has_name<F>(files: Seq<(String, F)>, name: Seq<char>) -> bool {
    exists|i: int| 0 <= i < files.len() && files[i].0@ == name
}

/// The list of files after putting `value` under `name`: the entry with that
/// name is replaced in place, or a new entry is added at the end.
pub open spec fn put_spec<F>(old: Seq<(String, F)>, new: Seq<(String, F)>, name: String, value: F) -> bool {
    if has_name(old, name@) {
        exists|i: int|
            0 <= i < old.len() && old[i].0@ == name@ && new == old.update(i, (name, value))
    } else {
        new == old.push((name, value))
    }
}

fn find_name<F>(files: &Vec<(String, F)>, name: &String) -> (r: Option<usize>)
    ensures
        r matches Some(i) ==> i < files@.len() && files@[i as int].0@ == name@,
        r is None ==> !has_name(files@, name@),
{
    let mut i: usize = 0;
    while i < files.len()
        invariant
            i <= files@.len(),
            forall|j: int| 0 <= j < i ==> files@[j].0@ != name@,
        decreases files@.len() - i,
    {
        if files[i].0 == *name {
            return Some(i);
        }
        i = i + 1;
    }
    None
}

/// Whether no two entries of a list of files share a name.
pub fn unique_names<F>(files: &Vec<(String, F)>) -> (r: bool)
    ensures
        r == names_unique(files@),
{
    let mut i: usize = 0;
    while i < files.len()
        invariant
            i <= files@.len(),
            forall|a: int, b: int|
                0 <= a < i && 0 <= b < files@.len() && a != b ==> files@[a].0@ != files@[b].0@,
        decreases files@.len() - i,
    {
        let mut j: usize = 0;
        while j < files.len()
            invariant
                i < files@.len(),
                j <= files@.len(),
                forall|a: int, b: int|
                    0 <= a < i && 0 <= b < files@.len() && a != b ==> files@[a].0@ != files@[b].0@,
                forall|b: int| 0 <= b < j && b != i ==> files@[i as int].0@ != files@[b].0@,
            decreases files@.len() - j,
        {
            if j != i && files[i].0 == files[j].0 {
                return false;
            }
            j = j + 1;
        }
        i = i + 1;
    }
    true
}

fn put_entry<F>(files: &mut Vec<(String, F)>, name: String, value: F)
    ensures
        put_spec(old(files)@, final(files)@, name, value),
        names_unique(old(files)@) ==> names_unique(final(files)@),
{
    match find_name(files, &name) {
        Some(i) => {
            files[i] = (name, value);
            assert(files@ == old(files)@.update(i as int, (name, value)));
        },
        None => {
            files.push((name, value));
        },
    }
}

/// The member for an optional text: none where the text is unset.
pub open spec fn text_member(key: Seq<char>, v: Option<String>) -> Seq<Seq<char>> {
    match v {
        Some(s) => seq![member_text(key, json_quoted(s@))],
        None => Seq::empty(),
    }
}

/// The member for an optional boolean: none where it is unset.
pub open spec fn flag_member(key: Seq<char>, v: Option<bool>) -> Seq<Seq<char>> {
    match v {
        Some(b) => seq![member_text(key, bool_text(b))],
        None => Seq::empty(),
    }
}

/// The member for an optional number: none where it is unset.
pub open spec fn number_member(key: Seq<char>, v: Option<u64>) -> Seq<Seq<char>> {
    match v {
        Some(n) => seq![member_text(key, decimal(n as nat))],
        None => Seq::empty(),
    }
}

/// The members of the JSON object of a file, in field order; an unset
/// field has no member.
pub open spec fn file_members(f: GistFile) -> Seq<Seq<char>> {
    text_member("\"content\""@, f.content) + text_member("\"filename\""@, f.filename)
        + number_member("\"size\""@, f.size) + text_member("\"language\""@, f.language)
        + flag_member("\"truncated\""@, f.truncated) + text_member("\"type\""@, f.kind)
}

/// The JSON object of a file.
pub open spec fn file_json(f: GistFile) -> Seq<char> {
    object_text(file_members(f))
}

/// The number of fields of a file that are set.
pub open spec fn set_field_count(f: GistFile) -> nat {
    (if f.content is Some { 1nat } else { 0 }) + (if f.filename is Some { 1nat } else { 0 }) + (
    if f.size is Some { 1nat } else { 0 }) + (if f.language is Some { 1nat } else { 0 }) + (
    if f.truncated is Some { 1nat } else { 0 }) + (if f.kind is Some { 1nat } else { 0 })
}

/// The member of a file under `files` in a request that creates a gist.
pub open spec fn create_entry_text(e: (String, GistFile)) -> Seq<char> {
    member_text(json_quoted(e.0@), file_json(e.1))
}

pub open spec fn create_entries(es: Seq<(String, GistFile)>) -> Seq<Seq<char>> {
    es.map_values(|e: (String, GistFile)| create_entry_text(e))
}

/// The value under a file name in a request that updates a gist: the file,
/// or `null` for a file to delete.
pub open spec fn update_entry_value(v: Option<GistFile>) -> Seq<char> {
    match v {
        Some(f) => file_json(f),
        None => null_text(),
    }
}

/// The member of a file under `files` in a request that updates a gist.
pub open spec fn update_entry_text(e: (String, Option<GistFile>)) -> Seq<char> {
    member_text(json_quoted(e.0@), update_entry_value(e.1))
}

pub open spec fn update_entries(es: Seq<(String, Option<GistFile>)>) -> Seq<Seq<char>> {
    es.map_values(|e: (String, Option<GistFile>)| update_entry_text(e))
}

/// The members of the JSON object of a request that creates a gist.
pub open spec fn create_gist_members(g: CreateGist) -> Seq<Seq<char>> {
    text_member("\"description\""@, g.description) + flag_member("\"public\""@, g.public) + seq![
        member_text("\"files\""@, object_text(create_entries(g.files@))),
    ]
}

/// The members of the JSON object of a request that updates a gist; a
/// field that is unset has no member.
pub open spec fn update_gist_members(u: UpdateGist) -> Seq<Seq<char>> {
    text_member("\"description\""@, u.description) + flag_member("\"public\""@, u.public) + match u.files {
        Some(es) => seq![member_text("\"files\""@, object_text(update_entries(es@)))],
        None => Seq::empty(),
    }
}

/// The JSON object of a comment request with the given body.
pub open spec fn comment_json(body: Seq<char>) -> Seq<char> {
    object_text(seq![member_text("\"body\""@, json_quoted(body))])
}

fn encoding_error() -> (e: GistError)
    ensures
        e is JsonError,
{
    GistError::JsonError(String::from_str("a text could not be written as JSON"))
}

proof fn lemma_texts_push(v: Seq<String>, x: String)
    ensures
        texts(v.push(x)) == texts(v).push(x@),
{
    assert(texts(v.push(x)) =~= texts(v).push(x@));
}

/// Appends the member for an optional text; `false` where the text could
/// not be quoted.
fn push_text_member(members: &mut Vec<String>, key: &str, v: &Option<String>) -> (ok: bool)
    ensures
        ok,
        texts(final(members)@) == texts(old(members)@) + text_member(key@, *v),
{
    match v {
        Some(s) => match quote(s.as_str()) {
            Some(q) => {
                let m = member(key, q.as_str());
                proof {
                    lemma_texts_push(members@, m);
                }
                members.push(m);
                assert(texts(members@) =~= texts(old(members)@) + text_member(key@, *v));
                true
            },
            None => false,
        },
        None => {
            assert(texts(members@) =~= texts(members@) + text_member(key@, *v));
            true
        },
    }
}

fn push_flag_member(members: &mut Vec<String>, key: &str, v: Option<bool>)
    ensures
        texts(final(members)@) == texts(old(members)@) + flag_member(key@, v),
{
    match v {
        Some(b) => {
            let m = member(key, boolean_text(b).as_str());
            proof {
                lemma_texts_push(members@, m);
            }
            members.push(m);
            assert(texts(members@) =~= texts(old(members)@) + flag_member(key@, v));
        },
        None => {
            assert(texts(members@) =~= texts(members@) + flag_member(key@, v));
        },
    }
}

fn push_number_member(members: &mut Vec<String>, key: &str, v: Option<u64>)
    ensures
        texts(final(members)@) == texts(old(members)@) + number_member(key@, v),
{
    match v {
        Some(n) => {
            let m = member(key, number_text(n).as_str());
            proof {
                lemma_texts_push(members@, m);
            }
            members.push(m);
            assert(texts(members@) =~= texts(old(members)@) + number_member(key@, v));
        },
        None => {
            assert(texts(members@) =~= texts(members@) + number_member(key@, v));
        },
    }
}

impl GistFile {
    /// The JSON object of this file; a field that is unset is left out.
    pub fn to_json(&self) -> (r: Result<String, GistError>)
        ensures
            r is Ok,
            r matches Ok(t) ==> t@ == file_json(*self),
    {
        let mut ms: Vec<String> = Vec::new();
        assert(texts(ms@) =~= Seq::<Seq<char>>::empty());
        if !push_text_member(&mut ms, "\"content\"", &self.content) {
            return Err(encoding_error());
        }
        if !push_text_member(&mut ms, "\"filename\"", &self.filename) {
            return Err(encoding_error());
        }
        push_number_member(&mut ms, "\"size\"", self.size);
        if !push_text_member(&mut ms, "\"language\"", &self.language) {
            return Err(encoding_error());
        }
        push_flag_member(&mut ms, "\"truncated\"", self.truncated);
        if !push_text_member(&mut ms, "\"type\"", &self.kind) {
            return Err(encoding_error());
        }
        assert(texts(ms@) =~= file_members(*self));
        Ok(render_object(&ms))
    }
}

fn create_entries_json(files: &Vec<(String, GistFile)>) -> (r: Result<String, GistError>)
    ensures
        r is Ok,
        r matches Ok(t) ==> t@ == object_text(create_entries(files@)),
{
    let mut ms: Vec<String> = Vec::new();
    let mut i: usize = 0;
    while i < files.len()
        invariant
            i <= files@.len(),
            texts(ms@) == create_entries(files@.subrange(0, i as int)),
        decreases files@.len() - i,
    {
        let q = match quote(files[i].0.as_str()) {
            Some(q) => q,
            None => return Err(encoding_error()),
        };
        let v = match files[i].1.to_json() {
            Ok(v) => v,
            Err(e) => return Err(e),
        };
        let m = member(q.as_str(), v.as_str());
        proof {
            lemma_texts_push(ms@, m);
        }
        ms.push(m);
        assert(create_entries(files@.subrange(0, i + 1)) =~= create_entries(
            files@.subrange(0, i as int),
        ).push(create_entry_text(files@[i as int])));
        i = i + 1;
    }
    assert(files@.subrange(0, files@.len() as int) =~= files@);
    Ok(render_object(&ms))
}

fn update_entries_json(files: &Vec<(String, Option<GistFile>)>) -> (r: Result<String, GistError>)
    ensures
        r is Ok,
        r matches Ok(t) ==> t@ == object_text(update_entries(files@)),
{
    let mut ms: Vec<String> = Vec::new();
    let mut i: usize = 0;
    while i < files.len()
        invariant
            i <= files@.len(),
            texts(ms@) == update_entries(files@.subrange(0, i as int)),
        decreases files@.len() - i,
    {
        let q = match quote(files[i].0.as_str()) {
            Some(q) => q,
            None => return Err(encoding_error()),
        };
        let v = match &files[i].1 {
            Some(f) => match f.to_json() {
                Ok(v) => v,
                Err(e) => return Err(e),
            },
            None => {
                proof {
                    reveal_strlit("null");
                }
                String::from_str("null")
            },
        };
        let m = member(q.as_str(), v.as_str());
        proof {
            lemma_texts_push(ms@, m);
        }
        ms.push(m);
        assert(update_entries(files@.subrange(0, i + 1)) =~= update_entries(
            files@.subrange(0, i as int),
        ).push(update_entry_text(files@[i as int])));
        i = i + 1;
    }
    assert(files@.subrange(0, files@.len() as int) =~= files@);
    Ok(render_object(&ms))
}

impl CreateGist {
    /// The JSON body of this request; an unset description or visibility is
    /// left out, and each file appears under its name.
    pub fn to_json(&self) -> (r: Result<String, GistError>)
        requires
            self.wf(),
        ensures
            r is Ok,
            r matches Ok(t) ==> t@ == object_text(create_gist_members(*self)),
    {
        let mut ms: Vec<String> = Vec::new();
        assert(texts(ms@) =~= Seq::<Seq<char>>::empty());
        if !push_text_member(&mut ms, "\"description\"", &self.description) {
            return Err(encoding_error());
        }
        push_flag_member(&mut ms, "\"public\"", self.public);
        let files = match create_entries_json(&self.files) {
            Ok(t) => t,
            Err(e) => return Err(e),
        };
        let m = member("\"files\"", files.as_str());
        proof {
            lemma_texts_push(ms@, m);
        }
        ms.push(m);
        assert(texts(ms@) =~= create_gist_members(*self));
        Ok(render_object(&ms))
    }
}

impl UpdateGist {
    /// The JSON body of this request. Unset fields are left out; under
    /// `files` a file to delete is written as `null`.
    pub fn to_json(&self) -> (r: Result<String, GistError>)
        requires
            self.wf(),
        ensures
            r is Ok,
            r matches Ok(t) ==> t@ == object_text(update_gist_members(*self)),
    {
        let mut ms: Vec<String> = Vec::new();
        assert(texts(ms@) =~= Seq::<Seq<char>>::empty());
        if !push_text_member(&mut ms, "\"description\"", &self.description) {
            return Err(encoding_error());
        }
        push_flag_member(&mut ms, "\"public\"", self.public);
        match &self.files {
            Some(es) => {
                let files = match update_entries_json(es) {
                    Ok(t) => t,
                    Err(e) => return Err(e),
                };
                let m = member("\"files\"", files.as_str());
                proof {
                    lemma_texts_push(ms@, m);
                }
                ms.push(m);
            },
            None => {},
        }
        assert(texts(ms@) =~= update_gist_members(*self));
        Ok(render_object(&ms))
    }
}

fn comment_body_json(body: &String) -> (r: Result<String, GistError>)
    ensures
        r is Ok,
        r matches Ok(t) ==> t@ == comment_json(body@),
{
    match quote(body.as_str()) {
        Some(q) => {
            let mut ms: Vec<String> = Vec::new();
            let m = member("\"body\"", q.as_str());
            ms.push(m);
            assert(texts(ms@) =~= seq![member_text("\"body\""@, json_quoted(body@))]);
            Ok(render_object(&ms))
        },
        None => Err(encoding_error()),
    }
}

impl CreateComment {
    /// The JSON body of this request.
    pub fn to_json(&self) -> (r: Result<String, GistError>)
        ensures
            r is Ok,
            r matches Ok(t) ==> t@ == comment_json(self.body@),
    {
        comment_body_json(&self.body)
    }
}

impl UpdateComment {
    /// The JSON body of this request.
    pub fn to_json(&self) -> (r: Result<String, GistError>)
        ensures
            r is Ok,
            r matches Ok(t) ==> t@ == comment_json(self.body@),
    {
        comment_body_json(&self.body)
    }
}

impl CreateGist {
    /// No two files share a name.
    pub open spec fn wf(&self) -> bool {
        names_unique(self.files@)
    }

    /// Whether no two files share a name.
    pub fn is_wf(&self) -> (r: bool)
        ensures
            r == self.wf(),
    {
        unique_names(&self.files)
    }

    /// Puts a file under a name, replacing the file that had that name.
    pub fn add_file(&mut self, name: String, file: GistFile)
        ensures
            put_spec(old(self).files@, final(self).files@, name, file),
            old(self).wf() ==> final(self).wf(),
            final(self).description == old(self).description,
            final(self).public == old(self).public,
    {
        put_entry(&mut self.files, name, file);
    }
}

impl UpdateGist {
    /// No two files share a name.
    pub open spec fn wf(&self) -> bool {
        self.files matches Some(es) ==> names_unique(es@)
    }

    /// Whether no two files share a name.
    pub fn is_wf(&self) -> (r: bool)
        ensures
            r == self.wf(),
    {
        match &self.files {
            Some(es) => unique_names(es),
            None => true,
        }
    }

    /// Puts a change under a file name: `Some` replaces or adds the file,
    /// `None` deletes it. An earlier change under that name is replaced.
    pub fn change_file(&mut self, name: String, file: Option<GistFile>)
        ensures
            final(self).files matches Some(es) && put_spec(
                match old(self).files {
                    Some(o) => o@,
                    None => Seq::empty(),
                },
                es@,
                name,
                file,
            ),
            old(self).wf() ==> final(self).wf(),
            final(self).description == old(self).description,
            final(self).public == old(self).public,
    {
        match self.files.as_mut() {
            Some(es) => put_entry(es, name, file),
            None => {
                let mut es: Vec<(String, Option<GistFile>)> = Vec::new();
                put_entry(&mut es, name, file);
                self.files = Some(es);
            },
        }
    }
}

} // verus!
