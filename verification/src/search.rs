//! The user search index: the document each user becomes, the lines the index imports, and
//! the paths of the search engine's HTTP API.
use vstd::prelude::*;
use crate::entities::User;
use crate::outside::{json_quote, json_string_of};
use crate::strings::{decimal, i32_to_string, i64_to_string, push_char, push_str, trim_end_char, trim_end_matches_char, trim_start_char, trim_start_matches_char};

verus! {

/// The collection that holds the users.
pub const USERS_COLLECTION: &'static str = "users";

/// The fields a user search matches against.
pub const USER_SEARCH_FIELDS: &'static str = "userName,fullName";

/// A user as the search index stores it.
#[derive(Debug, PartialEq)]
pub struct TypesenseUser {
    pub id: String,
    pub username: String,
    pub full_name: Option<String>,
    pub avatar_url: Option<String>,
}

/// The indexed form of a user: its id written in decimal, its name, full name and avatar.
pub fn typesense_user(user: &User) -> (r: TypesenseUser)
    ensures
        r.id@ == decimal(user.id as int),
        r.username == user.user_name,
        r.full_name == user.full_name,
        r.avatar_url == user.avatar,
{
    TypesenseUser {
        id: i32_to_string(user.id),
        username: user.user_name.clone(),
        full_name: user.full_name.clone(),
        avatar_url: user.avatar.clone(),
    }
}

pub open spec fn json_or_null(s: Option<String>) -> Seq<char> {
    match s {
        Some(v) => json_string_of(v@),
        None => "null"@,
    }
}

/// The JSON object of an indexed user, with its fields in their order.
pub open spec fn document_text(id: Seq<char>, username: Seq<char>, full_name: Option<String>, avatar: Option<String>) -> Seq<char> {
    "{\"id\":"@ + json_string_of(id) + ",\"userName\":"@ + json_string_of(username) + ",\"fullName\":"@
        + json_or_null(full_name) + ",\"avatar\":"@ + json_or_null(avatar) + "}"@
}

/// The document of a user, as the index imports it.
pub open spec fn user_document(user: User) -> Seq<char> {
    document_text(decimal(user.id as int), user.user_name@, user.full_name, user.avatar)
}

fn push_json_or_null(out: &mut String, s: &Option<String>)
    ensures
        final(out)@ == old(out)@ + json_or_null(*s),
{
    match s {
        Some(v) => {
            let quoted = json_quote(v.as_str());
            push_str(out, quoted.as_str());
        },
        None => push_str(out, "null"),
    }
}

/// The JSON object of an indexed user.
pub fn document(user: &TypesenseUser) -> (r: String)
    ensures
        r@ == document_text(user.id@, user.username@, user.full_name, user.avatar_url),
{
    let mut out = String::new();
    push_str(&mut out, "{\"id\":");
    push_str(&mut out, json_quote(user.id.as_str()).as_str());
    push_str(&mut out, ",\"userName\":");
    push_str(&mut out, json_quote(user.username.as_str()).as_str());
    push_str(&mut out, ",\"fullName\":");
    push_json_or_null(&mut out, &user.full_name);
    push_str(&mut out, ",\"avatar\":");
    push_json_or_null(&mut out, &user.avatar_url);
    push_str(&mut out, "}");
    assert(out@ =~= document_text(user.id@, user.username@, user.full_name, user.avatar_url));
    out
}

/// Lines joined by line feeds, with none after the last.
pub open spec fn join_lines(lines: Seq<Seq<char>>) -> Seq<char>
    decreases lines.len(),
{
    if lines.len() == 0 {
        Seq::empty()
    } else if lines.len() == 1 {
        lines[0]
    } else {
        join_lines(lines.drop_last()) + seq!['\n'] + lines.last()
    }
}

/// The import body for a list of users: one document per line, in their order.
pub fn users_jsonl(users: &Vec<User>) -> (r: String)
    ensures
        r@ == join_lines(users@.map_values(|u: User| user_document(u))),
{
    let mut out = String::new();
    let mut i: usize = 0;
    while i < users.len()
        invariant
            i <= users@.len(),
            out@ == join_lines(users@.take(i as int).map_values(|u: User| user_document(u))),
        decreases users.len() - i,
    {
        let ghost before = users@.take(i as int).map_values(|u: User| user_document(u));
        let ghost after = users@.take(i + 1).map_values(|u: User| user_document(u));
        assert(after.drop_last() =~= before);
        assert(after.last() == user_document(users@[i as int]));
        if i > 0 {
            push_char(&mut out, '\n');
        }
        let line = document(&typesense_user(&users[i]));
        push_str(&mut out, line.as_str());
        proof {
            if i == 0 {
                assert(out@ =~= after[0]);
            } else {
                assert(out@ =~= join_lines(before) + seq!['\n'] + after.last());
            }
        }
        i = i + 1;
    }
    assert(users@.take(users@.len() as int) =~= users@);
    out
}

/// The address of `path` on the search engine at `host`: the host without trailing slashes,
/// one slash, and the path without leading slashes.
pub fn typesense_url(host: &str, path: &str) -> (r: String)
    ensures
        r@ == trim_end_char(host@, '/') + seq!['/'] + trim_start_char(path@, '/'),
{
    let mut out = String::new();
    push_str(&mut out, trim_end_matches_char(host, '/'));
    push_char(&mut out, '/');
    push_str(&mut out, trim_start_matches_char(path, '/'));
    out
}

pub open spec fn page_part(name: Seq<char>, value: Option<i64>) -> Seq<char> {
    match value {
        Some(v) => seq!['&'] + name + seq!['='] + decimal(v as int),
        None => Seq::empty(),
    }
}

/// The path of a search: the collection, the query and the fields, then the page and the
/// page size when they are given.
pub fn search_path(collection: &str, q: &str, query_by: &str, page: Option<i64>, per_page: Option<i64>) -> (r: String)
    ensures
        r@ == "/collections/"@ + collection@ + "/documents/search?q="@ + q@ + "&query_by="@ + query_by@
            + page_part("page"@, page) + page_part("per_page"@, per_page),
{
    let mut out = String::new();
    push_str(&mut out, "/collections/");
    push_str(&mut out, collection);
    push_str(&mut out, "/documents/search?q=");
    push_str(&mut out, q);
    push_str(&mut out, "&query_by=");
    push_str(&mut out, query_by);
    if let Some(p) = page {
        push_char(&mut out, '&');
        push_str(&mut out, "page");
        push_char(&mut out, '=');
        push_str(&mut out, i64_to_string(p).as_str());
    }
    if let Some(p) = per_page {
        push_char(&mut out, '&');
        push_str(&mut out, "per_page");
        push_char(&mut out, '=');
        push_str(&mut out, i64_to_string(p).as_str());
    }
    assert(out@ =~= "/collections/"@ + collection@ + "/documents/search?q="@ + q@ + "&query_by="@ + query_by@
        + page_part("page"@, page) + page_part("per_page"@, per_page));
    out
}

/// The path of a collection's documents import, as an upsert.
pub fn import_path(collection: &str) -> (r: String)
    ensures
        r@ == "/collections/"@ + collection@ + "/documents/import?action=upsert"@,
{
    let mut out = String::new();
    push_str(&mut out, "/collections/");
    push_str(&mut out, collection);
    push_str(&mut out, "/documents/import?action=upsert");
    out
}

/// The path of a collection.
pub fn collection_path(name: &str) -> (r: String)
    ensures
        r@ == "/collections/"@ + name@,
{
    let mut out = String::new();
    push_str(&mut out, "/collections/");
    push_str(&mut out, name);
    out
}

} // verus!
