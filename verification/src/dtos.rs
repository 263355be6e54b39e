//! The bodies and queries clients send, with the rules each one must meet.
//!
//! `validate` answers with the names of the fields that break their rule, in the order the
//! fields are declared. A length counts characters; a URL must be one `url::Url` parses.
use vstd::prelude::*;
use crate::outside::{is_valid_url, validate_url};

verus! {

/// The number of items a listing skips when the query names none.
pub fn default_skip() -> (r: i64)
    ensures
        r == 0,
{
    0
}

/// The number of items a listing returns when the query names none.
pub fn default_limit() -> (r: i64)
    ensures
        r == 10,
{
    10
}

/// Query parameters of a paginated listing.
#[derive(Debug, PartialEq, Clone, Copy)]
pub struct PaginationDto {
    pub skip: i64,
    pub limit: i64,
}

impl PaginationDto {
    /// The pagination of a query; a missing `skip` is 0 and a missing `limit` is 10.
    pub fn from_query(skip: Option<i64>, limit: Option<i64>) -> (r: PaginationDto)
        ensures
            r.skip == match skip { Some(s) => s, None => 0 },
            r.limit == match limit { Some(l) => l, None => 10 },
    {
        let skip = match skip { Some(s) => s, None => default_skip() };
        let limit = match limit { Some(l) => l, None => default_limit() };
        PaginationDto { skip, limit }
    }
}

/// The names of the fields whose rule fails, in declaration order.
pub open spec fn failing_fields(checks: Seq<(bool, Seq<char>)>) -> Seq<Seq<char>>
    decreases checks.len(),
{
    if checks.len() == 0 {
        Seq::empty()
    } else {
        let rest = failing_fields(checks.drop_last());
        if checks.last().0 { rest } else { rest.push(checks.last().1) }
    }
}

pub open spec fn names_of(v: Seq<String>) -> Seq<Seq<char>> {
    v.map_values(|s: String| s@)
}

/// Whether a string holds at least `min` characters.
pub open spec fn min_len(s: Seq<char>, min: int) -> bool {
    s.len() >= min
}

/// Whether an optional string is absent or holds at least `min` characters.
pub open spec fn opt_min_len(s: Option<String>, min: int) -> bool {
    match s {
        Some(v) => v@.len() >= min,
        None => true,
    }
}

/// Whether an optional string is absent or a URL.
pub open spec fn opt_url(s: Option<String>) -> bool {
    match s {
        Some(v) => is_valid_url(v@),
        None => true,
    }
}

/// The outcome of a validation, given the rule of each field in declaration order.
pub open spec fn verdict(checks: Seq<(bool, Seq<char>)>) -> Result<(), Seq<Seq<char>>> {
    if failing_fields(checks).len() == 0 { Ok(()) } else { Err(failing_fields(checks)) }
}

pub open spec fn same_verdict(r: Result<(), Vec<String>>, checks: Seq<(bool, Seq<char>)>) -> bool {
    match r {
        Ok(()) => verdict(checks) == Ok::<(), Seq<Seq<char>>>(()),
        Err(v) => verdict(checks) == Err::<(), Seq<Seq<char>>>(names_of(v@)),
    }
}

/// Adds a field name to the list of failures when its rule fails.
fn note(failures: &mut Vec<String>, ok: bool, name: &str, Ghost(checks): Ghost<Seq<(bool, Seq<char>)>>)
    requires
        names_of(old(failures)@) == failing_fields(checks),
    ensures
        names_of(final(failures)@) == failing_fields(checks.push((ok, name@))),
{
    let ghost prior = checks.push((ok, name@));
    assert(prior.drop_last() =~= checks);
    if !ok {
        failures.push(name.to_string());
        assert(names_of(failures@) =~= names_of(old(failures)@).push(name@));
    }
}

fn no_failures() -> (v: Vec<String>)
    ensures
        names_of(v@) == failing_fields(Seq::empty()),
{
    let v: Vec<String> = Vec::new();
    assert(names_of(v@) =~= Seq::<Seq<char>>::empty());
    v
}

fn finish(failures: Vec<String>, Ghost(checks): Ghost<Seq<(bool, Seq<char>)>>) -> (r: Result<(), Vec<String>>)
    requires
        names_of(failures@) == failing_fields(checks),
    ensures
        same_verdict(r, checks),
{
    if failures.len() == 0 {
        Ok(())
    } else {
        Err(failures)
    }
}

fn opt_len_at_least(s: &Option<String>, min: usize) -> (r: bool)
    ensures
        r == opt_min_len(*s, min as int),
{
    match s {
        Some(v) => v.as_str().unicode_len() >= min,
        None => true,
    }
}

fn opt_is_url(s: &Option<String>) -> (r: bool)
    ensures
        r == opt_url(*s),
{
    match s {
        Some(v) => validate_url(v.as_str()),
        None => true,
    }
}

/// A login with a social account.
#[derive(Debug, PartialEq)]
pub struct LoginDto {
    pub full_name: String,
    pub google_id: Option<String>,
    pub github_id: Option<String>,
}

impl LoginDto {
    pub open spec fn checks(&self) -> Seq<(bool, Seq<char>)> {
        seq![(min_len(self.full_name@, 1), "full_name"@)]
    }

    /// The full name must not be empty.
    pub fn validate(&self) -> (r: Result<(), Vec<String>>)
        ensures
            same_verdict(r, self.checks()),
    {
        let mut failures = no_failures();
        note(&mut failures, self.full_name.as_str().unicode_len() >= 1, "full_name", Ghost(Seq::empty()));
        assert(seq![(min_len(self.full_name@, 1), "full_name"@)] =~= Seq::<(bool, Seq<char>)>::empty().push((min_len(self.full_name@, 1), "full_name"@)));
        finish(failures, Ghost(self.checks()))
    }
}

/// An OAuth authorization code to exchange for a token.
#[derive(Debug, PartialEq)]
pub struct OauthRequestDto {
    pub code: String,
    pub client_id: String,
    pub redirect_uri: String,
}

impl OauthRequestDto {
    pub open spec fn checks(&self) -> Seq<(bool, Seq<char>)> {
        seq![
            (min_len(self.code@, 1), "code"@),
            (min_len(self.client_id@, 1), "client_id"@),
            (min_len(self.redirect_uri@, 1), "redirect_uri"@),
        ]
    }

    /// No field may be empty.
    pub fn validate(&self) -> (r: Result<(), Vec<String>>)
        ensures
            same_verdict(r, self.checks()),
    {
        let ghost c0 = Seq::<(bool, Seq<char>)>::empty();
        let ghost c1 = c0.push((min_len(self.code@, 1), "code"@));
        let ghost c2 = c1.push((min_len(self.client_id@, 1), "client_id"@));
        let mut failures = no_failures();
        note(&mut failures, self.code.as_str().unicode_len() >= 1, "code", Ghost(c0));
        note(&mut failures, self.client_id.as_str().unicode_len() >= 1, "client_id", Ghost(c1));
        note(&mut failures, self.redirect_uri.as_str().unicode_len() >= 1, "redirect_uri", Ghost(c2));
        assert(self.checks() =~= c2.push((min_len(self.redirect_uri@, 1), "redirect_uri"@)));
        finish(failures, Ghost(self.checks()))
    }
}

/// The text of a chat message.
#[derive(Debug, PartialEq)]
pub struct SendMessageDto {
    pub data: String,
}

impl SendMessageDto {
    pub open spec fn checks(&self) -> Seq<(bool, Seq<char>)> {
        seq![(min_len(self.data@, 1), "data"@)]
    }

    /// The text must not be empty.
    pub fn validate(&self) -> (r: Result<(), Vec<String>>)
        ensures
            same_verdict(r, self.checks()),
    {
        let mut failures = no_failures();
        note(&mut failures, self.data.as_str().unicode_len() >= 1, "data", Ghost(Seq::empty()));
        assert(self.checks() =~= Seq::<(bool, Seq<char>)>::empty().push((min_len(self.data@, 1), "data"@)));
        finish(failures, Ghost(self.checks()))
    }
}

/// The user a host adds to or removes from a room.
#[derive(Debug, PartialEq, Clone, Copy)]
pub struct AddMemberDto {
    pub user_id: i32,
}

/// A meeting to create.
#[derive(Debug, PartialEq)]
pub struct CreateMeetingDto {
    pub title: String,
    pub password: String,
}

impl CreateMeetingDto {
    pub open spec fn checks(&self) -> Seq<(bool, Seq<char>)> {
        seq![(min_len(self.title@, 3), "title"@), (min_len(self.password@, 6), "password"@)]
    }

    /// The title holds at least 3 characters and the password at least 6.
    pub fn validate(&self) -> (r: Result<(), Vec<String>>)
        ensures
            same_verdict(r, self.checks()),
    {
        let ghost c0 = Seq::<(bool, Seq<char>)>::empty();
        let ghost c1 = c0.push((min_len(self.title@, 3), "title"@));
        let mut failures = no_failures();
        note(&mut failures, self.title.as_str().unicode_len() >= 3, "title", Ghost(c0));
        note(&mut failures, self.password.as_str().unicode_len() >= 6, "password", Ghost(c1));
        assert(self.checks() =~= c1.push((min_len(self.password@, 6), "password"@)));
        finish(failures, Ghost(self.checks()))
    }
}

/// The fields a host changes in a meeting, found by its code.
#[derive(Debug, PartialEq)]
pub struct UpdateMeetingDto {
    pub code: i32,
    pub title: Option<String>,
    pub password: Option<String>,
    pub avatar: Option<String>,
}

impl UpdateMeetingDto {
    pub open spec fn checks(&self) -> Seq<(bool, Seq<char>)> {
        seq![
            (opt_min_len(self.title, 3), "title"@),
            (opt_min_len(self.password, 6), "password"@),
            (opt_url(self.avatar), "avatar"@),
        ]
    }

    /// A given title holds at least 3 characters, a given password at least 6, and a given
    /// avatar is a URL.
    pub fn validate(&self) -> (r: Result<(), Vec<String>>)
        ensures
            same_verdict(r, self.checks()),
    {
        let ghost c0 = Seq::<(bool, Seq<char>)>::empty();
        let ghost c1 = c0.push((opt_min_len(self.title, 3), "title"@));
        let ghost c2 = c1.push((opt_min_len(self.password, 6), "password"@));
        let mut failures = no_failures();
        note(&mut failures, opt_len_at_least(&self.title, 3), "title", Ghost(c0));
        note(&mut failures, opt_len_at_least(&self.password, 6), "password", Ghost(c1));
        note(&mut failures, opt_is_url(&self.avatar), "avatar", Ghost(c2));
        assert(self.checks() =~= c2.push((opt_url(self.avatar), "avatar"@)));
        finish(failures, Ghost(self.checks()))
    }
}

/// The profile fields a user changes.
#[derive(Debug, PartialEq)]
pub struct UpdateUserDto {
    pub full_name: String,
    pub avatar: Option<String>,
    pub bio: Option<String>,
}

impl Clone for UpdateUserDto {
    fn clone(&self) -> (r: Self)
        ensures
            r == *self,
    {
        UpdateUserDto { full_name: self.full_name.clone(), avatar: self.avatar.clone(), bio: self.bio.clone() }
    }
}

impl UpdateUserDto {
    pub open spec fn checks(&self) -> Seq<(bool, Seq<char>)> {
        seq![(min_len(self.full_name@, 1), "full_name"@), (opt_url(self.avatar), "avatar"@)]
    }

    /// The full name must not be empty, and a given avatar is a URL.
    pub fn validate(&self) -> (r: Result<(), Vec<String>>)
        ensures
            same_verdict(r, self.checks()),
    {
        let ghost c0 = Seq::<(bool, Seq<char>)>::empty();
        let ghost c1 = c0.push((min_len(self.full_name@, 1), "full_name"@));
        let mut failures = no_failures();
        note(&mut failures, self.full_name.as_str().unicode_len() >= 1, "full_name", Ghost(c0));
        note(&mut failures, opt_is_url(&self.avatar), "avatar", Ghost(c1));
        assert(self.checks() =~= c1.push((opt_url(self.avatar), "avatar"@)));
        finish(failures, Ghost(self.checks()))
    }
}

} // verus!
