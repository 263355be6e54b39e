//! Password hashing and the random identifiers of rooms and users.
use vstd::prelude::*;
use crate::outside::{bcrypt_hash, bcrypt_verify, bcrypt_verify_outcome, is_ascii_alphanumeric, is_nanoid_safe_char, nanoid_safe, sample_alphanumeric, thread_rng};
use crate::strings::push_char;

verus! {

/// Hashes a password with bcrypt at the default cost. `None` when the operating system
/// gave no randomness for the salt.
pub fn hash_password(password: &str) -> (r: Option<String>)
    ensures
        r matches Some(h) ==> h@.len() == 60 && bcrypt_verify_outcome(password@, h@) == Some(true),
{
    bcrypt_hash(password)
}

/// Whether `password` matches the bcrypt hash `hash`; `None` when `hash` is malformed.
pub fn verify_password(password: &str, hash: &str) -> (r: Option<bool>)
    ensures
        r == bcrypt_verify_outcome(password@, hash@),
{
    bcrypt_verify(password, hash)
}

pub open spec fn is_lower_letter(c: char) -> bool {
    'a' <= c <= 'z'
}

/// The shape of a room code: three, four and three lowercase letters joined by `-`.
pub open spec fn is_room_code(s: Seq<char>) -> bool {
    &&& s.len() == 12
    &&& s[3] == '-'
    &&& s[8] == '-'
    &&& forall|i: int| 0 <= i < 12 && i != 3 && i != 8 ==> is_lower_letter(#[trigger] s[i])
}

/// The letter a random alphanumeric byte gives once lowered, if it is a letter.
pub fn lowered_letter(b: u8) -> (r: Option<char>)
    requires
        is_ascii_alphanumeric(b),
    ensures
        (0x30 <= b <= 0x39) <==> r is None,
        r matches Some(c) ==> is_lower_letter(c),
        (0x61 <= b <= 0x7a) ==> r == Some(b as char),
        (0x41 <= b <= 0x5a) ==> r == Some((b + 32) as char),
{
    if 0x61 <= b && b <= 0x7a {
        Some(b as char)
    } else if 0x41 <= b && b <= 0x5a {
        Some((b + 32) as char)
    } else {
        None
    }
}

/// Appends `len` random lowercase letters to `out`: it draws alphanumeric characters,
/// lowers them and keeps the letters. So that the loop is known to end, the draws stop after
/// `u64::MAX` of them (no generator in use gives that many digits in a row); any letter still
/// missing then is an `a`.
fn push_random_letters(len: usize, rng: &mut rand::rngs::ThreadRng, out: &mut String)
    ensures
        final(out)@.len() == old(out)@.len() + len,
        final(out)@.subrange(0, old(out)@.len() as int) == old(out)@,
        forall|i: int| old(out)@.len() <= i < final(out)@.len() ==> is_lower_letter(#[trigger] final(out)@[i]),
{
    let ghost start = out@;
    let mut pushed: usize = 0;
    let mut draws_left: u64 = u64::MAX;
    while pushed < len
        invariant
            pushed <= len,
            start == old(out)@,
            out@.len() == start.len() + pushed,
            out@.subrange(0, start.len() as int) == start,
            forall|i: int| start.len() <= i < out@.len() ==> is_lower_letter(#[trigger] out@[i]),
        decreases len - pushed, draws_left,
    {
        let next: Option<char> = if draws_left == 0 {
            Some('a')
        } else {
            draws_left = draws_left - 1;
            lowered_letter(sample_alphanumeric(rng))
        };
        match next {
            Some(c) => {
                let ghost before = out@;
                push_char(out, c);
                pushed = pushed + 1;
                assert(out@.subrange(0, start.len() as int) =~= before.subrange(0, start.len() as int));
            },
            None => {},
        }
    }
}

/// A random room code such as `abc-defg-hij`.
pub fn generate_room_code() -> (r: String)
    ensures
        is_room_code(r@),
{
    let mut rng = thread_rng();
    let mut code = String::new();
    push_random_letters(3, &mut rng, &mut code);
    push_char(&mut code, '-');
    let ghost first = code@;
    push_random_letters(4, &mut rng, &mut code);
    assert(code@[3] == first[3]);
    push_char(&mut code, '-');
    let ghost second = code@;
    push_random_letters(3, &mut rng, &mut code);
    assert(code@[3] == second[3]);
    assert(code@[8] == second[8]);
    assert forall|i: int| 0 <= i < 12 && i != 3 && i != 8 implies is_lower_letter(#[trigger] code@[i]) by {
        if i < 3 {
            assert(code@[i] == second[i]);
            assert(second[i] == first[i]);
        } else if i < 8 {
            assert(code@[i] == second[i]);
        }
    }
    code
}

pub open spec fn is_username(s: Seq<char>) -> bool {
    s.len() == 12 && forall|i: int| 0 <= i < 12 ==> is_nanoid_safe_char(#[trigger] s[i])
}

/// A random user name: twelve characters of the URL-safe nanoid alphabet.
pub fn generate_username() -> (r: String)
    ensures
        is_username(r@),
{
    nanoid_safe(12)
}

} // verus!
