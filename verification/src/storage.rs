//! Uploads to the object store: the key a new upload is stored under.
use vstd::prelude::*;
use crate::outside::{is_uuid_text, uuid_v4_text};
use crate::strings::{push_char, push_str};

verus! {

/// The content type of the files clients upload.
pub const UPLOAD_CONTENT_TYPE: &'static str = "image/png";

/// How long a presigned upload URL stays valid, in seconds.
pub const PRESIGNED_URL_SECONDS: u64 = 60;

/// The part of `s` after its last `/` (all of `s` when it has none).
pub open spec fn last_segment(s: Seq<char>) -> Seq<char>
    decreases s.len(),
{
    if s.len() == 0 {
        s
    } else if s.last() == '/' {
        Seq::empty()
    } else {
        last_segment(s.drop_last()).push(s.last())
    }
}

/// The extension an upload of `content_type` gets: the subtype, after the last `/`.
pub fn content_extension(content_type: &str) -> (r: &str)
    ensures
        r@ == last_segment(content_type@),
{
    let n = content_type.unicode_len();
    let mut start = n;
    assert(content_type@.subrange(0, n as int) =~= content_type@);
    assert(last_segment(content_type@) + content_type@.subrange(n as int, n as int) =~= last_segment(content_type@));
    while start > 0 && content_type.get_char(start - 1) != '/'
        invariant
            n == content_type@.len(),
            start <= n,
            forall|i: int| start <= i < n ==> content_type@[i] != '/',
            last_segment(content_type@) == last_segment(content_type@.subrange(0, start as int)) + content_type@.subrange(start as int, n as int),
        decreases start,
    {
        let ghost prefix = content_type@.subrange(0, start as int);
        assert(prefix.drop_last() =~= content_type@.subrange(0, start - 1));
        assert(content_type@.subrange(start - 1, n as int) =~= seq![prefix.last()] + content_type@.subrange(start as int, n as int));
        assert(last_segment(prefix) == last_segment(prefix.drop_last()).push(prefix.last()));
        assert(last_segment(prefix.drop_last()).push(prefix.last()) + content_type@.subrange(start as int, n as int)
            =~= last_segment(prefix.drop_last()) + content_type@.subrange(start - 1, n as int));
        start = start - 1;
    }
    proof {
        let prefix = content_type@.subrange(0, start as int);
        if start > 0 {
            assert(prefix.last() == '/');
        }
        assert(last_segment(prefix) =~= Seq::<char>::empty());
        assert(Seq::<char>::empty() + content_type@.subrange(start as int, n as int) =~= content_type@.subrange(start as int, n as int));
    }
    content_type.substring_char(start, n)
}

/// The key a new upload of `content_type` is stored under: a fresh UUID, a dot and the
/// extension.
pub fn upload_key(content_type: &str) -> (r: String)
    ensures
        exists|id: Seq<char>| is_uuid_text(id) && r@ == id + seq!['.'] + last_segment(content_type@),
{
    let id = uuid_v4_text();
    let mut key = String::new();
    push_str(&mut key, id.as_str());
    push_char(&mut key, '.');
    push_str(&mut key, content_extension(content_type));
    assert(key@ =~= id@ + seq!['.'] + last_segment(content_type@));
    key
}

} // verus!
