//! Per-platform syntax rules for handles. Pure: no request is made here.
use vstd::prelude::*;
use vstd::utf8::encode_utf8;
use crate::text::{alphabetic, alphanumeric, chars_of, contains, has_substring, is_alphabetic, is_alphanumeric, same_text};

verus! {

broadcast use vstd::string::group_string_axioms;

/// Length of a handle in UTF-8 bytes, the unit the length limits are given in.
pub open spec fn byte_len(h: Seq<char>) -> int {
    encode_utf8(h).len() as int
}

pub open spec fn instagram_char(c: char) -> bool {
    alphanumeric(c) || c == '.' || c == '_'
}

pub open spec fn youtube_char(c: char) -> bool {
    alphanumeric(c) || c == '-' || c == '_'
}

pub open spec fn tiktok_char(c: char) -> bool {
    alphanumeric(c) || c == '_' || c == '.'
}

/// Instagram: 1 to 30 bytes of letters, digits, `.` and `_`; no `.` at either
/// end and no `..`.
pub open spec fn instagram_handle_ok(h: Seq<char>) -> bool {
    &&& h.len() > 0
    &&& byte_len(h) <= 30
    &&& h[0] != '.'
    &&& h.last() != '.'
    &&& !has_substring(h, seq!['.', '.'])
    &&& forall|i: int| 0 <= i < h.len() ==> instagram_char(#[trigger] h[i])
}

/// YouTube: 3 to 20 bytes of letters, digits, `-` and `_`; neither `-` nor `_`
/// at either end.
pub open spec fn youtube_handle_ok(h: Seq<char>) -> bool {
    &&& 3 <= byte_len(h) <= 20
    &&& h[0] != '-' && h[0] != '_'
    &&& h.last() != '-' && h.last() != '_'
    &&& forall|i: int| 0 <= i < h.len() ==> youtube_char(#[trigger] h[i])
}

/// TikTok: 1 to 24 bytes of letters, digits, `_` and `.`, starting with a
/// letter; no `__`.
pub open spec fn tiktok_handle_ok(h: Seq<char>) -> bool {
    &&& h.len() > 0
    &&& byte_len(h) <= 24
    &&& alphabetic(h[0])
    &&& !has_substring(h, seq!['_', '_'])
    &&& forall|i: int| 0 <= i < h.len() ==> tiktok_char(#[trigger] h[i])
}

/// The rule of the platform named `platform`; a platform without rules of its
/// own accepts every handle.
pub open spec fn handle_ok_for(platform: Seq<char>, h: Seq<char>) -> bool {
    if platform == "instagram"@ {
        instagram_handle_ok(h)
    } else if platform == "youtube"@ {
        youtube_handle_ok(h)
    } else if platform == "tiktok"@ {
        tiktok_handle_ok(h)
    } else {
        true
    }
}

proof fn lemma_empty_has_no_bytes(h: Seq<char>)
    requires
        h.len() == 0,
    ensures
        byte_len(h) == 0,
{
}

/// The platforms with a character set of their own.
#[derive(Clone, Copy, PartialEq, Eq, Structural)]
enum CharSet {
    Instagram,
    YouTube,
    TikTok,
}

spec fn class_char(set: CharSet, c: char) -> bool {
    match set {
        CharSet::Instagram => instagram_char(c),
        CharSet::YouTube => youtube_char(c),
        CharSet::TikTok => tiktok_char(c),
    }
}

/// Whether every character of `v` is in the character set `set`.
fn all_chars_in_class(v: &Vec<char>, set: CharSet) -> (r: bool)
    ensures
        r == (forall|i: int| 0 <= i < v@.len() ==> class_char(set, #[trigger] v@[i])),
{
    let mut i: usize = 0;
    while i < v.len()
        invariant
            i <= v.len(),
            forall|j: int| 0 <= j < i ==> class_char(set, #[trigger] v@[j]),
        decreases v.len() - i,
    {
        let c = v[i];
        let alnum = is_alphanumeric(c);
        let ok = match set {
            CharSet::Instagram => alnum || c == '.' || c == '_',
            CharSet::YouTube => alnum || c == '-' || c == '_',
            CharSet::TikTok => alnum || c == '_' || c == '.',
        };
        if !ok {
            assert(!class_char(set, v@[i as int]));
            return false;
        }
        i = i + 1;
    }
    true
}

/// Checks a handle against Instagram's rules.
pub fn validate_instagram_username(username: &str) -> (r: Result<(), ()>)
    ensures
        r is Ok <==> instagram_handle_ok(username@),
{
    if username.is_empty() || username.as_bytes().len() > 30 {
        return Err(());
    }
    let v = chars_of(username);
    if v[0] == '.' || v[v.len() - 1] == '.' {
        return Err(());
    }
    proof {
        reveal_strlit("..");
        assert(".."@ =~= seq!['.', '.']);
    }
    if contains(username, "..") {
        return Err(());
    }
    if !all_chars_in_class(&v, CharSet::Instagram) {
        proof {
            let i = choose|i: int| 0 <= i < v@.len() && !class_char(CharSet::Instagram, #[trigger] v@[i]);
            assert(!instagram_char(username@[i]));
        }
        return Err(());
    }
    assert forall|i: int| 0 <= i < username@.len() implies instagram_char(#[trigger] username@[i]) by {
        assert(class_char(CharSet::Instagram, v@[i]));
    }
    Ok(())
}

/// Checks a handle against YouTube's rules.
pub fn validate_youtube_username(username: &str) -> (r: Result<(), ()>)
    ensures
        r is Ok <==> youtube_handle_ok(username@),
{
    if username.as_bytes().len() < 3 || username.as_bytes().len() > 20 {
        return Err(());
    }
    let v = chars_of(username);
    proof {
        if v@.len() == 0 {
            lemma_empty_has_no_bytes(username@);
        }
    }
    let first = v[0];
    let last = v[v.len() - 1];
    if first == '-' || first == '_' || last == '-' || last == '_' {
        return Err(());
    }
    if !all_chars_in_class(&v, CharSet::YouTube) {
        proof {
            let i = choose|i: int| 0 <= i < v@.len() && !class_char(CharSet::YouTube, #[trigger] v@[i]);
            assert(!youtube_char(username@[i]));
        }
        return Err(());
    }
    assert forall|i: int| 0 <= i < username@.len() implies youtube_char(#[trigger] username@[i]) by {
        assert(class_char(CharSet::YouTube, v@[i]));
    }
    Ok(())
}

/// Checks a handle against TikTok's rules.
pub fn validate_tiktok_username(username: &str) -> (r: Result<(), ()>)
    ensures
        r is Ok <==> tiktok_handle_ok(username@),
{
    if username.is_empty() || username.as_bytes().len() > 24 {
        return Err(());
    }
    let v = chars_of(username);
    if !is_alphabetic(v[0]) {
        return Err(());
    }
    proof {
        reveal_strlit("__");
        assert("__"@ =~= seq!['_', '_']);
    }
    if contains(username, "__") {
        return Err(());
    }
    if !all_chars_in_class(&v, CharSet::TikTok) {
        proof {
            let i = choose|i: int| 0 <= i < v@.len() && !class_char(CharSet::TikTok, #[trigger] v@[i]);
            assert(!tiktok_char(username@[i]));
        }
        return Err(());
    }
    assert forall|i: int| 0 <= i < username@.len() implies tiktok_char(#[trigger] username@[i]) by {
        assert(class_char(CharSet::TikTok, v@[i]));
    }
    Ok(())
}

/// Checks a handle against the rules of the platform named `platform`
/// (`"instagram"`, `"youtube"` or `"tiktok"`); any other name accepts it.
pub fn validate_for_platform(platform: &str, username: &str) -> (r: Result<(), ()>)
    ensures
        r is Ok <==> handle_ok_for(platform@, username@),
{
    if same_text(platform, "instagram") {
        validate_instagram_username(username)
    } else if same_text(platform, "youtube") {
        validate_youtube_username(username)
    } else if same_text(platform, "tiktok") {
        validate_tiktok_username(username)
    } else {
        Ok(())
    }
}

/// Validation is a function of the platform and the handle alone: the same
/// pair always gets the same answer.
pub proof fn validation_is_deterministic(
    platform: Seq<char>,
    handle: Seq<char>,
    platform_again: Seq<char>,
    handle_again: Seq<char>,
)
    requires
        platform == platform_again,
        handle == handle_again,
    ensures
        handle_ok_for(platform, handle) == handle_ok_for(platform_again, handle_again),
{
}

} // verus!
