//! Character-level string helpers.

use vstd::prelude::*;

verus! {

/// Longest title, in characters, that a menu row shows unshortened.
pub const MAX_TITLE_LENGTH: usize = 30;

/// Whether two strings hold the same characters.
pub fn str_eq(a: &str, b: &str) -> (r: bool)
    ensures
        r == (a@ == b@),
{
    let n = a.unicode_len();
    if n != b.unicode_len() {
        return false;
    }
    let mut i: usize = 0;
    while i < n
        invariant
            n == a@.len(),
            n == b@.len(),
            i <= n,
            a@.subrange(0, i as int) == b@.subrange(0, i as int),
        decreases n - i,
    {
        if a.get_char(i) != b.get_char(i) {
            return false;
        }
        assert(a@.subrange(0, i + 1) == a@.subrange(0, i as int).push(a@[i as int]));
        assert(b@.subrange(0, i + 1) == b@.subrange(0, i as int).push(b@[i as int]));
        i = i + 1;
    }
    assert(a@ == a@.subrange(0, n as int));
    assert(b@ == b@.subrange(0, n as int));
    true
}

/// The title shortened to `MAX_TITLE_LENGTH` characters: a longer one keeps
/// its first `MAX_TITLE_LENGTH - 1` characters followed by an ellipsis.
pub open spec fn truncated(title: Seq<char>) -> Seq<char> {
    if title.len() <= MAX_TITLE_LENGTH {
        title
    } else {
        title.subrange(0, MAX_TITLE_LENGTH - 1).push('\u{2026}')
    }
}

/// Shortens a title for display in a menu row, counting characters.
pub fn truncate_title(title: &str) -> (r: String)
    ensures
        r@ == truncated(title@),
{
    let n = title.unicode_len();
    if n <= MAX_TITLE_LENGTH {
        String::from_str(title)
    } else {
        let head = title.substring_char(0, MAX_TITLE_LENGTH - 1);
        let mut r = String::from_str(head);
        r.append("\u{2026}");
        proof {
            reveal_strlit("\u{2026}");
        }
        r
    }
}

/// The rest of `s` after `prefix`, where `s` starts with it.
pub fn strip_prefix(s: &str, prefix: &str) -> (r: Option<String>)
    ensures
        match r {
            Some(rest) => s@ == prefix@ + rest@,
            None => !(prefix@.len() <= s@.len() && s@.subrange(0, prefix@.len() as int) == prefix@),
        },
{
    let n = s.unicode_len();
    let m = prefix.unicode_len();
    if m > n {
        return None;
    }
    if !str_eq(s.substring_char(0, m), prefix) {
        return None;
    }
    let rest = String::from_str(s.substring_char(m, n));
    assert(s@ =~= prefix@ + rest@);
    Some(rest)
}

/// `a` followed by `b`.
pub fn concat(a: &str, b: &str) -> (r: String)
    ensures
        r@ == a@ + b@,
{
    let mut r = String::from_str(a);
    r.append(b);
    r
}

/// A title of exactly `MAX_TITLE_LENGTH` characters is kept; one a character
/// longer keeps its first `MAX_TITLE_LENGTH - 1` characters and gains an
/// ellipsis; any shortened title is a prefix of the title's characters
/// followed by the ellipsis, so no character is split.
pub proof fn lemma_truncation(title: Seq<char>)
    ensures
        title.len() == MAX_TITLE_LENGTH ==> truncated(title) == title,
        title.len() == MAX_TITLE_LENGTH + 1 ==> truncated(title).len() == MAX_TITLE_LENGTH
            && truncated(title).take(MAX_TITLE_LENGTH - 1) == title.take(MAX_TITLE_LENGTH - 1)
            && truncated(title).last() == '\u{2026}',
        truncated(title).len() <= MAX_TITLE_LENGTH,
        title.len() > MAX_TITLE_LENGTH ==> truncated(title) == title.take(MAX_TITLE_LENGTH - 1).push(
            '\u{2026}',
        ),
{
    if title.len() > MAX_TITLE_LENGTH {
        assert(truncated(title).take(MAX_TITLE_LENGTH - 1) =~= title.take(MAX_TITLE_LENGTH - 1));
    }
}

} // verus!
