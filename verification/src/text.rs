use vstd::prelude::*;
use vstd::string::*;

verus! {

broadcast use vstd::string::group_string_axioms;

/// Whether a character has the Unicode property White_Space, as
/// `char::is_whitespace` tests it: U+0009 to U+000D, U+0020, U+0085, U+00A0,
/// U+1680, U+2000 to U+200A, U+2028, U+2029, U+202F, U+205F and U+3000.
pub open spec fn is_white_space(c: char) -> bool {
    let v = c as u32;
    ||| 0x09 <= v <= 0x0D
    ||| v == 0x20
    ||| v == 0x85
    ||| v == 0xA0
    ||| v == 0x1680
    ||| 0x2000 <= v <= 0x200A
    ||| v == 0x2028
    ||| v == 0x2029
    ||| v == 0x202F
    ||| v == 0x205F
    ||| v == 0x3000
}

/// A string without its leading and trailing white space: white space is
/// taken off the front while there is some, then off the back.
pub open spec fn trimmed(s: Seq<char>) -> Seq<char>
    decreases s.len(),
{
    if s.len() == 0 {
        s
    } else if is_white_space(s[0]) {
        trimmed(s.drop_first())
    } else if is_white_space(s.last()) {
        trimmed(s.drop_last())
    } else {
        s
    }
}

/// A character with the ASCII upper-case letters mapped to lower case.
pub open spec fn ascii_lower_char(c: char) -> char {
    if 'A' <= c && c <= 'Z' {
        ((c as u32) + 32) as char
    } else {
        c
    }
}

/// A string with the ASCII upper-case letters mapped to lower case; every
/// other character is kept.
pub open spec fn ascii_lowercase(s: Seq<char>) -> Seq<char> {
    s.map_values(|c: char| ascii_lower_char(c))
}

/// Whether `prefix` is a prefix of `s`.
pub open spec fn has_prefix(s: Seq<char>, prefix: Seq<char>) -> bool {
    prefix.len() <= s.len() && s.subrange(0, prefix.len() as int) == prefix
}

/// A trimmed string has no white space at either end.
pub proof fn lemma_trimmed_has_no_outer_white_space(s: Seq<char>)
    ensures
        trimmed(s).len() > 0 ==> !is_white_space(trimmed(s)[0]) && !is_white_space(
            trimmed(s).last(),
        ),
        trimmed(s).len() <= s.len(),
    decreases s.len(),
{
    if s.len() > 0 {
        if is_white_space(s[0]) {
            lemma_trimmed_has_no_outer_white_space(s.drop_first());
        } else if is_white_space(s.last()) {
            lemma_trimmed_has_no_outer_white_space(s.drop_last());
        }
    }
}

/// Whether a character is white space, as `is_white_space` states it.
pub fn is_white_space_char(c: char) -> (white: bool)
    ensures
        white == is_white_space(c),
{
    let v: u32 = c as u32;
    (0x09 <= v && v <= 0x0D) || v == 0x20 || v == 0x85 || v == 0xA0 || v == 0x1680 || (0x2000 <= v
        && v <= 0x200A) || v == 0x2028 || v == 0x2029 || v == 0x202F || v == 0x205F || v == 0x3000
}

/// Leading white space can be taken off in one go.
proof fn lemma_trimmed_skips_leading(s: Seq<char>, k: int)
    requires
        0 <= k <= s.len(),
        forall|m: int| 0 <= m < k ==> is_white_space(#[trigger] s[m]),
    ensures
        trimmed(s) == trimmed(s.subrange(k, s.len() as int)),
    decreases k,
{
    if k > 0 {
        let rest = s.drop_first();
        assert forall|m: int| 0 <= m < k - 1 implies is_white_space(#[trigger] rest[m]) by {
            assert(rest[m] == s[m + 1]);
        }
        lemma_trimmed_skips_leading(rest, k - 1);
        assert(rest.subrange(k - 1, rest.len() as int) =~= s.subrange(k, s.len() as int));
    } else {
        assert(s.subrange(0, s.len() as int) =~= s);
    }
}

/// A text that starts with a character other than white space loses only
/// its trailing white space.
proof fn lemma_trimmed_drops_trailing(t: Seq<char>, k: int)
    requires
        0 <= k <= t.len(),
        t.len() > 0 ==> !is_white_space(t[0]),
        forall|m: int| k <= m < t.len() ==> is_white_space(#[trigger] t[m]),
        k > 0 ==> !is_white_space(t[k - 1]),
    ensures
        trimmed(t) == t.subrange(0, k),
    decreases t.len() - k,
{
    if t.len() == k {
        assert(t.subrange(0, k) =~= t);
        if k > 0 {
            assert(t.last() == t[k - 1]);
        }
    } else {
        assert(t.len() > 0);
        assert(k > 0) by {
            if k == 0 {
                assert(is_white_space(t[0]));
            }
        }
        assert(is_white_space(t[t.len() - 1]));
        let shorter = t.drop_last();
        assert forall|m: int| k <= m < shorter.len() implies is_white_space(#[trigger] shorter[m]) by {
            assert(shorter[m] == t[m]);
        }
        assert(shorter[0] == t[0]);
        assert(shorter[k - 1] == t[k - 1]);
        lemma_trimmed_drops_trailing(shorter, k);
        assert(shorter.subrange(0, k) =~= t.subrange(0, k));
    }
}

/// The text without its leading and trailing white space, as `str::trim`
/// gives it.
pub fn trim(s: &str) -> (r: &str)
    ensures
        r@ == trimmed(s@),
{
    let n = s.unicode_len();
    let mut i: usize = 0;
    while i < n && is_white_space_char(s.get_char(i))
        invariant
            n == s@.len(),
            i <= n,
            forall|m: int| 0 <= m < i ==> is_white_space(#[trigger] s@[m]),
        decreases n - i,
    {
        i = i + 1;
    }
    let mut j: usize = n;
    while j > i && is_white_space_char(s.get_char(j - 1))
        invariant
            n == s@.len(),
            i <= j <= n,
            forall|m: int| j <= m < n ==> is_white_space(#[trigger] s@[m]),
        decreases j,
    {
        j = j - 1;
    }
    proof {
        lemma_trimmed_skips_leading(s@, i as int);
        let t = s@.subrange(i as int, n as int);
        let k = j - i;
        assert forall|m: int| k <= m < t.len() implies is_white_space(#[trigger] t[m]) by {
            assert(t[m] == s@[m + i]);
        }
        if t.len() > 0 {
            assert(t[0] == s@[i as int]);
        }
        if k > 0 {
            assert(t[k - 1] == s@[j - 1]);
        }
        lemma_trimmed_drops_trailing(t, k as int);
        assert(t.subrange(0, k as int) =~= s@.subrange(i as int, j as int));
    }
    s.substring_char(i, j)
}

/// The character with an ASCII upper-case letter mapped to lower case.
pub fn to_ascii_lower_char(c: char) -> (lower: char)
    ensures
        lower == ascii_lower_char(c),
{
    if 'A' <= c && c <= 'Z' {
        let byte: u8 = c as u8;
        assert(byte == c as u32);
        (byte + 32) as char
    } else {
        c
    }
}

/// A copy of a string with the letters 'A' to 'Z' mapped to 'a' to 'z' and
/// every other character kept.
pub fn to_ascii_lowercase(s: &str) -> (r: String)
    ensures
        r@ == ascii_lowercase(s@),
{
    let mut lowered = String::new();
    for ch in it: s.chars()
        invariant
            it.seq() == s@,
            lowered@ == ascii_lowercase(s@.take(it.index())),
    {
        proof {
            assert(ascii_lowercase(s@.take(it.index() + 1)) =~= ascii_lowercase(s@.take(it.index())).push(
                ascii_lower_char(ch),
            ));
        }
        push_char(&mut lowered, to_ascii_lower_char(ch));
    }
    assert(s@.take(s@.len() as int) =~= s@);
    lowered
}

/// Whether two strings hold the same characters.
pub fn str_eq(a: &str, b: &str) -> (r: bool)
    ensures
        r == (a@ == b@),
{
    let n = a.unicode_len();
    if n != b.unicode_len() {
        return false;
    }
    let mut i: usize = 0;
    while i < n
        invariant
            n == a@.len(),
            n == b@.len(),
            0 <= i <= n,
            forall|j: int| 0 <= j < i ==> a@[j] == b@[j],
        decreases n - i,
    {
        if a.get_char(i) != b.get_char(i) {
            return false;
        }
        i = i + 1;
    }
    assert(a@ =~= b@);
    true
}

/// Whether `prefix` is a prefix of `s`.
pub fn starts_with(s: &str, prefix: &str) -> (r: bool)
    ensures
        r == has_prefix(s@, prefix@),
{
    let n = prefix.unicode_len();
    if n > s.unicode_len() {
        return false;
    }
    let mut i: usize = 0;
    while i < n
        invariant
            n == prefix@.len(),
            n <= s@.len(),
            0 <= i <= n,
            forall|j: int| 0 <= j < i ==> s@[j] == prefix@[j],
        decreases n - i,
    {
        if s.get_char(i) != prefix.get_char(i) {
            assert(s@.subrange(0, n as int)[i as int] != prefix@[i as int]);
            return false;
        }
        i = i + 1;
    }
    assert(s@.subrange(0, n as int) =~= prefix@);
    true
}

/// Calls `String::push`, which appends one character.
#[verifier::external_body]
pub(crate) fn push_char(s: &mut String, c: char)
    ensures
        final(s)@ == old(s)@.push(c),
{
    s.push(c)
}

} // verus!
