use vstd::prelude::*;

verus! {

broadcast use vstd::string::group_string_axioms;

/// The UTF-16 code units of a character: one unit below U+10000, a surrogate
/// pair from there on.
pub open spec fn utf16_units(c: char) -> Seq<u16> {
    let v = c as int;
    if v < 0x10000 {
        seq![v as u16]
    } else {
        let u = v - 0x10000;
        seq![(0xD800 + u / 1024) as u16, (0xDC00 + u % 1024) as u16]
    }
}

/// The UTF-16 encoding of a text.
pub open spec fn utf16_of(s: Seq<char>) -> Seq<u16>
    decreases s.len(),
{
    if s.len() == 0 {
        Seq::empty()
    } else {
        utf16_of(s.drop_last()) + utf16_units(s.last())
    }
}

fn push_utf16(units: &mut Vec<u16>, ch: char)
    ensures
        final(units)@ == old(units)@ + utf16_units(ch),
{
    let v: u32 = ch as u32;
    if v < 0x10000 {
        units.push(v as u16);
    } else {
        assert(v <= 0x10FFFF);
        let u: u32 = v - 0x10000;
        units.push((0xD800 + u / 1024) as u16);
        units.push((0xDC00 + u % 1024) as u16);
    }
}

/// The UTF-16 code units of a text, as the wide-character Windows functions
/// take them.
pub fn wide_text(value: &str) -> (units: Vec<u16>)
    ensures
        units@ == utf16_of(value@),
{
    let mut units: Vec<u16> = Vec::new();
    for ch in it: value.chars()
        invariant
            it.seq() == value@,
            units@ == utf16_of(value@.take(it.index())),
    {
        proof {
            let next = value@.take(it.index() + 1);
            assert(next.drop_last() =~= value@.take(it.index()));
            assert(next.last() == ch);
        }
        push_utf16(&mut units, ch);
    }
    assert(value@.take(value@.len() as int) =~= value@);
    units
}

/// The UTF-16 code units of a text followed by a terminating zero.
pub fn wide_null(value: &str) -> (units: Vec<u16>)
    ensures
        units@ == utf16_of(value@).push(0),
{
    let mut units = wide_text(value);
    units.push(0);
    units
}

/// The length of a text's UTF-16 encoding is at least its number of characters.
pub proof fn lemma_utf16_at_least_one_unit_per_char(s: Seq<char>)
    ensures
        utf16_of(s).len() >= s.len(),
        utf16_of(s).len() <= 2 * s.len(),
    decreases s.len(),
{
    if s.len() > 0 {
        lemma_utf16_at_least_one_unit_per_char(s.drop_last());
    }
}

/// A text without characters beyond U+FFFF has one code unit per character,
/// each equal to the character's code.
pub proof fn lemma_utf16_of_basic_plane(s: Seq<char>)
    requires
        forall|i: int| 0 <= i < s.len() ==> (#[trigger] s[i] as int) < 0x10000,
    ensures
        utf16_of(s).len() == s.len(),
        forall|i: int| 0 <= i < s.len() ==> #[trigger] utf16_of(s)[i] == s[i] as u16,
    decreases s.len(),
{
    if s.len() > 0 {
        lemma_utf16_of_basic_plane(s.drop_last());
        let prefix = s.drop_last();
        assert forall|i: int| 0 <= i < s.len() implies #[trigger] utf16_of(s)[i] == s[i] as u16 by {
            if i < prefix.len() {
                assert(utf16_of(s)[i] == utf16_of(prefix)[i]);
                assert(prefix[i] == s[i]);
            }
        }
    }
}

/// The length of the copied text when `value` goes into a buffer of `n`
/// units: as much as fits before the terminating zero.
pub open spec fn copied_len(value: Seq<char>, n: int) -> int {
    let units = utf16_of(value).len() as int;
    if units <= n - 1 {
        units
    } else {
        n - 1
    }
}

/// Copies a text into a fixed buffer of UTF-16 units, cut to fit, and ends it
/// with a zero; the units after the zero are left as they were.
pub fn copy_wide_text<const N: usize>(value: &str, target: &mut [u16; N])
    requires
        N > 0,
    ensures
        ({
            let len = copied_len(value@, N as int);
            &&& final(target)@.len() == N
            &&& forall|i: int| 0 <= i < len ==> #[trigger] final(target)@[i] == utf16_of(value@)[i]
            &&& final(target)@[len] == 0
            &&& forall|i: int| len < i < N ==> #[trigger] final(target)@[i] == old(target)@[i]
        }),
{
    let wide_text = wide_null(value);
    let units_len = wide_text.len() - 1;
    let room = N - 1;
    let len = if units_len <= room {
        units_len
    } else {
        room
    };
    let mut i: usize = 0;
    while i < len
        invariant
            0 <= i <= len,
            len == copied_len(value@, N as int),
            len < N,
            wide_text@ == utf16_of(value@).push(0),
            target@.len() == N,
            forall|j: int| 0 <= j < i ==> #[trigger] target@[j] == utf16_of(value@)[j],
            forall|j: int| i <= j < N ==> #[trigger] target@[j] == old(target)@[j],
        decreases len - i,
    {
        target[i] = wide_text[i];
        i = i + 1;
    }
    target[len] = 0;
}

} // verus!
