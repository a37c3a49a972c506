use vstd::prelude::*;
use vstd::string::*;

use crate::config::{is_relative_component, join_path, joined_path};
use crate::text::push_char;

verus! {

broadcast use vstd::string::group_string_axioms;

/// The application id under which notifications are shown.
pub const APP_USER_MODEL_ID: &'static str = "YHB.StandAwhile";

/// The file name of the Start menu shortcut that carries the application id.
pub const SHORTCUT_NAME: &'static str = "Stand Awhile.lnk";

/// The Start menu shortcut in the user's Programs folder.
pub fn shortcut_path(programs_dir: &str) -> (path: String)
    ensures
        path@ == joined_path(programs_dir@, SHORTCUT_NAME@),
{
    proof {
        reveal_strlit("Stand Awhile.lnk");
        assert(is_relative_component(SHORTCUT_NAME@));
    }
    join_path(programs_dir, SHORTCUT_NAME)
}

/// What one character becomes in XML text: the five characters with a
/// meaning in XML become their entity, every other character stays.
pub open spec fn escape_char(c: char) -> Seq<char> {
    if c == '&' {
        seq!['&', 'a', 'm', 'p', ';']
    } else if c == '<' {
        seq!['&', 'l', 't', ';']
    } else if c == '>' {
        seq!['&', 'g', 't', ';']
    } else if c == '"' {
        seq!['&', 'q', 'u', 'o', 't', ';']
    } else if c == '\'' {
        seq!['&', 'a', 'p', 'o', 's', ';']
    } else {
        seq![c]
    }
}

/// A text with every character escaped for XML, in order.
pub open spec fn escaped_xml(s: Seq<char>) -> Seq<char>
    decreases s.len(),
{
    if s.len() == 0 {
        Seq::empty()
    } else {
        escaped_xml(s.drop_last()) + escape_char(s.last())
    }
}

/// Escapes a text for use inside an XML element or attribute.
pub fn escape_xml(value: &str) -> (escaped: String)
    ensures
        escaped@ == escaped_xml(value@),
{
    let mut escaped = String::new();
    for ch in it: value.chars()
        invariant
            it.seq() == value@,
            escaped@ == escaped_xml(value@.take(it.index())),
    {
        proof {
            reveal_strlit("&amp;");
            reveal_strlit("&lt;");
            reveal_strlit("&gt;");
            reveal_strlit("&quot;");
            reveal_strlit("&apos;");
            let next = value@.take(it.index() + 1);
            assert(next.drop_last() =~= value@.take(it.index()));
            assert(next.last() == ch);
        }
        match ch {
            '&' => escaped.append("&amp;"),
            '<' => escaped.append("&lt;"),
            '>' => escaped.append("&gt;"),
            '"' => escaped.append("&quot;"),
            '\'' => escaped.append("&apos;"),
            _ => push_char(&mut escaped, ch),
        }
    }
    assert(value@.take(value@.len() as int) =~= value@);
    escaped
}

/// Whether a character has a meaning in XML markup, apart from `&`.
pub open spec fn is_markup_char(c: char) -> bool {
    c == '<' || c == '>' || c == '"' || c == '\''
}

/// Escaped text holds none of `<`, `>`, `"` and `'`: whatever the title and
/// message, they cannot break out of the `<text>` elements of a notification.
pub proof fn lemma_escaped_xml_has_no_markup(s: Seq<char>)
    ensures
        forall|i: int| 0 <= i < escaped_xml(s).len() ==> !is_markup_char(#[trigger] escaped_xml(s)[i]),
    decreases s.len(),
{
    if s.len() > 0 {
        lemma_escaped_xml_has_no_markup(s.drop_last());
        let prefix = escaped_xml(s.drop_last());
        let tail = escape_char(s.last());
        assert(forall|j: int| 0 <= j < tail.len() ==> !is_markup_char(#[trigger] tail[j]));
        assert forall|i: int| 0 <= i < escaped_xml(s).len() implies !is_markup_char(
            #[trigger] escaped_xml(s)[i],
        ) by {
            if i < prefix.len() {
                assert(escaped_xml(s)[i] == prefix[i]);
            } else {
                assert(escaped_xml(s)[i] == tail[i - prefix.len()]);
            }
        }
    }
}

/// Escaping text that holds none of the five special characters leaves it as it is.
pub proof fn lemma_escaped_xml_keeps_plain_text(s: Seq<char>)
    requires
        forall|i: int| 0 <= i < s.len() ==> !is_markup_char(#[trigger] s[i]) && s[i] != '&',
    ensures
        escaped_xml(s) == s,
    decreases s.len(),
{
    if s.len() > 0 {
        lemma_escaped_xml_keeps_plain_text(s.drop_last());
        assert(s.drop_last().push(s.last()) =~= s);
    }
}

/// Reading XML text back: each of the five entities `&amp;`, `&lt;`, `&gt;`,
/// `&quot;` and `&apos;` becomes its character, scanning once from the left;
/// every other character stays.
pub open spec fn xml_unescape(t: Seq<char>) -> Seq<char>
    decreases t.len(),
{
    if t.len() == 0 {
        Seq::empty()
    } else if escape_char('&').is_prefix_of(t) {
        seq!['&'] + xml_unescape(t.skip(5))
    } else if escape_char('<').is_prefix_of(t) {
        seq!['<'] + xml_unescape(t.skip(4))
    } else if escape_char('>').is_prefix_of(t) {
        seq!['>'] + xml_unescape(t.skip(4))
    } else if escape_char('"').is_prefix_of(t) {
        seq!['"'] + xml_unescape(t.skip(6))
    } else if escape_char('\'').is_prefix_of(t) {
        seq!['\''] + xml_unescape(t.skip(6))
    } else {
        seq![t[0]] + xml_unescape(t.skip(1))
    }
}

/// Escaping distributes over concatenation.
pub proof fn lemma_escaped_xml_concat(a: Seq<char>, b: Seq<char>)
    ensures
        escaped_xml(a + b) == escaped_xml(a) + escaped_xml(b),
    decreases b.len(),
{
    if b.len() == 0 {
        assert(a + b =~= a);
        assert(escaped_xml(a) + escaped_xml(b) =~= escaped_xml(a));
    } else {
        lemma_escaped_xml_concat(a, b.drop_last());
        assert((a + b).drop_last() =~= a + b.drop_last());
        assert((a + b).last() == b.last());
        assert(escaped_xml(a) + escaped_xml(b.drop_last()) + escape_char(b.last()) =~= escaped_xml(
            a,
        ) + (escaped_xml(b.drop_last()) + escape_char(b.last())));
    }
}

/// Unescaping the escape of one character, followed by anything, gives that
/// character back first.
proof fn lemma_unescape_escaped_char(c: char, t: Seq<char>)
    ensures
        xml_unescape(escape_char(c) + t) == seq![c] + xml_unescape(t),
{
    let u = escape_char(c) + t;
    let e = escape_char(c);
    assert(u.skip(e.len() as int) =~= t);
    assert(u.subrange(0, e.len() as int) =~= e);
    assert(u[0] == e[0]);
    if c == '&' {
    } else if c == '<' {
        assert(u[1] == 'l');
        assert(!(escape_char('&').is_prefix_of(u))) by {
            if escape_char('&').is_prefix_of(u) {
                assert(u.subrange(0, 5)[1] == u[1]);
            }
        }
    } else if c == '>' {
        assert(u[1] == 'g');
        assert(!(escape_char('&').is_prefix_of(u))) by {
            if escape_char('&').is_prefix_of(u) {
                assert(u.subrange(0, 5)[1] == u[1]);
            }
        }
        assert(!(escape_char('<').is_prefix_of(u))) by {
            if escape_char('<').is_prefix_of(u) {
                assert(u.subrange(0, 4)[1] == u[1]);
            }
        }
    } else if c == '"' {
        assert(u[1] == 'q');
        assert(!(escape_char('&').is_prefix_of(u))) by {
            if escape_char('&').is_prefix_of(u) {
                assert(u.subrange(0, 5)[1] == u[1]);
            }
        }
        assert(!(escape_char('<').is_prefix_of(u))) by {
            if escape_char('<').is_prefix_of(u) {
                assert(u.subrange(0, 4)[1] == u[1]);
            }
        }
        assert(!(escape_char('>').is_prefix_of(u))) by {
            if escape_char('>').is_prefix_of(u) {
                assert(u.subrange(0, 4)[1] == u[1]);
            }
        }
    } else if c == '\'' {
        assert(u[1] == 'a' && u[2] == 'p');
        assert(!(escape_char('&').is_prefix_of(u))) by {
            if escape_char('&').is_prefix_of(u) {
                assert(u.subrange(0, 5)[2] == u[2]);
            }
        }
        assert(!(escape_char('<').is_prefix_of(u))) by {
            if escape_char('<').is_prefix_of(u) {
                assert(u.subrange(0, 4)[1] == u[1]);
            }
        }
        assert(!(escape_char('>').is_prefix_of(u))) by {
            if escape_char('>').is_prefix_of(u) {
                assert(u.subrange(0, 4)[1] == u[1]);
            }
        }
        assert(!(escape_char('"').is_prefix_of(u))) by {
            if escape_char('"').is_prefix_of(u) {
                assert(u.subrange(0, 6)[1] == u[1]);
            }
        }
    } else {
        assert(u[0] == c && c != '&');
        assert(!(escape_char('&').is_prefix_of(u))) by {
            if escape_char('&').is_prefix_of(u) {
                assert(u.subrange(0, 5)[0] == u[0]);
            }
        }
        assert(!(escape_char('<').is_prefix_of(u))) by {
            if escape_char('<').is_prefix_of(u) {
                assert(u.subrange(0, 4)[0] == u[0]);
            }
        }
        assert(!(escape_char('>').is_prefix_of(u))) by {
            if escape_char('>').is_prefix_of(u) {
                assert(u.subrange(0, 4)[0] == u[0]);
            }
        }
        assert(!(escape_char('"').is_prefix_of(u))) by {
            if escape_char('"').is_prefix_of(u) {
                assert(u.subrange(0, 6)[0] == u[0]);
            }
        }
        assert(!(escape_char('\'').is_prefix_of(u))) by {
            if escape_char('\'').is_prefix_of(u) {
                assert(u.subrange(0, 6)[0] == u[0]);
            }
        }
    }
}

/// Escaping a text for XML and reading it back gives the text unchanged:
/// nothing is lost or altered by escaping.
pub proof fn lemma_unescape_escaped_xml(s: Seq<char>)
    ensures
        xml_unescape(escaped_xml(s)) == s,
    decreases s.len(),
{
    if s.len() > 0 {
        let rest = s.drop_first();
        assert(s =~= seq![s[0]] + rest);
        lemma_escaped_xml_concat(seq![s[0]], rest);
        let one = seq![s[0]];
        assert(one.drop_last() =~= Seq::<char>::empty());
        assert(escaped_xml(one.drop_last()) =~= Seq::<char>::empty());
        assert(one.last() == s[0]);
        assert(escaped_xml(one) =~= escape_char(s[0]));
        lemma_unescape_escaped_char(s[0], escaped_xml(rest));
        lemma_unescape_escaped_xml(rest);
    }
}

/// The notification document: a generic toast with the escaped title and
/// message as its two lines of text.
pub open spec fn toast_xml(title: Seq<char>, message: Seq<char>) -> Seq<char> {
    "<toast><visual><binding template=\"ToastGeneric\"><text>"@ + escaped_xml(title)
        + "</text><text>"@ + escaped_xml(message) + "</text></binding></visual></toast>"@
}

/// The XML document of a notification with a title and a message.
pub fn build_toast_xml(title: &str, message: &str) -> (xml: String)
    ensures
        xml@ == toast_xml(title@, message@),
{
    let escaped_title = escape_xml(title);
    let escaped_message = escape_xml(message);
    let mut xml = String::from_str("<toast><visual><binding template=\"ToastGeneric\"><text>");
    xml.append(escaped_title.as_str());
    xml.append("</text><text>");
    xml.append(escaped_message.as_str());
    xml.append("</text></binding></visual></toast>");
    xml
}

} // verus!
