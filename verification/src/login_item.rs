//! `LaunchAgent` plist generation for "Open at Login".
//!
//! This module only builds the plist's text and its location. Whether the login item is on is
//! whether that file exists, which the application checks, writes and removes.
use vstd::prelude::*;

use crate::text::{chars_of, push_char};

verus! {

/// Reverse-DNS bundle identifier, used as both the plist's file name and its `Label`.
pub const BUNDLE_ID: &'static str = "com.beeraw.urahafu";

/// The plist text before the label.
pub const PLIST_HEAD: &'static str = "<?xml version=\"1.0\" encoding=\"UTF-8\"?>\n<!DOCTYPE plist PUBLIC \"-//Apple//DTD PLIST 1.0//EN\" \"http://www.apple.com/DTDs/PropertyList-1.0.dtd\">\n<plist version=\"1.0\">\n<dict>\n    <key>Label</key>\n    <string>";
/// The plist text between the label and the executable path.
pub const PLIST_MIDDLE: &'static str = "</string>\n    <key>ProgramArguments</key>\n    <array>\n        <string>";
/// The plist text after the executable path.
pub const PLIST_TAIL: &'static str = "</string>\n    </array>\n    <key>RunAtLoad</key>\n    <true/>\n</dict>\n</plist>\n";

/// A character as XML text: the five special characters as entities, anything else as itself.
pub open spec fn escape_char(c: char) -> Seq<char> {
    if c == '&' {
        seq!['&', 'a', 'm', 'p', ';']
    } else if c == '<' {
        seq!['&', 'l', 't', ';']
    } else if c == '>' {
        seq!['&', 'g', 't', ';']
    } else if c == '"' {
        seq!['&', 'q', 'u', 'o', 't', ';']
    } else if c == '\'' {
        seq!['&', 'a', 'p', 'o', 's', ';']
    } else {
        seq![c]
    }
}

/// `s` as XML text, character by character.
pub open spec fn escape_spec(s: Seq<char>) -> Seq<char>
    decreases s.len(),
{
    if s.len() == 0 {
        Seq::empty()
    } else {
        escape_spec(s.drop_last()) + escape_char(s.last())
    }
}

/// Whether `c` may not stand bare in XML text or in an attribute value: `<`, `>`, `"` or `'`
/// (`&` may, as the start of an entity).
pub open spec fn is_markup_char(c: char) -> bool {
    c == '<' || c == '>' || c == '"' || c == '\''
}

/// XML text read back in one left-to-right pass: each of the five entities `&amp;`, `&lt;`,
/// `&gt;`, `&quot;` and `&apos;` becomes its character; every other character stands for itself.
pub open spec fn unescape_spec(t: Seq<char>) -> Seq<char>
    decreases t.len(),
{
    if t.len() == 0 {
        Seq::empty()
    } else if t.len() >= 5 && t[0] == '&' && t[1] == 'a' && t[2] == 'm' && t[3] == 'p' && t[4]
        == ';' {
        seq!['&'] + unescape_spec(t.skip(5))
    } else if t.len() >= 4 && t[0] == '&' && t[1] == 'l' && t[2] == 't' && t[3] == ';' {
        seq!['<'] + unescape_spec(t.skip(4))
    } else if t.len() >= 4 && t[0] == '&' && t[1] == 'g' && t[2] == 't' && t[3] == ';' {
        seq!['>'] + unescape_spec(t.skip(4))
    } else if t.len() >= 6 && t[0] == '&' && t[1] == 'q' && t[2] == 'u' && t[3] == 'o' && t[4]
        == 't' && t[5] == ';' {
        seq!['"'] + unescape_spec(t.skip(6))
    } else if t.len() >= 6 && t[0] == '&' && t[1] == 'a' && t[2] == 'p' && t[3] == 'o' && t[4]
        == 's' && t[5] == ';' {
        seq!['\''] + unescape_spec(t.skip(6))
    } else {
        seq![t[0]] + unescape_spec(t.skip(1))
    }
}

/// Escaping distributes over concatenation.
proof fn lemma_escape_concat(a: Seq<char>, b: Seq<char>)
    ensures
        escape_spec(a + b) == escape_spec(a) + escape_spec(b),
    decreases b.len(),
{
    if b.len() == 0 {
        assert(a + b =~= a);
        assert(escape_spec(a) + escape_spec(b) =~= escape_spec(a));
    } else {
        lemma_escape_concat(a, b.drop_last());
        assert((a + b).drop_last() =~= a + b.drop_last());
        assert((a + b).last() == b.last());
        assert(escape_spec(a + b) =~= escape_spec(a) + escape_spec(b));
    }
}

/// Reading back one escaped character, followed by any escaped text, gives that character
/// first.
proof fn lemma_unescape_char(c: char, rest: Seq<char>)
    ensures
        unescape_spec(escape_char(c) + rest) == seq![c] + unescape_spec(rest),
{
    let t = escape_char(c) + rest;
    let n = escape_char(c).len() as int;
    assert(t.skip(n) =~= rest);
}

/// The law of XML escaping: escaped text holds none of `<`, `>`, `"` and `'`, and reading it
/// back (see [`unescape_spec`]) gives the original text.
pub proof fn lemma_escape_round_trip(s: Seq<char>)
    ensures
        forall|i: int| 0 <= i < escape_spec(s).len() ==> !is_markup_char(#[trigger] escape_spec(s)[i]),
        unescape_spec(escape_spec(s)) == s,
    decreases s.len(),
{
    if s.len() == 0 {
        assert(unescape_spec(Seq::<char>::empty()) =~= s);
    } else {
        let rest = s.skip(1);
        lemma_escape_round_trip(rest);
        lemma_escape_round_trip(s.drop_last());
        assert(s =~= seq![s[0]] + rest);
        lemma_escape_concat(seq![s[0]], rest);
        let one = seq![s[0]];
        assert(one.drop_last() =~= Seq::<char>::empty());
        assert(escape_spec(one.drop_last()) =~= Seq::<char>::empty());
        assert(escape_spec(one) =~= escape_char(s[0]));
        lemma_unescape_char(s[0], escape_spec(rest));
        assert(unescape_spec(escape_spec(s)) =~= s);
        let e = escape_spec(s);
        let d = escape_spec(s.drop_last());
        assert forall|i: int| 0 <= i < e.len() implies !is_markup_char(#[trigger] e[i]) by {
            if i >= d.len() {
                assert(e[i] == escape_char(s.last())[i - d.len()]);
            } else {
                assert(e[i] == d[i]);
            }
        }
    }
}

/// Escapes the five XML special characters (`&`, `<`, `>`, `"`, `'`) for use in text content
/// or attribute values.
pub fn escape_xml(s: &str) -> (out: String)
    ensures
        out@ == escape_spec(s@),
{
    let chars = chars_of(s);
    let mut out = String::new();
    let mut i: usize = 0;
    while i < chars.len()
        invariant
            i <= chars@.len(),
            chars@ == s@,
            out@ == escape_spec(chars@.take(i as int)),
        decreases chars.len() - i,
    {
        let c = chars[i];
        proof {
            reveal_strlit("&amp;");
            reveal_strlit("&lt;");
            reveal_strlit("&gt;");
            reveal_strlit("&quot;");
            reveal_strlit("&apos;");
            assert(chars@.take(i + 1).drop_last() =~= chars@.take(i as int));
        }
        if c == '&' {
            out.append("&amp;");
        } else if c == '<' {
            out.append("&lt;");
        } else if c == '>' {
            out.append("&gt;");
        } else if c == '"' {
            out.append("&quot;");
        } else if c == '\'' {
            out.append("&apos;");
        } else {
            push_char(&mut out, c);
        }
        i += 1;
    }
    assert(chars@.take(chars@.len() as int) =~= chars@);
    out
}

/// Builds the `LaunchAgent` plist that launches `executable_path` at login: the bundle
/// identifier as `Label`, the path as the only program argument, `RunAtLoad` true (no
/// `KeepAlive`: the app may be quit at any time), both values XML-escaped.
pub fn launch_agent_plist(executable_path: &str) -> (plist: String)
    ensures
        plist@ == PLIST_HEAD@ + escape_spec(BUNDLE_ID@) + PLIST_MIDDLE@ + escape_spec(
            executable_path@,
        ) + PLIST_TAIL@,
{
    let mut out = String::from_str(PLIST_HEAD);
    let label = escape_xml(BUNDLE_ID);
    out.append(label.as_str());
    out.append(PLIST_MIDDLE);
    let exe = escape_xml(executable_path);
    out.append(exe.as_str());
    out.append(PLIST_TAIL);
    out
}

/// `base` joined with the relative or absolute path `rel`, as `Path::join` does it: an absolute
/// `rel` replaces `base`; otherwise a `/` separates them unless `base` is empty or already ends
/// with one.
pub open spec fn join_spec(base: Seq<char>, rel: Seq<char>) -> Seq<char> {
    if rel.len() > 0 && rel[0] == '/' {
        rel
    } else if base.len() == 0 || base.last() == '/' {
        base + rel
    } else {
        base + seq!['/'] + rel
    }
}

/// Joins two paths (see [`join_spec`]).
pub fn join_path(base: &str, rel: &str) -> (p: String)
    ensures
        p@ == join_spec(base@, rel@),
{
    let r = chars_of(rel);
    if r.len() > 0 && r[0] == '/' {
        return String::from_str(rel);
    }
    let b = chars_of(base);
    let mut out = String::from_str(base);
    if b.len() > 0 && b[b.len() - 1] != '/' {
        push_char(&mut out, '/');
    }
    out.append(rel);
    out
}

/// Where the login item's plist belongs, given the user's home directory:
/// `~/Library/LaunchAgents/<bundle id>.plist`.
pub fn launch_agent_path(home: &str) -> (p: String)
    ensures
        p@ == join_spec(
            join_spec(home@, "Library/LaunchAgents"@),
            BUNDLE_ID@ + ".plist"@,
        ),
{
    let dir = join_path(home, "Library/LaunchAgents");
    let mut file = String::from_str(BUNDLE_ID);
    file.append(".plist");
    join_path(dir.as_str(), file.as_str())
}

} // verus!
