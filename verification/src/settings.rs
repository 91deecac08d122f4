//! Persisted user settings.
//!
//! Stored as `key = value` lines. Parsing never fails: unknown keys are ignored, and an invalid
//! value for a known key leaves that key at its default, so a hand-edited or corrupted settings
//! file can never keep the app from starting. Reading and writing the file itself is the
//! application's business; this module turns its contents into [`Settings`] and back.
use vstd::prelude::*;

use crate::color::{color_from_setting, setting_str, CleaningColor};
use crate::failsafe::FailsafeDelay;
use crate::login_item::{join_path, join_spec};
use crate::text::{
    chars_of, decimal, find, find_char, parse_u64, parse_u64_spec, push_char, push_decimal,
    range_equals, trim, trim_bounds,
};

verus! {

/// The user-configurable settings.
#[derive(Debug, Clone, Copy, PartialEq, Eq, Structural)]
pub struct Settings {
    /// Cleaning screen color. Default: black.
    pub color: CleaningColor,
    /// Fail-safe auto-unlock delay. Default: 60 s.
    pub failsafe: FailsafeDelay,
    /// Whether keyboard-only mode is on. Default: off.
    pub keyboard_only: bool,
    /// Whether the menu bar icon shows. Default: on.
    pub show_menu_bar_icon: bool,
}

/// The defaults: black, 60 s, keyboard-only off, menu bar icon shown.
pub open spec fn default_settings() -> Settings {
    Settings {
        color: CleaningColor::Black,
        failsafe: FailsafeDelay::Seconds60,
        keyboard_only: false,
        show_menu_bar_icon: true,
    }
}

/// The key `color`.
pub open spec fn color_key() -> Seq<char> {
    seq!['c', 'o', 'l', 'o', 'r']
}

/// The key `failsafe_seconds`.
pub open spec fn failsafe_key() -> Seq<char> {
    seq!['f', 'a', 'i', 'l', 's', 'a', 'f', 'e', '_', 's', 'e', 'c', 'o', 'n', 'd', 's']
}

/// The key `keyboard_only`.
pub open spec fn keyboard_only_key() -> Seq<char> {
    seq!['k', 'e', 'y', 'b', 'o', 'a', 'r', 'd', '_', 'o', 'n', 'l', 'y']
}

/// The key `show_menu_bar_icon`.
pub open spec fn show_icon_key() -> Seq<char> {
    seq!['s', 'h', 'o', 'w', '_', 'm', 'e', 'n', 'u', '_', 'b', 'a', 'r', '_', 'i', 'c', 'o', 'n']
}

/// The spelling `true`.
pub open spec fn true_str() -> Seq<char> {
    seq!['t', 'r', 'u', 'e']
}

/// The spelling `false`.
pub open spec fn false_str() -> Seq<char> {
    seq!['f', 'a', 'l', 's', 'e']
}

/// A boolean setting: exactly `true` or `false`, nothing else.
pub open spec fn bool_from_setting(v: Seq<char>) -> Option<bool> {
    if v == true_str() {
        Some(true)
    } else if v == false_str() {
        Some(false)
    } else {
        None
    }
}

/// The spelling of a boolean setting.
pub open spec fn bool_str(b: bool) -> Seq<char> {
    if b { true_str() } else { false_str() }
}

/// `acc` after a `key = value` line: a known key with a valid value takes that value; anything
/// else leaves `acc` as it was.
pub open spec fn apply_setting(acc: Settings, key: Seq<char>, value: Seq<char>) -> Settings {
    if key == color_key() {
        match color_from_setting(value) {
            Some(c) => Settings { color: c, ..acc },
            None => acc,
        }
    } else if key == failsafe_key() {
        match parse_u64_spec(value) {
            Some(n) => match FailsafeDelay::spec_from_seconds(n as int) {
                Some(d) => Settings { failsafe: d, ..acc },
                None => acc,
            },
            None => acc,
        }
    } else if key == keyboard_only_key() {
        match bool_from_setting(value) {
            Some(b) => Settings { keyboard_only: b, ..acc },
            None => acc,
        }
    } else if key == show_icon_key() {
        match bool_from_setting(value) {
            Some(b) => Settings { show_menu_bar_icon: b, ..acc },
            None => acc,
        }
    } else {
        acc
    }
}

/// `acc` after one line: blank lines, comments (`#` first) and lines without `=` change
/// nothing; otherwise the key (before the first `=`) and the value (after it), both trimmed,
/// are applied.
pub open spec fn apply_line(acc: Settings, line: Seq<char>) -> Settings {
    let t = trim(line);
    if t.len() == 0 || t[0] == '#' {
        acc
    } else {
        match find(t, '=') {
            Some(k) => apply_setting(acc, trim(t.take(k)), trim(t.skip(k + 1))),
            None => acc,
        }
    }
}

/// `acc` after every line of `s` in order (lines end at `\n`; a `\r` before it is whitespace and
/// trimmed away with the rest).
pub open spec fn parse_from(s: Seq<char>, acc: Settings) -> Settings
    decreases s.len(),
{
    match find(s, '\n') {
        Some(k) => if 0 <= k < s.len() {
            parse_from(s.skip(k + 1), apply_line(acc, s.take(k)))
        } else {
            acc
        },
        None => apply_line(acc, s),
    }
}

/// The settings a file with contents `s` holds.
pub open spec fn parse_spec(s: Seq<char>) -> Settings {
    parse_from(s, default_settings())
}

/// One `key = value` line.
pub open spec fn setting_line(key: Seq<char>, value: Seq<char>) -> Seq<char> {
    key + seq![' ', '=', ' '] + value + seq!['\n']
}

/// The file contents that store `s`.
pub open spec fn serialize_spec(s: Settings) -> Seq<char> {
    setting_line(color_key(), setting_str(s.color)) + setting_line(
        failsafe_key(),
        decimal(s.failsafe.spec_seconds()),
    ) + setting_line(keyboard_only_key(), bool_str(s.keyboard_only)) + setting_line(
        show_icon_key(),
        bool_str(s.show_menu_bar_icon),
    )
}

impl Default for Settings {
    fn default() -> (s: Settings)
        ensures
            s == default_settings(),
    {
        Settings {
            color: CleaningColor::Black,
            failsafe: FailsafeDelay::Seconds60,
            keyboard_only: false,
            show_menu_bar_icon: true,
        }
    }
}

/// Parses `true` / `false`; anything else (other capitalizations included) is `None`.
pub fn parse_bool(value: &str) -> (b: Option<bool>)
    ensures
        b == bool_from_setting(value@),
{
    let v = chars_of(value);
    assert(v@.subrange(0, v@.len() as int) =~= v@);
    bool_in(&v, 0, v.len())
}

fn bool_in(s: &[char], from: usize, to: usize) -> (b: Option<bool>)
    requires
        from <= to <= s@.len(),
    ensures
        b == bool_from_setting(s@.subrange(from as int, to as int)),
{
    if range_equals(s, from, to, &['t', 'r', 'u', 'e']) {
        Some(true)
    } else if range_equals(s, from, to, &['f', 'a', 'l', 's', 'e']) {
        Some(false)
    } else {
        None
    }
}

fn color_in(s: &[char], from: usize, to: usize) -> (c: Option<CleaningColor>)
    requires
        from <= to <= s@.len(),
    ensures
        c == color_from_setting(s@.subrange(from as int, to as int)),
{
    if range_equals(s, from, to, &['b', 'l', 'a', 'c', 'k']) {
        Some(CleaningColor::Black)
    } else if range_equals(s, from, to, &['w', 'h', 'i', 't', 'e']) {
        Some(CleaningColor::White)
    } else {
        None
    }
}

fn apply_setting_exec(acc: Settings, s: &[char], k0: usize, k1: usize, v0: usize, v1: usize) -> (r: Settings)
    requires
        k0 <= k1 <= s@.len(),
        v0 <= v1 <= s@.len(),
    ensures
        r == apply_setting(
            acc,
            s@.subrange(k0 as int, k1 as int),
            s@.subrange(v0 as int, v1 as int),
        ),
{
    if range_equals(s, k0, k1, &['c', 'o', 'l', 'o', 'r']) {
        match color_in(s, v0, v1) {
            Some(c) => Settings { color: c, ..acc },
            None => acc,
        }
    } else if range_equals(
        s,
        k0,
        k1,
        &['f', 'a', 'i', 'l', 's', 'a', 'f', 'e', '_', 's', 'e', 'c', 'o', 'n', 'd', 's'],
    ) {
        match parse_u64(s, v0, v1) {
            Some(n) => match FailsafeDelay::from_seconds(n) {
                Some(d) => Settings { failsafe: d, ..acc },
                None => acc,
            },
            None => acc,
        }
    } else if range_equals(
        s,
        k0,
        k1,
        &['k', 'e', 'y', 'b', 'o', 'a', 'r', 'd', '_', 'o', 'n', 'l', 'y'],
    ) {
        match bool_in(s, v0, v1) {
            Some(b) => Settings { keyboard_only: b, ..acc },
            None => acc,
        }
    } else if range_equals(
        s,
        k0,
        k1,
        &['s', 'h', 'o', 'w', '_', 'm', 'e', 'n', 'u', '_', 'b', 'a', 'r', '_', 'i', 'c', 'o', 'n'],
    ) {
        match bool_in(s, v0, v1) {
            Some(b) => Settings { show_menu_bar_icon: b, ..acc },
            None => acc,
        }
    } else {
        acc
    }
}

fn apply_line_exec(acc: Settings, s: &[char], from: usize, to: usize) -> (r: Settings)
    requires
        from <= to <= s@.len(),
    ensures
        r == apply_line(acc, s@.subrange(from as int, to as int)),
{
    let ghost line = s@.subrange(from as int, to as int);
    let (lo, hi) = trim_bounds(s, from, to);
    let ghost t = s@.subrange(lo as int, hi as int);
    if lo == hi || s[lo] == '#' {
        return acc;
    }
    match find_char(s, lo, hi, '=') {
        Some(k) => {
            let (k0, k1) = trim_bounds(s, lo, lo + k);
            let (v0, v1) = trim_bounds(s, lo + k + 1, hi);
            proof {
                assert(t.take(k as int) =~= s@.subrange(lo as int, lo + k));
                assert(t.skip(k + 1) =~= s@.subrange(lo + k + 1, hi as int));
            }
            apply_setting_exec(acc, s, k0, k1, v0, v1)
        },
        None => acc,
    }
}

/// Directory (relative to the user's home) that holds the settings file.
pub const APP_SUPPORT_SUBPATH: &'static str = "Library/Application Support/Urahafu";
/// File name of the settings file within that directory.
pub const SETTINGS_FILE_NAME: &'static str = "settings.conf";

impl Settings {
    /// The settings file's path given the user's home directory:
    /// `~/Library/Application Support/Urahafu/settings.conf`.
    pub fn default_path(home: &str) -> (p: String)
        ensures
            p@ == join_spec(join_spec(home@, APP_SUPPORT_SUBPATH@), SETTINGS_FILE_NAME@),
    {
        let dir = join_path(home, APP_SUPPORT_SUBPATH);
        join_path(dir.as_str(), SETTINGS_FILE_NAME)
    }

    /// Parses settings from file contents; never fails (see [`parse_spec`]).
    pub fn parse(contents: &str) -> (s: Settings)
        ensures
            s == parse_spec(contents@),
    {
        let chars = chars_of(contents);
        let mut settings = Settings::default();
        let mut start: usize = 0;
        assert(chars@.skip(0) =~= chars@);
        loop
            invariant
                start <= chars@.len(),
                chars@ == contents@,
                parse_spec(contents@) == parse_from(chars@.skip(start as int), settings),
            decreases chars@.len() - start,
        {
            let ghost rest = chars@.skip(start as int);
            assert(rest =~= chars@.subrange(start as int, chars@.len() as int));
            match find_char(&chars, start, chars.len(), '\n') {
                Some(k) => {
                    proof {
                        assert(rest.take(k as int) =~= chars@.subrange(start as int, start + k));
                        assert(rest.skip(k + 1) =~= chars@.skip(start + k + 1));
                    }
                    settings = apply_line_exec(settings, &chars, start, start + k);
                    start = start + k + 1;
                },
                None => {
                    settings = apply_line_exec(settings, &chars, start, chars.len());
                    return settings;
                },
            }
        }
    }

    /// Serializes settings to the `key = value` file format, one line per setting.
    pub fn serialize(&self) -> (out: String)
        ensures
            out@ == serialize_spec(*self),
    {
        let mut out = String::new();
        append_key(&mut out, "color");
        out.append(self.color.as_setting_str());
        push_char(&mut out, '\n');
        append_key(&mut out, "failsafe_seconds");
        push_decimal(&mut out, self.failsafe.seconds());
        push_char(&mut out, '\n');
        append_key(&mut out, "keyboard_only");
        append_bool(&mut out, self.keyboard_only);
        push_char(&mut out, '\n');
        append_key(&mut out, "show_menu_bar_icon");
        append_bool(&mut out, self.show_menu_bar_icon);
        push_char(&mut out, '\n');
        proof {
            reveal_strlit("color");
            reveal_strlit("failsafe_seconds");
            reveal_strlit("keyboard_only");
            reveal_strlit("show_menu_bar_icon");
            assert(out@ =~= serialize_spec(*self));
        }
        out
    }
}

fn append_key(out: &mut String, key: &str)
    ensures
        final(out)@ == old(out)@ + key@ + seq![' ', '=', ' '],
{
    out.append(key);
    push_char(out, ' ');
    push_char(out, '=');
    push_char(out, ' ');
    proof {
        assert(final(out)@ =~= old(out)@ + key@ + seq![' ', '=', ' ']);
    }
}

fn append_bool(out: &mut String, b: bool)
    ensures
        final(out)@ == old(out)@ + bool_str(b),
{
    proof {
        reveal_strlit("true");
        reveal_strlit("false");
    }
    if b {
        out.append("true");
    } else {
        out.append("false");
    }
}

/// Whether `k` can be a key and `v` a value of a line that reads back as itself: both
/// non-empty, without whitespace or line breaks, the key without `=` and not starting with `#`.
pub open spec fn plain_pair(k: Seq<char>, v: Seq<char>) -> bool {
    &&& k.len() > 0 && v.len() > 0 && k[0] != '#'
    &&& forall|j: int| 0 <= j < k.len() ==> !crate::text::is_ws(#[trigger] k[j]) && k[j] != '='
        && k[j] != '\n'
    &&& forall|j: int| 0 <= j < v.len() ==> !crate::text::is_ws(#[trigger] v[j]) && v[j] != '\n'
}

/// Reading a `key = value` line applies exactly that key and value.
proof fn lemma_setting_line(k: Seq<char>, v: Seq<char>, rest: Seq<char>, acc: Settings)
    requires
        plain_pair(k, v),
    ensures
        parse_from(setting_line(k, v) + rest, acc) == parse_from(rest, apply_setting(acc, k, v)),
{
    let line = k + seq![' ', '=', ' '] + v;
    let s = setting_line(k, v) + rest;
    assert(s =~= line + seq!['\n'] + rest);
    assert forall|j: int| 0 <= j < line.len() implies line[j] != '\n' by {
        if j >= k.len() + 3 {
            assert(line[j] == v[j - k.len() - 3]);
        }
    }
    crate::text::lemma_find_is(s, '\n', line.len() as int);
    assert(s.take(line.len() as int) =~= line);
    assert(s.skip(line.len() + 1 as int) =~= rest);
    // the line trims to itself
    assert(line[line.len() - 1] == v[v.len() - 1]);
    crate::text::lemma_lead_is(line, 0);
    crate::text::lemma_trail_is(line, line.len() as int);
    let t = trim(line);
    assert(t =~= line);
    // its first `=` follows the key and a space
    assert forall|j: int| 0 <= j < k.len() + 1 implies t[j] != '=' by {
        if j < k.len() {
            assert(t[j] == k[j]);
        }
    }
    crate::text::lemma_find_is(t, '=', k.len() + 1 as int);
    let key_part = t.take(k.len() + 1 as int);
    let value_part = t.skip(k.len() + 2 as int);
    assert(key_part =~= k + seq![' ']);
    assert(value_part =~= seq![' '] + v);
    crate::text::lemma_lead_is(key_part, 0);
    assert(!crate::text::is_ws(key_part[k.len() - 1]));
    crate::text::lemma_trail_is(key_part, k.len() as int);
    assert(trim(key_part) =~= k);
    crate::text::lemma_lead_is(value_part, 1);
    assert(value_part[value_part.len() - 1] == v[v.len() - 1]);
    crate::text::lemma_trail_is(value_part, value_part.len() as int);
    assert(trim(value_part) =~= v);
}

/// Reading nothing changes nothing.
proof fn lemma_parse_empty(acc: Settings)
    ensures
        parse_from(Seq::<char>::empty(), acc) == acc,
{
    let e = Seq::<char>::empty();
    crate::text::lemma_find_none(e, '\n');
    crate::text::lemma_lead_is(e, 0);
    crate::text::lemma_trail_is(e, 0);
    assert(trim(e).len() == 0);
}

proof fn lemma_keys_and_values_are_plain(s: Settings)
    ensures
        plain_pair(color_key(), setting_str(s.color)),
        plain_pair(failsafe_key(), decimal(s.failsafe.spec_seconds())),
        plain_pair(keyboard_only_key(), bool_str(s.keyboard_only)),
        plain_pair(show_icon_key(), bool_str(s.show_menu_bar_icon)),
{
    reveal_with_fuel(decimal, 2);
}

proof fn lemma_values_read_back(s: Settings, acc: Settings)
    ensures
        apply_setting(acc, color_key(), setting_str(s.color)) == (Settings { color: s.color, ..acc }),
        apply_setting(acc, failsafe_key(), decimal(s.failsafe.spec_seconds())) == (Settings {
            failsafe: s.failsafe,
            ..acc
        }),
        apply_setting(acc, keyboard_only_key(), bool_str(s.keyboard_only)) == (Settings {
            keyboard_only: s.keyboard_only,
            ..acc
        }),
        apply_setting(acc, show_icon_key(), bool_str(s.show_menu_bar_icon)) == (Settings {
            show_menu_bar_icon: s.show_menu_bar_icon,
            ..acc
        }),
{
    reveal_with_fuel(decimal, 2);
    reveal_with_fuel(crate::text::digits_value, 3);
    assert(failsafe_key() != color_key());
    assert(keyboard_only_key() != color_key());
    assert(keyboard_only_key() != failsafe_key());
    assert(show_icon_key() != color_key());
    assert(show_icon_key() != failsafe_key());
    assert(show_icon_key() != keyboard_only_key());
    assert(setting_str(CleaningColor::White) != setting_str(CleaningColor::Black));
    assert(false_str() != true_str());
    let d = decimal(s.failsafe.spec_seconds());
    assert(crate::text::unsigned_digits(d) == d);
    assert(d.drop_last() =~= seq![d[0]]);
    assert(seq![d[0]].drop_last() =~= Seq::<char>::empty());
}

/// Saving and loading round-trips: the contents [`Settings::serialize`] writes read back, with
/// [`Settings::parse`], as exactly the settings that were written.
pub proof fn lemma_parse_serialize_round_trip(s: Settings)
    ensures
        parse_spec(serialize_spec(s)) == s,
{
    let l1 = setting_line(color_key(), setting_str(s.color));
    let l2 = setting_line(failsafe_key(), decimal(s.failsafe.spec_seconds()));
    let l3 = setting_line(keyboard_only_key(), bool_str(s.keyboard_only));
    let l4 = setting_line(show_icon_key(), bool_str(s.show_menu_bar_icon));
    let e = Seq::<char>::empty();
    assert(serialize_spec(s) =~= l1 + (l2 + (l3 + (l4 + e))));
    lemma_keys_and_values_are_plain(s);
    let a0 = default_settings();
    let a1 = apply_setting(a0, color_key(), setting_str(s.color));
    let a2 = apply_setting(a1, failsafe_key(), decimal(s.failsafe.spec_seconds()));
    let a3 = apply_setting(a2, keyboard_only_key(), bool_str(s.keyboard_only));
    let a4 = apply_setting(a3, show_icon_key(), bool_str(s.show_menu_bar_icon));
    lemma_setting_line(color_key(), setting_str(s.color), l2 + (l3 + (l4 + e)), a0);
    lemma_setting_line(failsafe_key(), decimal(s.failsafe.spec_seconds()), l3 + (l4 + e), a1);
    lemma_setting_line(keyboard_only_key(), bool_str(s.keyboard_only), l4 + e, a2);
    lemma_setting_line(show_icon_key(), bool_str(s.show_menu_bar_icon), e, a3);
    lemma_parse_empty(a4);
    lemma_values_read_back(s, a0);
    lemma_values_read_back(s, a1);
    lemma_values_read_back(s, a2);
    lemma_values_read_back(s, a3);
}

} // verus!
