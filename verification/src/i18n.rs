//! Languages, language matching, and the language-independent formatters.
//!
//! [`match_preferred_tag`] picks, from the tags a caller has available, the best match for an
//! ordered list of preferred BCP-47-ish tags (as macOS reports them): for each preferred tag in
//! turn it resolves legacy aliases, tries exact matches along a chain of fallbacks (the tag
//! itself, CLDR parent locales, script truncation, a region-implied Chinese script, the bare
//! language), then any available tag of the same language; only when all of that fails does it
//! move on to the next preferred tag. Tags compare case-insensitively, with `_` and `-` alike.
use vstd::prelude::*;

use crate::color::chars_equal;
use crate::text::{chars_of, decimal, find, push_char, push_decimal};

verus! {

/// `c` as it compares in a tag: ASCII letters lowercased, `_` read as `-`.
pub open spec fn fold_char(c: char) -> char {
    if 'A' <= c <= 'Z' {
        ((c as u32) + 32) as char
    } else if c == '_' {
        '-'
    } else {
        c
    }
}

/// A tag as it compares: every character folded (see [`fold_char`]).
pub open spec fn normalize_spec(s: Seq<char>) -> Seq<char> {
    Seq::new(s.len(), |i: int| fold_char(s[i]))
}

fn fold(c: char) -> (d: char)
    ensures
        d == fold_char(c),
{
    if 'A' <= c && c <= 'Z' {
        ((c as u32) + 32) as u8 as char
    } else if c == '_' {
        '-'
    } else {
        c
    }
}

fn normalize_chars(s: &str) -> (v: Vec<char>)
    ensures
        v@ == normalize_spec(s@),
{
    let chars = chars_of(s);
    let mut v: Vec<char> = Vec::new();
    let mut i: usize = 0;
    while i < chars.len()
        invariant
            i <= chars@.len(),
            chars@ == s@,
            v@ == normalize_spec(chars@.take(i as int)),
        decreases chars.len() - i,
    {
        v.push(fold(chars[i]));
        i += 1;
        assert(v@ =~= normalize_spec(chars@.take(i as int)));
    }
    assert(chars@.take(chars@.len() as int) =~= chars@);
    v
}

/// Normalizes a tag for comparison: ASCII lowercase, `_` folded to `-`.
pub fn normalize_tag(tag: &str) -> (s: String)
    ensures
        s@ == normalize_spec(tag@),
{
    let v = normalize_chars(tag);
    string_of(&v)
}

/// The string holding exactly the characters of `v`.
fn string_of(v: &[char]) -> (s: String)
    ensures
        s@ == v@,
{
    let mut s = String::new();
    let mut i: usize = 0;
    while i < v.len()
        invariant
            i <= v@.len(),
            s@ == v@.take(i as int),
        decreases v.len() - i,
    {
        push_char(&mut s, v[i]);
        i += 1;
        assert(s@ =~= v@.take(i as int));
    }
    assert(v@.take(v@.len() as int) =~= v@);
    s
}

/// A vector holding exactly the characters of `s`.
fn vec_of(s: &[char]) -> (v: Vec<char>)
    ensures
        v@ == s@,
{
    let mut v: Vec<char> = Vec::new();
    let mut i: usize = 0;
    while i < s.len()
        invariant
            i <= s@.len(),
            v@ == s@.take(i as int),
        decreases s.len() - i,
    {
        v.push(s[i]);
        i += 1;
        assert(v@ =~= s@.take(i as int));
    }
    assert(s@.take(s@.len() as int) =~= s@);
    v
}

/// A vector of characters is its own deep view.
proof fn lemma_chars_deep(v: Vec<char>)
    ensures
        v.deep_view() == v@,
{
    assert(v.deep_view() =~= v@);
}

/// Pushing one vector of characters onto a vector of them pushes its characters onto the deep
/// view.
proof fn lemma_deep_push(a: Vec<Vec<char>>, b: Vec<Vec<char>>)
    requires
        b@.len() == a@.len() + 1,
        forall|i: int| 0 <= i < a@.len() ==> b@[i] == a@[i],
    ensures
        b.deep_view() == a.deep_view().push(b@[a@.len() as int]@),
{
    lemma_chars_deep(b@[a@.len() as int]);
    assert(b.deep_view() =~= a.deep_view().push(b@[a@.len() as int]@));
}

/// Legacy primary-language subtags and their modern replacements: `no` (Norwegian, reported for
/// Bokmål) is `nb`, `in` is `id` (Indonesian), `iw` is `he` (Hebrew).
pub open spec fn alias_spec(primary: Seq<char>) -> Seq<char> {
    if primary == seq!['n', 'o'] {
        seq!['n', 'b']
    } else if primary == seq!['i', 'n'] {
        seq!['i', 'd']
    } else if primary == seq!['i', 'w'] {
        seq!['h', 'e']
    } else {
        primary
    }
}

/// A normalized tag with its primary subtag (before the first `-`) replaced by its modern form,
/// the rest kept as is (`no-no` reads `nb-no`).
pub open spec fn apply_alias_spec(norm: Seq<char>) -> Seq<char> {
    match find(norm, '-') {
        Some(k) => alias_spec(norm.take(k)) + norm.skip(k),
        None => alias_spec(norm),
    }
}

fn alias_chars(p: &[char]) -> (v: Vec<char>)
    ensures
        v@ == alias_spec(p@),
{
    if chars_equal(p, &['n', 'o']) {
        vec_of(&['n', 'b'])
    } else if chars_equal(p, &['i', 'n']) {
        vec_of(&['i', 'd'])
    } else if chars_equal(p, &['i', 'w']) {
        vec_of(&['h', 'e'])
    } else {
        vec_of(p)
    }
}

fn apply_alias_chars(norm: &[char]) -> (v: Vec<char>)
    ensures
        v@ == apply_alias_spec(norm@),
{
    match crate::text::find_char(norm, 0, norm.len(), '-') {
        Some(k) => {
            proof {
                assert(norm@.subrange(0, norm@.len() as int) =~= norm@);
            }
            let head = slice_vec(norm, 0, k);
            let mut v = alias_chars(&head);
            let mut i = k;
            while i < norm.len()
                invariant
                    k <= i <= norm@.len(),
                    v@ == alias_spec(norm@.take(k as int)) + norm@.subrange(k as int, i as int),
                decreases norm.len() - i,
            {
                v.push(norm[i]);
                i += 1;
                assert(v@ =~= alias_spec(norm@.take(k as int)) + norm@.subrange(k as int, i as int));
            }
            assert(norm@.subrange(k as int, norm@.len() as int) =~= norm@.skip(k as int));
            v
        },
        None => {
            proof {
                assert(norm@.subrange(0, norm@.len() as int) =~= norm@);
            }
            alias_chars(norm)
        },
    }
}

/// Applies the legacy-alias table to a normalized tag's primary subtag (see
/// [`apply_alias_spec`]).
pub fn apply_language_alias(norm: &str) -> (s: String)
    ensures
        s@ == apply_alias_spec(norm@),
{
    let c = chars_of(norm);
    let v = apply_alias_chars(&c);
    string_of(&v)
}

/// The characters `s[from..to]` as a vector.
fn slice_vec(s: &[char], from: usize, to: usize) -> (v: Vec<char>)
    requires
        from <= to <= s@.len(),
    ensures
        v@ == s@.subrange(from as int, to as int),
{
    let mut v: Vec<char> = Vec::new();
    let mut i = from;
    while i < to
        invariant
            from <= i <= to <= s@.len(),
            v@ == s@.subrange(from as int, i as int),
        decreases to - i,
    {
        v.push(s[i]);
        i += 1;
        assert(v@ =~= s@.subrange(from as int, i as int));
    }
    v
}

/// Whether `v` holds exactly the characters of `lit`.
fn eq_lit(v: &[char], lit: &str) -> (b: bool)
    ensures
        b == (v@ == lit@),
{
    let l = chars_of(lit);
    chars_equal(v, &l)
}

/// The subtags of a normalized tag: the pieces between `-` separators (empty pieces included,
/// as `str::split` yields them).
pub open spec fn split_spec(s: Seq<char>) -> Seq<Seq<char>>
    decreases s.len(),
{
    match find(s, '-') {
        Some(k) => if 0 <= k < s.len() {
            seq![s.take(k)] + split_spec(s.skip(k + 1))
        } else {
            seq![s]
        },
        None => seq![s],
    }
}

/// A tag always has at least one subtag.
pub proof fn lemma_split_nonempty(s: Seq<char>)
    ensures
        split_spec(s).len() >= 1,
    decreases s.len(),
{
    if let Some(k) = find(s, '-') {
        if 0 <= k < s.len() {
            lemma_split_nonempty(s.skip(k + 1));
        }
    }
}

fn split_chars(s: &[char]) -> (parts: Vec<Vec<char>>)
    ensures
        parts.deep_view() == split_spec(s@),
        parts@.len() >= 1,
{
    let mut parts: Vec<Vec<char>> = Vec::new();
    let mut start: usize = 0;
    assert(s@.skip(0) =~= s@);
    loop
        invariant
            start <= s@.len(),
            split_spec(s@) == parts.deep_view() + split_spec(s@.skip(start as int)),
        decreases s@.len() - start,
    {
        let ghost rest = s@.skip(start as int);
        assert(rest =~= s@.subrange(start as int, s@.len() as int));
        match crate::text::find_char(s, start, s.len(), '-') {
            Some(k) => {
                let piece = slice_vec(s, start, start + k);
                proof {
                    assert(rest.take(k as int) =~= piece@);
                    assert(rest.skip(k + 1) =~= s@.skip(start + k + 1));
                }
                let ghost before = parts.deep_view();
                let ghost old_parts = parts;
                let ghost pv = piece@;
                parts.push(piece);
                proof {
                    lemma_deep_push(old_parts, parts);
                    assert(parts.deep_view() =~= before + seq![pv]);
                    assert(split_spec(rest) == seq![rest.take(k as int)] + split_spec(rest.skip(k + 1)));
                    assert(split_spec(s@) =~= parts.deep_view() + split_spec(s@.skip(start + k + 1)));
                }
                start = start + k + 1;
            },
            None => {
                let piece = slice_vec(s, start, s.len());
                let ghost before = parts.deep_view();
                let ghost old_parts = parts;
                proof {
                    assert(piece@ =~= rest);
                }
                parts.push(piece);
                proof {
                    lemma_deep_push(old_parts, parts);
                    assert(parts.deep_view() =~= before + seq![rest]);
                }
                return parts;
            },
        }
    }
}

/// Whether a subtag is a script: exactly four ASCII letters.
pub open spec fn is_script(p: Seq<char>) -> bool {
    p.len() == 4 && forall|j: int| 0 <= j < 4 ==> #[trigger] is_ascii_letter(p[j])
}

/// Whether `c` is an ASCII letter.
pub open spec fn is_ascii_letter(c: char) -> bool {
    ('a' <= c <= 'z') || ('A' <= c <= 'Z')
}

/// The first subtag from position `j` on that is not a script.
pub open spec fn region_from(parts: Seq<Seq<char>>, j: int) -> Option<Seq<char>>
    decreases parts.len() - j,
{
    if j >= parts.len() {
        None
    } else if !is_script(parts[j]) {
        Some(parts[j])
    } else {
        region_from(parts, j + 1)
    }
}

/// The region (or numeric area, such as `419`) of a split tag: the first subtag after the
/// language that is not a script, so `zh-hant-mo` and `zh-mo` both give `mo`.
pub open spec fn region_spec(parts: Seq<Seq<char>>) -> Option<Seq<char>> {
    region_from(parts, 1)
}

fn is_script_exec(p: &[char]) -> (b: bool)
    ensures
        b == is_script(p@),
{
    if p.len() != 4 {
        return false;
    }
    let mut i: usize = 0;
    while i < 4
        invariant
            p@.len() == 4,
            i <= 4,
            forall|j: int| 0 <= j < i ==> #[trigger] is_ascii_letter(p@[j]),
        decreases 4 - i,
    {
        let c = p[i];
        if !(('a' <= c && c <= 'z') || ('A' <= c && c <= 'Z')) {
            assert(!is_ascii_letter(p@[i as int]));
            return false;
        }
        i += 1;
    }
    true
}

/// The region subtag of a split tag (see [`region_spec`]): its index in `parts`.
fn region_index(parts: &Vec<Vec<char>>) -> (r: Option<usize>)
    ensures
        match region_spec(parts.deep_view()) {
            Some(reg) => r matches Some(j) && 1 <= j < parts@.len() && parts@[j as int]@ == reg,
            None => r is None,
        },
{
    let mut j: usize = 1;
    while j < parts.len()
        invariant
            1 <= j,
            region_spec(parts.deep_view()) == region_from(parts.deep_view(), j as int),
        decreases parts.len() - j,
    {
        assert(parts.deep_view()[j as int] == parts@[j as int]@);
        if !is_script_exec(&parts[j]) {
            return Some(j);
        }
        j += 1;
    }
    None
}

/// Whether `r` is a Latin American (or US) region, whose Spanish falls back to `es-419`.
pub open spec fn is_latam_region(r: Seq<char>) -> bool {
    ||| r == "419"@ || r == "mx"@ || r == "ar"@ || r == "co"@ || r == "cl"@ || r == "pe"@
    ||| r == "ve"@ || r == "ec"@ || r == "gt"@ || r == "cu"@ || r == "bo"@ || r == "do"@
    ||| r == "hn"@ || r == "py"@ || r == "sv"@ || r == "ni"@ || r == "cr"@ || r == "pa"@
    ||| r == "uy"@ || r == "pr"@ || r == "us"@
}

/// Whether `r` is a region whose Portuguese falls back to `pt-PT` (Lusophone Africa and a few
/// others).
pub open spec fn is_pt_pt_region(r: Seq<char>) -> bool {
    ||| r == "ao"@ || r == "mz"@ || r == "cv"@ || r == "gw"@ || r == "st"@
    ||| r == "tl"@ || r == "mo"@ || r == "lu"@ || r == "ch"@ || r == "gq"@
}

/// CLDR parent locales to try, in order, for a language and region: Latin American Spanish
/// before generic `es` tries `es-419`; Portuguese outside Brazil and Portugal tries `pt-pt`;
/// Macao Chinese tries `zh-hk`, then `zh-hant`.
pub open spec fn parents_spec(primary: Seq<char>, region: Seq<char>) -> Seq<Seq<char>> {
    if primary == "es"@ && is_latam_region(region) {
        seq!["es-419"@, "es"@]
    } else if primary == "pt"@ && is_pt_pt_region(region) {
        seq!["pt-pt"@]
    } else if primary == "zh"@ && region == "mo"@ {
        seq!["zh-hk"@, "zh-hant"@]
    } else {
        seq![]
    }
}

/// The Chinese script a region implies: Traditional for Taiwan and Hong Kong, Simplified for
/// mainland China and Singapore.
pub open spec fn zh_script(region: Seq<char>) -> Option<Seq<char>> {
    if region == "tw"@ || region == "hk"@ {
        Some("hant"@)
    } else if region == "cn"@ || region == "sg"@ {
        Some("hans"@)
    } else {
        None
    }
}

/// For a Chinese tag whose region implies a script, the candidate `zh-<script>`; nothing
/// otherwise.
pub open spec fn zh_extra(parts: Seq<Seq<char>>) -> Seq<Seq<char>> {
    if parts[0] == "zh"@ {
        match region_spec(parts) {
            Some(r) => match zh_script(r) {
                Some(sc) => seq!["zh-"@ + sc],
                None => seq![],
            },
            None => seq![],
        }
    } else {
        seq![]
    }
}

/// A Chinese tag whose region implies a script tries that script's tag before falling back to
/// bare `zh`: Taiwan (`tw`) and Hong Kong (`hk`) imply Traditional Chinese (`zh-hant`), mainland
/// China (`cn`) and Singapore (`sg`) Simplified Chinese (`zh-hans`). For a tag of two subtags,
/// such as `zh-hk`, the candidates are exactly the tag itself, `zh-<script>` and `zh`.
pub proof fn lemma_chinese_region_implies_script(norm: Seq<char>, region: Seq<char>)
    requires
        split_spec(norm)[0] == "zh"@,
        region_spec(split_spec(norm)) == Some(region),
    ensures
        (region == "tw"@ || region == "hk"@) ==> chain_spec(norm).contains("zh-hant"@),
        (region == "cn"@ || region == "sg"@) ==> chain_spec(norm).contains("zh-hans"@),
        (region == "tw"@ || region == "hk"@) && split_spec(norm).len() == 2 ==> chain_spec(norm)
            == seq![norm, "zh-hant"@, "zh"@],
        (region == "cn"@ || region == "sg"@) && split_spec(norm).len() == 2 ==> chain_spec(norm)
            == seq![norm, "zh-hans"@, "zh"@],
{
    reveal_strlit("zh");
    reveal_strlit("es");
    reveal_strlit("pt");
    reveal_strlit("mo");
    reveal_strlit("tw");
    reveal_strlit("hk");
    reveal_strlit("cn");
    reveal_strlit("sg");
    reveal_strlit("zh-");
    reveal_strlit("hant");
    reveal_strlit("hans");
    reveal_strlit("zh-hant");
    reveal_strlit("zh-hans");
    lemma_split_nonempty(norm);
    let parts = split_spec(norm);
    let c = chain_spec(norm);
    if region == "tw"@ || region == "hk"@ || region == "cn"@ || region == "sg"@ {
        assert(region[0] != "mo"@[0]);
        assert(parts[0][0] != "es"@[0] && parts[0][0] != "pt"@[0]);
        assert(parents_spec(parts[0], region) =~= seq![]);
        let script_tag = if region == "tw"@ || region == "hk"@ { "zh-hant"@ } else { "zh-hans"@ };
        let mid = if parts.len() >= 3 { seq![parts[0] + "-"@ + parts[1]] } else { seq![] };
        assert("zh-"@ + "hant"@ =~= "zh-hant"@);
        assert("zh-"@ + "hans"@ =~= "zh-hans"@);
        assert(zh_extra(parts) =~= seq![script_tag]);
        let k: int = 1 + mid.len() as int;
        assert(c[k] == script_tag);
        if parts.len() == 2 {
            assert(c =~= seq![norm, script_tag, "zh"@]);
        }
    }
}

/// The ordered candidates to try by exact match for one alias-resolved, normalized tag: the tag
/// itself; its CLDR parents; `language-script` when there are three or more subtags; for
/// Chinese, the script its region implies; the bare language when there are two or more
/// subtags.
pub open spec fn chain_spec(norm: Seq<char>) -> Seq<Seq<char>> {
    let parts = split_spec(norm);
    let primary = parts[0];
    let region = region_spec(parts);
    seq![norm] + (match region {
        Some(r) => parents_spec(primary, r),
        None => seq![],
    }) + (if parts.len() >= 3 {
        seq![parts[0] + "-"@ + parts[1]]
    } else {
        seq![]
    }) + zh_extra(parts) + (if parts.len() >= 2 {
        seq![primary]
    } else {
        seq![]
    })
}

fn push_lit(chain: &mut Vec<Vec<char>>, lit: &str)
    ensures
        final(chain).deep_view() == old(chain).deep_view().push(lit@),
{
    let v = chars_of(lit);
    let ghost old_chain = *chain;
    chain.push(v);
    proof {
        lemma_deep_push(old_chain, *chain);
    }
}

fn is_latam_exec(r: &[char]) -> (b: bool)
    ensures
        b == is_latam_region(r@),
{
    eq_lit(r, "419") || eq_lit(r, "mx") || eq_lit(r, "ar") || eq_lit(r, "co") || eq_lit(r, "cl")
        || eq_lit(r, "pe") || eq_lit(r, "ve") || eq_lit(r, "ec") || eq_lit(r, "gt") || eq_lit(
        r,
        "cu",
    ) || eq_lit(r, "bo") || eq_lit(r, "do") || eq_lit(r, "hn") || eq_lit(r, "py") || eq_lit(
        r,
        "sv",
    ) || eq_lit(r, "ni") || eq_lit(r, "cr") || eq_lit(r, "pa") || eq_lit(r, "uy") || eq_lit(
        r,
        "pr",
    ) || eq_lit(r, "us")
}

fn is_pt_pt_exec(r: &[char]) -> (b: bool)
    ensures
        b == is_pt_pt_region(r@),
{
    eq_lit(r, "ao") || eq_lit(r, "mz") || eq_lit(r, "cv") || eq_lit(r, "gw") || eq_lit(r, "st")
        || eq_lit(r, "tl") || eq_lit(r, "mo") || eq_lit(r, "lu") || eq_lit(r, "ch") || eq_lit(
        r,
        "gq",
    )
}

fn append_parents(chain: &mut Vec<Vec<char>>, primary: &[char], region: &[char])
    ensures
        final(chain).deep_view() == old(chain).deep_view() + parents_spec(primary@, region@),
{
    let ghost before = chain.deep_view();
    if eq_lit(primary, "es") && is_latam_exec(region) {
        push_lit(chain, "es-419");
        push_lit(chain, "es");
        assert(chain.deep_view() =~= before + parents_spec(primary@, region@));
    } else if eq_lit(primary, "pt") && is_pt_pt_exec(region) {
        push_lit(chain, "pt-pt");
        assert(chain.deep_view() =~= before + parents_spec(primary@, region@));
    } else if eq_lit(primary, "zh") && eq_lit(region, "mo") {
        push_lit(chain, "zh-hk");
        push_lit(chain, "zh-hant");
        assert(chain.deep_view() =~= before + parents_spec(primary@, region@));
    } else {
        assert(chain.deep_view() =~= before + parents_spec(primary@, region@));
    }
}

fn concat3(a: &[char], sep: &str, b: &[char]) -> (v: Vec<char>)
    ensures
        v@ == a@ + sep@ + b@,
{
    let mut v = vec_of(a);
    let s = chars_of(sep);
    let mut i: usize = 0;
    let ghost base = v@;
    while i < s.len()
        invariant
            i <= s@.len(),
            v@ == base + s@.take(i as int),
        decreases s.len() - i,
    {
        v.push(s[i]);
        i += 1;
        assert(v@ =~= base + s@.take(i as int));
    }
    let ghost mid = v@;
    let mut j: usize = 0;
    while j < b.len()
        invariant
            j <= b@.len(),
            v@ == mid + b@.take(j as int),
        decreases b.len() - j,
    {
        v.push(b[j]);
        j += 1;
        assert(v@ =~= mid + b@.take(j as int));
    }
    assert(s@.take(s@.len() as int) =~= s@);
    assert(b@.take(b@.len() as int) =~= b@);
    assert(v@ =~= a@ + sep@ + b@);
    v
}

fn chain_chars(norm: &[char]) -> (chain: Vec<Vec<char>>)
    ensures
        chain.deep_view() == chain_spec(norm@),
{
    let parts = split_chars(norm);
    let ghost p = parts.deep_view();
    assert(p[0] == parts@[0]@);
    let mut chain: Vec<Vec<char>> = Vec::new();
    let ghost empty = chain;
    chain.push(vec_of(norm));
    proof {
        lemma_deep_push(empty, chain);
    }
    let ghost c1 = chain.deep_view();
    assert(c1 =~= seq![norm@]);
    let region = region_index(&parts);
    match region {
        Some(j) => {
            append_parents(&mut chain, &parts[0], &parts[j]);
        },
        None => {},
    }
    let ghost c2 = chain.deep_view();
    assert(c2 =~= seq![norm@] + (match region_spec(p) {
        Some(r) => parents_spec(p[0], r),
        None => seq![],
    }));
    if parts.len() >= 3 {
        let ls = concat3(&parts[0], "-", &parts[1]);
        assert(p[1] == parts@[1]@);
        let ghost old_chain = chain;
        chain.push(ls);
        proof {
            lemma_deep_push(old_chain, chain);
        }
    }
    let ghost c3 = chain.deep_view();
    assert(c3 =~= c2 + (if p.len() >= 3 { seq![p[0] + "-"@ + p[1]] } else { seq![] }));
    if eq_lit(&parts[0], "zh") {
        match region {
            Some(j) => {
                assert(region_spec(p) == Some(parts@[j as int]@));
                if eq_lit(&parts[j], "tw") || eq_lit(&parts[j], "hk") {
                    push_lit(&mut chain, "zh-hant");
                    proof {
                        reveal_strlit("zh-");
                        reveal_strlit("hant");
                        reveal_strlit("zh-hant");
                        assert("zh-"@ + "hant"@ =~= "zh-hant"@);
                    }
                } else if eq_lit(&parts[j], "cn") || eq_lit(&parts[j], "sg") {
                    push_lit(&mut chain, "zh-hans");
                    proof {
                        reveal_strlit("zh-");
                        reveal_strlit("hans");
                        reveal_strlit("zh-hans");
                        assert("zh-"@ + "hans"@ =~= "zh-hans"@);
                    }
                }
            },
            None => {},
        }
    }
    assert(chain.deep_view() =~= c3 + zh_extra(p));
    if parts.len() >= 2 {
        let ghost before = chain.deep_view();
        let ghost old_chain = chain;
        chain.push(vec_of(&parts[0]));
        proof {
            lemma_deep_push(old_chain, chain);
        }
        assert(chain.deep_view() =~= before + seq![p[0]]);
    }
    assert(chain.deep_view() =~= chain_spec(norm@));
    chain
}

/// The ordered chain of candidate tags to try by exact match for one alias-resolved, normalized
/// tag (see [`chain_spec`]).
pub fn candidate_chain(norm: &str) -> (chain: Vec<String>)
    ensures
        chain@.len() == chain_spec(norm@).len(),
        forall|i: int| 0 <= i < chain@.len() ==> (#[trigger] chain@[i])@ == chain_spec(norm@)[i],
{
    let n = chars_of(norm);
    let c = chain_chars(&n);
    let mut out: Vec<String> = Vec::new();
    let mut i: usize = 0;
    while i < c.len()
        invariant
            i <= c@.len(),
            c.deep_view() == chain_spec(norm@),
            n@ == norm@,
            out@.len() == i,
            forall|k: int| 0 <= k < i ==> (#[trigger] out@[k])@ == chain_spec(norm@)[k],
        decreases c.len() - i,
    {
        assert(c.deep_view()[i as int] == c@[i as int]@);
        out.push(string_of(&c[i]));
        i += 1;
    }
    out
}

/// Lexicographic order on characters (by code point, which is also the byte order of their
/// UTF-8 encodings, the order `str` compares by).
pub open spec fn lex_le(a: Seq<char>, b: Seq<char>) -> bool
    decreases a.len(),
{
    if a.len() == 0 {
        true
    } else if b.len() == 0 {
        false
    } else if a[0] != b[0] {
        a[0] < b[0]
    } else {
        lex_le(a.drop_first(), b.drop_first())
    }
}

/// The lexicographic order is total.
pub proof fn lemma_lex_total(a: Seq<char>, b: Seq<char>)
    ensures
        lex_le(a, b) || lex_le(b, a),
    decreases a.len(),
{
    if a.len() > 0 && b.len() > 0 && a[0] == b[0] {
        lemma_lex_total(a.drop_first(), b.drop_first());
    }
}

/// The lexicographic order is transitive.
pub proof fn lemma_lex_transitive(a: Seq<char>, b: Seq<char>, c: Seq<char>)
    requires
        lex_le(a, b),
        lex_le(b, c),
    ensures
        lex_le(a, c),
    decreases a.len(),
{
    if a.len() > 0 && b.len() > 0 && c.len() > 0 && a[0] == b[0] && b[0] == c[0] {
        lemma_lex_transitive(a.drop_first(), b.drop_first(), c.drop_first());
    }
}

/// The lexicographic order is antisymmetric.
pub proof fn lemma_lex_antisymmetric(a: Seq<char>, b: Seq<char>)
    requires
        lex_le(a, b),
        lex_le(b, a),
    ensures
        a == b,
    decreases a.len(),
{
    if a.len() > 0 && b.len() > 0 {
        lemma_lex_antisymmetric(a.drop_first(), b.drop_first());
        assert(a =~= seq![a[0]] + a.drop_first());
        assert(b =~= seq![b[0]] + b.drop_first());
    }
}

fn lex_le_exec(a: &[char], b: &[char]) -> (r: bool)
    ensures
        r == lex_le(a@, b@),
{
    let mut i: usize = 0;
    assert(a@.skip(0) =~= a@);
    assert(b@.skip(0) =~= b@);
    while i < a.len() && i < b.len() && a[i] == b[i]
        invariant
            i <= a@.len(),
            i <= b@.len(),
            lex_le(a@, b@) == lex_le(a@.skip(i as int), b@.skip(i as int)),
        decreases a.len() - i,
    {
        assert(a@.skip(i as int).drop_first() =~= a@.skip(i + 1));
        assert(b@.skip(i as int).drop_first() =~= b@.skip(i + 1));
        i += 1;
    }
    if i == a.len() {
        true
    } else if i == b.len() {
        false
    } else {
        a[i] < b[i]
    }
}

/// Whether normalized tag `a` belongs to language `primary`: it is `primary` itself or starts
/// with `primary` followed by `-`.
pub open spec fn in_family(a: Seq<char>, primary: Seq<char>) -> bool {
    a == primary || (a.len() > primary.len() && a.take(primary.len() as int) == primary
        && a[primary.len() as int] == '-')
}

fn in_family_exec(a: &[char], primary: &[char]) -> (b: bool)
    ensures
        b == in_family(a@, primary@),
{
    if chars_equal(a, primary) {
        return true;
    }
    if a.len() <= primary.len() {
        return false;
    }
    let mut i: usize = 0;
    while i < primary.len()
        invariant
            primary@.len() < a@.len(),
            i <= primary@.len(),
            forall|j: int| 0 <= j < i ==> a@[j] == primary@[j],
        decreases primary.len() - i,
    {
        if a[i] != primary[i] {
            assert(a@.take(primary@.len() as int)[i as int] != primary@[i as int]);
            return false;
        }
        i += 1;
    }
    assert(a@.take(primary@.len() as int) =~= primary@);
    a[primary.len()] == '-'
}

/// Index `i` is the best fallback for language `primary` among normalized tags `av`: in the
/// family, not after any other family member in lexicographic order, and strictly before (in that
/// order) every family member listed earlier.
pub open spec fn is_best_fallback(av: Seq<Seq<char>>, primary: Seq<char>, i: int) -> bool {
    &&& 0 <= i < av.len()
    &&& in_family(av[i], primary)
    &&& forall|j: int| 0 <= j < av.len() && in_family(#[trigger] av[j], primary) ==> lex_le(av[i], av[j])
    &&& forall|j: int| 0 <= j < i && in_family(#[trigger] av[j], primary) ==> !lex_le(av[j], av[i])
}

/// The last-resort match for language `primary`: the first listed of the family members that
/// sort first (the bare language tag if available, since it sorts before every `primary-…`
/// tag; otherwise, for instance, `pt-br` before `pt-pt`).
pub open spec fn fallback_spec(av: Seq<Seq<char>>, primary: Seq<char>) -> Option<int> {
    if exists|i: int| is_best_fallback(av, primary, i) {
        Some(choose|i: int| is_best_fallback(av, primary, i))
    } else {
        None
    }
}

proof fn lemma_best_fallback_unique(av: Seq<Seq<char>>, primary: Seq<char>, i: int)
    requires
        is_best_fallback(av, primary, i),
    ensures
        fallback_spec(av, primary) == Some(i),
{
    let k = choose|i: int| is_best_fallback(av, primary, i);
    assert(is_best_fallback(av, primary, k));
    if k < i {
        assert(in_family(av[k], primary));
        assert(!lex_le(av[k], av[i]));
    } else if i < k {
        assert(in_family(av[i], primary));
        assert(!lex_le(av[i], av[k]));
    }
}

fn fallback_exec(av: &Vec<Vec<char>>, primary: &[char]) -> (r: Option<usize>)
    ensures
        match fallback_spec(av.deep_view(), primary@) {
            Some(i) => r == Some(i as usize),
            None => r is None,
        },
{
    let ghost dv = av.deep_view();
    let mut best: Option<usize> = None;
    let mut i: usize = 0;
    while i < av.len()
        invariant
            i <= av@.len(),
            dv == av.deep_view(),
            dv.len() == av@.len(),
            match best {
                None => forall|j: int| 0 <= j < i ==> !in_family(#[trigger] dv[j], primary@),
                Some(b) => {
                    &&& b < i
                    &&& in_family(dv[b as int], primary@)
                    &&& forall|j: int| 0 <= j < i && in_family(#[trigger] dv[j], primary@) ==> lex_le(dv[b as int], dv[j])
                    &&& forall|j: int| 0 <= j < b && in_family(#[trigger] dv[j], primary@) ==> !lex_le(dv[j], dv[b as int])
                },
            },
        decreases av.len() - i,
    {
        assert(dv[i as int] == av@[i as int]@);
        if in_family_exec(&av[i], primary) {
            match best {
                None => {
                    proof {
                        assert forall|j: int| 0 <= j < i + 1 && in_family(#[trigger] dv[j], primary@)
                            implies lex_le(dv[i as int], dv[j]) by {
                            lemma_lex_total(dv[i as int], dv[j]);
                        }
                    }
                    best = Some(i);
                },
                Some(b) => {
                    assert(dv[b as int] == av@[b as int]@);
                    let b_le_i = lex_le_exec(&av[b], &av[i]);
                    if !b_le_i {
                        proof {
                            lemma_lex_total(dv[b as int], dv[i as int]);
                            assert forall|j: int| 0 <= j < i + 1 && in_family(#[trigger] dv[j], primary@)
                                implies lex_le(dv[i as int], dv[j]) by {
                                if j < i {
                                    lemma_lex_transitive(dv[i as int], dv[b as int], dv[j]);
                                } else {
                                    lemma_lex_total(dv[i as int], dv[j]);
                                }
                            }
                            assert forall|j: int| 0 <= j < i && in_family(#[trigger] dv[j], primary@)
                                implies !lex_le(dv[j], dv[i as int]) by {
                                if lex_le(dv[j], dv[i as int]) {
                                    lemma_lex_transitive(dv[b as int], dv[j], dv[i as int]);
                                }
                            }
                        }
                        best = Some(i);
                    }
                },
            }
        }
        i += 1;
    }
    match best {
        Some(b) => {
            proof {
                lemma_best_fallback_unique(dv, primary@, b as int);
            }
            Some(b)
        },
        None => {
            proof {
                if exists|k: int| is_best_fallback(dv, primary@, k) {
                    let k = choose|k: int| is_best_fallback(dv, primary@, k);
                    assert(in_family(dv[k], primary@));
                }
            }
            None
        },
    }
}

/// The first index at or after `i` whose normalized tag is `c`.
pub open spec fn first_match_from(av: Seq<Seq<char>>, c: Seq<char>, i: int) -> Option<int>
    decreases av.len() - i,
{
    if i < 0 || i >= av.len() {
        None
    } else if av[i] == c {
        Some(i)
    } else {
        first_match_from(av, c, i + 1)
    }
}

/// The first exact match along a candidate chain: the first candidate that some available tag
/// equals, and the first such tag.
pub open spec fn chain_match(chain: Seq<Seq<char>>, av: Seq<Seq<char>>) -> Option<int>
    decreases chain.len(),
{
    if chain.len() == 0 {
        None
    } else {
        match first_match_from(av, chain[0], 0) {
            Some(i) => Some(i),
            None => chain_match(chain.drop_first(), av),
        }
    }
}

fn first_match_exec(av: &Vec<Vec<char>>, c: &[char]) -> (r: Option<usize>)
    ensures
        match first_match_from(av.deep_view(), c@, 0) {
            Some(i) => r == Some(i as usize),
            None => r is None,
        },
{
    let mut i: usize = 0;
    while i < av.len()
        invariant
            i <= av@.len(),
            first_match_from(av.deep_view(), c@, 0) == first_match_from(av.deep_view(), c@, i as int),
        decreases av.len() - i,
    {
        assert(av.deep_view()[i as int] == av@[i as int]@);
        if chars_equal(&av[i], c) {
            return Some(i);
        }
        i += 1;
    }
    None
}

fn chain_match_exec(chain: &Vec<Vec<char>>, av: &Vec<Vec<char>>) -> (r: Option<usize>)
    ensures
        match chain_match(chain.deep_view(), av.deep_view()) {
            Some(i) => r == Some(i as usize),
            None => r is None,
        },
{
    let mut k: usize = 0;
    assert(chain.deep_view().skip(0) =~= chain.deep_view());
    while k < chain.len()
        invariant
            k <= chain@.len(),
            chain_match(chain.deep_view(), av.deep_view()) == chain_match(
                chain.deep_view().skip(k as int),
                av.deep_view(),
            ),
        decreases chain.len() - k,
    {
        let ghost rest = chain.deep_view().skip(k as int);
        assert(rest[0] == chain@[k as int]@);
        assert(rest.drop_first() =~= chain.deep_view().skip(k + 1));
        match first_match_exec(av, &chain[k]) {
            Some(i) => {
                return Some(i);
            },
            None => {},
        }
        k += 1;
    }
    None
}

/// A preferred tag as it is matched: normalized, then alias-resolved.
pub open spec fn pref_norm(p: Seq<char>) -> Seq<char> {
    apply_alias_spec(normalize_spec(p))
}

/// The match for one preferred tag: the first exact match along its candidate chain, else the
/// best available tag of its language.
pub open spec fn match_one(p: Seq<char>, av: Seq<Seq<char>>) -> Option<int> {
    let n = pref_norm(p);
    match chain_match(chain_spec(n), av) {
        Some(i) => Some(i),
        None => fallback_spec(av, split_spec(n)[0]),
    }
}

/// The match for an ordered list of preferred tags: the first preferred tag that matches
/// anything decides.
pub open spec fn match_spec(prefs: Seq<Seq<char>>, av: Seq<Seq<char>>) -> Option<int>
    decreases prefs.len(),
{
    if prefs.len() == 0 {
        None
    } else {
        match match_one(prefs[0], av) {
            Some(i) => Some(i),
            None => match_spec(prefs.drop_first(), av),
        }
    }
}

/// The normalized forms of `tags`.
pub open spec fn normalized_all(tags: Seq<&str>) -> Seq<Seq<char>> {
    Seq::new(tags.len(), |i: int| normalize_spec(tags[i]@))
}

/// The normalized forms of tags given by their characters.
pub open spec fn normalized_seqs(tags: Seq<Seq<char>>) -> Seq<Seq<char>> {
    Seq::new(tags.len(), |i: int| normalize_spec(tags[i]))
}

/// The views of `tags`.
pub open spec fn views(tags: Seq<&str>) -> Seq<Seq<char>> {
    Seq::new(tags.len(), |i: int| tags[i]@)
}

fn normalize_all(tags: &[&str]) -> (v: Vec<Vec<char>>)
    ensures
        v.deep_view() == normalized_all(tags@),
{
    let mut v: Vec<Vec<char>> = Vec::new();
    let mut i: usize = 0;
    assert(v.deep_view() =~= normalized_all(tags@).take(0));
    while i < tags.len()
        invariant
            i <= tags@.len(),
            v.deep_view() == normalized_all(tags@).take(i as int),
        decreases tags.len() - i,
    {
        let ghost old_v = v;
        v.push(normalize_chars(tags[i]));
        proof {
            lemma_deep_push(old_v, v);
        }
        i += 1;
        assert(v.deep_view() =~= normalized_all(tags@).take(i as int));
    }
    assert(normalized_all(tags@).take(tags@.len() as int) =~= normalized_all(tags@));
    v
}

/// The available tag that best matches the ordered `preferred` tags (see [`match_spec`]), or
/// `None` if none matches at all.
pub fn match_preferred_tag<'a>(preferred: &[&str], available: &[&'a str]) -> (r: Option<&'a str>)
    ensures
        match match_spec(views(preferred@), normalized_all(available@)) {
            Some(i) => 0 <= i < available@.len() && r == Some(available@[i]),
            None => r is None,
        },
{
    match match_preferred_index(preferred, available) {
        Some(i) => Some(available[i]),
        None => None,
    }
}

/// Position in `available` of the best match for `preferred` (see [`match_spec`]).
fn match_preferred_index(preferred: &[&str], available: &[&str]) -> (r: Option<usize>)
    ensures
        match match_spec(views(preferred@), normalized_all(available@)) {
            Some(i) => 0 <= i < available@.len() && r == Some(i as usize),
            None => r is None,
        },
{
    let av = normalize_all(available);
    let ghost avd = av.deep_view();
    let mut k: usize = 0;
    assert(views(preferred@).skip(0) =~= views(preferred@));
    while k < preferred.len()
        invariant
            k <= preferred@.len(),
            avd == av.deep_view(),
            avd == normalized_all(available@),
            match_spec(views(preferred@), avd) == match_spec(views(preferred@).skip(k as int), avd),
        decreases preferred.len() - k,
    {
        let ghost rest = views(preferred@).skip(k as int);
        assert(rest[0] == preferred@[k as int]@);
        assert(rest.drop_first() =~= views(preferred@).skip(k + 1));
        let n0 = normalize_chars(preferred[k]);
        let n = apply_alias_chars(&n0);
        let chain = chain_chars(&n);
        match chain_match_exec(&chain, &av) {
            Some(i) => {
                proof { lemma_chain_match_in_range(chain.deep_view(), avd); }
                return Some(i);
            },
            None => {},
        }
        let parts = split_chars(&n);
        assert(parts.deep_view()[0] == parts@[0]@);
        match fallback_exec(&av, &parts[0]) {
            Some(i) => {
                proof {
                    let k = choose|k: int| is_best_fallback(avd, parts@[0]@, k);
                }
                return Some(i);
            },
            None => {},
        }
        k += 1;
    }
    None
}

proof fn lemma_first_match_in_range(av: Seq<Seq<char>>, c: Seq<char>, i: int)
    ensures
        first_match_from(av, c, i) matches Some(j) ==> 0 <= j < av.len(),
    decreases av.len() - i,
{
    if 0 <= i < av.len() && av[i] != c {
        lemma_first_match_in_range(av, c, i + 1);
    }
}

proof fn lemma_chain_match_in_range(chain: Seq<Seq<char>>, av: Seq<Seq<char>>)
    ensures
        chain_match(chain, av) matches Some(j) ==> 0 <= j < av.len(),
    decreases chain.len(),
{
    if chain.len() > 0 {
        lemma_first_match_in_range(av, chain[0], 0);
        lemma_chain_match_in_range(chain.drop_first(), av);
    }
}

/// The tags of the languages with shipped translations, in ascending tag order.
pub open spec fn language_tags() -> Seq<Seq<char>> {
    seq![
        "ar"@,
        "en"@,
        "fr"@,
        "it"@,
        "pt-BR"@,
        "pt-PT"@,
        "zh-HK"@,
        "zh-Hans"@,
        "zh-Hant"@,
    ]
}

/// Number of shipped languages.
pub const LANGUAGE_COUNT: usize = 9;
/// Position of English, the fallback language, in the language table.
pub const ENGLISH_INDEX: usize = 1;

fn tag_table() -> (t: [&'static str; 9])
    ensures
        views(t@) == language_tags(),
{
    let t = ["ar", "en", "fr", "it", "pt-BR", "pt-PT", "zh-HK", "zh-Hans", "zh-Hant"];
    assert(views(t@) =~= language_tags());
    t
}

/// One of the languages the app ships translations for.
#[derive(Debug, Clone, Copy, PartialEq, Eq, Structural)]
pub struct Language {
    index: usize,
}

impl View for Language {
    type V = int;

    /// Position of the language in the table of shipped languages.
    closed spec fn view(&self) -> int {
        self.index as int
    }
}

impl Language {
    /// A language is always a position in the language table.
    #[verifier::type_invariant]
    closed spec fn in_table(self) -> bool {
        self.index < LANGUAGE_COUNT
    }

    /// English, the fallback language.
    pub fn english() -> (l: Language)
        ensures
            l@ == ENGLISH_INDEX,
    {
        Language { index: ENGLISH_INDEX }
    }

    /// Every shipped language, in ascending tag order.
    pub fn all() -> (v: Vec<Language>)
        ensures
            v@.len() == LANGUAGE_COUNT,
            forall|i: int| 0 <= i < LANGUAGE_COUNT ==> (#[trigger] v@[i])@ == i,
    {
        let mut v: Vec<Language> = Vec::new();
        let mut i: usize = 0;
        while i < LANGUAGE_COUNT
            invariant
                i <= LANGUAGE_COUNT,
                v@.len() == i,
                forall|k: int| 0 <= k < i ==> (#[trigger] v@[k])@ == k,
            decreases LANGUAGE_COUNT - i,
        {
            v.push(Language { index: i });
            i += 1;
        }
        v
    }

    /// This language's tag, exactly as shipped (e.g. `pt-BR`).
    pub fn tag(self) -> (t: &'static str)
        ensures
            t@ == language_tags()[self@],
    {
        proof {
            use_type_invariant(&self);
        }
        let table = tag_table();
        table[self.index]
    }

    /// Whether this language reads right to left.
    pub fn is_rtl(self) -> (b: bool)
        ensures
            b == (language_tags()[self@] == "ar"@),
    {
        proof {
            use_type_invariant(&self);
        }
        let table = tag_table();
        eq_lit(&chars_of(table[self.index]), "ar")
    }
}

/// `c` with ASCII letters lowercased (nothing else changes).
pub open spec fn ascii_lower_char(c: char) -> char {
    if 'A' <= c <= 'Z' { ((c as u32) + 32) as char } else { c }
}

/// `s` with ASCII letters lowercased.
pub open spec fn ascii_lower(s: Seq<char>) -> Seq<char> {
    Seq::new(s.len(), |i: int| ascii_lower_char(s[i]))
}

fn lower_chars(s: &str) -> (v: Vec<char>)
    ensures
        v@ == ascii_lower(s@),
{
    let chars = chars_of(s);
    let mut v: Vec<char> = Vec::new();
    let mut i: usize = 0;
    while i < chars.len()
        invariant
            i <= chars@.len(),
            chars@ == s@,
            v@ == ascii_lower(chars@.take(i as int)),
        decreases chars.len() - i,
    {
        let c = chars[i];
        let d = if 'A' <= c && c <= 'Z' { ((c as u32) + 32) as u8 as char } else { c };
        v.push(d);
        i += 1;
        assert(v@ =~= ascii_lower(chars@.take(i as int)));
    }
    assert(chars@.take(chars@.len() as int) =~= chars@);
    v
}

/// The shipped tags, ASCII-lowercased.
pub open spec fn lowered_tags() -> Seq<Seq<char>> {
    Seq::new(LANGUAGE_COUNT as nat, |i: int| ascii_lower(language_tags()[i]))
}

/// Looking a shipped language up by its own tag finds it (any ASCII case): the lowercased
/// shipped tags are pairwise distinct.
pub proof fn lemma_from_tag_round_trip(i: int)
    requires
        0 <= i < LANGUAGE_COUNT,
    ensures
        first_match_from(lowered_tags(), ascii_lower(language_tags()[i]), 0) == Some(i),
{
    reveal_strlit("ar");
    reveal_strlit("en");
    reveal_strlit("fr");
    reveal_strlit("it");
    reveal_strlit("pt-BR");
    reveal_strlit("pt-PT");
    reveal_strlit("zh-HK");
    reveal_strlit("zh-Hans");
    reveal_strlit("zh-Hant");
    assert(lowered_tags()[0] =~= seq!['a', 'r']);
    assert(lowered_tags()[1] =~= seq!['e', 'n']);
    assert(lowered_tags()[2] =~= seq!['f', 'r']);
    assert(lowered_tags()[3] =~= seq!['i', 't']);
    assert(lowered_tags()[4] =~= seq!['p', 't', '-', 'b', 'r']);
    assert(lowered_tags()[5] =~= seq!['p', 't', '-', 'p', 't']);
    assert(lowered_tags()[6] =~= seq!['z', 'h', '-', 'h', 'k']);
    assert(lowered_tags()[7] =~= seq!['z', 'h', '-', 'h', 'a', 'n', 's']);
    assert(lowered_tags()[8] =~= seq!['z', 'h', '-', 'h', 'a', 'n', 't']);
    assert(ascii_lower(language_tags()[i]) == lowered_tags()[i]);
    reveal_with_fuel(first_match_from, 10);
}

impl Language {
    /// The language whose tag equals `tag` ignoring ASCII case, if any.
    pub fn from_tag(tag: &str) -> (l: Option<Language>)
        ensures
            match first_match_from(lowered_tags(), ascii_lower(tag@), 0) {
                Some(i) => l matches Some(x) && x@ == i,
                None => l is None,
            },
    {
        let wanted = lower_chars(tag);
        let table = tag_table();
        let mut i: usize = 0;
        while i < LANGUAGE_COUNT
            invariant
                i <= LANGUAGE_COUNT,
                views(table@) == language_tags(),
                wanted@ == ascii_lower(tag@),
                first_match_from(lowered_tags(), ascii_lower(tag@), 0) == first_match_from(
                    lowered_tags(),
                    ascii_lower(tag@),
                    i as int,
                ),
            decreases LANGUAGE_COUNT - i,
        {
            let t = lower_chars(table[i]);
            assert(views(table@)[i as int] == table@[i as int]@);
            assert(lowered_tags()[i as int] == t@);
            assert(lowered_tags().len() == LANGUAGE_COUNT);
            assert(wanted@ == ascii_lower(tag@));
            assert(first_match_from(lowered_tags(), wanted@, i as int) == if t@ == wanted@ {
                Some(i as int)
            } else {
                first_match_from(lowered_tags(), wanted@, i + 1)
            });
            if chars_equal(&t, &wanted) {
                return Some(Language { index: i });
            }
            i += 1;
        }
        None
    }

    /// Picks a language from an ordered list of preferred tags (as macOS reports them, e.g.
    /// `["fr-FR", "en-US"]`): the shipped language [`match_preferred_tag`] finds, English if none.
    pub fn from_preferred(preferred: &[&str]) -> (l: Language)
        ensures
            match match_spec(views(preferred@), normalized_seqs(language_tags())) {
                Some(i) => l@ == i,
                None => l@ == ENGLISH_INDEX,
            },
    {
        let table = tag_table();
        proof {
            assert forall|i: int| 0 <= i < 9 implies #[trigger] normalized_all(table@)[i]
                == normalized_seqs(language_tags())[i] by {
                assert(views(table@)[i] == table@[i]@);
            }
            assert(normalized_all(table@) =~= normalized_seqs(language_tags()));
        }
        match match_preferred_index(preferred, &table) {
            Some(i) => Language { index: i },
            None => Language { index: ENGLISH_INDEX },
        }
    }
}

/// The two-digit, zero-padded form of `n < 100`.
pub open spec fn two_digits(n: nat) -> Seq<char> {
    seq![crate::text::digit_char((n / 10) as int), crate::text::digit_char((n % 10) as int)]
}

/// A duration in whole seconds as `m:ss`: the minutes without padding, the seconds always two
/// digits (42 reads `0:42`, 90 reads `1:30`).
pub fn format_time(total_seconds: u32) -> (s: String)
    ensures
        s@ == decimal((total_seconds / 60) as nat) + seq![':'] + two_digits((total_seconds % 60) as nat),
{
    let minutes = total_seconds / 60;
    let seconds = total_seconds % 60;
    let mut s = String::new();
    push_decimal(&mut s, minutes as u64);
    push_char(&mut s, ':');
    push_char(&mut s, ((seconds / 10) as u8 + 48) as char);
    push_char(&mut s, ((seconds % 10) as u8 + 48) as char);
    proof {
        assert(s@ =~= decimal((total_seconds / 60) as nat) + seq![':'] + two_digits((total_seconds % 60) as nat));
    }
    s
}

/// The keyboard-only HUD's remaining-time text: [`format_time`], the same in every language.
pub fn hud_time_remaining(language: Language, total_seconds: u32) -> (s: String)
    ensures
        s@ == decimal((total_seconds / 60) as nat) + seq![':'] + two_digits((total_seconds % 60) as nat),
{
    format_time(total_seconds)
}

} // verus!
