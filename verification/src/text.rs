//! Localised text: the languages offered, lookup of a message by key with the
//! key itself as fallback, and filling `{name}` placeholders.
use vstd::prelude::*;

use crate::strings::{chars_of, spec_lower, str_eq, string_from_chars};

verus! {

/// A language the game's text comes in.
#[derive(Clone, Copy, Debug, PartialEq, Eq, Structural)]
pub enum Lang {
    En,
    Ja,
    La,
}

/// The language of an exact code.
pub open spec fn lang_index_spec(code: Seq<char>) -> Option<Lang> {
    if code == "en"@ {
        Some(Lang::En)
    } else if code == "ja"@ {
        Some(Lang::Ja)
    } else if code == "la"@ {
        Some(Lang::La)
    } else {
        None
    }
}

/// The language of an exact code: `en`, `ja` or `la`.
pub fn lang_index(code: &str) -> (l: Option<Lang>)
    ensures
        l == lang_index_spec(code@),
{
    if str_eq(code, "en") {
        Some(Lang::En)
    } else if str_eq(code, "ja") {
        Some(Lang::Ja)
    } else if str_eq(code, "la") {
        Some(Lang::La)
    } else {
        None
    }
}

/// The language a player asks for: the code in any letter case.
pub fn parse_lang(code: &str) -> (l: Option<Lang>)
    ensures
        l == lang_index_spec(spec_lower(code@)),
{
    let chars = chars_of(code);
    let lower = crate::strings::lower_chars(&chars);
    let s = string_from_chars(&lower);
    lang_index(s.as_str())
}

impl Lang {
    /// The language's code.
    pub open spec fn code_spec(self) -> Seq<char> {
        match self {
            Lang::En => "en"@,
            Lang::Ja => "ja"@,
            Lang::La => "la"@,
        }
    }

    /// The language's code.
    pub fn code(self) -> (c: &'static str)
        ensures
            c@ == self.code_spec(),
    {
        match self {
            Lang::En => "en",
            Lang::Ja => "ja",
            Lang::La => "la",
        }
    }

    /// The language stored as `v` (0 English, 1 Japanese, 2 Latin; any
    /// other value reads as English).
    pub fn from_index(v: u8) -> (l: Lang)
        ensures
            l == (if v == 1 {
                Lang::Ja
            } else if v == 2 {
                Lang::La
            } else {
                Lang::En
            }),
    {
        if v == 1 {
            Lang::Ja
        } else if v == 2 {
            Lang::La
        } else {
            Lang::En
        }
    }

    /// The number the language is stored as.
    pub fn index(self) -> (v: u8)
        ensures
            Lang::from_index_spec(v) == self,
            v <= 2,
    {
        match self {
            Lang::En => 0,
            Lang::Ja => 1,
            Lang::La => 2,
        }
    }

    pub open spec fn from_index_spec(v: u8) -> Lang {
        if v == 1 {
            Lang::Ja
        } else if v == 2 {
            Lang::La
        } else {
            Lang::En
        }
    }
}

/// Law: every language's code reads back as that language, whatever the
/// letter case it is written in.
pub proof fn lemma_lang_code_roundtrip(l: Lang)
    ensures
        lang_index_spec(l.code_spec()) == Some(l),
        lang_index_spec(spec_lower(l.code_spec())) == Some(l),
{
    reveal_strlit("en");
    reveal_strlit("ja");
    reveal_strlit("la");
    assert("en"@[0] != "ja"@[0] && "en"@[0] != "la"@[0] && "ja"@[0] != "la"@[0]);
    assert(spec_lower("en"@) =~= "en"@);
    assert(spec_lower("ja"@) =~= "ja"@);
    assert(spec_lower("la"@) =~= "la"@);
}

/// The languages offered, as code and English name.
pub fn available_languages() -> (langs: Vec<(&'static str, &'static str)>)
    ensures
        langs@.len() == 3,
        langs@[0].0@ == "en"@ && langs@[0].1@ == "English"@,
        langs@[1].0@ == "ja"@ && langs@[1].1@ == "Japanese"@,
        langs@[2].0@ == "la"@ && langs@[2].1@ == "Latin"@,
{
    let mut v: Vec<(&'static str, &'static str)> = Vec::new();
    v.push(("en", "English"));
    v.push(("ja", "Japanese"));
    v.push(("la", "Latin"));
    v
}

/// One language's messages, as key and text.
pub struct TextBundle {
    pub entries: Vec<(String, String)>,
}

pub open spec fn entries_view(e: Seq<(String, String)>) -> Seq<(Seq<char>, Seq<char>)> {
    e.map_values(|p: (String, String)| (p.0@, p.1@))
}

/// The text of `key`: the first entry with that key, else the key itself.
pub open spec fn lookup_spec(entries: Seq<(Seq<char>, Seq<char>)>, key: Seq<char>) -> Seq<char>
    decreases entries.len(),
{
    if entries.len() == 0 {
        key
    } else if entries[0].0 == key {
        entries[0].1
    } else {
        lookup_spec(entries.subrange(1, entries.len() as int), key)
    }
}

impl TextBundle {
    /// The text of `key`, or the key itself when the bundle lacks it.
    pub fn tr(&self, key: &str) -> (s: String)
        ensures
            s@ == lookup_spec(entries_view(self.entries@), key@),
    {
        let ghost ev = entries_view(self.entries@);
        let mut i: usize = 0;
        assert(ev.subrange(0, ev.len() as int) =~= ev);
        while i < self.entries.len()
            invariant
                i <= self.entries@.len(),
                ev == entries_view(self.entries@),
                lookup_spec(ev, key@) == lookup_spec(ev.subrange(i as int, ev.len() as int), key@),
            decreases self.entries@.len() - i,
        {
            let ghost rest = ev.subrange(i as int, ev.len() as int);
            assert(rest.subrange(1, rest.len() as int) =~= ev.subrange(i + 1, ev.len() as int));
            assert(rest[0] == ev[i as int]);
            if str_eq(self.entries[i].0.as_str(), key) {
                return self.entries[i].1.clone();
            }
            i = i + 1;
        }
        key.to_owned()
    }
}

// ---------------------------------------------------------------------------
// Placeholders
// ---------------------------------------------------------------------------

/// `s` with every occurrence of `pat` replaced by `val`, scanning left to
/// right without overlaps, as `str::replace` does.
pub open spec fn replace_spec(s: Seq<char>, pat: Seq<char>, val: Seq<char>) -> Seq<char>
    decreases s.len(),
{
    if pat.len() == 0 || s.len() < pat.len() {
        s
    } else if s.subrange(0, pat.len() as int) == pat {
        val + replace_spec(s.subrange(pat.len() as int, s.len() as int), pat, val)
    } else {
        seq![s[0]] + replace_spec(s.subrange(1, s.len() as int), pat, val)
    }
}

fn matches_at(s: &Vec<char>, i: usize, pat: &Vec<char>) -> (b: bool)
    requires
        i <= s@.len(),
    ensures
        b == (s@.len() - i >= pat@.len() && s@.subrange(i as int, i + pat@.len()) == pat@),
{
    if s.len() - i < pat.len() {
        return false;
    }
    let n = s.len();
    let mut k: usize = 0;
    while k < pat.len()
        invariant
            k <= pat@.len(),
            n == s@.len(),
            i + pat@.len() <= s@.len(),
            forall|j: int| 0 <= j < k ==> s@[i + j] == pat@[j],
        decreases pat@.len() - k,
    {
        assert(i + k < n);
        if s[i + k] != pat[k] {
            assert(s@.subrange(i as int, i + pat@.len())[k as int] != pat@[k as int]);
            return false;
        }
        k = k + 1;
    }
    assert(s@.subrange(i as int, i + pat@.len()) =~= pat@);
    true
}

/// `s` with every occurrence of `pat` (not empty) replaced by `val`.
pub fn replace_all(s: &Vec<char>, pat: &Vec<char>, val: &Vec<char>) -> (r: Vec<char>)
    requires
        pat@.len() > 0,
    ensures
        r@ == replace_spec(s@, pat@, val@),
{
    let mut out: Vec<char> = Vec::new();
    let mut i: usize = 0;
    assert(s@.subrange(0, s@.len() as int) =~= s@);
    assert(out@ + s@ =~= s@);
    while i < s.len()
        invariant
            i <= s@.len(),
            pat@.len() > 0,
            out@ + replace_spec(s@.subrange(i as int, s@.len() as int), pat@, val@) == replace_spec(s@, pat@, val@),
        decreases s@.len() - i,
    {
        let ghost rest = s@.subrange(i as int, s@.len() as int);
        if matches_at(s, i, pat) {
            proof {
                assert(rest.subrange(0, pat@.len() as int) =~= s@.subrange(i as int, i + pat@.len()));
                assert(rest.subrange(pat@.len() as int, rest.len() as int) =~= s@.subrange(i + pat@.len(), s@.len() as int));
            }
            let mut k: usize = 0;
            let ghost before = out@;
            while k < val.len()
                invariant
                    k <= val@.len(),
                    out@ == before + val@.subrange(0, k as int),
                decreases val@.len() - k,
            {
                out.push(val[k]);
                assert(before + val@.subrange(0, k + 1) =~= before + val@.subrange(0, k as int) + seq![val@[k as int]]);
                k = k + 1;
            }
            assert(val@.subrange(0, val@.len() as int) =~= val@);
            assert(before + (val@ + replace_spec(s@.subrange(i + pat@.len(), s@.len() as int), pat@, val@)) =~= out@ + replace_spec(s@.subrange(i + pat@.len(), s@.len() as int), pat@, val@));
            i = i + pat.len();
        } else {
            proof {
                if rest.len() >= pat@.len() {
                    assert(rest.subrange(0, pat@.len() as int) =~= s@.subrange(i as int, i + pat@.len()));
                }
                assert(rest.subrange(1, rest.len() as int) =~= s@.subrange(i + 1, s@.len() as int));
            }
            let ghost before = out@;
            out.push(s[i]);
            proof {
                if rest.len() < pat@.len() {
                    lemma_replace_short(rest, pat@, val@);
                    lemma_replace_short(s@.subrange(i + 1, s@.len() as int), pat@, val@);
                    assert(rest =~= seq![s@[i as int]] + s@.subrange(i + 1, s@.len() as int));
                }
                assert(before + (seq![s@[i as int]] + replace_spec(s@.subrange(i + 1, s@.len() as int), pat@, val@)) =~= out@ + replace_spec(s@.subrange(i + 1, s@.len() as int), pat@, val@));
            }
            i = i + 1;
        }
    }
    proof {
        assert(s@.subrange(i as int, s@.len() as int) =~= Seq::<char>::empty());
        assert(out@ + Seq::<char>::empty() =~= out@);
    }
    out
}

proof fn lemma_replace_short(s: Seq<char>, pat: Seq<char>, val: Seq<char>)
    requires
        s.len() < pat.len(),
    ensures
        replace_spec(s, pat, val) == s,
{
}

/// The placeholder `{name}`.
pub open spec fn placeholder(name: Seq<char>) -> Seq<char> {
    seq!['{'] + name + seq!['}']
}

/// A template with each `{name}` of `args` replaced by its value, in order.
pub open spec fn fill_spec(template: Seq<char>, args: Seq<(Seq<char>, Seq<char>)>) -> Seq<char>
    decreases args.len(),
{
    if args.len() == 0 {
        template
    } else {
        let prev = fill_spec(template, args.drop_last());
        replace_spec(prev, placeholder(args.last().0), args.last().1)
    }
}

fn placeholder_chars(name: &str) -> (pat: Vec<char>)
    ensures
        pat@ == placeholder(name@),
{
    let name = chars_of(name);
    let mut pat: Vec<char> = Vec::new();
    pat.push('{');
    let mut k: usize = 0;
    while k < name.len()
        invariant
            k <= name@.len(),
            pat@ == seq!['{'] + name@.subrange(0, k as int),
        decreases name@.len() - k,
    {
        pat.push(name[k]);
        assert(seq!['{'] + name@.subrange(0, k + 1) =~= seq!['{'] + name@.subrange(0, k as int) + seq![name@[k as int]]);
        k = k + 1;
    }
    pat.push('}');
    assert(name@.subrange(0, name@.len() as int) =~= name@);
    assert(pat@ =~= placeholder(name@));
    pat
}

/// `template` with each `{name}` of `args` replaced by its value, in order.
pub fn fill_template(template: &str, args: &Vec<(String, String)>) -> (s: String)
    ensures
        s@ == fill_spec(template@, entries_view(args@)),
{
    let mut out = chars_of(template);
    let ghost av = entries_view(args@);
    let mut i: usize = 0;
    while i < args.len()
        invariant
            i <= args@.len(),
            av == entries_view(args@),
            out@ == fill_spec(template@, av.subrange(0, i as int)),
        decreases args@.len() - i,
    {
        assert(av.subrange(0, i + 1).drop_last() =~= av.subrange(0, i as int));
        let pat = placeholder_chars(args[i].0.as_str());
        let value = chars_of(args[i].1.as_str());
        out = replace_all(&out, &pat, &value);
        i = i + 1;
    }
    assert(av.subrange(0, av.len() as int) =~= av);
    string_from_chars(&out)
}

pub open spec fn str_pairs_view(e: Seq<(&str, String)>) -> Seq<(Seq<char>, Seq<char>)> {
    e.map_values(|p: (&str, String)| (p.0@, p.1@))
}

/// `template` with each `{name}` of `args` replaced by its value, in order.
pub fn fill_template_str(template: &str, args: &Vec<(&str, String)>) -> (s: String)
    ensures
        s@ == fill_spec(template@, str_pairs_view(args@)),
{
    let mut out = chars_of(template);
    let ghost av = str_pairs_view(args@);
    let mut i: usize = 0;
    while i < args.len()
        invariant
            i <= args@.len(),
            av == str_pairs_view(args@),
            out@ == fill_spec(template@, av.subrange(0, i as int)),
        decreases args@.len() - i,
    {
        assert(av.subrange(0, i + 1).drop_last() =~= av.subrange(0, i as int));
        let pat = placeholder_chars(args[i].0);
        let value = chars_of(args[i].1.as_str());
        out = replace_all(&out, &pat, &value);
        i = i + 1;
    }
    assert(av.subrange(0, av.len() as int) =~= av);
    string_from_chars(&out)
}

/// The game's text: the language in use and the messages of each language.
pub struct Texts {
    pub lang: Lang,
    pub en: TextBundle,
    pub ja: TextBundle,
    pub la: TextBundle,
}

impl Texts {
    /// The messages of the language in use.
    pub open spec fn active_spec(&self) -> Seq<(Seq<char>, Seq<char>)> {
        match self.lang {
            Lang::En => entries_view(self.en.entries@),
            Lang::Ja => entries_view(self.ja.entries@),
            Lang::La => entries_view(self.la.entries@),
        }
    }

    /// The messages of the language in use.
    pub fn active(&self) -> (b: &TextBundle)
        ensures
            entries_view(b.entries@) == self.active_spec(),
    {
        match self.lang {
            Lang::En => &self.en,
            Lang::Ja => &self.ja,
            Lang::La => &self.la,
        }
    }

    /// Switches to the language `code` names, in any letter case; an unknown
    /// code changes nothing. Reports whether it was known.
    pub fn set_lang(&mut self, code: &str) -> (ok: bool)
        ensures
            ok == lang_index_spec(spec_lower(code@)) is Some,
            final(self).lang == (match lang_index_spec(spec_lower(code@)) {
                Some(l) => l,
                None => old(self).lang,
            }),
            final(self).en.entries@ == old(self).en.entries@,
            final(self).ja.entries@ == old(self).ja.entries@,
            final(self).la.entries@ == old(self).la.entries@,
    {
        match parse_lang(code) {
            Some(l) => {
                self.lang = l;
                true
            },
            None => false,
        }
    }

    /// The code of the language in use.
    pub fn current_lang(&self) -> (c: &'static str)
        ensures
            c@ == self.lang.code_spec(),
    {
        self.lang.code()
    }

    /// The message of `key` in the language in use, or the key itself.
    pub fn tr(&self, key: &str) -> (s: String)
        ensures
            s@ == lookup_spec(self.active_spec(), key@),
    {
        self.active().tr(key)
    }

    /// The message of `key` with its `{name}` placeholders filled.
    pub fn trf(&self, key: &str, args: &Vec<(&str, String)>) -> (s: String)
        ensures
            s@ == fill_spec(lookup_spec(self.active_spec(), key@), str_pairs_view(args@)),
    {
        let t = self.tr(key);
        fill_template_str(t.as_str(), args)
    }

    /// The message of `key` with its `{name}` placeholders filled.
    pub fn trf_map(&self, key: &str, args: &Vec<(String, String)>) -> (s: String)
        ensures
            s@ == fill_spec(lookup_spec(self.active_spec(), key@), entries_view(args@)),
    {
        let t = self.tr(key);
        fill_template(t.as_str(), args)
    }

    /// The message of `key`, or `fallback` when there is none.
    pub fn tr_or_fallback(&self, key: &str, fallback: &str) -> (s: String)
        ensures
            s@ == (if lookup_spec(self.active_spec(), key@) == key@ {
                fallback@
            } else {
                lookup_spec(self.active_spec(), key@)
            }),
    {
        let v = self.tr(key);
        if str_eq(v.as_str(), key) {
            fallback.to_owned()
        } else {
            v
        }
    }
}

// ---------------------------------------------------------------------------
// Log arguments
// ---------------------------------------------------------------------------

/// The mark that starts a reference inside a log argument.
pub open spec fn ref_mark() -> char {
    '\u{1f}'
}

/// A log argument names an item, a creature or a message to be shown in the
/// reader's language, or is plain text.
#[derive(Clone, Debug)]
pub enum LogArgRef {
    Item(crate::items::Item),
    Creature(String),
    Text(String),
    Plain(String),
}

/// `s` starts with `p`; gives the rest.
pub open spec fn strip_prefix_spec(s: Seq<char>, p: Seq<char>) -> Option<Seq<char>> {
    if s.len() >= p.len() && s.subrange(0, p.len() as int) == p {
        Some(s.subrange(p.len() as int, s.len() as int))
    } else {
        None
    }
}

pub open spec fn item_prefix() -> Seq<char> {
    seq![ref_mark()] + "item:"@
}

pub open spec fn creature_prefix() -> Seq<char> {
    seq![ref_mark()] + "creature:"@
}

pub open spec fn text_prefix() -> Seq<char> {
    seq![ref_mark()] + "text:"@
}

/// What a log argument refers to: an item reference whose key names an item,
/// else a creature reference, else a message reference, else plain text.
pub open spec fn log_arg_spec(v: Seq<char>) -> (int, Seq<char>) {
    if strip_prefix_spec(v, item_prefix()) is Some && crate::items::Item::from_key_spec(
        strip_prefix_spec(v, item_prefix())->0,
    ) is Some {
        (0, strip_prefix_spec(v, item_prefix())->0)
    } else if strip_prefix_spec(v, creature_prefix()) is Some {
        (1, strip_prefix_spec(v, creature_prefix())->0)
    } else if strip_prefix_spec(v, text_prefix()) is Some {
        (2, strip_prefix_spec(v, text_prefix())->0)
    } else {
        (3, v)
    }
}

fn strip_prefix_chars(s: &Vec<char>, p: &Vec<char>) -> (r: Option<Vec<char>>)
    ensures
        match strip_prefix_spec(s@, p@) {
            Some(rest) => r matches Some(v) && v@ == rest,
            None => r is None,
        },
{
    if s.len() < p.len() {
        return None;
    }
    let mut k: usize = 0;
    while k < p.len()
        invariant
            k <= p@.len(),
            p@.len() <= s@.len(),
            forall|j: int| 0 <= j < k ==> s@[j] == p@[j],
        decreases p@.len() - k,
    {
        if s[k] != p[k] {
            assert(s@.subrange(0, p@.len() as int)[k as int] != p@[k as int]);
            return None;
        }
        k = k + 1;
    }
    assert(s@.subrange(0, p@.len() as int) =~= p@);
    let mut rest: Vec<char> = Vec::new();
    let mut i: usize = p.len();
    while i < s.len()
        invariant
            p@.len() <= i <= s@.len(),
            rest@ == s@.subrange(p@.len() as int, i as int),
        decreases s@.len() - i,
    {
        rest.push(s[i]);
        assert(s@.subrange(p@.len() as int, i + 1) =~= s@.subrange(p@.len() as int, i as int).push(s@[i as int]));
        i = i + 1;
    }
    Some(rest)
}

fn prefix_chars(word: &str) -> (v: Vec<char>)
    ensures
        v@ == seq![ref_mark()] + word@,
{
    let w = chars_of(word);
    let mut v: Vec<char> = Vec::new();
    v.push('\u{1f}');
    let mut i: usize = 0;
    while i < w.len()
        invariant
            i <= w@.len(),
            v@ == seq![ref_mark()] + w@.subrange(0, i as int),
        decreases w@.len() - i,
    {
        v.push(w[i]);
        assert(seq![ref_mark()] + w@.subrange(0, i + 1) =~= seq![ref_mark()] + w@.subrange(0, i as int) + seq![w@[i as int]]);
        i = i + 1;
    }
    assert(w@.subrange(0, w@.len() as int) =~= w@);
    v
}

/// What a log argument refers to (see `log_arg_spec`).
pub fn parse_log_arg(value: &str) -> (r: LogArgRef)
    ensures
        ({
            let (k, rest) = log_arg_spec(value@);
            match r {
                LogArgRef::Item(it) => k == 0 && crate::items::Item::from_key_spec(rest) == Some(it),
                LogArgRef::Creature(id) => k == 1 && id@ == rest,
                LogArgRef::Text(key) => k == 2 && key@ == rest,
                LogArgRef::Plain(t) => k == 3 && t@ == rest,
            }
        }),
{
    let v = chars_of(value);
    let ip = prefix_chars("item:");
    if let Some(rest) = strip_prefix_chars(&v, &ip) {
        let key = string_from_chars(rest.as_slice());
        if let Some(it) = crate::items::Item::from_key(key.as_str()) {
            return LogArgRef::Item(it);
        }
    }
    let cp = prefix_chars("creature:");
    if let Some(rest) = strip_prefix_chars(&v, &cp) {
        return LogArgRef::Creature(string_from_chars(rest.as_slice()));
    }
    let tp = prefix_chars("text:");
    if let Some(rest) = strip_prefix_chars(&v, &tp) {
        return LogArgRef::Text(string_from_chars(rest.as_slice()));
    }
    LogArgRef::Plain(value.to_owned())
}

fn concat_mark(word: &str, tail: &str) -> (s: String)
    ensures
        s@ == seq![ref_mark()] + word@ + tail@,
{
    let mut v = prefix_chars(word);
    let t = chars_of(tail);
    let mut i: usize = 0;
    let ghost start = v@;
    while i < t.len()
        invariant
            i <= t@.len(),
            v@ == start + t@.subrange(0, i as int),
        decreases t@.len() - i,
    {
        v.push(t[i]);
        assert(start + t@.subrange(0, i + 1) =~= start + t@.subrange(0, i as int) + seq![t@[i as int]]);
        i = i + 1;
    }
    assert(t@.subrange(0, t@.len() as int) =~= t@);
    assert(v@ =~= seq![ref_mark()] + word@ + tail@);
    string_from_chars(&v)
}

/// A log argument that shows an item's name in the reader's language.
pub fn log_arg_item_ref(item: crate::items::Item) -> (s: String)
    ensures
        s@ == item_prefix() + item.key_spec(),
{
    concat_mark("item:", item.key())
}

/// A log argument that shows a creature's name in the reader's language.
pub fn log_arg_creature_ref(id: &str) -> (s: String)
    ensures
        s@ == creature_prefix() + id@,
{
    concat_mark("creature:", id)
}

/// A log argument that shows a message in the reader's language.
pub fn log_arg_text_ref(key: &str) -> (s: String)
    ensures
        s@ == text_prefix() + key@,
{
    concat_mark("text:", key)
}

/// A log argument for a bag entry: its own name when it has a non-empty
/// one, else a reference to its item.
pub fn log_arg_inventory_item_ref(item: &crate::inventory::InventoryItem) -> (s: String)
    ensures
        s@ == (match item.custom_name {
            Some(n) => if n@.len() > 0 { n@ } else { item_prefix() + item.kind.key_spec() },
            None => item_prefix() + item.kind.key_spec(),
        }),
{
    match &item.custom_name {
        Some(name) => {
            if name.unicode_len() > 0 {
                name.clone()
            } else {
                log_arg_item_ref(item.kind)
            }
        },
        None => log_arg_item_ref(item.kind),
    }
}

/// Law: an item reference reads back as that item, and a creature or
/// message reference as the id or key it was made from.
pub proof fn lemma_log_refs_roundtrip(item: crate::items::Item, id: Seq<char>, key: Seq<char>)
    ensures
        log_arg_spec(item_prefix() + item.key_spec()) == (0int, item.key_spec()),
        log_arg_spec(text_prefix() + key) == (2int, key),
{
    reveal_strlit("item:");
    reveal_strlit("creature:");
    reveal_strlit("text:");
    let s = item_prefix() + item.key_spec();
    assert(s.subrange(0, item_prefix().len() as int) =~= item_prefix());
    assert(s.subrange(item_prefix().len() as int, s.len() as int) =~= item.key_spec());
    crate::items::lemma_item_key_roundtrip(item, item.key_spec());
    let t = text_prefix() + key;
    assert(t.subrange(0, text_prefix().len() as int) =~= text_prefix());
    assert(t.subrange(text_prefix().len() as int, t.len() as int) =~= key);
    assert(t[1] == 't');
    assert(item_prefix()[1] == 'i');
    assert(creature_prefix()[1] == 'c');
    assert(strip_prefix_spec(t, item_prefix()) is None) by {
        if t.len() >= item_prefix().len() {
            assert(t.subrange(0, item_prefix().len() as int)[1] != item_prefix()[1]);
        }
    }
    assert(strip_prefix_spec(t, creature_prefix()) is None) by {
        if t.len() >= creature_prefix().len() {
            assert(t.subrange(0, creature_prefix().len() as int)[1] != creature_prefix()[1]);
        }
    }
}

proof fn lemma_replace_without_brace(s: Seq<char>, pat: Seq<char>, val: Seq<char>)
    requires
        pat.len() > 0,
        pat[0] == '{',
        !s.contains('{'),
    ensures
        replace_spec(s, pat, val) == s,
    decreases s.len(),
{
    if s.len() >= pat.len() {
        assert(s.subrange(0, pat.len() as int)[0] == s[0]);
        assert(s[0] != '{') by {
            if s[0] == '{' {
                assert(s.contains('{'));
            }
        }
        let t = s.subrange(1, s.len() as int);
        assert(!t.contains('{')) by {
            if t.contains('{') {
                let j = choose|j: int| 0 <= j < t.len() && t[j] == '{';
                assert(s[j + 1] == '{');
            }
        }
        lemma_replace_without_brace(t, pat, val);
        assert(seq![s[0]] + t =~= s);
    }
}

/// Law: a message without `{` comes back unchanged whatever arguments are
/// given to fill it.
pub proof fn lemma_fill_without_placeholders(template: Seq<char>, args: Seq<(Seq<char>, Seq<char>)>)
    requires
        !template.contains('{'),
    ensures
        fill_spec(template, args) == template,
    decreases args.len(),
{
    if args.len() > 0 {
        lemma_fill_without_placeholders(template, args.drop_last());
        lemma_replace_without_brace(template, placeholder(args.last().0), args.last().1);
    }
}

} // verus!
