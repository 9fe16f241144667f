//! Completion for the debug console: the words that may follow what has
//! been typed so far, and the line a chosen completion gives.
use vstd::prelude::*;

use crate::catalog::GameDefs;
use crate::debug::{split_words, words_spec};
use crate::strings::{chars_of, leading_ws, leading_ws_len, lower_chars, spec_lower, string_from_chars};

verus! {

/// Largest number of item ids offered after `give`.
pub const GIVE_SUGGESTION_LIMIT: usize = 16;

// ---------------------------------------------------------------------------
// Order of words
// ---------------------------------------------------------------------------

/// `a` sorts before `b`: the first differing character is smaller, or `a`
/// is a proper prefix of `b` (the order of Rust strings).
pub open spec fn lex_lt(a: Seq<char>, b: Seq<char>) -> bool
    decreases a.len(),
{
    if a.len() == 0 {
        b.len() > 0
    } else if b.len() == 0 {
        false
    } else if a[0] != b[0] {
        a[0] < b[0]
    } else {
        lex_lt(a.drop_first(), b.drop_first())
    }
}

proof fn lemma_lex_irreflexive(a: Seq<char>)
    ensures
        !lex_lt(a, a),
    decreases a.len(),
{
    if a.len() > 0 {
        lemma_lex_irreflexive(a.drop_first());
    }
}

proof fn lemma_lex_transitive(a: Seq<char>, b: Seq<char>, c: Seq<char>)
    requires
        lex_lt(a, b),
        lex_lt(b, c),
    ensures
        lex_lt(a, c),
    decreases a.len(),
{
    if a.len() > 0 && b.len() > 0 && c.len() > 0 && a[0] == b[0] && b[0] == c[0] {
        lemma_lex_transitive(a.drop_first(), b.drop_first(), c.drop_first());
    }
}

proof fn lemma_lex_total(a: Seq<char>, b: Seq<char>)
    requires
        a != b,
    ensures
        lex_lt(a, b) || lex_lt(b, a),
    decreases a.len(),
{
    if a.len() > 0 && b.len() > 0 && a[0] == b[0] {
        if a.drop_first() == b.drop_first() {
            assert(a =~= seq![a[0]] + a.drop_first());
            assert(b =~= seq![b[0]] + b.drop_first());
            assert(false);
        } else {
            lemma_lex_total(a.drop_first(), b.drop_first());
        }
    } else if a.len() == 0 && b.len() == 0 {
        assert(a =~= b);
    } else if a.len() > 0 && b.len() > 0 {
    }
}

/// Whether `a` sorts before `b`.
fn lex_less(a: &Vec<char>, b: &Vec<char>) -> (r: bool)
    ensures
        r == lex_lt(a@, b@),
{
    let mut i: usize = 0;
    assert(a@.subrange(0, a@.len() as int) =~= a@);
    assert(b@.subrange(0, b@.len() as int) =~= b@);
    while i < a.len() && i < b.len() && a[i] == b[i]
        invariant
            i <= a@.len(),
            i <= b@.len(),
            lex_lt(a@, b@) == lex_lt(a@.subrange(i as int, a@.len() as int), b@.subrange(i as int, b@.len() as int)),
        decreases a@.len() - i,
    {
        let ghost sa = a@.subrange(i as int, a@.len() as int);
        let ghost sb = b@.subrange(i as int, b@.len() as int);
        assert(sa.drop_first() =~= a@.subrange(i + 1, a@.len() as int));
        assert(sb.drop_first() =~= b@.subrange(i + 1, b@.len() as int));
        i = i + 1;
    }
    if i == a.len() {
        i < b.len()
    } else if i == b.len() {
        false
    } else {
        a[i] < b[i]
    }
}

// ---------------------------------------------------------------------------
// What has been typed
// ---------------------------------------------------------------------------

/// `str::trim_start`.
pub open spec fn trim_start_spec(s: Seq<char>) -> Seq<char> {
    s.subrange(leading_ws(s) as int, s.len() as int)
}

/// `p` is a prefix of `s`.
pub open spec fn prefix_of(p: Seq<char>, s: Seq<char>) -> bool {
    p.len() <= s.len() && s.subrange(0, p.len() as int) == p
}

/// The words of `list` that start with `cur`, in order.
pub open spec fn keep_prefixed(list: Seq<Seq<char>>, cur: Seq<char>) -> Seq<Seq<char>>
    decreases list.len(),
{
    if list.len() == 0 {
        list
    } else {
        let rest = keep_prefixed(list.drop_last(), cur);
        if prefix_of(cur, list.last()) {
            rest.push(list.last())
        } else {
            rest
        }
    }
}

pub open spec fn top_words() -> Seq<Seq<char>> {
    seq!["give"@, "tp"@, "find_exit"@, "inv"@, "floor"@, "place"@]
}

pub open spec fn tp_words() -> Seq<Seq<char>> {
    seq!["exit"@, "ruin"@, "altar"@, "temple"@, "substory"@]
}

pub open spec fn inv_words() -> Seq<Seq<char>> {
    seq!["on"@, "off"@, "toggle"@]
}

pub open spec fn place_words() -> Seq<Seq<char>> {
    seq!["tree"@, "rock"@, "tablet"@, "altar"@, "temple"@, "terminal"@, "vending"@, "bone"@, "cable"@]
}

pub open spec fn tablet_words() -> Seq<Seq<char>> {
    seq!["mercy"@, "might"@, "oracle"@]
}

/// What completing `input` offers: item ids starting with the returned
/// prefix (when the first part is true), or else the fixed list.
/// With nothing typed, every command; while the first word is typed, the
/// commands it starts; after `give`, `tp`, `inv` or `place`, the first
/// argument's words starting with what is typed of it; after
/// `place tablet`, the tablet kinds.
pub open spec fn completion_plan(input: Seq<char>) -> (bool, Seq<char>, Seq<Seq<char>>) {
    let t = trim_start_spec(input);
    let parts = words_spec(t);
    let ews = t.len() > 0 && t.last() == ' ';
    if parts.len() == 0 {
        (false, Seq::empty(), top_words())
    } else if parts.len() == 1 && !ews {
        (false, Seq::empty(), keep_prefixed(top_words(), spec_lower(parts[0])))
    } else {
        let cmd = spec_lower(parts[0]);
        let arg_index = if ews { parts.len() as int } else { parts.len() - 1 };
        let cur = if ews { Seq::empty() } else { spec_lower(parts.last()) };
        if cmd == "give"@ {
            (arg_index == 1, cur, Seq::empty())
        } else if cmd == "tp"@ && arg_index == 1 {
            (false, Seq::empty(), keep_prefixed(tp_words(), cur))
        } else if cmd == "inv"@ && arg_index == 1 {
            (false, Seq::empty(), keep_prefixed(inv_words(), cur))
        } else if cmd == "place"@ && arg_index == 1 {
            (false, Seq::empty(), keep_prefixed(place_words(), cur))
        } else if cmd == "place"@ && parts.len() > 1 && spec_lower(parts[1]) == "tablet"@ && arg_index == 2 {
            (false, Seq::empty(), keep_prefixed(tablet_words(), cur))
        } else {
            (false, Seq::empty(), Seq::empty())
        }
    }
}

/// `c` is one of the `ids` and starts with `cur`.
pub open spec fn id_candidate(ids: Seq<Seq<char>>, cur: Seq<char>, c: Seq<char>) -> bool {
    exists|k: int| 0 <= k < ids.len() && ids[k] == c && prefix_of(cur, c)
}

/// `r` is the first `cap` of the candidate ids in sorted order, each once.
pub open spec fn first_sorted(ids: Seq<Seq<char>>, cur: Seq<char>, cap: int, r: Seq<Seq<char>>) -> bool {
    &&& r.len() <= cap
    &&& forall|i: int, j: int| 0 <= i < j < r.len() ==> lex_lt(#[trigger] r[i], #[trigger] r[j])
    &&& forall|i: int| 0 <= i < r.len() ==> id_candidate(ids, cur, #[trigger] r[i])
    &&& forall|c: Seq<char>| #[trigger] id_candidate(ids, cur, c) ==> (exists|i: int| 0 <= i < r.len() && r[i] == c)
        || (r.len() == cap && lex_lt(r[cap - 1], c))
}

/// The ids of the item definitions, in file order.
pub open spec fn item_ids(defs: GameDefs) -> Seq<Seq<char>> {
    defs.items@.map_values(|d: crate::catalog::ItemDef| d.id@)
}

/// Character sequences of a list of strings.
pub open spec fn strings_view(v: Seq<String>) -> Seq<Seq<char>> {
    v.map_values(|s: String| s@)
}

/// Character sequences of a list of character vectors.
pub open spec fn chars_view(v: Seq<Vec<char>>) -> Seq<Seq<char>> {
    v.map_values(|s: Vec<char>| s@)
}

// ---------------------------------------------------------------------------
// Building the lists
// ---------------------------------------------------------------------------

fn word_list(words: &[&str]) -> (v: Vec<Vec<char>>)
    ensures
        v@.len() == words@.len(),
        forall|i: int| 0 <= i < words@.len() ==> #[trigger] v@[i]@ == words@[i]@,
{
    let mut v: Vec<Vec<char>> = Vec::new();
    let mut i: usize = 0;
    while i < words.len()
        invariant
            i <= words@.len(),
            v@.len() == i,
            forall|k: int| 0 <= k < i ==> #[trigger] v@[k]@ == words@[k]@,
        decreases words@.len() - i,
    {
        v.push(chars_of(words[i]));
        i = i + 1;
    }
    v
}

fn starts_with(p: &Vec<char>, s: &Vec<char>) -> (r: bool)
    ensures
        r == prefix_of(p@, s@),
{
    if p.len() > s.len() {
        return false;
    }
    let mut i: usize = 0;
    while i < p.len()
        invariant
            p@.len() <= s@.len(),
            i <= p@.len(),
            forall|k: int| 0 <= k < i ==> s@[k] == p@[k],
        decreases p@.len() - i,
    {
        if p[i] != s[i] {
            assert(s@.subrange(0, p@.len() as int)[i as int] != p@[i as int]);
            return false;
        }
        i = i + 1;
    }
    assert(s@.subrange(0, p@.len() as int) =~= p@);
    true
}

fn keep_prefixed_exec(list: &Vec<Vec<char>>, cur: &Vec<char>) -> (r: Vec<Vec<char>>)
    ensures
        chars_view(r@) == keep_prefixed(chars_view(list@), cur@),
{
    let mut out: Vec<Vec<char>> = Vec::new();
    let mut i: usize = 0;
    while i < list.len()
        invariant
            i <= list@.len(),
            chars_view(out@) == keep_prefixed(chars_view(list@).subrange(0, i as int), cur@),
        decreases list@.len() - i,
    {
        let ghost lv = chars_view(list@);
        assert(lv.subrange(0, i + 1).drop_last() =~= lv.subrange(0, i as int));
        assert(lv.subrange(0, i + 1).last() == list@[i as int]@);
        let ghost before = out@;
        if starts_with(cur, &list[i]) {
            out.push(list[i].clone());
            assert(chars_view(out@) =~= chars_view(before).push(list@[i as int]@));
        }
        i = i + 1;
    }
    assert(chars_view(list@).subrange(0, list@.len() as int) =~= chars_view(list@));
    out
}

/// Inserts candidate `x` into the sorted list `r` of at most `cap` words,
/// keeping it sorted, without repeats and at most `cap` long.
fn insert_capped(
    r: &mut Vec<Vec<char>>,
    x: Vec<char>,
    cap: usize,
    Ghost(ids): Ghost<Seq<Seq<char>>>,
    Ghost(cur): Ghost<Seq<char>>,
    Ghost(k): Ghost<int>,
)
    requires
        cap >= 1,
        0 <= k < ids.len(),
        ids[k] == x@,
        prefix_of(cur, x@),
        first_sorted(ids.subrange(0, k), cur, cap as int, chars_view(old(r)@)),
    ensures
        first_sorted(ids.subrange(0, k + 1), cur, cap as int, chars_view(final(r)@)),
{
    let ghost old_r = chars_view(r@);
    let ghost pre = ids.subrange(0, k);
    let ghost pre1 = ids.subrange(0, k + 1);
    assert forall|c: Seq<char>| id_candidate(pre, cur, c) implies id_candidate(pre1, cur, c) by {
        let j = choose|j: int| 0 <= j < pre.len() && pre[j] == c && prefix_of(cur, c);
        assert(pre1[j] == c);
    }
    assert(id_candidate(pre1, cur, x@)) by {
        assert(pre1[k] == x@);
    }
    assert forall|c: Seq<char>| id_candidate(pre1, cur, c) implies id_candidate(pre, cur, c) || c == x@ by {
        let j = choose|j: int| 0 <= j < pre1.len() && pre1[j] == c && prefix_of(cur, c);
        if j < k {
            assert(pre[j] == c);
        }
    }
    let mut p: usize = 0;
    while p < r.len() && lex_less(&r[p], &x)
        invariant
            p <= r@.len(),
            chars_view(r@) == old_r,
            forall|i: int| 0 <= i < p ==> lex_lt(#[trigger] old_r[i], x@),
        decreases r@.len() - p,
    {
        p = p + 1;
    }
    if p < r.len() && !lex_less(&x, &r[p]) {
        proof {
            if x@ != old_r[p as int] {
                lemma_lex_total(x@, old_r[p as int]);
            }
        }
        assert(old_r[p as int] == x@);
        assert forall|c: Seq<char>| #[trigger] id_candidate(pre1, cur, c) implies (exists|i: int| 0 <= i < old_r.len() && old_r[i] == c)
            || (old_r.len() == cap && lex_lt(old_r[cap - 1], c)) by {
            if c == x@ {
                assert(old_r[p as int] == c);
            } else {
                assert(id_candidate(pre, cur, c));
            }
        }
        assert forall|i: int| 0 <= i < old_r.len() implies id_candidate(pre1, cur, #[trigger] old_r[i]) by {
            assert(id_candidate(pre, cur, old_r[i]));
        }
        return;
    }
    if p == cap {
        assert forall|c: Seq<char>| #[trigger] id_candidate(pre1, cur, c) implies (exists|i: int| 0 <= i < old_r.len() && old_r[i] == c)
            || (old_r.len() == cap && lex_lt(old_r[cap - 1], c)) by {
            if c == x@ {
                assert(lex_lt(old_r[cap - 1], x@));
            } else {
                assert(id_candidate(pre, cur, c));
            }
        }
        assert forall|i: int| 0 <= i < old_r.len() implies id_candidate(pre1, cur, #[trigger] old_r[i]) by {
            assert(id_candidate(pre, cur, old_r[i]));
        }
        return;
    }
    proof {
        assert forall|i: int| p <= i < old_r.len() implies lex_lt(x@, #[trigger] old_r[i]) by {
            if i > p {
                lemma_lex_transitive(x@, old_r[p as int], old_r[i]);
            }
        }
    }
    r.insert(p, x);
    let ghost mid = chars_view(r@);
    assert(mid =~= old_r.insert(p as int, x@));
    if r.len() > cap {
        let dropped = r.pop();
        assert(r@.len() == cap);
    }
    let ghost fin = chars_view(r@);
    assert(fin.len() <= cap);
    assert(forall|i: int| 0 <= i < fin.len() ==> fin[i] == mid[i]);
    assert forall|i: int, j: int| 0 <= i < j < fin.len() implies lex_lt(#[trigger] fin[i], #[trigger] fin[j]) by {
        if i < p && j < p {
        } else if i < p && j == p {
        } else if i < p && j > p {
            lemma_lex_transitive(old_r[i], x@, old_r[j - 1]);
        } else if i == p {
        } else {
        }
    }
    assert forall|i: int| 0 <= i < fin.len() implies id_candidate(pre1, cur, #[trigger] fin[i]) by {
        if i != p {
            let oi = if i < p { i } else { i - 1 };
            assert(fin[i] == old_r[oi]);
            assert(id_candidate(pre, cur, old_r[oi]));
        }
    }
    assert forall|c: Seq<char>| #[trigger] id_candidate(pre1, cur, c) implies (exists|i: int| 0 <= i < fin.len() && fin[i] == c)
        || (fin.len() == cap && lex_lt(fin[cap - 1], c)) by {
        if c == x@ {
            assert(fin[p as int] == c);
        } else {
            assert(id_candidate(pre, cur, c));
            if exists|i: int| 0 <= i < old_r.len() && old_r[i] == c {
                let i = choose|i: int| 0 <= i < old_r.len() && old_r[i] == c;
                if i < p {
                    assert(fin[i] == c);
                } else if i + 1 < fin.len() {
                    assert(fin[i + 1] == c);
                } else {
                    assert(i == old_r.len() - 1);
                    assert(old_r.len() == cap);
                    assert(lex_lt(fin[cap - 1], c)) by {
                        if cap - 1 == p {
                            assert(fin[cap - 1] == x@);
                            assert(i >= p);
                            if i > p {
                                lemma_lex_transitive(x@, old_r[p as int], old_r[i]);
                            }
                        } else {
                            assert(fin[cap - 1] == old_r[cap - 2]);
                        }
                    }
                }
            } else {
                assert(old_r.len() == cap && lex_lt(old_r[cap - 1], c));
                assert(lex_lt(fin[cap - 1], c)) by {
                    if cap - 1 == p {
                        assert(fin[cap - 1] == x@);
                        lemma_lex_transitive(x@, old_r[cap - 1], c);
                    } else {
                        assert(fin[cap - 1] == old_r[cap - 2]);
                        lemma_lex_transitive(old_r[cap - 2], old_r[cap - 1], c);
                    }
                }
            }
        }
    }
}

/// The ids of `defs`' items starting with `cur`, sorted, each once, at most
/// `cap` of them.
fn sorted_ids(defs: &GameDefs, cur: &Vec<char>, cap: usize) -> (r: Vec<Vec<char>>)
    requires
        cap >= 1,
    ensures
        first_sorted(item_ids(*defs), cur@, cap as int, chars_view(r@)),
{
    let ghost ids = item_ids(*defs);
    let mut r: Vec<Vec<char>> = Vec::new();
    let mut k: usize = 0;
    assert(first_sorted(ids.subrange(0, 0), cur@, cap as int, chars_view(r@)));
    while k < defs.items.len()
        invariant
            k <= defs.items@.len(),
            cap >= 1,
            ids == item_ids(*defs),
            first_sorted(ids.subrange(0, k as int), cur@, cap as int, chars_view(r@)),
        decreases defs.items@.len() - k,
    {
        let id = chars_of(defs.items[k].id.as_str());
        assert(id@ == ids[k as int]);
        if starts_with(cur, &id) {
            insert_capped(&mut r, id, cap, Ghost(ids), Ghost(cur@), Ghost(k as int));
        } else {
            let ghost pre = ids.subrange(0, k as int);
            let ghost pre1 = ids.subrange(0, k + 1);
            assert forall|c: Seq<char>| id_candidate(pre1, cur@, c) implies id_candidate(pre, cur@, c) by {
                let j = choose|j: int| 0 <= j < pre1.len() && pre1[j] == c && prefix_of(cur@, c);
                assert(j < k);
                assert(pre[j] == c);
            }
            assert forall|c: Seq<char>| id_candidate(pre, cur@, c) implies id_candidate(pre1, cur@, c) by {
                let j = choose|j: int| 0 <= j < pre.len() && pre[j] == c && prefix_of(cur@, c);
                assert(pre1[j] == c);
            }
        }
        k = k + 1;
    }
    assert(ids.subrange(0, defs.items@.len() as int) =~= ids);
    r
}

// ---------------------------------------------------------------------------
// The console's completion
// ---------------------------------------------------------------------------

/// `s[lo..hi]`, copied.
fn slice_chars(s: &Vec<char>, lo: usize, hi: usize) -> (r: Vec<char>)
    requires
        lo <= hi <= s@.len(),
    ensures
        r@ == s@.subrange(lo as int, hi as int),
{
    let mut out: Vec<char> = Vec::new();
    let mut i = lo;
    while i < hi
        invariant
            lo <= i <= hi <= s@.len(),
            out@ == s@.subrange(lo as int, i as int),
        decreases hi - i,
    {
        out.push(s[i]);
        i = i + 1;
    }
    out
}

fn strings_of(v: &Vec<Vec<char>>) -> (r: Vec<String>)
    ensures
        strings_view(r@) == chars_view(v@),
{
    let mut out: Vec<String> = Vec::new();
    let mut i: usize = 0;
    while i < v.len()
        invariant
            i <= v@.len(),
            strings_view(out@) == chars_view(v@).subrange(0, i as int),
        decreases v@.len() - i,
    {
        let s = string_from_chars(v[i].as_slice());
        assert(s@ == v@[i as int]@);
        let ghost prev = out@;
        out.push(s);
        assert(out@ == prev.push(s));
        assert(strings_view(out@) =~= strings_view(prev).push(s@));
        assert(strings_view(out@) =~= chars_view(v@).subrange(0, i + 1));
        i = i + 1;
    }
    assert(chars_view(v@).subrange(0, v@.len() as int) =~= chars_view(v@));
    out
}

/// The words the console offers for completing `input` (see
/// `completion_plan`): after `give`, the first sixteen item ids of the data
/// file that start with what is typed, sorted and each once.
pub fn debug_console_suggestions(defs: &GameDefs, input: &str) -> (r: Vec<String>)
    ensures
        completion_plan(input@).0 ==> first_sorted(
            item_ids(*defs),
            completion_plan(input@).1,
            GIVE_SUGGESTION_LIMIT as int,
            strings_view(r@),
        ),
        !completion_plan(input@).0 ==> strings_view(r@) == completion_plan(input@).2,
{
    let all = chars_of(input);
    let lead = leading_ws_len(all.as_slice());
    let t = slice_chars(&all, lead, all.len());
    assert(t@ == trim_start_spec(input@));
    let parts = split_words(&t);
    let ews = t.len() > 0 && t[t.len() - 1] == ' ';
    let top = word_list(&["give", "tp", "find_exit", "inv", "floor", "place"]);
    assert(chars_view(top@) =~= top_words());
    if parts.len() == 0 {
        return strings_of(&top);
    }
    if parts.len() == 1 && !ews {
        let needle = lower_chars(parts[0].as_slice());
        let kept = keep_prefixed_exec(&top, &needle);
        return strings_of(&kept);
    }
    let cmd = lower_chars(parts[0].as_slice());
    let arg_index = if ews { parts.len() } else { parts.len() - 1 };
    let cur = if ews { Vec::new() } else { lower_chars(parts[parts.len() - 1].as_slice()) };
    assert(cur@ == (if ews { Seq::<char>::empty() } else { spec_lower(words_spec(t@).last()) }));
    let give = chars_of("give");
    let tp = chars_of("tp");
    let inv = chars_of("inv");
    let place = chars_of("place");
    let tablet = chars_of("tablet");
    let none: Vec<Vec<char>> = Vec::new();
    if same_chars(&cmd, &give) {
        if arg_index == 1 {
            let ids = sorted_ids(defs, &cur, GIVE_SUGGESTION_LIMIT);
            return strings_of(&ids);
        }
        assert(chars_view(none@) =~= Seq::<Seq<char>>::empty());
        return strings_of(&none);
    }
    let list = if same_chars(&cmd, &tp) && arg_index == 1 {
        let w = word_list(&["exit", "ruin", "altar", "temple", "substory"]);
        assert(chars_view(w@) =~= tp_words());
        keep_prefixed_exec(&w, &cur)
    } else if same_chars(&cmd, &inv) && arg_index == 1 {
        let w = word_list(&["on", "off", "toggle"]);
        assert(chars_view(w@) =~= inv_words());
        keep_prefixed_exec(&w, &cur)
    } else if same_chars(&cmd, &place) && arg_index == 1 {
        let w = word_list(&["tree", "rock", "tablet", "altar", "temple", "terminal", "vending", "bone", "cable"]);
        assert(chars_view(w@) =~= place_words());
        keep_prefixed_exec(&w, &cur)
    } else if same_chars(&cmd, &place) && parts.len() > 1 && same_chars(&lower_chars(parts[1].as_slice()), &tablet)
        && arg_index == 2 {
        let w = word_list(&["mercy", "might", "oracle"]);
        assert(chars_view(w@) =~= tablet_words());
        keep_prefixed_exec(&w, &cur)
    } else {
        assert(chars_view(none@) =~= Seq::<Seq<char>>::empty());
        none
    };
    strings_of(&list)
}

fn same_chars(a: &Vec<char>, b: &Vec<char>) -> (r: bool)
    ensures
        r == (a@ == b@),
{
    if a.len() != b.len() {
        return false;
    }
    let mut i: usize = 0;
    while i < a.len()
        invariant
            a@.len() == b@.len(),
            i <= a@.len(),
            forall|k: int| 0 <= k < i ==> a@[k] == b@[k],
        decreases a@.len() - i,
    {
        if a[i] != b[i] {
            return false;
        }
        i = i + 1;
    }
    assert(a@ =~= b@);
    true
}

/// Each word followed by a space, all joined.
pub open spec fn spaced(words: Seq<Seq<char>>) -> Seq<char>
    decreases words.len(),
{
    if words.len() == 0 {
        Seq::empty()
    } else {
        spaced(words.drop_last()) + words.last() + seq![' ']
    }
}

/// The line after choosing completion `s` for `input`: when nothing or only
/// the command is typed, the command is replaced; after a trailing space
/// the word is added; else the last word is replaced and the words are
/// joined by single spaces. A space follows the completion.
pub open spec fn completed_line_spec(input: Seq<char>, s: Seq<char>) -> Seq<char> {
    let lead = input.subrange(0, leading_ws(input) as int);
    let t = trim_start_spec(input);
    let parts = words_spec(t);
    let ews = t.len() > 0 && t.last() == ' ';
    if parts.len() == 0 || (parts.len() == 1 && !ews) {
        lead + s + seq![' ']
    } else if ews {
        input + s + seq![' ']
    } else {
        lead + parts[0] + seq![' '] + spaced(parts.subrange(1, parts.len() - 1)) + s + seq![' ']
    }
}

fn push_all(out: &mut Vec<char>, s: &Vec<char>)
    ensures
        final(out)@ == old(out)@ + s@,
{
    let mut i: usize = 0;
    while i < s.len()
        invariant
            i <= s@.len(),
            out@ == old(out)@ + s@.subrange(0, i as int),
        decreases s@.len() - i,
    {
        out.push(s[i]);
        assert(s@.subrange(0, i + 1) =~= s@.subrange(0, i as int).push(s@[i as int]));
        assert(out@ =~= old(out)@ + s@.subrange(0, i + 1));
        i = i + 1;
    }
    assert(s@.subrange(0, s@.len() as int) =~= s@);
}

/// The console line after choosing the completion `suggestion` for `input`.
pub fn apply_debug_suggestion(input: &str, suggestion: &str) -> (line: String)
    ensures
        line@ == completed_line_spec(input@, suggestion@),
{
    let all = chars_of(input);
    let sug = chars_of(suggestion);
    let lead_len = leading_ws_len(all.as_slice());
    let lead = slice_chars(&all, 0, lead_len);
    let t = slice_chars(&all, lead_len, all.len());
    assert(t@ == trim_start_spec(input@));
    let parts = split_words(&t);
    let ews = t.len() > 0 && t[t.len() - 1] == ' ';
    let mut out: Vec<char> = Vec::new();
    if parts.len() == 0 || (parts.len() == 1 && !ews) {
        push_all(&mut out, &lead);
    } else if ews {
        push_all(&mut out, &all);
    } else {
        push_all(&mut out, &lead);
        push_all(&mut out, &parts[0]);
        out.push(' ');
        let ghost mid = parts@.map_values(|w: Vec<char>| w@);
        assert(mid =~= words_spec(t@));
        let mut k: usize = 1;
        let ghost base = out@;
        assert(mid.subrange(1, 1) =~= Seq::<Seq<char>>::empty());
        while k + 1 < parts.len()
            invariant
                1 <= k <= parts@.len() - 1,
                mid == parts@.map_values(|w: Vec<char>| w@),
                out@ == base + spaced(mid.subrange(1, k as int)),
            decreases parts@.len() - k,
        {
            push_all(&mut out, &parts[k]);
            out.push(' ');
            assert(mid.subrange(1, k + 1).drop_last() =~= mid.subrange(1, k as int));
            assert(mid.subrange(1, k + 1).last() == parts@[k as int]@);
            assert(out@ =~= base + spaced(mid.subrange(1, k + 1)));
            k = k + 1;
        }
    }
    push_all(&mut out, &sug);
    out.push(' ');
    string_from_chars(out.as_slice())
}

} // verus!
