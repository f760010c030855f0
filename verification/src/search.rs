//! Weighted fuzzy search over a server's discovered capabilities.
//!
//! Each indexed item is scored against a query by six rules; the final score
//! is the best rule's score, and exact name matches always outrank every
//! other rule, which tops out at ninety. Results under the score floor are
//! dropped, and results come back best first, earlier items first among
//! equals.

use vstd::prelude::*;

verus! {

use vstd::arithmetic::div_mod::{lemma_div_is_ordered, lemma_div_multiples_vanish};
use vstd::utf8::encode_utf8;
use vstd::string::StringSliceAdditionalSpecFns;

/// The kind of capability an indexed item stands for.
#[derive(Debug, Clone, Copy, PartialEq, Eq, Structural)]
pub enum SearchCategory {
    Tool,
    Resource,
    Prompt,
}

/// One searchable capability: its kind, name, description, and its index in
/// the list it came from.
#[derive(Debug)]
pub struct IndexedItem {
    pub category: SearchCategory,
    pub name: String,
    pub description: String,
    pub source_index: usize,
}

/// One hit: which item, how strong the match, and which rule matched.
#[derive(Debug)]
pub struct SearchResult {
    pub index: usize,
    pub score: u32,
    pub match_reason: String,
}

/// Hits below this score are dropped.
pub const SCORE_FLOOR: u32 = 20;

/// ASCII lowercasing of one byte.
pub open spec fn lower_byte(b: u8) -> u8 {
    if 0x41 <= b && b <= 0x5a {
        (b + 0x20) as u8
    } else {
        b
    }
}

/// ASCII lowercasing of a byte string.
pub open spec fn lower_bytes(s: Seq<u8>) -> Seq<u8> {
    s.map_values(|b: u8| lower_byte(b))
}

/// Lowercases ASCII letters, leaving every other byte alone.
pub fn to_lower(s: &[u8]) -> (r: Vec<u8>)
    ensures
        r@ == lower_bytes(s@),
{
    let mut r: Vec<u8> = Vec::new();
    let mut i: usize = 0;
    while i < s.len()
        invariant
            i <= s@.len(),
            r@.len() == i as int,
            forall|k: int| 0 <= k < i as int ==> r@[k] == lower_byte(s@[k]),
        decreases s@.len() - i,
    {
        let b = s[i];
        if 0x41 <= b && b <= 0x5a {
            r.push(b + 0x20);
        } else {
            r.push(b);
        }
        i = i + 1;
    }
    proof {
        assert(r@ =~= lower_bytes(s@));
    }
    r
}

/// Whether `needle` occurs as a prefix of `hay`.
pub open spec fn is_prefix(needle: Seq<u8>, hay: Seq<u8>) -> bool {
    needle.len() <= hay.len() && hay.subrange(0, needle.len() as int) == needle
}

/// Whether `needle` occurs anywhere inside `hay`.
pub open spec fn contains_sub(hay: Seq<u8>, needle: Seq<u8>) -> bool {
    exists|i: int|
        0 <= i <= hay.len() - needle.len() && #[trigger] hay.subrange(i, i + needle.len() as int)
            == needle
}

/// Whether `needle` starts `hay`.
pub fn starts_with(hay: &[u8], needle: &[u8]) -> (r: bool)
    ensures
        r == is_prefix(needle@, hay@),
{
    if needle.len() > hay.len() {
        return false;
    }
    let mut i: usize = 0;
    while i < needle.len()
        invariant
            i <= needle@.len() <= hay@.len(),
            forall|k: int| 0 <= k < i as int ==> hay@[k] == needle@[k],
        decreases needle@.len() - i,
    {
        if hay[i] != needle[i] {
            proof {
                assert(hay@.subrange(0, needle@.len() as int)[i as int] != needle@[i as int]);
            }
            return false;
        }
        i = i + 1;
    }
    proof {
        assert(hay@.subrange(0, needle@.len() as int) =~= needle@);
    }
    true
}

/// Whether `needle` occurs anywhere inside `hay`.
pub fn contains_bytes(hay: &[u8], needle: &[u8]) -> (r: bool)
    ensures
        r == contains_sub(hay@, needle@),
{
    if needle.len() > hay.len() {
        return false;
    }
    if needle.len() == 0 {
        proof {
            assert(contains_sub(hay@, needle@)) by {
                assert(hay@.subrange(0, 0 + needle@.len() as int) =~= needle@);
            }
        }
        return true;
    }
    let mut start: usize = 0;
    while start <= hay.len() - needle.len()
        invariant
            1 <= needle@.len() <= hay@.len(),
            start <= hay@.len() - needle@.len() + 1,
            forall|i: int|
                0 <= i < start as int ==> #[trigger] hay@.subrange(i, i + needle@.len() as int)
                    != needle@,
        decreases hay@.len() - needle@.len() - start + 1,
    {
        let mut i: usize = 0;
        let mut matched = true;
        while i < needle.len()
            invariant
                i <= needle@.len(),
                start + needle@.len() <= hay@.len() <= usize::MAX,
                matched ==> forall|k: int|
                    0 <= k < i as int ==> hay@[start as int + k] == needle@[k],
                !matched ==> hay@.subrange(start as int, start as int + needle@.len() as int)
                    != needle@,
            decreases needle@.len() - i,
        {
            proof {
                assert(start + i < hay@.len());
            }
            let idx = start + i;
            if hay[idx] != needle[i] {
                proof {
                    assert(hay@.subrange(start as int, start as int + needle@.len() as int)[
                        i as int] != needle@[i as int]);
                }
                matched = false;
                i = needle.len();
            } else {
                i = i + 1;
            }
        }
        if matched {
            proof {
                assert(hay@.subrange(start as int, start as int + needle@.len() as int)
                    =~= needle@);
            }
            return true;
        }
        start = start + 1;
    }
    false
}

/// The edit (Levenshtein) distance between two byte strings.
pub open spec fn edit_distance(a: Seq<u8>, b: Seq<u8>) -> nat
    decreases a.len() + b.len(),
{
    if a.len() == 0 {
        b.len()
    } else if b.len() == 0 {
        a.len()
    } else {
        let del = edit_distance(a.drop_last(), b) + 1;
        let ins = edit_distance(a, b.drop_last()) + 1;
        let sub = edit_distance(a.drop_last(), b.drop_last()) + (if a.last() == b.last() {
            0nat
        } else {
            1nat
        });
        min3(del, ins, sub)
    }
}

/// The least of three numbers.
pub open spec fn min3(a: nat, b: nat, c: nat) -> nat {
    if a <= b && a <= c {
        a
    } else if b <= c {
        b
    } else {
        c
    }
}

/// The edit distance never exceeds the combined lengths.
pub proof fn lemma_edit_distance_bound(a: Seq<u8>, b: Seq<u8>)
    ensures
        edit_distance(a, b) <= a.len() + b.len(),
    decreases a.len() + b.len(),
{
    if a.len() > 0 && b.len() > 0 {
        lemma_edit_distance_bound(a.drop_last(), b.drop_last());
    }
}

/// The dynamic-programming recurrence at one cell.
proof fn lemma_edit_distance_step(a: Seq<u8>, b: Seq<u8>, i: int, j: int)
    requires
        1 <= i <= a.len(),
        1 <= j <= b.len(),
    ensures
        edit_distance(a.subrange(0, i), b.subrange(0, j)) == min3(
            edit_distance(a.subrange(0, i - 1), b.subrange(0, j)) + 1,
            edit_distance(a.subrange(0, i), b.subrange(0, j - 1)) + 1,
            edit_distance(a.subrange(0, i - 1), b.subrange(0, j - 1)) + (if a[i - 1] == b[j
                - 1] {
                0nat
            } else {
                1nat
            }),
        ),
{
    let ai = a.subrange(0, i);
    let bj = b.subrange(0, j);
    assert(ai.drop_last() =~= a.subrange(0, i - 1));
    assert(bj.drop_last() =~= b.subrange(0, j - 1));
    assert(ai.last() == a[i - 1]);
    assert(bj.last() == b[j - 1]);
}

/// Computes the edit distance by the usual two-row dynamic program.
pub fn levenshtein(a: &[u8], b: &[u8]) -> (r: usize)
    requires
        a@.len() + b@.len() < usize::MAX,
    ensures
        r == edit_distance(a@, b@),
{
    proof {
        lemma_edit_distance_bound(a@, b@);
    }
    let mut prev: Vec<usize> = Vec::new();
    let mut j: usize = 0;
    while j <= b.len()
        invariant
            j <= b@.len() + 1,
            prev@.len() == j as int,
            b@.len() < usize::MAX,
            forall|k: int| 0 <= k < j as int ==> prev@[k] == edit_distance(
                a@.subrange(0, 0),
                b@.subrange(0, k),
            ),
        decreases b@.len() + 1 - j,
    {
        proof {
            assert(a@.subrange(0, 0) =~= Seq::<u8>::empty());
            assert(b@.subrange(0, j as int).len() == j as int);
        }
        prev.push(j);
        j = j + 1;
    }
    let mut i: usize = 1;
    while i <= a.len()
        invariant
            1 <= i <= a@.len() + 1,
            a@.len() + b@.len() < usize::MAX,
            prev@.len() == b@.len() + 1,
            forall|k: int| 0 <= k <= b@.len() ==> prev@[k] == edit_distance(
                a@.subrange(0, i as int - 1),
                b@.subrange(0, k),
            ),
        decreases a@.len() + 1 - i,
    {
        let mut cur: Vec<usize> = Vec::new();
        proof {
            assert(b@.subrange(0, 0) =~= Seq::<u8>::empty());
            assert(a@.subrange(0, i as int).len() == i as int);
        }
        cur.push(i);
        let mut j: usize = 1;
        while j <= b.len()
            invariant
                1 <= i <= a@.len(),
                1 <= j <= b@.len() + 1,
                a@.len() + b@.len() < usize::MAX,
                prev@.len() == b@.len() + 1,
                cur@.len() == j as int,
                forall|k: int| 0 <= k <= b@.len() ==> prev@[k] == edit_distance(
                    a@.subrange(0, i as int - 1),
                    b@.subrange(0, k),
                ),
                forall|k: int| 0 <= k < j as int ==> cur@[k] == edit_distance(
                    a@.subrange(0, i as int),
                    b@.subrange(0, k),
                ),
            decreases b@.len() + 1 - j,
        {
            proof {
                lemma_edit_distance_step(a@, b@, i as int, j as int);
                lemma_edit_distance_bound(a@.subrange(0, i as int - 1), b@.subrange(0, j as int));
                lemma_edit_distance_bound(a@.subrange(0, i as int), b@.subrange(0, j as int - 1));
                lemma_edit_distance_bound(
                    a@.subrange(0, i as int - 1),
                    b@.subrange(0, j as int - 1),
                );
            }
            let del = prev[j] + 1;
            let ins = cur[j - 1] + 1;
            let cost: usize = if a[i - 1] == b[j - 1] {
                0
            } else {
                1
            };
            let sub = prev[j - 1] + cost;
            let best = if del <= ins && del <= sub {
                del
            } else if ins <= sub {
                ins
            } else {
                sub
            };
            cur.push(best);
            j = j + 1;
        }
        prev = cur;
        i = i + 1;
    }
    proof {
        assert(a@.subrange(0, a@.len() as int) =~= a@);
        assert(b@.subrange(0, b@.len() as int) =~= b@);
    }
    prev[b.len()]
}

/// The fuzzy threshold for a name: a quarter of its length, at least two.
pub open spec fn fuzzy_threshold(name_len: nat) -> nat {
    if name_len / 4 > 2 {
        name_len / 4
    } else {
        2
    }
}

/// The score of the fuzzy rule: scaled by how far under the threshold the
/// distance stays, zero beyond it.
pub open spec fn fuzzy_score(q: Seq<u8>, name_l: Seq<u8>) -> nat {
    let t = fuzzy_threshold(name_l.len());
    let d = edit_distance(q, name_l);
    if d <= t {
        ((40 * (t - d) as int) / (t as int)) as nat
    } else {
        0
    }
}

/// The score of the token rule: thirty, scaled by how many query tokens occur
/// in the name or the description.
pub open spec fn token_score(tokens: Seq<Seq<u8>>, name_l: Seq<u8>, desc_l: Seq<u8>) -> nat {
    if tokens.len() == 0 {
        0
    } else {
        ((30 * match_count(tokens, name_l, desc_l) as int) / (tokens.len() as int)) as nat
    }
}

/// How many of the tokens occur in the name or the description.
pub open spec fn match_count(tokens: Seq<Seq<u8>>, name_l: Seq<u8>, desc_l: Seq<u8>) -> nat
    decreases tokens.len(),
{
    if tokens.len() == 0 {
        0
    } else {
        match_count(tokens.drop_last(), name_l, desc_l) + (if contains_sub(name_l, tokens.last())
            || contains_sub(desc_l, tokens.last()) {
            1nat
        } else {
            0nat
        })
    }
}

/// No more tokens match than there are.
pub proof fn lemma_match_count_bound(tokens: Seq<Seq<u8>>, name_l: Seq<u8>, desc_l: Seq<u8>)
    ensures
        match_count(tokens, name_l, desc_l) <= tokens.len(),
    decreases tokens.len(),
{
    if tokens.len() > 0 {
        lemma_match_count_bound(tokens.drop_last(), name_l, desc_l);
    }
}

/// The combined score of one item against a lowered query and its tokens:
/// the best rule wins.
pub open spec fn score_of(q: Seq<u8>, tokens: Seq<Seq<u8>>, name_l: Seq<u8>, desc_l: Seq<
    u8,
>) -> nat {
    let exact: nat = if name_l == q && q.len() > 0 {
        100
    } else {
        0
    };
    let prefix: nat = if q.len() > 0 && is_prefix(q, name_l) {
        90
    } else {
        0
    };
    let substr: nat = if q.len() > 0 && contains_sub(name_l, q) {
        70
    } else {
        0
    };
    let desc: nat = if q.len() > 0 && contains_sub(desc_l, q) {
        50
    } else {
        0
    };
    max6(exact, prefix, substr, desc, token_score(tokens, name_l, desc_l), fuzzy_score(q, name_l))
}

/// The greatest of six numbers.
pub open spec fn max6(a: nat, b: nat, c: nat, d: nat, e: nat, f: nat) -> nat {
    max2(max2(max2(a, b), max2(c, d)), max2(e, f))
}

/// The greater of two numbers.
pub open spec fn max2(a: nat, b: nat) -> nat {
    if a >= b {
        a
    } else {
        b
    }
}

/// Every rule but the exact one stays at or under ninety, so an exact name
/// match always outranks prefix, substring, description, token and fuzzy
/// matches; the exact match itself scores one hundred.
pub proof fn lemma_exact_outranks(q: Seq<u8>, tokens: Seq<Seq<u8>>, name_l: Seq<u8>, desc_l: Seq<
    u8,
>)
    requires
        q.len() > 0,
    ensures
        name_l == q ==> score_of(q, tokens, name_l, desc_l) == 100,
        name_l != q ==> score_of(q, tokens, name_l, desc_l) <= 90,
{
    lemma_token_score_bound(tokens, name_l, desc_l);
    lemma_fuzzy_score_bound(q, name_l);
    if name_l == q {
        assert(score_of(q, tokens, name_l, desc_l) == 100);
    }
}

/// The token rule never exceeds thirty.
pub proof fn lemma_token_score_bound(tokens: Seq<Seq<u8>>, name_l: Seq<u8>, desc_l: Seq<u8>)
    ensures
        token_score(tokens, name_l, desc_l) <= 30,
{
    if tokens.len() > 0 {
        lemma_match_count_bound(tokens, name_l, desc_l);
        let m = match_count(tokens, name_l, desc_l) as int;
        let t = tokens.len() as int;
        lemma_div_is_ordered(30 * m, 30 * t, t);
        lemma_div_multiples_vanish(30, t);
    }
}

/// The fuzzy rule never exceeds forty.
pub proof fn lemma_fuzzy_score_bound(q: Seq<u8>, name_l: Seq<u8>)
    ensures
        fuzzy_score(q, name_l) <= 40,
{
    let t = fuzzy_threshold(name_l.len()) as int;
    let d = edit_distance(q, name_l) as int;
    if d <= t {
        lemma_div_is_ordered(40 * (t - d), 40 * t, t);
        lemma_div_multiples_vanish(40, t);
    }
}

/// Computes one item's score against the lowered query and its tokens.
pub fn score_item(q: &[u8], tokens: &Vec<Vec<u8>>, name_l: &[u8], desc_l: &[u8]) -> (r: (
    u32,
    &'static str,
))
    requires
        q@.len() + name_l@.len() < usize::MAX,
    ensures
        r.0 == score_of(q@, tokens@.map_values(|t: Vec<u8>| t@), name_l@, desc_l@),
        r.0 <= 100,
{
    let ghost gtokens = tokens@.map_values(|t: Vec<u8>| t@);
    proof {
        lemma_token_score_bound(gtokens, name_l@, desc_l@);
        lemma_fuzzy_score_bound(q@, name_l@);
    }
    if q.len() == 0 {
        let tok = compute_token_score(q, tokens, name_l, desc_l);
        let fuz = compute_fuzzy_score(q, name_l);
        let best = if tok.0 >= fuz {
            tok
        } else {
            (fuz, "fuzzy")
        };
        proof {
            assert(score_of(q@, gtokens, name_l@, desc_l@) == max2(
                token_score(gtokens, name_l@, desc_l@),
                fuzzy_score(q@, name_l@),
            ));
        }
        return best;
    }
    let mut best: u32 = 0;
    let mut reason: &'static str = "fuzzy";
    let fuz = compute_fuzzy_score(q, name_l);
    if fuz > best {
        best = fuz;
        reason = "fuzzy";
    }
    let tok = compute_token_score(q, tokens, name_l, desc_l);
    if tok.0 > best {
        best = tok.0;
        reason = tok.1;
    }
    if contains_bytes(desc_l, q) {
        if 50 > best {
            best = 50;
            reason = "description";
        }
    }
    if contains_bytes(name_l, q) {
        if 70 > best {
            best = 70;
            reason = "name substring";
        }
    }
    if starts_with(name_l, q) {
        if 90 > best {
            best = 90;
            reason = "name prefix";
        }
    }
    if bytes_eq_slices(name_l, q) {
        best = 100;
        reason = "exact name";
    }
    proof {
        assert(best == score_of(q@, gtokens, name_l@, desc_l@));
    }
    (best, reason)
}

/// Whether two byte strings hold the same bytes.
pub fn bytes_eq_slices(a: &[u8], b: &[u8]) -> (r: bool)
    ensures
        r == (a@ == b@),
{
    if a.len() != b.len() {
        return false;
    }
    let mut i: usize = 0;
    while i < a.len()
        invariant
            i <= a@.len(),
            a@.len() == b@.len(),
            forall|k: int| 0 <= k < i as int ==> a@[k] == b@[k],
        decreases a@.len() - i,
    {
        if a[i] != b[i] {
            return false;
        }
        i = i + 1;
    }
    proof {
        assert(a@ =~= b@);
    }
    true
}

/// Computes the token rule's score.
fn compute_token_score(q: &[u8], tokens: &Vec<Vec<u8>>, name_l: &[u8], desc_l: &[u8]) -> (r: (
    u32,
    &'static str,
))
    ensures
        r.0 == token_score(tokens@.map_values(|t: Vec<u8>| t@), name_l@, desc_l@),
        r.1@ == "token"@,
{
    let ghost gtokens = tokens@.map_values(|t: Vec<u8>| t@);
    if tokens.len() == 0 {
        return (0, "token");
    }
    let mut m: usize = 0;
    let mut i: usize = 0;
    while i < tokens.len()
        invariant
            i <= tokens@.len(),
            m <= i,
            gtokens == tokens@.map_values(|t: Vec<u8>| t@),
            m == match_count(gtokens.subrange(0, i as int), name_l@, desc_l@),
        decreases tokens@.len() - i,
    {
        let hit = contains_bytes(name_l, tokens[i].as_slice()) || contains_bytes(
            desc_l,
            tokens[i].as_slice(),
        );
        proof {
            let pre = gtokens.subrange(0, i as int);
            let post = gtokens.subrange(0, i + 1int);
            assert(post.drop_last() =~= pre);
            assert(post.last() == gtokens[i as int]);
            assert(gtokens[i as int] == tokens@[i as int]@);
        }
        if hit {
            m = m + 1;
        }
        i = i + 1;
    }
    proof {
        assert(gtokens.subrange(0, gtokens.len() as int) =~= gtokens);
        lemma_match_count_bound(gtokens, name_l@, desc_l@);
        let mm = match_count(gtokens, name_l@, desc_l@) as int;
        let t = gtokens.len() as int;
        lemma_div_is_ordered(30 * mm, 30 * t, t);
        lemma_div_multiples_vanish(30, t);
    }
    let score128 = (30u128 * (m as u128)) / (tokens.len() as u128);
    (score128 as u32, "token")
}

/// Computes the fuzzy rule's score.
fn compute_fuzzy_score(q: &[u8], name_l: &[u8]) -> (r: u32)
    requires
        q@.len() + name_l@.len() < usize::MAX,
    ensures
        r == fuzzy_score(q@, name_l@),
{
    let quarter = name_l.len() / 4;
    let t: usize = if quarter > 2 {
        quarter
    } else {
        2
    };
    let d = levenshtein(q, name_l);
    if d > t {
        return 0;
    }
    proof {
        let ti = t as int;
        let di = d as int;
        lemma_div_is_ordered(40 * (ti - di), 40 * ti, ti);
        lemma_div_multiples_vanish(40, ti);
    }
    let score128 = (40u128 * ((t - d) as u128)) / (t as u128);
    score128 as u32
}

/// The leading run of non-space bytes.
pub open spec fn run_head(s: Seq<u8>) -> Seq<u8>
    decreases s.len(),
{
    if s.len() == 0 {
        Seq::empty()
    } else if s[0] == 0x20 {
        Seq::empty()
    } else {
        seq![s[0]] + run_head(s.drop_first())
    }
}

/// What follows the first space, or nothing when there is none.
pub open spec fn run_tail(s: Seq<u8>) -> Seq<u8>
    decreases s.len(),
{
    if s.len() == 0 {
        Seq::empty()
    } else if s[0] == 0x20 {
        s.drop_first()
    } else {
        run_tail(s.drop_first())
    }
}

/// The tail is always shorter than a non-empty string.
pub proof fn lemma_run_tail_shorter(s: Seq<u8>)
    requires
        s.len() > 0,
    ensures
        run_tail(s).len() < s.len(),
    decreases s.len(),
{
    if s[0] != 0x20 {
        if s.drop_first().len() > 0 {
            lemma_run_tail_shorter(s.drop_first());
        } else {
            assert(run_tail(s.drop_first()).len() == 0);
        }
    }
}

/// The space-separated tokens of a query, in order, each non-empty.
pub open spec fn ws_tokens(s: Seq<u8>) -> Seq<Seq<u8>>
    decreases s.len(),
    via ws_tokens_decreases
{
    if s.len() == 0 {
        Seq::empty()
    } else if s[0] == 0x20 {
        ws_tokens(s.drop_first())
    } else {
        seq![run_head(s)] + ws_tokens(run_tail(s))
    }
}

#[via_fn]
proof fn ws_tokens_decreases(s: Seq<u8>) {
    if s.len() > 0 && s[0] != 0x20 {
        lemma_run_tail_shorter(s);
    }
}

/// Where the first space sits (at `j`, or absent with `j` the length), the
/// head is the prefix and the tail the suffix.
proof fn lemma_run_split(s: Seq<u8>, j: int)
    requires
        0 <= j <= s.len(),
        forall|k: int| 0 <= k < j ==> s[k] != 0x20,
        j < s.len() ==> s[j] == 0x20,
    ensures
        run_head(s) == s.subrange(0, j),
        run_tail(s) == (if j < s.len() {
            s.subrange(j + 1, s.len() as int)
        } else {
            Seq::<u8>::empty()
        }),
    decreases s.len(),
{
    if s.len() == 0 {
        assert(run_head(s) =~= s.subrange(0, 0));
    } else if s[0] == 0x20 {
        assert(j == 0);
        assert(run_head(s) =~= s.subrange(0, 0));
        assert(run_tail(s) =~= s.subrange(1, s.len() as int));
    } else {
        assert(j > 0);
        let rest = s.drop_first();
        lemma_run_split(rest, j - 1);
        assert(rest.subrange(0, j - 1) =~= s.subrange(1, j));
        assert(run_head(s) =~= seq![s[0]] + s.subrange(1, j));
        assert(run_head(s) =~= s.subrange(0, j));
        if j < s.len() {
            assert(rest.subrange(j, rest.len() as int) =~= s.subrange(j + 1, s.len() as int));
        }
    }
}

/// The views of a list of byte vectors.
pub open spec fn views_of(ts: Seq<Vec<u8>>) -> Seq<Seq<u8>> {
    ts.map_values(|t: Vec<u8>| t@)
}

/// Splits a query into its space-separated tokens.
pub fn split_tokens(q: &[u8]) -> (r: Vec<Vec<u8>>)
    ensures
        views_of(r@) == ws_tokens(q@),
{
    let mut r: Vec<Vec<u8>> = Vec::new();
    let mut pos: usize = 0;
    let qlen = q.len();
    proof {
        assert(q@.len() == qlen as int);
        assert(views_of(r@) =~= Seq::<Seq<u8>>::empty());
        assert(q@.subrange(0, q@.len() as int) =~= q@);
    }
    while pos < q.len()
        invariant
            pos <= q@.len() <= usize::MAX,
            ws_tokens(q@) == views_of(r@) + ws_tokens(q@.subrange(pos as int, q@.len() as int)),
        decreases q@.len() - pos,
    {
        let ghost suffix = q@.subrange(pos as int, q@.len() as int);
        if q[pos] == 0x20 {
            proof {
                assert(suffix[0] == 0x20);
                assert(ws_tokens(suffix) == ws_tokens(suffix.drop_first()));
                assert(suffix.drop_first() =~= q@.subrange(pos as int + 1, q@.len() as int));
            }
            pos = pos + 1;
        } else {
            let mut end: usize = pos;
            while end < q.len() && q[end] != 0x20
                invariant
                    pos <= end <= q@.len() <= usize::MAX,
                    forall|k: int| pos as int <= k < end as int ==> q@[k] != 0x20,
                decreases q@.len() - end,
            {
                end = end + 1;
            }
            let mut tok: Vec<u8> = Vec::new();
            let mut i: usize = pos;
            while i < end
                invariant
                    pos <= i <= end <= q@.len() <= usize::MAX,
                    tok@ == q@.subrange(pos as int, i as int),
                decreases end - i,
            {
                tok.push(q[i]);
                proof {
                    assert(q@.subrange(pos as int, i + 1int) =~= q@.subrange(pos as int, i as int)
                        + seq![q@[i as int]]);
                }
                i = i + 1;
            }
            proof {
                let j = end as int - pos as int;
                assert forall|k: int| 0 <= k < j implies suffix[k] != 0x20 by {
                    assert(suffix[k] == q@[pos as int + k]);
                }
                if (end as int) < q@.len() as int {
                    assert(suffix[j] == q@[end as int]);
                }
                assert(suffix[0] != 0x20);
                assert(ws_tokens(suffix) == seq![run_head(suffix)] + ws_tokens(run_tail(suffix)));
                lemma_run_split(suffix, j);
                assert(suffix.subrange(0, j) =~= q@.subrange(pos as int, end as int));
                assert(run_head(suffix) == tok@);
                if (end as int) < q@.len() as int {
                    assert(suffix.subrange(j + 1, suffix.len() as int) =~= q@.subrange(
                        end as int + 1,
                        q@.len() as int,
                    ));
                }
                let ghost old_views = views_of(r@);
                assert(views_of(r@.push(tok)) =~= old_views + seq![tok@]);
            }
            r.push(tok);
            if end < q.len() {
                pos = end + 1;
            } else {
                pos = end;
                proof {
                    assert(ws_tokens(q@.subrange(pos as int, q@.len() as int))
                        =~= Seq::<Seq<u8>>::empty());
                }
            }
        }
    }
    proof {
        assert(q@.subrange(q@.len() as int, q@.len() as int) =~= Seq::<u8>::empty());
    }
    r
}

/// Results are ordered best first.
pub open spec fn sorted_by_score(rs: Seq<SearchResult>) -> bool {
    forall|a: int, b: int| 0 <= a < b < rs.len() ==> rs[a].score >= rs[b].score
}

/// The in-memory index over one server's tools, resources and prompts.
#[derive(Debug)]
pub struct SearchEngine {
    items: Vec<IndexedItem>,
}

impl SearchEngine {
    /// The indexed items, in indexing order.
    pub closed spec fn items_seq(self) -> Seq<IndexedItem> {
        self.items@
    }

    /// An empty index.
    pub fn new() -> (r: SearchEngine)
        ensures
            r.items_seq() =~= Seq::empty(),
    {
        SearchEngine { items: Vec::new() }
    }

    /// Adds one capability to the index.
    pub fn index_item(&mut self, item: IndexedItem)
        ensures
            final(self).items_seq() == old(self).items_seq().push(item),
    {
        self.items.push(item);
    }

    /// How many items are indexed.
    pub fn len(&self) -> (r: usize)
        ensures
            r == self.items_seq().len(),
    {
        self.items.len()
    }

    /// The item behind a result index.
    pub fn get_item<'a>(&'a self, index: usize) -> (r: Option<&'a IndexedItem>)
        ensures
            match r {
                Some(item) => index < self.items_seq().len() && *item == self.items_seq()[
                    index as int],
                None => index >= self.items_seq().len(),
            },
    {
        if index < self.items.len() {
            Some(&self.items[index])
        } else {
            None
        }
    }

    /// Scores every indexed item against the query and returns at most
    /// `limit` hits, best first, earlier items first among equal scores.
    /// Every hit carries exactly the score of the six rules against its
    /// item, case-folded, and clears the score floor. The listing is
    /// complete: an item that clears the floor is only ever left out when
    /// the limit is full of hits that score at least as well.
    #[verifier::rlimit(100)]
    pub fn search(&self, query: &str, limit: usize) -> (r: Vec<SearchResult>)
        ensures
            r@.len() <= limit,
            ranked(r@),
            sorted_by_score(r@),
            forall|k: int| #![all_triggers]
                0 <= k < r@.len() ==> {
                    &&& r@[k].score >= SCORE_FLOOR
                    &&& r@[k].index < self.items_seq().len()
                    &&& r@[k].score == item_score(query@, self.items_seq()[r@[k].index as int])
                },
            forall|i: int|
                0 <= i < self.items_seq().len() && scorable(query@, self.items_seq()[i])
                    && #[trigger] item_score(query@, self.items_seq()[i]) >= SCORE_FLOOR
                    && !lists_index(r@, i) ==> r@.len() == limit && (r@.len() > 0 ==> r@[r@.len()
                    - 1].score >= item_score(query@, self.items_seq()[i])),
    {
        let qb = query.as_bytes();
        let ql = to_lower(qb);
        let tokens = split_tokens(ql.as_slice());
        let mut hits: Vec<SearchResult> = Vec::new();
        let mut i: usize = 0;
        while i < self.items.len()
            invariant
                i <= self.items@.len(),
                ql@ == lower_bytes(encode_utf8(query@)),
                views_of(tokens@) == ws_tokens(lower_bytes(encode_utf8(query@))),
                ranked(hits@),
                forall|k: int|
                    0 <= k < hits@.len() ==> (#[trigger] hits@[k]).index < i as int,
                forall|k: int| #![all_triggers]
                    0 <= k < hits@.len() ==> {
                        &&& hits@[k].score >= SCORE_FLOOR
                        &&& hits@[k].index < self.items@.len()
                        &&& hits@[k].score == item_score(query@, self.items@[
                            hits@[k].index as int])
                    },
                forall|j: int|
                    0 <= j < i as int && scorable(query@, self.items@[j])
                        && #[trigger] item_score(query@, self.items@[j]) >= SCORE_FLOOR
                        ==> lists_index(hits@, j),
            decreases self.items@.len() - i,
        {
            consider_item(
                &mut hits,
                &ql,
                &tokens,
                i,
                &self.items[i],
                Ghost(query@),
                Ghost(self.items@),
            );
            i = i + 1;
        }
        let ghost full = hits@;
        hits.truncate(limit);
        proof {
            if full.len() > limit {
                assert(hits@ =~= full.subrange(0, limit as int));
            } else {
                assert(hits@ =~= full);
            }
            assert forall|i: int|
                0 <= i < self.items@.len() && scorable(query@, self.items@[i])
                    && #[trigger] item_score(query@, self.items@[i]) >= SCORE_FLOOR
                    && !lists_index(hits@, i) implies hits@.len() == limit && (hits@.len() > 0
                ==> hits@[hits@.len() - 1].score >= item_score(query@, self.items@[i])) by {
                assert(lists_index(full, i));
                let k = choose|k: int| 0 <= k < full.len() && full[k].index == i;
                assert(full[k].score == item_score(query@, self.items@[i]));
                if k < hits@.len() {
                    assert(hits@[k] == full[k]);
                    assert(lists_index(hits@, i));
                }
                assert(k >= hits@.len());
                assert(full.len() > hits@.len());
                assert(hits@.len() == limit);
                if hits@.len() > 0 {
                    assert(hits@[hits@.len() - 1] == full[hits@.len() - 1]);
                    assert(full[hits@.len() - 1].score >= full[k].score);
                }
            }
        }
        hits
    }
}

/// The query and an item's name fit the machine's edit-distance bound.
pub open spec fn scorable(query: Seq<char>, item: IndexedItem) -> bool {
    encode_utf8(query).len() + encode_utf8(item.name@).len() < usize::MAX
}

/// Some hit points at this item.
pub open spec fn lists_index(rs: Seq<SearchResult>, i: int) -> bool {
    exists|k: int| 0 <= k < rs.len() && rs[k].index == i
}

/// Best first, and earlier items first among equal scores.
pub open spec fn ranked(rs: Seq<SearchResult>) -> bool {
    forall|a: int, b: int|
        0 <= a < b < rs.len() ==> (rs[a].score > rs[b].score || (rs[a].score == rs[b].score
            && rs[a].index < rs[b].index))
}

/// Scores one item and, when it clears the floor, ranks it into the hits:
/// every earlier hit survives, the item becomes listed exactly when it is
/// scorable and clears the floor, and the ranking is kept.
fn consider_item(
    hits: &mut Vec<SearchResult>,
    ql: &Vec<u8>,
    tokens: &Vec<Vec<u8>>,
    i: usize,
    item: &IndexedItem,
    Ghost(query_view): Ghost<Seq<char>>,
    Ghost(items): Ghost<Seq<IndexedItem>>,
)
    requires
        i < items.len(),
        *item == items[i as int],
        ql@ == lower_bytes(encode_utf8(query_view)),
        views_of(tokens@) == ws_tokens(lower_bytes(encode_utf8(query_view))),
        ranked(old(hits)@),
        forall|k: int|
            0 <= k < old(hits)@.len() ==> (#[trigger] old(hits)@[k]).index < i as int,
        forall|k: int| #![all_triggers]
            0 <= k < old(hits)@.len() ==> {
                &&& old(hits)@[k].score >= SCORE_FLOOR
                &&& old(hits)@[k].index < items.len()
                &&& old(hits)@[k].score == item_score(query_view, items[
                    old(hits)@[k].index as int])
            },
    ensures
        ranked(final(hits)@),
        forall|k: int|
            0 <= k < final(hits)@.len() ==> (#[trigger] final(hits)@[k]).index < i as int + 1,
        forall|k: int| #![all_triggers]
            0 <= k < final(hits)@.len() ==> {
                &&& final(hits)@[k].score >= SCORE_FLOOR
                &&& final(hits)@[k].index < items.len()
                &&& final(hits)@[k].score == item_score(query_view, items[
                    final(hits)@[k].index as int])
            },
        forall|j: int| 0 <= j < old(hits)@.len() ==> lists_index(final(hits)@, old(hits)@[
            j].index as int),
        (scorable(query_view, items[i as int]) && item_score(query_view, items[i as int])
            >= SCORE_FLOOR) ==> lists_index(final(hits)@, i as int),
{
    let nb = item.name.as_str().as_bytes();
    let db = item.description.as_str().as_bytes();
    proof {
        assert(nb@ == encode_utf8(item.name@));
        assert(lower_bytes(encode_utf8(query_view)).len() == encode_utf8(query_view).len());
        assert forall|j: int| 0 <= j < old(hits)@.len() implies lists_index(old(hits)@, old(
            hits,
        )@[j].index as int) by {
            assert(old(hits)@[j].index == old(hits)@[j].index);
        }
    }
    if ql.len() < usize::MAX - nb.len() {
        let nl = to_lower(nb);
        let dl = to_lower(db);
        let (score, reason) = score_item(ql.as_slice(), &tokens, nl.as_slice(), dl.as_slice());
        proof {
            assert(score == item_score(query_view, items[i as int])) by {
                reveal(item_score);
            }
        }
        if score >= SCORE_FLOOR {
            let hit = SearchResult { index: i, score, match_reason: String::from_str(reason) };
            let ghost before = hits@;
            let ghost ghit = hit;
            insert_sorted(hits, hit);
            proof {
                let p = choose|p: int|
                    0 <= p <= before.len() && hits@ == #[trigger] before.insert(p, ghit)
                        && hits@[p] == ghit;
                assert forall|k: int| #![all_triggers]
                    0 <= k < hits@.len() implies {
                    &&& hits@[k].score >= SCORE_FLOOR
                    &&& hits@[k].index < items.len()
                    &&& hits@[k].score == item_score(query_view, items[hits@[k].index as int])
                    &&& hits@[k].index < i as int + 1
                } by {
                    if k < p {
                        assert(hits@[k] == before[k]);
                    } else if k == p {
                        assert(hits@[k] == ghit);
                    } else {
                        assert(hits@[k] == before[k - 1]);
                    }
                }
                assert(lists_index(hits@, i as int)) by {
                    assert(hits@[p] == ghit);
                }
                assert forall|j: int| 0 <= j < before.len() implies lists_index(hits@, before[
                    j].index as int) by {
                    if j < p {
                        assert(hits@[j] == before[j]);
                    } else {
                        assert(hits@[j + 1] == before[j]);
                    }
                }
            }
        } else {
            proof {
                assert(!(item_score(query_view, items[i as int]) >= SCORE_FLOOR));
            }
        }
    } else {
        proof {
            assert(encode_utf8(query_view).len() + encode_utf8(item.name@).len() >= usize::MAX);
            assert(!scorable(query_view, items[i as int]));
        }
    }
}

/// The score the six rules give one item against a raw query: both sides are
/// case-folded, and the query's tokens come from its folded form.
#[verifier::opaque]
pub open spec fn item_score(query: Seq<char>, item: IndexedItem) -> nat {
    let ql = lower_bytes(encode_utf8(query));
    score_of(
        ql,
        ws_tokens(ql),
        lower_bytes(encode_utf8(item.name@)),
        lower_bytes(encode_utf8(item.description@)),
    )
}

/// Inserts a hit before the first strictly weaker one. Every earlier hit
/// carries a lower item index, so the ranking — best first, earlier items
/// first among equals — is kept.
fn insert_sorted(hits: &mut Vec<SearchResult>, hit: SearchResult)
    requires
        ranked(old(hits)@),
        forall|k: int| 0 <= k < old(hits)@.len() ==> (#[trigger] old(hits)@[k]).index < hit.index,
    ensures
        ranked(final(hits)@),
        final(hits)@.len() == old(hits)@.len() + 1,
        exists|p: int|
            0 <= p <= old(hits)@.len() && final(hits)@ == #[trigger] old(hits)@.insert(p, hit)
                && final(hits)@[p] == hit,
{
    let mut p: usize = 0;
    while p < hits.len() && hits[p].score >= hit.score
        invariant
            p <= hits@.len(),
            *hits == *old(hits),
            ranked(hits@),
            forall|k: int| 0 <= k < p as int ==> (#[trigger] hits@[k]).score >= hit.score,
        decreases hits@.len() - p,
    {
        p = p + 1;
    }
    let ghost before = hits@;
    let ghost gp = p as int;
    hits.insert(p, hit);
    proof {
        assert(hits@ == before.insert(gp, hit));
        assert(hits@[gp] == hit);
        assert forall|a: int, b: int| 0 <= a < b < hits@.len() implies (hits@[a].score
            > hits@[b].score || (hits@[a].score == hits@[b].score && hits@[a].index
            < hits@[b].index)) by {
            if a < gp {
                assert(hits@[a] == before[a]);
            } else if a == gp {
                assert(hits@[a] == hit);
            } else {
                assert(hits@[a] == before[a - 1]);
            }
            if b < gp {
                assert(hits@[b] == before[b]);
            } else if b == gp {
                assert(hits@[b] == hit);
            } else {
                assert(hits@[b] == before[b - 1]);
            }
            if b == gp {
                assert(a < gp);
                assert(before[a].score >= hit.score);
                assert(before[a].index < hit.index);
            } else if a == gp {
                assert(b > gp);
                if gp < before.len() {
                    assert(!(before[gp].score >= hit.score));
                    if b - 1 > gp {
                        assert(before[gp].score > before[b - 1].score || (before[gp].score
                            == before[b - 1].score && before[gp].index < before[b - 1].index));
                    }
                }
            }
        }
    }
}

} // verus!
