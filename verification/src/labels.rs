//! Merging of descriptive labels: user-supplied labels are united with
//! platform-reported topics, deduplicated, capped at 25 entries, and
//! each survivor is trimmed, lowercased, and kept only when it is 1 to
//! 50 characters of `a`-`z`, `0`-`9` and `-`.

use vstd::prelude::*;

use crate::strutil::{chars_of, is_ascii_whitespace, string_from_chars};

verus! {

/// Most labels the merged result may hold.
pub const MAX_NUM_TOTAL_LABELS: usize = 25;

/// Longest label the merged result may hold.
pub const MAX_LABEL_LENGTH: usize = 50;

/// ASCII lowercasing of one character.
pub open spec fn lower_char(c: char) -> char {
    if 'A' <= c && c <= 'Z' {
        (((c as u8) + 32) as char)
    } else {
        c
    }
}

/// ASCII lowercasing of a character sequence.
pub open spec fn lower(s: Seq<char>) -> Seq<char> {
    s.map_values(|c: char| lower_char(c))
}

/// The sequence with leading whitespace removed.
pub open spec fn trim_start(s: Seq<char>) -> Seq<char>
    decreases s.len(),
{
    if s.len() > 0 && is_ascii_whitespace(s[0]) {
        trim_start(s.drop_first())
    } else {
        s
    }
}

/// The sequence with trailing whitespace removed.
pub open spec fn trim_end(s: Seq<char>) -> Seq<char>
    decreases s.len(),
{
    if s.len() > 0 && is_ascii_whitespace(s.last()) {
        trim_end(s.drop_last())
    } else {
        s
    }
}

/// The sequence with whitespace removed from both ends.
pub open spec fn trim(s: Seq<char>) -> Seq<char> {
    trim_end(trim_start(s))
}

/// How each label is normalized: trimmed, then lowercased.
pub open spec fn normalize(s: Seq<char>) -> Seq<char> {
    lower(trim(s))
}

/// A character a surviving label may hold.
pub open spec fn label_char_ok(c: char) -> bool {
    ('a' <= c && c <= 'z') || ('0' <= c && c <= '9') || c == '-'
}

/// A label the merged result may hold: nonempty, at most 50
/// characters, all from `a`-`z`, `0`-`9` and `-`.
pub open spec fn valid_label(s: Seq<char>) -> bool {
    &&& s.len() > 0
    &&& s.len() <= 50
    &&& forall|i: int| 0 <= i < s.len() ==> label_char_ok(#[trigger] s[i])
}

/// The labels that are not empty strings.
pub open spec fn filter_nonempty(s: Seq<Seq<char>>) -> Seq<Seq<char>> {
    s.filter(|l: Seq<char>| l.len() > 0)
}

/// The labels that survive normalization.
pub open spec fn filter_valid(s: Seq<Seq<char>>) -> Seq<Seq<char>> {
    s.filter(|l: Seq<char>| valid_label(l))
}

/// Each label normalized.
pub open spec fn map_normalize(s: Seq<Seq<char>>) -> Seq<Seq<char>> {
    s.map_values(|l: Seq<char>| normalize(l))
}

/// The sequence with later duplicates dropped, keeping first occurrences.
pub open spec fn dedup_first(s: Seq<Seq<char>>) -> Seq<Seq<char>>
    decreases s.len(),
{
    if s.len() == 0 {
        Seq::empty()
    } else {
        let rest = dedup_first(s.drop_last());
        if rest.contains(s.last()) {
            rest
        } else {
            rest.push(s.last())
        }
    }
}

/// At most the first `n` entries.
pub open spec fn take_at_most(s: Seq<Seq<char>>, n: int) -> Seq<Seq<char>> {
    if s.len() <= n {
        s
    } else {
        s.take(n)
    }
}

/// What merging yields: empty explicit labels are dropped; the
/// deprecated labels stand in for absent explicit ones; the union with
/// the topics is deduplicated, capped at 25, and each survivor is
/// normalized and kept only when valid.
pub open spec fn merge_spec(
    explicit: Seq<Seq<char>>,
    deprecated: Seq<Seq<char>>,
    topics: Seq<Seq<char>>,
) -> Seq<Seq<char>> {
    let ex = filter_nonempty(explicit);
    let de = filter_nonempty(deprecated);
    let chosen = if ex.len() == 0 {
        de
    } else {
        ex
    };
    let capped = take_at_most(dedup_first(chosen + topics), 25);
    filter_valid(map_normalize(capped))
}

/// Which deprecation warnings merging calls for.
pub struct LabelWarnings {
    /// The deprecated label source was used at all.
    pub deprecated_tags_used: bool,
    /// Both sources were set, so the deprecated one is ignored.
    pub both_sources_set: bool,
}

/// A filtered sequence where every element matches is the sequence itself.
proof fn lemma_filter_id(s: Seq<Seq<char>>, pred: spec_fn(Seq<char>) -> bool)
    requires
        forall|i: int| 0 <= i < s.len() ==> pred(#[trigger] s[i]),
    ensures
        s.filter(pred) == s,
    decreases s.len(),
{
    reveal(Seq::filter);
    if s.len() != 0 {
        assert(forall|i: int| 0 <= i < s.drop_last().len() ==> pred(#[trigger] s.drop_last()[i]));
        lemma_filter_id(s.drop_last(), pred);
        assert(s.filter(pred) =~= s);
    }
}

/// Deduplication keeps exactly the original elements, without growth.
proof fn lemma_dedup_first_props(s: Seq<Seq<char>>)
    ensures
        dedup_first(s).to_set() =~= s.to_set(),
        dedup_first(s).len() <= s.len(),
        forall|i: int|
            0 <= i < dedup_first(s).len() ==> s.to_set().contains(#[trigger] dedup_first(s)[i]),
    decreases s.len(),
{
    if s.len() == 0 {
        assert(dedup_first(s).to_set() =~= s.to_set());
    } else {
        lemma_dedup_first_props(s.drop_last());
        assert(s.drop_last().push(s.last()) =~= s);
        assert(s.drop_last().to_set().insert(s.last()) =~= s.to_set()) by {
            assert(s.to_set() =~= s.drop_last().push(s.last()).to_set());
            s.drop_last().lemma_push_to_set_commute(s.last());
        }
        let rest = dedup_first(s.drop_last());
        if rest.contains(s.last()) {
            assert(rest.to_set().contains(s.last()));
            assert(dedup_first(s).to_set() =~= s.to_set());
        } else {
            rest.lemma_push_to_set_commute(s.last());
            assert(dedup_first(s).to_set() =~= s.to_set());
        }
    }
}

/// Appending elements already present does not change deduplication.
proof fn lemma_dedup_first_absorb(s: Seq<Seq<char>>, t: Seq<Seq<char>>)
    requires
        forall|i: int| 0 <= i < t.len() ==> s.to_set().contains(#[trigger] t[i]),
    ensures
        dedup_first(s + t) == dedup_first(s),
    decreases t.len(),
{
    if t.len() == 0 {
        assert(s + t =~= s);
    } else {
        assert(forall|i: int|
            0 <= i < t.drop_last().len() ==> s.to_set().contains(#[trigger] t.drop_last()[i]));
        lemma_dedup_first_absorb(s, t.drop_last());
        assert((s + t).drop_last() =~= s + t.drop_last());
        assert((s + t).last() == t.last());
        lemma_dedup_first_props(s + t.drop_last());
        assert((s + t.drop_last()).to_set().contains(t.last())) by {
            assert(s.to_set().contains(t.last()));
            let j = choose|j: int| 0 <= j < s.len() && s[j] == t.last();
            assert((s + t.drop_last())[j] == t.last());
            assert((s + t.drop_last()).to_set().contains((s + t.drop_last())[j]));
        }
        assert(dedup_first(s + t.drop_last()).to_set().contains(t.last()));
        assert(dedup_first(s + t).contains(t.last()) || dedup_first(s + t) == dedup_first(
            s + t.drop_last(),
        ));
        assert(dedup_first(s + t) == dedup_first(s + t.drop_last()));
    }
}

/// A valid label is already normalized: trimming and lowercasing leave it as it is.
proof fn lemma_normalize_valid(l: Seq<char>)
    requires
        valid_label(l),
    ensures
        normalize(l) == l,
{
    assert(!is_ascii_whitespace(l[0]));
    assert(!is_ascii_whitespace(l.last()));
    assert(trim_start(l) == l);
    assert(trim_end(l) == l);
    assert(lower(l) =~= l) by {
        assert(forall|i: int| 0 <= i < l.len() ==> lower_char(#[trigger] l[i]) == l[i]);
    }
}

/// Law: merging is idempotent. Feeding the merged output back in, as
/// both the explicit labels and the topics, yields the same set of
/// labels.
pub proof fn lemma_merge_idempotent(
    explicit: Seq<Seq<char>>,
    deprecated: Seq<Seq<char>>,
    topics: Seq<Seq<char>>,
)
    ensures
        merge_spec(
            merge_spec(explicit, deprecated, topics),
            Seq::empty(),
            merge_spec(explicit, deprecated, topics),
        ).to_set() == merge_spec(explicit, deprecated, topics).to_set(),
{
    let out = merge_spec(explicit, deprecated, topics);
    let capped0 = take_at_most(
        dedup_first(
            (if filter_nonempty(explicit).len() == 0 {
                filter_nonempty(deprecated)
            } else {
                filter_nonempty(explicit)
            }) + topics,
        ),
        25,
    );
    assert(out == filter_valid(map_normalize(capped0)));
    // Every element of the output is a valid label.
    assert forall|i: int| 0 <= i < out.len() implies valid_label(#[trigger] out[i]) by {
        map_normalize(capped0).lemma_filter_pred(|l: Seq<char>| valid_label(l), i);
    }
    // And the output is no longer than what was capped at 25.
    assert(out.len() <= 25) by {
        broadcast use vstd::seq_lib::group_seq_properties;

        map_normalize(capped0).lemma_filter_len(|l: Seq<char>| valid_label(l));
        assert(map_normalize(capped0).len() == capped0.len());
        assert(capped0.len() <= 25);
    }
    if out.len() == 0 {
        assert(filter_nonempty(out).len() == 0) by {
            reveal(Seq::filter);
        }
        assert(filter_nonempty(Seq::empty()).len() == 0) by {
            reveal(Seq::filter);
        }
        assert(filter_nonempty(Seq::empty()) + out =~= out);
        assert(dedup_first(out) == Seq::<Seq<char>>::empty());
        assert(take_at_most(Seq::empty(), 25) =~= Seq::<Seq<char>>::empty());
        assert(map_normalize(Seq::empty()) =~= Seq::<Seq<char>>::empty());
        assert(filter_valid(Seq::empty()) =~= Seq::<Seq<char>>::empty()) by {
            reveal(Seq::filter);
        }
        assert(merge_spec(out, Seq::empty(), out).to_set() =~= out.to_set());
    } else {
        assert(forall|i: int| 0 <= i < out.len() ==> (#[trigger] out[i]).len() > 0);
        lemma_filter_id(out, |l: Seq<char>| l.len() > 0);
        assert(filter_nonempty(out) == out);
        assert(filter_nonempty(out).len() > 0);
        // The union of the output with itself deduplicates to the
        // deduplication of the output alone.
        lemma_dedup_first_props(out);
        lemma_dedup_first_absorb(out, out);
        let uni = dedup_first(out + out);
        assert(uni == dedup_first(out));
        assert(uni.len() <= out.len());
        let capped = take_at_most(uni, 25);
        assert(capped == uni);
        // Every deduplicated element came from the output, so it is
        // valid, already normalized, and survives the final filter.
        assert forall|i: int| 0 <= i < uni.len() implies valid_label(#[trigger] uni[i])
            && normalize(uni[i]) == uni[i] by {
            assert(out.to_set().contains(uni[i]));
            let j = choose|j: int| 0 <= j < out.len() && out[j] == uni[i];
            assert(valid_label(out[j]));
            lemma_normalize_valid(uni[i]);
        }
        assert(map_normalize(uni) =~= uni);
        lemma_filter_id(uni, |l: Seq<char>| valid_label(l));
        assert(merge_spec(out, Seq::empty(), out) == uni);
        assert(uni.to_set() =~= out.to_set());
    }
}


/// Whether a vector of strings holds one with the given view.
fn vec_contains_string(v: &Vec<String>, x: &String) -> (r: bool)
    ensures
        r == v.deep_view().contains(x@),
{
    let mut i: usize = 0;
    while i < v.len()
        invariant
            i <= v@.len(),
            forall|j: int| 0 <= j < i ==> v.deep_view()[j] != x@,
        decreases v@.len() - i,
    {
        if *x == v[i] {
            proof {
                assert(v.deep_view()[i as int] == v@[i as int].deep_view());
                assert(v@[i as int].deep_view() == v@[i as int]@);
            }
            return true;
        }
        proof {
            assert(v.deep_view()[i as int] == v@[i as int].deep_view());
        }
        i = i + 1;
    }
    false
}

/// ASCII lowercasing of one character.
fn lower_char_exec(c: char) -> (r: char)
    ensures
        r == lower_char(c),
{
    if 'A' <= c && c <= 'Z' {
        ((c as u8) + 32) as char
    } else {
        c
    }
}

/// Whether a character is ASCII whitespace.
fn is_whitespace_char(c: char) -> (r: bool)
    ensures
        r == is_ascii_whitespace(c),
{
    c == ' ' || c == '\t' || c == '\n' || c == '\r' || c == '\u{b}' || c == '\u{c}'
}

proof fn lemma_trim_start_skip(s: Seq<char>, a: int)
    requires
        0 <= a <= s.len(),
        forall|i: int| 0 <= i < a ==> is_ascii_whitespace(#[trigger] s[i]),
        a == s.len() || !is_ascii_whitespace(s[a]),
    ensures
        trim_start(s) == s.skip(a),
    decreases a,
{
    if a == 0 {
        assert(s.skip(0) =~= s);
    } else {
        assert(is_ascii_whitespace(s[0]));
        assert(forall|i: int|
            0 <= i < a - 1 ==> is_ascii_whitespace(#[trigger] s.drop_first()[i]));
        lemma_trim_start_skip(s.drop_first(), a - 1);
        assert(s.drop_first().skip(a - 1) =~= s.skip(a));
    }
}

proof fn lemma_trim_end_take(s: Seq<char>, b: int)
    requires
        0 <= b <= s.len(),
        forall|i: int| b <= i < s.len() ==> is_ascii_whitespace(#[trigger] s[i]),
        b == 0 || !is_ascii_whitespace(s[b - 1]),
    ensures
        trim_end(s) == s.take(b),
    decreases s.len(),
{
    if b == s.len() {
        assert(s.take(b) =~= s);
        if s.len() > 0 {
            assert(!is_ascii_whitespace(s.last()));
        }
    } else {
        assert(is_ascii_whitespace(s.last()));
        assert(forall|i: int|
            b <= i < s.drop_last().len() ==> is_ascii_whitespace(#[trigger] s.drop_last()[i]));
        lemma_trim_end_take(s.drop_last(), b);
        assert(s.drop_last().take(b) =~= s.take(b));
    }
}

/// Trim whitespace from both ends, then lowercase.
fn normalize_chars(v: &Vec<char>) -> (r: Vec<char>)
    ensures
        r@ == normalize(v@),
{
    let n = v.len();
    let mut a: usize = 0;
    while a < n && is_whitespace_char(v[a])
        invariant
            n == v@.len(),
            a <= n,
            forall|i: int| 0 <= i < a ==> is_ascii_whitespace(#[trigger] v@[i]),
        decreases n - a,
    {
        a = a + 1;
    }
    let mut b: usize = n;
    while b > a && is_whitespace_char(v[b - 1])
        invariant
            n == v@.len(),
            a <= b <= n,
            forall|i: int| b <= i < n ==> is_ascii_whitespace(#[trigger] v@[i]),
        decreases b,
    {
        b = b - 1;
    }
    proof {
        lemma_trim_start_skip(v@, a as int);
        let rest = v@.skip(a as int);
        assert(forall|i: int|
            b - a <= i < rest.len() ==> is_ascii_whitespace(#[trigger] rest[i]));
        if b > a {
            assert(!is_ascii_whitespace(rest[b - a - 1]));
        }
        lemma_trim_end_take(rest, b - a);
        assert(trim(v@) == rest.take(b - a));
        assert(rest.take(b - a) =~= v@.subrange(a as int, b as int));
    }
    let mut out: Vec<char> = Vec::new();
    let mut i: usize = a;
    while i < b
        invariant
            a <= i <= b <= v@.len(),
            out@ =~= lower(v@.subrange(a as int, i as int)),
        decreases b - i,
    {
        let lc = lower_char_exec(v[i]);
        out.push(lc);
        proof {
            assert(v@.subrange(a as int, i + 1) =~= v@.subrange(a as int, i as int).push(
                v@[i as int],
            ));
            assert(lower(v@.subrange(a as int, i as int).push(v@[i as int])) =~= lower(
                v@.subrange(a as int, i as int),
            ).push(lower_char(v@[i as int])));
        }
        i = i + 1;
    }
    proof {
        assert(out@ =~= lower(trim(v@)));
    }
    out
}

/// Whether a normalized label may be kept.
fn is_valid_label_chars(v: &Vec<char>) -> (r: bool)
    ensures
        r == valid_label(v@),
{
    if v.len() == 0 || v.len() > MAX_LABEL_LENGTH {
        return false;
    }
    let mut i: usize = 0;
    while i < v.len()
        invariant
            i <= v@.len(),
            forall|j: int| 0 <= j < i ==> label_char_ok(#[trigger] v@[j]),
        decreases v@.len() - i,
    {
        let c = v[i];
        if !(('a' <= c && c <= 'z') || ('0' <= c && c <= '9') || c == '-') {
            return false;
        }
        i = i + 1;
    }
    true
}

/// Keep the nonempty strings.
fn filter_nonempty_vec(v: &Vec<String>) -> (r: Vec<String>)
    ensures
        r.deep_view() =~~= filter_nonempty(v.deep_view()),
{
    let mut out: Vec<String> = Vec::new();
    let mut i: usize = 0;
    proof {
        reveal(Seq::filter);
        assert(v.deep_view().take(0) =~= Seq::<Seq<char>>::empty());
    }
    while i < v.len()
        invariant
            i <= v@.len(),
            out.deep_view() =~~= filter_nonempty(v.deep_view().take(i as int)),
        decreases v@.len() - i,
    {
        let ghost prefix = v.deep_view().take(i as int);
        proof {
            reveal(Seq::filter);
            assert(v.deep_view().take(i + 1) =~= prefix.push(v.deep_view()[i as int]));
            assert(prefix.push(v.deep_view()[i as int]).drop_last() =~= prefix);
        }
        if !v[i].as_str().is_empty() {
            let ghost before = out.deep_view();
            out.push(v[i].clone());
            proof {
                assert(out.deep_view() =~~= before.push(v.deep_view()[i as int]));
            }
        }
        i = i + 1;
    }
    proof {
        assert(v.deep_view().take(v@.len() as int) =~= v.deep_view());
    }
    out
}

/// Merge explicit labels, deprecated extra tags, and platform topics.
///
/// Empty labels are ignored. When no explicit labels are given the
/// deprecated tags stand in for them; when both are given the
/// deprecated tags are ignored, and the returned warnings say which of
/// the two deprecation notices to raise. The union with the topics is
/// deduplicated keeping first occurrences, capped at 25, and each
/// survivor is trimmed, lowercased, and dropped unless it is 1 to 50
/// characters of `a`-`z`, `0`-`9` and `-`.
pub fn merge_labels(explicit: &Vec<String>, deprecated: &Vec<String>, topics: &Vec<String>) -> (r:
    (Vec<String>, LabelWarnings))
    ensures
        r.0.deep_view() =~~= merge_spec(
            explicit.deep_view(),
            deprecated.deep_view(),
            topics.deep_view(),
        ),
        r.0@.len() <= 25,
        forall|i: int| 0 <= i < r.0@.len() ==> valid_label(#[trigger] r.0.deep_view()[i]),
        r.1.deprecated_tags_used == (filter_nonempty(deprecated.deep_view()).len() > 0),
        r.1.both_sources_set == (filter_nonempty(deprecated.deep_view()).len() > 0
            && filter_nonempty(explicit.deep_view()).len() > 0),
{
    let ex = filter_nonempty_vec(explicit);
    let de = filter_nonempty_vec(deprecated);
    let warnings = LabelWarnings {
        deprecated_tags_used: de.len() > 0,
        both_sources_set: de.len() > 0 && ex.len() > 0,
    };
    let ghost chosen_dv = if filter_nonempty(explicit.deep_view()).len() == 0 {
        filter_nonempty(deprecated.deep_view())
    } else {
        filter_nonempty(explicit.deep_view())
    };
    let mut all = if ex.len() == 0 {
        de
    } else {
        ex
    };
    proof {
        assert(all.deep_view() =~~= chosen_dv);
    }
    let ghost union_dv = chosen_dv + topics.deep_view();
    let mut i: usize = 0;
    while i < topics.len()
        invariant
            i <= topics@.len(),
            all.deep_view() =~~= chosen_dv + topics.deep_view().take(i as int),
        decreases topics@.len() - i,
    {
        let ghost before = all.deep_view();
        all.push(topics[i].clone());
        proof {
            assert(all.deep_view() =~~= before.push(topics.deep_view()[i as int]));
            assert(chosen_dv + topics.deep_view().take(i + 1) =~= (chosen_dv
                + topics.deep_view().take(i as int)).push(topics.deep_view()[i as int]));
        }
        i = i + 1;
    }
    proof {
        assert(topics.deep_view().take(topics@.len() as int) =~= topics.deep_view());
        assert(all.deep_view() =~~= union_dv);
    }
    let mut uniq: Vec<String> = Vec::new();
    let mut j: usize = 0;
    proof {
        assert(union_dv.take(0) =~= Seq::<Seq<char>>::empty());
    }
    while j < all.len()
        invariant
            j <= all@.len(),
            all.deep_view() =~~= union_dv,
            uniq.deep_view() =~~= dedup_first(union_dv.take(j as int)),
        decreases all@.len() - j,
    {
        proof {
            assert(union_dv.take(j + 1).drop_last() =~= union_dv.take(j as int));
            assert(union_dv.take(j + 1).last() == union_dv[j as int]);
            assert(all.deep_view()[j as int] == union_dv[j as int]);
        }
        if !vec_contains_string(&uniq, &all[j]) {
            let ghost before = uniq.deep_view();
            uniq.push(all[j].clone());
            proof {
                assert(uniq.deep_view() =~~= before.push(union_dv[j as int]));
            }
        }
        j = j + 1;
    }
    proof {
        assert(union_dv.take(union_dv.len() as int) =~= union_dv);
        assert(uniq.deep_view() =~~= dedup_first(union_dv));
    }
    let capped: Vec<String> = if uniq.len() <= MAX_NUM_TOTAL_LABELS {
        uniq
    } else {
        let mut head: Vec<String> = Vec::new();
        let mut k: usize = 0;
        while k < 25
            invariant
                k <= 25 < uniq@.len(),
                uniq.deep_view() =~~= dedup_first(union_dv),
                head.deep_view() =~~= dedup_first(union_dv).take(k as int),
            decreases 25 - k,
        {
            let ghost before = head.deep_view();
            head.push(uniq[k].clone());
            proof {
                assert(head.deep_view() =~~= before.push(dedup_first(union_dv)[k as int]));
                assert(dedup_first(union_dv).take(k + 1) =~= dedup_first(union_dv).take(
                    k as int,
                ).push(dedup_first(union_dv)[k as int]));
            }
            k = k + 1;
        }
        head
    };
    let ghost capped_dv = take_at_most(dedup_first(union_dv), 25);
    proof {
        assert(capped.deep_view() =~~= capped_dv);
    }
    let mut out: Vec<String> = Vec::new();
    let mut m: usize = 0;
    proof {
        reveal(Seq::filter);
        assert(capped_dv.take(0) =~= Seq::<Seq<char>>::empty());
        assert(map_normalize(capped_dv.take(0)) =~= Seq::<Seq<char>>::empty());
    }
    while m < capped.len()
        invariant
            m <= capped@.len(),
            capped.deep_view() =~~= capped_dv,
            out.deep_view() =~~= filter_valid(map_normalize(capped_dv.take(m as int))),
        decreases capped@.len() - m,
    {
        let label_chars = chars_of(capped[m].as_str());
        let norm = normalize_chars(&label_chars);
        proof {
            reveal(Seq::filter);
            assert(capped_dv.take(m + 1) =~= capped_dv.take(m as int).push(capped_dv[m as int]));
            assert(map_normalize(capped_dv.take(m + 1)) =~= map_normalize(
                capped_dv.take(m as int),
            ).push(normalize(capped_dv[m as int])));
            assert(map_normalize(capped_dv.take(m as int)).push(
                normalize(capped_dv[m as int]),
            ).drop_last() =~= map_normalize(capped_dv.take(m as int)));
            assert(norm@ == normalize(capped_dv[m as int]));
        }
        if is_valid_label_chars(&norm) {
            let ghost before = out.deep_view();
            out.push(string_from_chars(&norm));
            proof {
                assert(out.deep_view() =~~= before.push(normalize(capped_dv[m as int])));
            }
        }
        m = m + 1;
    }
    proof {
        assert(capped_dv.take(capped_dv.len() as int) =~= capped_dv);
        assert(out.deep_view() =~~= merge_spec(
            explicit.deep_view(),
            deprecated.deep_view(),
            topics.deep_view(),
        ));
        assert forall|i: int| 0 <= i < out@.len() implies valid_label(
            #[trigger] out.deep_view()[i],
        ) by {
            map_normalize(capped_dv).lemma_filter_pred(|l: Seq<char>| valid_label(l), i);
        }
        assert(out@.len() <= 25) by {
            map_normalize(capped_dv).lemma_filter_len(|l: Seq<char>| valid_label(l));
            assert(map_normalize(capped_dv).len() == capped_dv.len());
            assert(capped_dv.len() <= 25) by {
                lemma_dedup_first_props(union_dv);
            }
            assert(out.deep_view().len() == out@.len());
        }
    }
    (out, warnings)
}

} // verus!
