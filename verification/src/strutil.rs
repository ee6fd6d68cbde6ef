//! Character-sequence helpers shared by the resolvers: splitting and
//! joining on a separator, decimal rendering, and conversions between
//! `String` and `Vec<char>`.

use vstd::prelude::*;

verus! {

/// Relies on String::push: appends one character to the string.
#[verifier::external_body]
pub(crate) fn push_char(s: &mut String, c: char)
    ensures
        final(s)@ == old(s)@.push(c),
{
    s.push(c);
}

/// Collect the characters of a string slice into a vector.
pub fn chars_of(s: &str) -> (r: Vec<char>)
    ensures
        r@ == s@,
{
    let n = s.unicode_len();
    let mut r: Vec<char> = Vec::new();
    let mut i: usize = 0;
    while i < n
        invariant
            n == s@.len(),
            i <= n,
            r@ == s@.take(i as int),
        decreases n - i,
    {
        let c = s.get_char(i);
        r.push(c);
        proof {
            assert(s@.take(i + 1 as int) =~= s@.take(i as int).push(s@[i as int]));
        }
        i = i + 1;
    }
    proof {
        assert(s@.take(n as int) =~= s@);
    }
    r
}

/// Build a string from a vector of characters.
pub fn string_from_chars(v: &Vec<char>) -> (r: String)
    ensures
        r@ == v@,
{
    let mut r = String::new();
    let mut i: usize = 0;
    while i < v.len()
        invariant
            i <= v@.len(),
            r@ == v@.take(i as int),
        decreases v@.len() - i,
    {
        push_char(&mut r, v[i]);
        proof {
            assert(v@.take(i + 1 as int) =~= v@.take(i as int).push(v@[i as int]));
        }
        i = i + 1;
    }
    proof {
        assert(v@.take(v@.len() as int) =~= v@);
    }
    r
}

/// Split a character sequence on a separator. The result always has at
/// least one part; separators between parts are dropped.
pub open spec fn split_char(s: Seq<char>, c: char) -> Seq<Seq<char>>
    decreases s.len(),
{
    if s.len() == 0 {
        seq![Seq::<char>::empty()]
    } else if s[0] == c {
        seq![Seq::<char>::empty()] + split_char(s.drop_first(), c)
    } else {
        let rest = split_char(s.drop_first(), c);
        seq![seq![s[0]] + rest[0]] + rest.drop_first()
    }
}

/// Join parts with a separator character between them.
pub open spec fn join_char(parts: Seq<Seq<char>>, c: char) -> Seq<char>
    decreases parts.len(),
{
    if parts.len() == 0 {
        Seq::empty()
    } else if parts.len() == 1 {
        parts[0]
    } else {
        parts[0] + seq![c] + join_char(parts.drop_first(), c)
    }
}

pub proof fn lemma_split_char_len(s: Seq<char>, c: char)
    ensures
        split_char(s, c).len() >= 1,
    decreases s.len(),
{
    if s.len() != 0 {
        lemma_split_char_len(s.drop_first(), c);
    }
}

/// No part of a split contains the separator.
pub proof fn lemma_split_char_parts_free(s: Seq<char>, c: char)
    ensures
        forall|i: int|
            0 <= i < split_char(s, c).len() ==> !(#[trigger] split_char(s, c)[i]).contains(c),
    decreases s.len(),
{
    if s.len() == 0 {
    } else if s[0] == c {
        lemma_split_char_parts_free(s.drop_first(), c);
        assert forall|i: int| 0 <= i < split_char(s, c).len() implies !(#[trigger] split_char(
            s,
            c,
        )[i]).contains(c) by {
            if i > 0 {
                assert(split_char(s, c)[i] == split_char(s.drop_first(), c)[i - 1]);
            }
        }
    } else {
        lemma_split_char_parts_free(s.drop_first(), c);
        lemma_split_char_len(s.drop_first(), c);
        let rest = split_char(s.drop_first(), c);
        assert forall|i: int| 0 <= i < split_char(s, c).len() implies !(#[trigger] split_char(
            s,
            c,
        )[i]).contains(c) by {
            if i == 0 {
                assert(!rest[0].contains(c));
                assert forall|j: int| 0 <= j < split_char(s, c)[0].len() implies split_char(
                    s,
                    c,
                )[0][j] != c by {
                    if j > 0 {
                        assert(split_char(s, c)[0][j] == rest[0][j - 1]);
                    }
                }
            } else {
                assert(split_char(s, c)[i] == rest[i]);
            }
        }
    }
}

/// Joining parts that are free of a character, with a different
/// separator, yields a sequence free of that character.
pub proof fn lemma_join_char_free(parts: Seq<Seq<char>>, sep: char, c: char)
    requires
        sep != c,
        forall|i: int| 0 <= i < parts.len() ==> !(#[trigger] parts[i]).contains(c),
    ensures
        !join_char(parts, sep).contains(c),
    decreases parts.len(),
{
    if parts.len() == 0 {
    } else if parts.len() == 1 {
        assert(!parts[0].contains(c));
    } else {
        assert(forall|i: int|
            0 <= i < parts.drop_first().len() ==> !(#[trigger] parts.drop_first()[i]).contains(
                c,
            ));
        lemma_join_char_free(parts.drop_first(), sep, c);
        let joined = join_char(parts, sep);
        assert(joined =~= parts[0] + seq![sep] + join_char(parts.drop_first(), sep));
        assert forall|j: int| 0 <= j < joined.len() implies joined[j] != c by {
            let head = parts[0];
            let tail = join_char(parts.drop_first(), sep);
            if j < head.len() {
                assert(joined[j] == head[j]);
                assert(!head.contains(c));
            } else if j == head.len() {
                assert(joined[j] == sep);
            } else {
                assert(joined[j] == tail[j - head.len() - 1]);
                assert(!tail.contains(c));
            }
        }
    }
}

/// A sequence free of the separator splits into itself alone.
pub proof fn lemma_split_char_whole(s: Seq<char>, c: char)
    requires
        !s.contains(c),
    ensures
        split_char(s, c) =~~= seq![s],
    decreases s.len(),
{
    if s.len() == 0 {
        assert(split_char(s, c) =~~= seq![s]);
    } else {
        assert(s[0] != c);
        assert(!s.drop_first().contains(c)) by {
            assert forall|i: int| 0 <= i < s.drop_first().len() implies s.drop_first()[i]
                != c by {
                assert(s.drop_first()[i] == s[i + 1]);
            }
        }
        lemma_split_char_whole(s.drop_first(), c);
        assert(seq![s[0]] + s.drop_first() =~= s);
    }
}

/// Splitting a sequence that starts with a separator-free part, then a
/// separator, peels off exactly that part.
pub proof fn lemma_split_char_peel(p: Seq<char>, t: Seq<char>, c: char)
    requires
        !p.contains(c),
    ensures
        split_char(p + seq![c] + t, c) =~~= seq![p] + split_char(t, c),
    decreases p.len(),
{
    let s = p + seq![c] + t;
    if p.len() == 0 {
        assert(s[0] == c);
        assert(s.drop_first() =~= t);
    } else {
        assert(s[0] == p[0]);
        assert(s[0] != c);
        assert(!p.drop_first().contains(c)) by {
            assert forall|i: int| 0 <= i < p.drop_first().len() implies p.drop_first()[i]
                != c by {
                assert(p.drop_first()[i] == p[i + 1]);
            }
        }
        assert(s.drop_first() =~= p.drop_first() + seq![c] + t);
        lemma_split_char_peel(p.drop_first(), t, c);
        lemma_split_char_len(t, c);
        let rest = split_char(s.drop_first(), c);
        assert(rest =~~= seq![p.drop_first()] + split_char(t, c));
        assert(rest[0] == p.drop_first());
        assert(seq![s[0]] + rest[0] =~= p);
        assert(rest.drop_first() =~~= split_char(t, c));
    }
}

/// Splitting the join of separator-free parts gives the parts back.
pub proof fn lemma_split_join(parts: Seq<Seq<char>>, c: char)
    requires
        parts.len() >= 1,
        forall|i: int| 0 <= i < parts.len() ==> !(#[trigger] parts[i]).contains(c),
    ensures
        split_char(join_char(parts, c), c) =~~= parts,
    decreases parts.len(),
{
    if parts.len() == 1 {
        lemma_split_char_whole(parts[0], c);
    } else {
        lemma_split_join(parts.drop_first(), c);
        lemma_split_char_peel(parts[0], join_char(parts.drop_first(), c), c);
    }
}

/// Decimal digit character for a value between 0 and 9.
pub open spec fn dec_digit(d: int) -> char
    recommends
        0 <= d <= 9,
{
    (('0' as u8) + (d as u8)) as char
}

/// Decimal rendering of a natural number, most significant digit first.
pub open spec fn dec_str(n: nat) -> Seq<char>
    decreases n,
{
    if n < 10 {
        seq![dec_digit(n as int)]
    } else {
        dec_str(n / 10).push(dec_digit((n % 10) as int))
    }
}

/// Render an unsigned integer in decimal.
pub fn u64_to_string(n: u64) -> (r: String)
    ensures
        r@ == dec_str(n as nat),
{
    let mut digits: Vec<char> = Vec::new();
    let mut m: u64 = n;
    let ghost mut acc: Seq<char> = Seq::empty();
    loop
        invariant_except_break
            acc == digits@.reverse(),
            m > 0 ==> dec_str(n as nat) == dec_str(m as nat) + acc,
            m == 0 ==> (digits@.len() == 0 && acc == Seq::<char>::empty() && n == 0),
        ensures
            dec_str(n as nat) == acc,
            acc == digits@.reverse(),
        decreases m, (if digits@.len() == 0 { 1int } else { 0int }),
    {
        let d = (m % 10) as u8;
        let c = (('0' as u8) + d) as char;
        let old_m = m;
        m = m / 10;
        proof {
            assert(c == dec_digit((old_m % 10) as int));
            if m > 0 {
                assert(dec_str(old_m as nat) == dec_str(m as nat).push(
                    dec_digit((old_m % 10) as int),
                ));
                assert(dec_str(old_m as nat) =~= dec_str(m as nat) + seq![c]);
            } else {
                assert(old_m < 10);
                assert(dec_str(old_m as nat) == seq![dec_digit(old_m as int)]);
                assert(dec_str(old_m as nat) =~= seq![c]);
            }
            assert(digits@.push(c).reverse() =~= seq![c] + digits@.reverse());
            if old_m > 0 {
                assert(dec_str(n as nat) =~= dec_str(old_m as nat) + acc);
                assert(dec_str(old_m as nat) + acc =~= (if m > 0 {
                    dec_str(m as nat)
                } else {
                    Seq::<char>::empty()
                }) + (seq![c] + acc));
            } else {
                assert(dec_str(n as nat) =~= seq![c] + acc);
            }
            acc = seq![c] + acc;
        }
        digits.push(c);
        if m == 0 {
            break;
        }
    }
    let mut out: Vec<char> = Vec::new();
    let mut i: usize = digits.len();
    while i > 0
        invariant
            i <= digits@.len(),
            out@ =~= digits@.skip(i as int).reverse(),
        decreases i,
    {
        i = i - 1;
        out.push(digits[i]);
        proof {
            assert(digits@.skip(i as int) =~= seq![digits@[i as int]] + digits@.skip(i + 1));
            assert((seq![digits@[i as int]] + digits@.skip(i + 1)).reverse() =~= digits@.skip(
                i + 1,
            ).reverse().push(digits@[i as int]));
        }
    }
    proof {
        assert(digits@.skip(0) =~= digits@);
    }
    string_from_chars(&out)
}

/// Decimal rendering of a signed integer.
pub open spec fn int_dec_str(n: int) -> Seq<char> {
    if n < 0 {
        seq!['-'] + dec_str((-n) as nat)
    } else {
        dec_str(n as nat)
    }
}

/// Render a signed integer in decimal.
pub fn i64_to_string(n: i64) -> (r: String)
    ensures
        r@ == int_dec_str(n as int),
{
    if n >= 0 {
        u64_to_string(n as u64)
    } else {
        let magnitude: u64 = ((-(n + 1)) as u64) + 1;
        proof {
            assert(magnitude == -(n as int));
            reveal_strlit("-");
            assert("-"@ =~= seq!['-']);
        }
        "-".to_owned().concat(u64_to_string(magnitude).as_str())
    }
}

/// The view of an optional string.
pub open spec fn opt_view(o: Option<String>) -> Option<Seq<char>> {
    match o {
        Some(s) => Some(s@),
        None => None,
    }
}

/// Whether a character is ASCII whitespace. Together with an
/// ASCII-only restriction this coincides with Unicode whitespace.
pub open spec fn is_ascii_whitespace(c: char) -> bool {
    c == ' ' || c == '\t' || c == '\n' || c == '\r' || c == '\u{b}' || c == '\u{c}'
}

/// Whether a character is an ASCII decimal digit.
pub open spec fn is_ascii_digit(c: char) -> bool {
    '0' <= c && c <= '9'
}

/// Numeric value of a digit character.
pub open spec fn digit_val(c: char) -> int {
    c as int - '0' as int
}

/// Whether one character sequence occurs inside another.
pub open spec fn contains_seq(s: Seq<char>, sub: Seq<char>) -> bool {
    exists|i: int|
        0 <= i && i + sub.len() <= s.len() && #[trigger] s.subrange(i, i + sub.len()) == sub
}

/// Substring search over character vectors.
pub fn contains_substring(hay: &Vec<char>, needle: &Vec<char>) -> (r: bool)
    ensures
        r == contains_seq(hay@, needle@),
{
    let n = needle.len();
    let hay_len = hay.len();
    if n > hay_len {
        return false;
    }
    let mut start: usize = 0;
    while start <= hay_len - n
        invariant
            n == needle@.len(),
            hay_len == hay@.len(),
            n <= hay_len,
            start <= hay_len - n + 1,
            forall|i: int|
                0 <= i < start ==> #[trigger] hay@.subrange(i, i + needle@.len()) != needle@,
        decreases hay_len - n - start + 1,
    {
        let mut j: usize = 0;
        let mut all_match = true;
        while j < n
            invariant
                n == needle@.len(),
                hay_len == hay@.len(),
                start + n <= hay_len,
                j <= n,
                all_match == (forall|k: int|
                    0 <= k < j ==> hay@[start + k] == #[trigger] needle@[k]),
            decreases n - j,
        {
            if hay[start + j] != needle[j] {
                all_match = false;
                proof {
                    assert(!(hay@[start + j as int] == needle@[j as int]));
                }
                j = n;
            } else {
                j = j + 1;
            }
        }
        if all_match {
            proof {
                assert(hay@.subrange(start as int, start + needle@.len()) =~= needle@);
            }
            return true;
        }
        proof {
            if hay@.subrange(start as int, start + needle@.len()) == needle@ {
                assert forall|k: int| 0 <= k < n implies hay@[start + k] == needle@[k] by {
                    assert(hay@.subrange(start as int, start + needle@.len())[k] == hay@[start
                        + k]);
                }
                assert(false);
            }
        }
        start = start + 1;
    }
    proof {
        assert forall|i: int|
            0 <= i && i + needle@.len() <= hay@.len() implies #[trigger] hay@.subrange(
            i,
            i + needle@.len(),
        ) != needle@ by {
            assert(i < start);
        }
    }
    false
}

} // verus!
