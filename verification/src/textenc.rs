//! Wire text pieces: string-body escaping and literal matching.
//!
//! A string payload is written between double quotes with exactly two
//! escapes: `\"` for a quote and `\\` for a backslash.  Every other
//! character stands for itself.  Parsing accepts exactly that form, so
//! escaping and unescaping are mutually inverse.

use vstd::prelude::*;

verus! {

/// How one character is written inside a quoted string body.
pub open spec fn escape_one(c: char) -> Seq<char> {
    if c == '"' || c == '\\' {
        seq!['\\', c]
    } else {
        seq![c]
    }
}

/// The escaped form of a whole string body.
pub open spec fn escape_chars(s: Seq<char>) -> Seq<char>
    decreases s.len(),
{
    if s.len() == 0 {
        Seq::empty()
    } else {
        escape_one(s[0]) + escape_chars(s.skip(1))
    }
}

/// Splitting a stretch of `s` that is known to hold `a` followed by `b`.
pub proof fn lemma_concat_at(s: Seq<char>, i: int, a: Seq<char>, b: Seq<char>)
    requires
        0 <= i,
        i + a.len() + b.len() <= s.len(),
        s.subrange(i, i + a.len() + b.len()) == a + b,
    ensures
        s.subrange(i, i + a.len()) == a,
        s.subrange(i + a.len(), i + a.len() + b.len()) == b,
{
    let w = s.subrange(i, i + a.len() + b.len());
    assert forall|m: int| 0 <= m < a.len() implies s.subrange(i, i + a.len())[m] == a[m] by {
        assert(w[m] == s[i + m]);
        assert(w[m] == (a + b)[m]);
        assert(s.subrange(i, i + a.len())[m] == s[i + m]);
    }
    assert(s.subrange(i, i + a.len()) =~= a);
    let off = i + a.len();
    assert forall|m: int| 0 <= m < b.len() implies s.subrange(
        off,
        i + a.len() + b.len(),
    )[m] == b[m] by {
        assert(w[m + a.len()] == s[off + m]);
        assert(w[m + a.len()] == (a + b)[m + a.len()]);
        assert((a + b)[m + a.len()] == b[m]);
        assert(s.subrange(off, i + a.len() + b.len())[m] == s[off + m]);
    }
    assert(s.subrange(off, i + a.len() + b.len()) =~= b);
}

/// A stretch of `s` is the concatenation of its two halves.
pub proof fn lemma_concat_of_subranges(s: Seq<char>, i: int, j: int, k: int)
    requires
        0 <= i <= j <= k <= s.len(),
    ensures
        s.subrange(i, k) == s.subrange(i, j) + s.subrange(j, k),
{
    assert forall|m: int| 0 <= m < k - i implies s.subrange(i, k)[m] == (s.subrange(i, j)
        + s.subrange(j, k))[m] by {
        assert(s.subrange(i, k)[m] == s[i + m]);
        if m < j - i {
            assert(s.subrange(i, j)[m] == s[i + m]);
        } else {
            assert(s.subrange(j, k)[m - (j - i)] == s[j + (m - (j - i))]);
        }
    }
    assert(s.subrange(i, k) =~= s.subrange(i, j) + s.subrange(j, k));
}

pub proof fn lemma_escape_append(a: Seq<char>, b: Seq<char>)
    ensures
        escape_chars(a + b) == escape_chars(a) + escape_chars(b),
    decreases a.len(),
{
    if a.len() == 0 {
        assert(a + b =~= b);
        assert(escape_chars(a) + escape_chars(b) =~= escape_chars(b));
    } else {
        assert((a + b).skip(1) =~= a.skip(1) + b);
        lemma_escape_append(a.skip(1), b);
        assert((a + b)[0] == a[0]);
        assert(escape_chars(a + b) == escape_one(a[0]) + (escape_chars(a.skip(1)) + escape_chars(
            b,
        )));
        assert(escape_one(a[0]) + (escape_chars(a.skip(1)) + escape_chars(b)) =~= (escape_one(a[0])
            + escape_chars(a.skip(1))) + escape_chars(b));
    }
}

pub proof fn lemma_escape_snoc(s: Seq<char>, c: char)
    ensures
        escape_chars(s.push(c)) == escape_chars(s) + escape_one(c),
{
    assert(s.push(c) =~= s + seq![c]);
    lemma_escape_append(s, seq![c]);
    assert(seq![c].skip(1) =~= Seq::<char>::empty());
    assert(escape_chars(seq![c]) == escape_one(c) + escape_chars(seq![c].skip(1)));
    assert(escape_one(c) + Seq::<char>::empty() =~= escape_one(c));
}

pub proof fn lemma_escape_len(s: Seq<char>)
    ensures
        s.len() <= escape_chars(s).len() <= 2 * s.len(),
    decreases s.len(),
{
    if s.len() > 0 {
        lemma_escape_len(s.skip(1));
    }
}

/// Appends the escaped form of `src` to `out`.
pub fn push_escaped_chars(src: &Vec<char>, out: &mut Vec<char>)
    ensures
        final(out)@ == old(out)@ + escape_chars(src@),
{
    let mut i: usize = 0;
    while i < src.len()
        invariant
            i <= src@.len(),
            out@ == old(out)@ + escape_chars(src@.subrange(0, i as int)),
        decreases src@.len() - i,
    {
        let c = src[i];
        if c == '"' || c == '\\' {
            out.push('\\');
            out.push(c);
        } else {
            out.push(c);
        }
        proof {
            let pre = src@.subrange(0, i as int);
            assert(src@.subrange(0, i + 1) =~= pre.push(c));
            lemma_escape_snoc(pre, c);
            assert(out@ =~= old(out)@ + escape_chars(src@.subrange(0, i + 1)));
        }
        i = i + 1;
    }
    proof {
        assert(src@.subrange(0, src@.len() as int) =~= src@);
    }
}

/// Parse of a quoted string body starting right after the opening quote:
/// consumes up to and including the closing quote and yields the unescaped
/// body.  Refuses an unterminated body and any escape other than `\"` and
/// `\\`.
pub open spec fn spec_parse_str_body(s: Seq<char>, i: int) -> Option<(Seq<char>, int)>
    decreases s.len() - i when 0 <= i <= s.len()
{
    if i >= s.len() {
        None
    } else if s[i] == '"' {
        Some((Seq::empty(), i + 1))
    } else if s[i] == '\\' {
        if i + 1 < s.len() && (s[i + 1] == '"' || s[i + 1] == '\\') {
            match spec_parse_str_body(s, i + 2) {
                Some((t, j)) => Some((seq![s[i + 1]] + t, j)),
                None => None,
            }
        } else {
            None
        }
    } else {
        match spec_parse_str_body(s, i + 1) {
            Some((t, j)) => Some((seq![s[i]] + t, j)),
            None => None,
        }
    }
}

/// Soundness: a successful body parse consumed exactly the escaped form of
/// its result plus the closing quote.
pub proof fn lemma_parse_str_body_sound(s: Seq<char>, i: int)
    requires
        0 <= i <= s.len(),
        spec_parse_str_body(s, i) is Some,
    ensures
        ({
            let (t, j) = spec_parse_str_body(s, i)->Some_0;
            i < j <= s.len() && s.subrange(i, j) == escape_chars(t) + seq!['"']
        }),
    decreases s.len() - i,
{
    let (t, j) = spec_parse_str_body(s, i)->Some_0;
    if s[i] == '"' {
        assert(s.subrange(i, j) =~= escape_chars(t) + seq!['"']);
    } else if s[i] == '\\' {
        lemma_parse_str_body_sound(s, i + 2);
        let (t2, j2) = spec_parse_str_body(s, i + 2)->Some_0;
        assert(j == j2);
        assert(t == seq![s[i + 1]] + t2);
        assert(t[0] == s[i + 1]);
        assert(t.skip(1) =~= t2);
        assert(escape_chars(t) == escape_one(t[0]) + escape_chars(t2));
        assert(escape_one(t[0]) =~= seq![s[i], s[i + 1]]);
        let head = seq![s[i], s[i + 1]];
        let tail = s.subrange(i + 2, j);
        assert forall|m: int| 0 <= m < j - i implies s.subrange(i, j)[m] == (head + tail)[m] by {
            assert(s.subrange(i, j)[m] == s[i + m]);
            if m >= 2 {
                assert((head + tail)[m] == tail[m - 2]);
                assert(tail[m - 2] == s[i + m]);
            }
        }
        assert(s.subrange(i, j) =~= head + tail);
        assert(escape_chars(t) + seq!['"'] =~= head + (escape_chars(t2) + seq!['"']));
    } else {
        lemma_parse_str_body_sound(s, i + 1);
        let (t2, j2) = spec_parse_str_body(s, i + 1)->Some_0;
        assert(j == j2);
        assert(t == seq![s[i]] + t2);
        assert(t[0] == s[i]);
        assert(t.skip(1) =~= t2);
        assert(escape_chars(t) == escape_one(t[0]) + escape_chars(t2));
        assert(escape_one(t[0]) =~= seq![s[i]]);
        let head = seq![s[i]];
        let tail = s.subrange(i + 1, j);
        assert forall|m: int| 0 <= m < j - i implies s.subrange(i, j)[m] == (head + tail)[m] by {
            assert(s.subrange(i, j)[m] == s[i + m]);
            if m >= 1 {
                assert((head + tail)[m] == tail[m - 1]);
                assert(tail[m - 1] == s[i + m]);
            }
        }
        assert(s.subrange(i, j) =~= head + tail);
        assert(escape_chars(t) + seq!['"'] =~= head + (escape_chars(t2) + seq!['"']));
    }
}

/// Completeness: at a position holding the escaped form of `t` plus the
/// closing quote, the body parse succeeds with exactly `t`.
pub proof fn lemma_parse_str_body_complete(s: Seq<char>, i: int, t: Seq<char>)
    requires
        0 <= i,
        i + escape_chars(t).len() + 1 <= s.len(),
        s.subrange(i, i + escape_chars(t).len() + 1) == escape_chars(t) + seq!['"'],
    ensures
        spec_parse_str_body(s, i) == Some((t, i + escape_chars(t).len() + 1)),
    decreases t.len(),
{
    let e = escape_chars(t);
    if t.len() == 0 {
        assert(e + seq!['"'] =~= seq!['"']);
        assert(s.subrange(i, i + 1)[0] == s[i]);
        assert(s[i] == '"');
    } else {
        let rest = t.skip(1);
        let erest = escape_chars(rest);
        lemma_escape_len(rest);
        assert(e == escape_one(t[0]) + erest);
        let head = escape_one(t[0]);
        assert(e + seq!['"'] =~= head + (erest + seq!['"']));
        lemma_concat_at(s, i, head, erest + seq!['"']);
        if t[0] == '"' || t[0] == '\\' {
            assert(head == seq!['\\', t[0]]);
            assert(s.subrange(i, i + 2)[0] == s[i]);
            assert(s.subrange(i, i + 2)[1] == s[i + 1]);
            assert(s[i] == '\\');
            assert(s[i + 1] == t[0]);
            lemma_parse_str_body_complete(s, i + 2, rest);
            assert(seq![s[i + 1]] + rest =~= t);
        } else {
            assert(head == seq![t[0]]);
            assert(s.subrange(i, i + 1)[0] == s[i]);
            assert(s[i] == t[0]);
            assert(s[i] != '"' && s[i] != '\\');
            lemma_parse_str_body_complete(s, i + 1, rest);
            assert(seq![s[i]] + rest =~= t);
        }
    }
}

/// Consumes a quoted string body starting right after the opening quote.
pub fn parse_str_body(v: &Vec<char>, i: usize) -> (r: Option<(Vec<char>, usize)>)
    requires
        i <= v@.len(),
    ensures
        match spec_parse_str_body(v@, i as int) {
            Some((t, j)) => r matches Some(p) && p.0@ == t && p.1 == j,
            None => r is None,
        },
{
    let mut acc: Vec<char> = Vec::new();
    let mut k = i;
    loop
        invariant
            i <= k <= v@.len(),
            match spec_parse_str_body(v@, k as int) {
                Some((t, j)) => spec_parse_str_body(v@, i as int) == Some((acc@ + t, j)),
                None => spec_parse_str_body(v@, i as int) is None,
            },
        decreases v@.len() - k,
    {
        if k == v.len() {
            return None;
        }
        let c = v[k];
        if c == '"' {
            proof {
                assert(acc@ + Seq::<char>::empty() =~= acc@);
            }
            return Some((acc, k + 1));
        }
        if c == '\\' {
            if v.len() - k >= 2 && (v[k + 1] == '"' || v[k + 1] == '\\') {
                let ghost pre = acc@;
                acc.push(v[k + 1]);
                proof {
                    if spec_parse_str_body(v@, k + 2) is Some {
                        let (t, j) = spec_parse_str_body(v@, k + 2)->Some_0;
                        assert(pre + (seq![v@[k + 1]] + t) =~= acc@ + t);
                    }
                }
                k = k + 2;
            } else {
                return None;
            }
        } else {
            let ghost pre = acc@;
            acc.push(c);
            proof {
                if spec_parse_str_body(v@, k + 1) is Some {
                    let (t, j) = spec_parse_str_body(v@, k + 1)->Some_0;
                    assert(pre + (seq![v@[k as int]] + t) =~= acc@ + t);
                }
            }
            k = k + 1;
        }
    }
}

/// A fixed piece of wire text standing at position `i`.
pub open spec fn spec_match_lit(s: Seq<char>, i: int, lit: Seq<char>) -> bool {
    0 <= i && i + lit.len() <= s.len() && s.subrange(i, i + lit.len()) == lit
}

/// Consumes the literal `lit` at position `i`, yielding the position just
/// after it.
pub fn expect_lit(v: &Vec<char>, i: usize, lit: &str) -> (r: Option<usize>)
    requires
        i <= v@.len(),
    ensures
        r matches Some(j) ==> spec_match_lit(v@, i as int, lit@) && j == i + lit@.len(),
        r is None ==> !spec_match_lit(v@, i as int, lit@),
{
    let n = lit.unicode_len();
    if v.len() - i < n {
        return None;
    }
    let mut k: usize = 0;
    while k < n
        invariant
            k <= n,
            n == lit@.len(),
            i + n <= v@.len(),
            v@.len() <= usize::MAX,
            forall|m: int| 0 <= m < k ==> v@[i + m] == lit@[m],
        decreases n - k,
    {
        if v[i + k] != lit.get_char(k) {
            proof {
                if spec_match_lit(v@, i as int, lit@) {
                    assert(v@.subrange(i as int, i + lit@.len())[k as int] == v@[i + k]);
                }
            }
            return None;
        }
        k = k + 1;
    }
    proof {
        assert(v@.subrange(i as int, i + lit@.len()) =~= lit@);
    }
    Some(i + n)
}

} // verus!
