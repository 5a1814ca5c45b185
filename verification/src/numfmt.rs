//! Canonical decimal number text: rendering and parsing.
//!
//! Wire frames carry unsigned counters as plain decimal integers and
//! utilization percentages as a decimal with exactly one fraction digit
//! (tenths of a percent, e.g. `12.3`).  Rendering is canonical (no leading
//! zeros); parsing accepts exactly the canonical form, so the two are
//! mutually inverse.

use vstd::prelude::*;

verus! {

pub open spec fn is_dec_digit(c: char) -> bool {
    c == '0' || c == '1' || c == '2' || c == '3' || c == '4' || c == '5' || c == '6' || c == '7'
        || c == '8' || c == '9'
}

pub open spec fn digit_char(d: nat) -> char {
    if d == 0 {
        '0'
    } else if d == 1 {
        '1'
    } else if d == 2 {
        '2'
    } else if d == 3 {
        '3'
    } else if d == 4 {
        '4'
    } else if d == 5 {
        '5'
    } else if d == 6 {
        '6'
    } else if d == 7 {
        '7'
    } else if d == 8 {
        '8'
    } else {
        '9'
    }
}

pub open spec fn digit_val(c: char) -> nat {
    if c == '0' {
        0
    } else if c == '1' {
        1
    } else if c == '2' {
        2
    } else if c == '3' {
        3
    } else if c == '4' {
        4
    } else if c == '5' {
        5
    } else if c == '6' {
        6
    } else if c == '7' {
        7
    } else if c == '8' {
        8
    } else {
        9
    }
}

/// The canonical decimal rendering of `n`: most significant digit first,
/// no leading zeros (`0` renders as the single digit `0`).
pub open spec fn dec_digits(n: nat) -> Seq<char>
    decreases n,
{
    if n < 10 {
        seq![digit_char(n)]
    } else {
        dec_digits(n / 10).push(digit_char(n % 10))
    }
}

/// The canonical rendering of a tenths-of-a-percent value `t`:
/// the whole percent part, a dot, and one fraction digit.
pub open spec fn tenths_digits(t: nat) -> Seq<char> {
    dec_digits(t / 10) + seq!['.'] + seq![digit_char(t % 10)]
}

pub open spec fn all_dec_digits(s: Seq<char>) -> bool {
    forall|k: int| 0 <= k < s.len() ==> is_dec_digit(#[trigger] s[k])
}

/// The value of a digit string, most significant digit first.
pub open spec fn digits_value(s: Seq<char>) -> nat
    decreases s.len(),
{
    if s.len() == 0 {
        0
    } else {
        digits_value(s.drop_last()) * 10 + digit_val(s.last())
    }
}

pub proof fn lemma_digit_char_val(d: nat)
    requires
        d < 10,
    ensures
        digit_val(digit_char(d)) == d,
        is_dec_digit(digit_char(d)),
{
}

pub proof fn lemma_digit_val_char(c: char)
    requires
        is_dec_digit(c),
    ensures
        digit_char(digit_val(c)) == c,
        digit_val(c) < 10,
{
}

/// `dec_digits` renders every number as a non-empty all-digit string whose
/// value is the number again, with no leading zero unless the number is zero.
pub proof fn lemma_dec_digits_canonical(n: nat)
    ensures
        dec_digits(n).len() >= 1,
        all_dec_digits(dec_digits(n)),
        digits_value(dec_digits(n)) == n,
        n > 0 ==> dec_digits(n)[0] != '0',
        n < 10 ==> dec_digits(n).len() == 1,
        n >= 10 ==> dec_digits(n).len() >= 2,
    decreases n,
{
    if n < 10 {
        lemma_digit_char_val(n);
        let s = dec_digits(n);
        assert(s.drop_last() =~= Seq::<char>::empty());
        assert(digits_value(Seq::<char>::empty()) == 0);
        assert(digits_value(s) == digit_val(digit_char(n)));
    } else {
        lemma_dec_digits_canonical(n / 10);
        lemma_digit_char_val(n % 10);
        let s = dec_digits(n / 10);
        let w = s.push(digit_char(n % 10));
        assert(w.drop_last() =~= s);
        assert(all_dec_digits(w)) by {
            assert(forall|k: int| 0 <= k < s.len() ==> w[k] == s[k]);
        }
        assert(digits_value(w) == (n / 10) * 10 + n % 10);
        assert((n / 10) * 10 + n % 10 == n) by (nonlinear_arith)
            requires
                n >= 10,
        ;
    }
}

/// A non-empty all-digit string that does not start with `0` has a
/// positive value.
pub proof fn lemma_digits_value_positive(s: Seq<char>)
    requires
        s.len() >= 1,
        all_dec_digits(s),
        s[0] != '0',
    ensures
        digits_value(s) >= 1,
    decreases s.len(),
{
    if s.len() == 1 {
        lemma_digit_val_char(s[0]);
        assert(digit_val(s[0]) >= 1);
        assert(s.drop_last() =~= Seq::<char>::empty());
    } else {
        lemma_digits_value_positive(s.drop_last());
    }
}

/// Parsing is the inverse of rendering: an all-digit string with no
/// leading zero renders back to itself from its value.
pub proof fn lemma_digits_value_canonical(s: Seq<char>)
    requires
        s.len() >= 1,
        all_dec_digits(s),
        s.len() > 1 ==> s[0] != '0',
    ensures
        dec_digits(digits_value(s)) == s,
    decreases s.len(),
{
    if s.len() == 1 {
        lemma_digit_val_char(s[0]);
        assert(s.drop_last() =~= Seq::<char>::empty());
        assert(digits_value(Seq::<char>::empty()) == 0);
        assert(digits_value(s) == digit_val(s[0]));
        assert(digits_value(s) < 10);
        assert(dec_digits(digits_value(s)) =~= s);
    } else {
        let t = s.drop_last();
        let d = digit_val(s.last());
        lemma_digit_val_char(s.last());
        lemma_digits_value_positive(t);
        let v = digits_value(s);
        assert(v == digits_value(t) * 10 + d);
        assert(digits_value(t) >= 1);
        assert(v >= 10) by (nonlinear_arith)
            requires
                v == digits_value(t) * 10 + d,
                digits_value(t) >= 1,
        ;
        assert(v / 10 == digits_value(t) && v % 10 == d) by (nonlinear_arith)
            requires
                v == digits_value(t) * 10 + d,
                d < 10,
        ;
        lemma_digits_value_canonical(t);
        assert(dec_digits(v) == dec_digits(v / 10).push(digit_char(v % 10)));
        assert(t.push(s.last()) =~= s);
    }
}

/// Extending a digit string by one digit multiplies its value by ten.
pub proof fn lemma_digits_value_snoc(s: Seq<char>, c: char)
    ensures
        digits_value(s.push(c)) == digits_value(s) * 10 + digit_val(c),
{
    assert(s.push(c).drop_last() =~= s);
}

/// A prefix of an all-digit string never has a larger value than the whole.
pub proof fn lemma_digits_value_prefix(s: Seq<char>, k: int)
    requires
        0 <= k <= s.len(),
    ensures
        digits_value(s.subrange(0, k)) <= digits_value(s),
    decreases s.len() - k,
{
    if k == s.len() {
        assert(s.subrange(0, k) =~= s);
    } else {
        let t = s.subrange(0, k + 1);
        assert(t.drop_last() =~= s.subrange(0, k));
        assert(digits_value(t) == digits_value(s.subrange(0, k)) * 10 + digit_val(t.last()));
        lemma_digits_value_prefix(s, k + 1);
    }
}

fn digit_to_char(d: u8) -> (c: char)
    requires
        d < 10,
    ensures
        c == digit_char(d as nat),
{
    match d {
        0 => '0',
        1 => '1',
        2 => '2',
        3 => '3',
        4 => '4',
        5 => '5',
        6 => '6',
        7 => '7',
        8 => '8',
        _ => '9',
    }
}

fn is_digit_exec(c: char) -> (r: bool)
    ensures
        r == is_dec_digit(c),
{
    c == '0' || c == '1' || c == '2' || c == '3' || c == '4' || c == '5' || c == '6' || c == '7'
        || c == '8' || c == '9'
}

fn char_to_digit(c: char) -> (r: Option<u8>)
    ensures
        r is Some <==> is_dec_digit(c),
        r matches Some(d) ==> d < 10 && d as nat == digit_val(c),
{
    match c {
        '0' => Some(0),
        '1' => Some(1),
        '2' => Some(2),
        '3' => Some(3),
        '4' => Some(4),
        '5' => Some(5),
        '6' => Some(6),
        '7' => Some(7),
        '8' => Some(8),
        '9' => Some(9),
        _ => None,
    }
}

/// Appends the canonical decimal rendering of `n` to `out`.
pub fn push_dec_chars(n: u64, out: &mut Vec<char>)
    ensures
        final(out)@ == old(out)@ + dec_digits(n as nat),
    decreases n,
{
    if n < 10 {
        out.push(digit_to_char(n as u8));
        assert(out@ =~= old(out)@ + dec_digits(n as nat));
    } else {
        push_dec_chars(n / 10, out);
        out.push(digit_to_char((n % 10) as u8));
        assert(out@ =~= old(out)@ + dec_digits(n as nat));
    }
}

/// Appends the canonical tenths rendering of `t` to `out`.
pub fn push_tenths_chars(t: u32, out: &mut Vec<char>)
    ensures
        final(out)@ == old(out)@ + tenths_digits(t as nat),
{
    push_dec_chars((t / 10) as u64, out);
    out.push('.');
    out.push(digit_to_char((t % 10) as u8));
    assert(out@ =~= old(out)@ + tenths_digits(t as nat));
}

/// The end of the run of decimal digits that starts at `i`.
pub open spec fn digit_run_end(s: Seq<char>, i: int) -> int
    decreases s.len() - i when 0 <= i <= s.len()
{
    if i < s.len() && is_dec_digit(s[i]) {
        digit_run_end(s, i + 1)
    } else {
        i
    }
}

pub proof fn lemma_digit_run_end_bounds(s: Seq<char>, i: int)
    requires
        0 <= i <= s.len(),
    ensures
        i <= digit_run_end(s, i) <= s.len(),
        forall|k: int| i <= k < digit_run_end(s, i) ==> is_dec_digit(#[trigger] s[k]),
        digit_run_end(s, i) < s.len() ==> !is_dec_digit(s[digit_run_end(s, i)]),
    decreases s.len() - i,
{
    if i < s.len() && is_dec_digit(s[i]) {
        lemma_digit_run_end_bounds(s, i + 1);
    }
}

/// The digit run ends at `j` exactly when `[i, j)` is all digits and `j`
/// sits at the end of the string or on a non-digit.
pub proof fn lemma_digit_run_end_is(s: Seq<char>, i: int, j: int)
    requires
        0 <= i <= j <= s.len(),
        forall|k: int| i <= k < j ==> is_dec_digit(#[trigger] s[k]),
        j == s.len() || !is_dec_digit(s[j]),
    ensures
        digit_run_end(s, i) == j,
    decreases j - i,
{
    if i < j {
        lemma_digit_run_end_is(s, i + 1, j);
    }
}

/// A canonical-form integer parse: consumes the digit run that starts at
/// `i` and yields its value, refusing an empty run, a leading zero, and a
/// value that does not fit in a `u64`.
pub open spec fn spec_parse_u64(s: Seq<char>, i: int) -> Option<(u64, int)> {
    let j = digit_run_end(s, i);
    if j == i {
        None
    } else if s[i] == '0' && j > i + 1 {
        None
    } else if digits_value(s.subrange(i, j)) > u64::MAX {
        None
    } else {
        Some((digits_value(s.subrange(i, j)) as u64, j))
    }
}

/// A canonical-form tenths parse: an integer part, a dot, one fraction
/// digit; yields the value in tenths.
pub open spec fn spec_parse_tenths(s: Seq<char>, i: int) -> Option<(u64, int)> {
    match spec_parse_u64(s, i) {
        Some((whole, j)) => {
            if whole <= (u64::MAX - 9) / 10 && j + 2 <= s.len() && s[j] == '.' && is_dec_digit(
                s[j + 1],
            ) {
                Some(((whole * 10 + digit_val(s[j + 1])) as u64, j + 2))
            } else {
                None
            }
        },
        None => None,
    }
}

pub fn parse_u64(v: &Vec<char>, i: usize) -> (r: Option<(u64, usize)>)
    requires
        i <= v@.len(),
    ensures
        match spec_parse_u64(v@, i as int) {
            Some((n, j)) => r matches Some(p) && p.0 == n && p.1 as int == j && i <= p.1 && p.1
                <= v@.len(),
            None => r is None,
        },
{
    proof {
        lemma_digit_run_end_bounds(v@, i as int);
    }
    let ghost end = digit_run_end(v@, i as int);
    if i == v.len() {
        return None;
    }
    let first = v[i];
    if char_to_digit(first).is_none() {
        return None;
    }
    if first == '0' {
        // A canonical zero is the single digit `0`; a longer run is refused.
        if i + 1 < v.len() && char_to_digit(v[i + 1]).is_some() {
            return None;
        }
        proof {
            lemma_digit_run_end_is(v@, i as int, i + 1);
            assert(v@.subrange(i as int, i + 1) =~= seq![v@[i as int]]);
            lemma_digits_value_snoc(Seq::<char>::empty(), v@[i as int]);
            assert(v@.subrange(i as int, i + 1).drop_last() =~= Seq::<char>::empty());
        }
        return Some((0, i + 1));
    }
    let mut j: usize = i;
    let mut val: u64 = 0;
    while j < v.len() && is_digit_exec(v[j])
        invariant
            i < v@.len(),
            i <= j <= end <= v@.len(),
            end == digit_run_end(v@, i as int),
            forall|k: int| i <= k < end ==> is_dec_digit(#[trigger] v@[k]),
            end < v@.len() ==> !is_dec_digit(v@[end as int]),
            val == digits_value(v@.subrange(i as int, j as int)),
            digit_run_end(v@, j as int) == end,
            v@[i as int] != '0',
        decreases v@.len() - j,
    {
        let d = match char_to_digit(v[j]) {
            Some(d) => d,
            None => {
                proof {
                    assert(false);
                }
                0
            },
        };
        proof {
            assert(digit_run_end(v@, j as int) == digit_run_end(v@, j + 1));
        }
        let ghost pre = v@.subrange(i as int, j as int);
        proof {
            assert(v@.subrange(i as int, j + 1).drop_last() =~= pre);
            assert(v@.subrange(i as int, j + 1).last() == v@[j as int]);
            lemma_digits_value_prefix(v@.subrange(i as int, end), j + 1 - i);
            assert(v@.subrange(i as int, end).subrange(0, j + 1 - i) =~= v@.subrange(
                i as int,
                j + 1,
            ));
        }
        // If the next accumulation step overflows, the whole run's value
        // exceeds `u64::MAX` and the parse is refused.
        if val > (u64::MAX - d as u64) / 10 {
            assert(digits_value(v@.subrange(i as int, j + 1)) == val * 10 + d);
            assert(val * 10 + d > u64::MAX) by (nonlinear_arith)
                requires
                    val > (u64::MAX - d as u64) / 10,
                    d < 10,
            ;
            return None;
        }
        assert(val * 10 + d <= u64::MAX) by (nonlinear_arith)
            requires
                val <= (u64::MAX - d as u64) / 10,
                d < 10,
        ;
        val = val * 10 + d as u64;
        j = j + 1;
    }
    proof {
        lemma_digit_run_end_is(v@, j as int, j as int);
        assert(j == end);
    }
    Some((val, j))
}

pub fn parse_tenths(v: &Vec<char>, i: usize) -> (r: Option<(u64, usize)>)
    requires
        i <= v@.len(),
    ensures
        match spec_parse_tenths(v@, i as int) {
            Some((t, j)) => r matches Some(p) && p.0 == t && p.1 as int == j && i <= p.1 && p.1
                <= v@.len(),
            None => r is None,
        },
{
    proof {
        lemma_digit_run_end_bounds(v@, i as int);
    }
    match parse_u64(v, i) {
        None => None,
        Some((whole, j)) => {
            if whole > (u64::MAX - 9) / 10 {
                return None;
            }
            if v.len() - j >= 2 && v[j] == '.' {
                match char_to_digit(v[j + 1]) {
                    Some(d) => Some((whole * 10 + d as u64, j + 2)),
                    None => None,
                }
            } else {
                None
            }
        },
    }
}

/// Completeness of the integer parse: at a position holding the canonical
/// rendering of `n` followed by a non-digit (or the end), the parse
/// succeeds with exactly `n`.
pub proof fn lemma_parse_u64_at(s: Seq<char>, i: int, n: u64)
    requires
        0 <= i,
        i + dec_digits(n as nat).len() <= s.len(),
        s.subrange(i, i + dec_digits(n as nat).len()) == dec_digits(n as nat),
        i + dec_digits(n as nat).len() == s.len() || !is_dec_digit(
            s[i + dec_digits(n as nat).len()],
        ),
    ensures
        spec_parse_u64(s, i) == Some((n, i + dec_digits(n as nat).len())),
{
    let d = dec_digits(n as nat);
    lemma_dec_digits_canonical(n as nat);
    let j = i + d.len();
    assert(forall|k: int| i <= k < j ==> is_dec_digit(#[trigger] s[k])) by {
        assert(forall|k: int| i <= k < j ==> s[k] == d[k - i]);
    }
    lemma_digit_run_end_is(s, i, j);
    assert(s[i] == d[0]);
    if n == 0 {
        assert(d.len() == 1);
        assert(digits_value(s.subrange(i, j)) == 0);
    } else {
        assert(s[i] != '0');
    }
    assert(digits_value(s.subrange(i, j)) == n);
}

/// Completeness of the tenths parse, in the same position-based form.
pub proof fn lemma_parse_tenths_at(s: Seq<char>, i: int, t: u64)
    requires
        0 <= i,
        i + tenths_digits(t as nat).len() <= s.len(),
        s.subrange(i, i + tenths_digits(t as nat).len()) == tenths_digits(t as nat),
        i + tenths_digits(t as nat).len() == s.len() || !is_dec_digit(
            s[i + tenths_digits(t as nat).len()],
        ),
        t <= u64::MAX / 10,
    ensures
        spec_parse_tenths(s, i) == Some((t, i + tenths_digits(t as nat).len())),
{
    let w = dec_digits((t / 10) as nat);
    let td = tenths_digits(t as nat);
    assert(td.len() == w.len() + 2);
    lemma_dec_digits_canonical((t / 10) as nat);
    lemma_digit_char_val((t % 10) as nat);
    assert(s.subrange(i, i + w.len()) =~= w) by {
        assert(forall|k: int| 0 <= k < td.len() ==> s[i + k] == td[k]);
        assert(forall|k: int| 0 <= k < w.len() ==> td[k] == w[k]);
    }
    assert(forall|k: int| 0 <= k < td.len() ==> s[i + k] == td[k]);
    assert(td[w.len() as int] == '.');
    assert(td[w.len() as int + 1] == digit_char((t % 10) as nat));
    assert(s[i + w.len()] == '.');
    assert(!is_dec_digit(s[i + w.len()]));
    lemma_parse_u64_at(s, i, t / 10);
    assert(spec_parse_u64(s, i) == Some((t / 10, i + w.len())));
    assert(t / 10 <= (u64::MAX - 9) / 10);
    assert(s[i + w.len() + 1] == digit_char((t % 10) as nat));
    assert((t / 10) * 10 + (t % 10) == t) by (nonlinear_arith);
}

/// Soundness of the integer parse: a successful parse consumed exactly the
/// canonical rendering of its value.
pub proof fn lemma_parse_u64_sound(s: Seq<char>, i: int, n: u64, j: int)
    requires
        0 <= i <= s.len(),
        spec_parse_u64(s, i) == Some((n, j)),
    ensures
        i < j <= s.len(),
        s.subrange(i, j) == dec_digits(n as nat),
        j == s.len() || !is_dec_digit(s[j]),
{
    lemma_digit_run_end_bounds(s, i);
    let run = s.subrange(i, j);
    assert(forall|k: int| 0 <= k < run.len() ==> is_dec_digit(#[trigger] run[k]));
    lemma_digits_value_canonical(run);
}

/// Soundness of the tenths parse.
pub proof fn lemma_parse_tenths_sound(s: Seq<char>, i: int, t: u64, j: int)
    requires
        0 <= i <= s.len(),
        spec_parse_tenths(s, i) == Some((t, j)),
    ensures
        i < j <= s.len(),
        s.subrange(i, j) == tenths_digits(t as nat),
        t / 10 <= (u64::MAX - 9) / 10,
{
    let parsed = spec_parse_u64(s, i);
    let whole = parsed->Some_0.0;
    let k = parsed->Some_0.1;
    lemma_parse_u64_sound(s, i, whole, k);
    lemma_digit_val_char(s[k + 1]);
    assert(t == whole * 10 + digit_val(s[k + 1]));
    assert(t / 10 == whole && t % 10 == digit_val(s[k + 1])) by (nonlinear_arith)
        requires
            t == whole * 10 + digit_val(s[k + 1]),
            digit_val(s[k + 1]) < 10,
    ;
    assert(s.subrange(i, j) =~= tenths_digits(t as nat)) by {
        assert(s.subrange(i, k) =~= dec_digits((t / 10) as nat));
        assert(forall|m: int| 0 <= m < k - i ==> s.subrange(i, j)[m] == s.subrange(i, k)[m]);
        assert(s.subrange(i, j)[k - i] == '.');
        assert(s.subrange(i, j)[k - i + 1] == digit_char((t % 10) as nat));
    }
}

} // verus!
