//! Text building blocks shared by the rest of the library.

use vstd::prelude::*;

verus! {

/// Appends one character to a string (std's `String::push`).
/// Claims what std documents: the character is added at the end.
#[verifier::external_body]
pub(crate) fn push_char(s: &mut String, c: char)
    ensures
        final(s)@ == old(s)@.push(c),
{
    s.push(c);
}

/// The ASCII character of a decimal digit.
pub open spec fn digit_char(d: int) -> char
    recommends
        0 <= d < 10,
{
    (d + 48) as char
}

/// Decimal digits of a natural number, most significant first, no leading zeros.
pub open spec fn nat_text(n: nat) -> Seq<char>
    decreases n,
{
    if n < 10 {
        seq![digit_char(n as int)]
    } else {
        nat_text(n / 10).push(digit_char((n % 10) as int))
    }
}

/// Decimal text of an integer, as Rust's `Display` and `Debug` print it.
pub open spec fn int_text(n: int) -> Seq<char> {
    if n < 0 {
        seq!['-'] + nat_text((-n) as nat)
    } else {
        nat_text(n as nat)
    }
}

fn digit_to_char(d: u64) -> (c: char)
    requires
        d < 10,
    ensures
        c == digit_char(d as int),
{
    let b: u8 = (d as u8) + 48;
    b as char
}

fn append_nat(s: &mut String, n: u64)
    ensures
        final(s)@ == old(s)@ + nat_text(n as nat),
    decreases n,
{
    if n >= 10 {
        append_nat(s, n / 10);
    }
    let d: char = digit_to_char(n % 10);
    push_char(s, d);
}

/// Appends the decimal text of `n` to `s`.
pub fn append_i64(s: &mut String, n: i64)
    ensures
        final(s)@ == old(s)@ + int_text(n as int),
{
    if n < 0 {
        push_char(s, '-');
        let m: u64 = ((-(n + 1)) as u64) + 1;
        append_nat(s, m);
        assert(s@ =~= old(s)@ + int_text(n as int));
    } else {
        append_nat(s, n as u64);
    }
}


/// Whether `s` begins with `prefix` (std's `str::starts_with` on a string pattern).
pub fn starts_with(s: &str, prefix: &str) -> (r: bool)
    ensures
        r == prefix@.is_prefix_of(s@),
{
    let n: usize = s.unicode_len();
    let m: usize = prefix.unicode_len();
    if m > n {
        return false;
    }
    let mut i: usize = 0;
    while i < m
        invariant
            n == s@.len(),
            m == prefix@.len(),
            m <= n,
            i <= m,
            forall|j: int| 0 <= j < i ==> s@[j] == prefix@[j],
        decreases m - i,
    {
        if s.get_char(i) != prefix.get_char(i) {
            assert(!prefix@.is_prefix_of(s@)) by {
                assert(s@.subrange(0, m as int)[i as int] == s@[i as int]);
            }
            return false;
        }
        i = i + 1;
    }
    assert(prefix@ =~= s@.subrange(0, m as int));
    true
}

/// What follows the last `sep` in `s`; all of `s` when `sep` does not occur.
/// This is the last piece that `str::split(sep)` yields.
pub open spec fn after_last(s: Seq<char>, sep: char) -> Seq<char>
    decreases s.len(),
{
    if s.len() == 0 {
        Seq::empty()
    } else if s.last() == sep {
        Seq::empty()
    } else {
        after_last(s.drop_last(), sep).push(s.last())
    }
}

/// The last piece of `s` split at `sep`.
pub fn last_piece(s: &str, sep: char) -> (r: String)
    ensures
        r@ == after_last(s@, sep),
{
    let n: usize = s.unicode_len();
    let mut cur = String::new();
    let mut i: usize = 0;
    while i < n
        invariant
            n == s@.len(),
            i <= n,
            cur@ == after_last(s@.take(i as int), sep),
        decreases n - i,
    {
        let c: char = s.get_char(i);
        assert(s@.take(i + 1).drop_last() =~= s@.take(i as int));
        if c == sep {
            cur = String::new();
        } else {
            push_char(&mut cur, c);
        }
        i = i + 1;
    }
    assert(s@.take(n as int) =~= s@);
    cur
}

/// The pieces of `list` with `sep` between each two neighbours
/// (std's `join` on a slice of strings).
pub open spec fn joined(list: Seq<Seq<char>>, sep: Seq<char>) -> Seq<char>
    decreases list.len(),
{
    if list.len() == 0 {
        Seq::empty()
    } else if list.len() == 1 {
        list[0]
    } else {
        joined(list.drop_last(), sep) + sep + list.last()
    }
}

/// Joins the strings of `list` with `sep` between them.
pub fn join(list: &Vec<String>, sep: &str) -> (r: String)
    ensures
        r@ == joined(list.deep_view(), sep@),
{
    let mut res = String::new();
    let n: usize = list.len();
    let mut i: usize = 0;
    while i < n
        invariant
            n == list.len(),
            i <= n,
            res@ == joined(list.deep_view().take(i as int), sep@),
        decreases n - i,
    {
        let ghost pieces = list.deep_view().take(i + 1);
        assert(pieces.drop_last() =~= list.deep_view().take(i as int));
        if i > 0 {
            res.append(sep);
        } else {
            assert(joined(list.deep_view().take(0), sep@) =~= Seq::<char>::empty());
        }
        res.append(list[i].as_str());
        i = i + 1;
    }
    assert(list.deep_view().take(n as int) =~= list.deep_view());
    res
}


/// An ASCII decimal digit.
pub open spec fn is_digit(c: char) -> bool {
    '0' <= c && c <= '9'
}

/// The number that a run of decimal digits spells.
pub open spec fn digits_value(s: Seq<char>) -> int
    decreases s.len(),
{
    if s.len() == 0 {
        0
    } else {
        digits_value(s.drop_last()) * 10 + (s.last() as int - 48)
    }
}

/// All characters of `s` are decimal digits.
pub open spec fn all_digits(s: Seq<char>) -> bool {
    forall|i: int| 0 <= i < s.len() ==> is_digit(#[trigger] s[i])
}

/// What `str::parse::<i64>` gives: an optional `+` or `-`, then one or more
/// decimal digits, the value in range of `i64`; `None` for anything else.
pub open spec fn spec_parse_i64(s: Seq<char>) -> Option<i64> {
    let signed = s.len() > 0 && (s[0] == '-' || s[0] == '+');
    let negative = s.len() > 0 && s[0] == '-';
    let body = if signed { s.drop_first() } else { s };
    if body.len() == 0 || !all_digits(body) {
        None
    } else {
        let v = if negative { -digits_value(body) } else { digits_value(body) };
        if i64::MIN <= v && v <= i64::MAX {
            Some(v as i64)
        } else {
            None
        }
    }
}

proof fn lemma_digits_value_nonneg(s: Seq<char>)
    requires
        all_digits(s),
    ensures
        digits_value(s) >= 0,
    decreases s.len(),
{
    if s.len() > 0 {
        assert(all_digits(s.drop_last())) by {
            assert forall|i: int| 0 <= i < s.drop_last().len() implies is_digit(
                #[trigger] s.drop_last()[i],
            ) by {
                assert(s.drop_last()[i] == s[i]);
            }
        }
        lemma_digits_value_nonneg(s.drop_last());
        assert(is_digit(s[s.len() - 1]));
    }
}

proof fn lemma_digits_value_prefix(s: Seq<char>, k: int)
    requires
        all_digits(s),
        0 <= k <= s.len(),
    ensures
        digits_value(s.take(k)) <= digits_value(s),
    decreases s.len(),
{
    if k < s.len() {
        let t = s.drop_last();
        assert(all_digits(t)) by {
            assert forall|i: int| 0 <= i < t.len() implies is_digit(#[trigger] t[i]) by {
                assert(t[i] == s[i]);
            }
        }
        lemma_digits_value_prefix(t, k);
        assert(t.take(k) =~= s.take(k));
        lemma_digits_value_nonneg(t);
        assert(is_digit(s[s.len() - 1]));
    } else {
        assert(s.take(k) =~= s);
    }
}

/// Reads a decimal `i64` as `str::parse::<i64>` does.
pub fn parse_i64(s: &str) -> (r: Option<i64>)
    ensures
        r == spec_parse_i64(s@),
{
    let n: usize = s.unicode_len();
    if n == 0 {
        return None;
    }
    let first: char = s.get_char(0);
    let negative: bool = first == '-';
    let start: usize = if first == '-' || first == '+' { 1 } else { 0 };
    let ghost body = s@.subrange(start as int, n as int);
    assert(body =~= if start == 1 { s@.drop_first() } else { s@ });
    if start == n {
        return None;
    }
    let limit: u128 = if negative { 9223372036854775808 } else { 9223372036854775807 };
    let mut acc: u128 = 0;
    let mut i: usize = start;
    while i < n
        invariant
            n == s@.len(),
            start <= i <= n,
            start <= 1,
            n > 0,
            negative == (s@[0] == '-'),
            start == (if s@[0] == '-' || s@[0] == '+' { 1usize } else { 0usize }),
            limit == (if negative { 9223372036854775808u128 } else { 9223372036854775807u128 }),
            body == s@.subrange(start as int, n as int),
            body == (if start == 1 { s@.drop_first() } else { s@ }),
            acc <= limit,
            limit <= 9223372036854775808,
            acc == digits_value(body.take(i - start)),
            all_digits(body.take(i - start)),
        decreases n - i,
    {
        let c: char = s.get_char(i);
        let ghost k: int = i - start;
        assert(body[k] == c);
        assert(body.take(k + 1).drop_last() =~= body.take(k));
        if c < '0' || c > '9' {
            assert(!all_digits(body)) by {
                assert(!is_digit(body[k]));
            }
            return None;
        }
        let d: u128 = (c as u32 - 48) as u128;
        let next: u128 = acc * 10 + d;
        assert(all_digits(body.take(k + 1))) by {
            assert forall|j: int| 0 <= j < k + 1 implies is_digit(#[trigger] body.take(k + 1)[j]) by {
                if j < k {
                    assert(body.take(k + 1)[j] == body.take(k)[j]);
                }
            }
        }
        if next > limit {
            proof {
                if all_digits(body) {
                    lemma_digits_value_prefix(body, k + 1);
                }
            }
            return None;
        }
        acc = next;
        i = i + 1;
    }
    assert(body.take(n - start) =~= body);
    if negative {
        if acc == 9223372036854775808 {
            Some(i64::MIN)
        } else {
            let m: i64 = acc as i64;
            Some(-m)
        }
    } else {
        Some(acc as i64)
    }
}


proof fn lemma_nat_text_digits(m: nat)
    ensures
        nat_text(m).len() > 0,
        all_digits(nat_text(m)),
        digits_value(nat_text(m)) == m,
    decreases m,
{
    let d = digit_char((m % 10) as int);
    assert(d as int == (m % 10) + 48);
    if m < 10 {
        let t = nat_text(m);
        assert(t.drop_last() =~= Seq::<char>::empty());
        assert(t.last() == d);
        assert(m % 10 == m);
        assert(is_digit(t[0]));
        assert(digits_value(t.drop_last()) == 0);
        assert(digits_value(t) == m);
    } else {
        lemma_nat_text_digits(m / 10);
        let prev = nat_text(m / 10);
        let t = prev.push(d);
        assert(t.drop_last() =~= prev);
        assert(t.last() == d);
        assert(m == (m / 10) * 10 + m % 10);
        assert(nat_text(m) == t);
        assert(digits_value(t) == digits_value(prev) * 10 + (d as int - 48));
        assert(digits_value(t) == m);
        assert forall|i: int| 0 <= i < t.len() implies is_digit(#[trigger] t[i]) by {
            if i < prev.len() {
                assert(t[i] == prev[i]);
            }
        }
    }
}

/// Reading back the decimal text of a number gives the number: what the bot
/// prints of a pull-request number, it reads again as the same number.
pub proof fn law_parse_reads_printed_number(n: i64)
    ensures
        spec_parse_i64(int_text(n as int)) == Some(n),
{
    if n < 0 {
        let m = (-n) as nat;
        lemma_nat_text_digits(m);
        let s = int_text(n as int);
        assert(s[0] == '-');
        assert(s.drop_first() =~= nat_text(m));
    } else {
        lemma_nat_text_digits(n as nat);
        let s = nat_text(n as nat);
        assert(is_digit(s[0]));
    }
}


/// The pieces of `s` between the occurrences of `sep`, as `str::split(sep)`
/// yields them: one more piece than there are separators.
pub open spec fn split_pieces(s: Seq<char>, sep: char) -> Seq<Seq<char>>
    decreases s.len(),
{
    if s.len() == 0 {
        seq![Seq::empty()]
    } else {
        let p = split_pieces(s.drop_last(), sep);
        if s.last() == sep {
            p.push(Seq::empty())
        } else {
            p.update(p.len() - 1, p.last().push(s.last()))
        }
    }
}

proof fn lemma_split_pieces_nonempty(s: Seq<char>, sep: char)
    ensures
        split_pieces(s, sep).len() >= 1,
    decreases s.len(),
{
    if s.len() > 0 {
        lemma_split_pieces_nonempty(s.drop_last(), sep);
    }
}

proof fn lemma_split_pieces_tail(x: Seq<char>, b: Seq<char>, sep: char)
    requires
        !b.contains(sep),
    ensures
        split_pieces(x + b, sep) == split_pieces(x, sep).update(
            split_pieces(x, sep).len() - 1,
            split_pieces(x, sep).last() + b,
        ),
    decreases b.len(),
{
    lemma_split_pieces_nonempty(x, sep);
    let p = split_pieces(x, sep);
    if b.len() == 0 {
        assert(x + b =~= x);
        assert(p.last() + b =~= p.last());
        assert(p.update(p.len() - 1, p.last()) =~= p);
    } else {
        let c = b.last();
        let b0 = b.drop_last();
        assert(!b0.contains(sep)) by {
            if b0.contains(sep) {
                let k = choose|k: int| 0 <= k < b0.len() && b0[k] == sep;
                assert(b[k] == sep);
            }
        }
        assert(c != sep) by {
            assert(b[b.len() - 1] == c);
        }
        lemma_split_pieces_tail(x, b0, sep);
        assert((x + b).drop_last() =~= x + b0);
        assert((x + b).last() == c);
        let q = split_pieces(x + b0, sep);
        assert(q.len() == p.len());
        assert(q.last() == p.last() + b0);
        assert((p.last() + b0).push(c) =~= p.last() + b);
        assert(q.update(q.len() - 1, q.last().push(c)) =~= p.update(p.len() - 1, p.last() + b));
    }
}

/// Splitting a join at its separator gives back the joined pieces, where no
/// piece holds the separator: a join keeps every piece, in order, once.
pub proof fn law_split_undoes_join(list: Seq<Seq<char>>, sep: char)
    requires
        list.len() > 0,
        forall|i: int| 0 <= i < list.len() ==> !(#[trigger] list[i]).contains(sep),
    ensures
        split_pieces(joined(list, seq![sep]), sep) == list,
    decreases list.len(),
{
    let e: Seq<char> = Seq::empty();
    if list.len() == 1 {
        lemma_split_pieces_tail(e, list[0], sep);
        assert(e + list[0] =~= list[0]);
        assert(split_pieces(e, sep).update(0, e + list[0]) =~= list);
    } else {
        let prev = list.drop_last();
        assert forall|i: int| 0 <= i < prev.len() implies !(#[trigger] prev[i]).contains(sep) by {
            assert(prev[i] == list[i]);
        }
        law_split_undoes_join(prev, sep);
        let j = joined(prev, seq![sep]);
        let js = j + seq![sep];
        assert(js.drop_last() =~= j);
        assert(js.last() == sep);
        assert(split_pieces(js, sep) == list.drop_last().push(e));
        assert(!list.last().contains(sep)) by {
            assert(list[list.len() - 1] == list.last());
        }
        lemma_split_pieces_tail(js, list.last(), sep);
        assert(js + list.last() =~= joined(list, seq![sep]));
        assert(list.drop_last().push(e).update(list.len() - 1, e + list.last()) =~= list);
    }
}


/// What follows the last separator holds no separator, and the text is
/// something ending in the separator followed by it; where the separator does
/// not occur, it is the whole text.
pub proof fn law_after_last_is_last_piece(s: Seq<char>, sep: char)
    ensures
        !after_last(s, sep).contains(sep),
        s.contains(sep) ==> exists|k: int|
            0 <= k < s.len() && s[k] == sep && #[trigger] s.skip(k + 1) == after_last(s, sep),
        !s.contains(sep) ==> after_last(s, sep) == s,
    decreases s.len(),
{
    if s.len() > 0 {
        let t = s.drop_last();
        law_after_last_is_last_piece(t, sep);
        let c = s.last();
        if c == sep {
            assert(s[s.len() - 1] == sep);
            assert(s.skip(s.len() - 1 + 1) =~= Seq::<char>::empty());
            assert(s.skip(s.len() - 1 + 1) == after_last(s, sep));
        } else {
            let a = after_last(t, sep);
            assert(!a.push(c).contains(sep)) by {
                if a.push(c).contains(sep) {
                    let k = choose|k: int| 0 <= k < a.push(c).len() && a.push(c)[k] == sep;
                    if k < a.len() {
                        assert(a[k] == sep);
                    }
                }
            }
            if t.contains(sep) {
                let k = choose|k: int| 0 <= k < t.len() && t[k] == sep && #[trigger] t.skip(k + 1) == a;
                assert(s[k] == sep);
                assert(s.skip(k + 1) =~= t.skip(k + 1).push(c));
                assert(s.skip(k + 1) == after_last(s, sep));
            }
            if s.contains(sep) {
                let k = choose|k: int| 0 <= k < s.len() && s[k] == sep;
                assert(k < t.len() && t[k] == sep);
            }
            if !s.contains(sep) {
                assert(!t.contains(sep)) by {
                    if t.contains(sep) {
                        let k = choose|k: int| 0 <= k < t.len() && t[k] == sep;
                        assert(s[k] == sep);
                    }
                }
                assert(t.push(c) =~= s);
            }
        }
    }
}

} // verus!
