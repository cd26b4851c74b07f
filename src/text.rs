//! Character-level helpers: collecting a string's characters, comparing a span with a
//! literal, splitting into lines and whitespace-separated tokens, and unsigned decimals.
use vstd::prelude::*;
use vstd::std_specs::iter::IteratorSpec;

verus! {

/// Collects the characters of `s` in order.
pub fn chars_of(s: &str) -> (r: Vec<char>)
    ensures
        r@ == s@,
{
    let mut it = s.chars();
    let mut out: Vec<char> = Vec::new();
    loop
        invariant
            out@ + it.remaining() == s@,
            it.decrease() is Some,
        ensures
            out@ == s@,
        decreases it.decrease()->0,
    {
        match it.next() {
            Some(c) => {
                out.push(c);
            },
            None => {
                assert(out@ =~= s@);
                break;
            },
        }
    }
    out
}

/// Compares the span `cs[start..end]` with `lit`.
pub fn span_equals(cs: &Vec<char>, start: usize, end: usize, lit: &str) -> (r: bool)
    requires
        start <= end <= cs.len(),
    ensures
        r == (cs@.subrange(start as int, end as int) == lit@),
{
    let l = chars_of(lit);
    if end - start != l.len() {
        return false;
    }
    let mut k: usize = 0;
    while k < l.len()
        invariant
            start <= end <= cs.len(),
            end - start == l.len(),
            l@ == lit@,
            k <= l.len(),
            forall|j: int| 0 <= j < k ==> cs@[start + j] == l@[j],
        decreases l.len() - k,
    {
        if cs[start + k] != l[k] {
            assert(cs@.subrange(start as int, end as int)[k as int] != lit@[k as int]);
            return false;
        }
        k += 1;
    }
    assert(cs@.subrange(start as int, end as int) =~= lit@);
    true
}

/// `m` is a prefix of `s`.
pub open spec fn starts_with(s: Seq<char>, m: Seq<char>) -> bool {
    m.len() <= s.len() && s.subrange(0, m.len() as int) == m
}

/// Tells whether the span `cs[start..end]` begins with `lit`.
pub fn span_starts_with(cs: &Vec<char>, start: usize, end: usize, lit: &str) -> (r: bool)
    requires
        start <= end <= cs.len(),
    ensures
        r == starts_with(cs@.subrange(start as int, end as int), lit@),
{
    let n = lit.unicode_len();
    if n > end - start {
        return false;
    }
    let r = span_equals(cs, start, start + n, lit);
    assert(cs@.subrange(start as int, end as int).subrange(0, n as int) =~= cs@.subrange(
        start as int,
        (start + n) as int,
    ));
    r
}

/// Unicode `White_Space`: the characters that `char::is_whitespace` accepts.
pub open spec fn is_white_space(c: char) -> bool {
    let v = c as u32;
    (9 <= v && v <= 13) || v == 32 || v == 0x85 || v == 0xa0 || v == 0x1680 || (0x2000 <= v
        && v <= 0x200a) || v == 0x2028 || v == 0x2029 || v == 0x202f || v == 0x205f || v
        == 0x3000
}

/// Tells whether `c` is white space.
pub fn white_space(c: char) -> (r: bool)
    ensures
        r == is_white_space(c),
{
    let v = c as u32;
    (9 <= v && v <= 13) || v == 32 || v == 0x85 || v == 0xa0 || v == 0x1680 || (0x2000 <= v
        && v <= 0x200a) || v == 0x2028 || v == 0x2029 || v == 0x202f || v == 0x205f || v
        == 0x3000
}

/// Whitespace splitting after the first `n` characters of `s`: the tokens completed so far,
/// and the characters of the token being read (empty between tokens).
pub open spec fn token_scan(s: Seq<char>, n: nat) -> (Seq<Seq<char>>, Seq<char>)
    decreases n,
{
    if n == 0 || n > s.len() {
        (seq![], seq![])
    } else {
        let (done, cur) = token_scan(s, (n - 1) as nat);
        let c = s[n - 1];
        if is_white_space(c) {
            if cur.len() > 0 {
                (done.push(cur), seq![])
            } else {
                (done, seq![])
            }
        } else {
            (done, cur.push(c))
        }
    }
}

/// The maximal runs of non-white-space characters of `s`, in order (`str::split_whitespace`).
pub open spec fn tokens(s: Seq<char>) -> Seq<Seq<char>> {
    let (done, cur) = token_scan(s, s.len());
    if cur.len() > 0 {
        done.push(cur)
    } else {
        done
    }
}

/// The characters that each span of `spans` covers in `cs`.
pub open spec fn spans_view(cs: Seq<char>, spans: Seq<(usize, usize)>) -> Seq<Seq<char>> {
    spans.map_values(|p: (usize, usize)| cs.subrange(p.0 as int, p.1 as int))
}

/// All spans of `spans` lie within `cs[start..end]`.
pub open spec fn spans_within(spans: Seq<(usize, usize)>, start: int, end: int) -> bool {
    forall|k: int|
        0 <= k < spans.len() ==> start <= #[trigger] spans[k].0 <= spans[k].1 && spans[k].1 <= end
}

/// The spans of the white-space-separated tokens of `cs[start..end]`.
pub fn token_spans(cs: &Vec<char>, start: usize, end: usize) -> (r: Vec<(usize, usize)>)
    requires
        start <= end <= cs.len(),
    ensures
        spans_within(r@, start as int, end as int),
        spans_view(cs@, r@) == tokens(cs@.subrange(start as int, end as int)),
{
    let ghost s = cs@.subrange(start as int, end as int);
    let mut spans: Vec<(usize, usize)> = Vec::new();
    let mut tok_start: usize = start;
    let mut in_tok = false;
    let mut i: usize = start;
    while i < end
        invariant
            start <= i <= end <= cs.len(),
            s == cs@.subrange(start as int, end as int),
            start <= tok_start <= i,
            in_tok ==> tok_start < i,
            spans_within(spans@, start as int, i as int),
            token_scan(s, (i - start) as nat) == (
                spans_view(cs@, spans@),
                if in_tok {
                    cs@.subrange(tok_start as int, i as int)
                } else {
                    seq![]
                },
            ),
        decreases end - i,
    {
        let c = cs[i];
        assert(s[(i + 1 - start) - 1] == c);
        let ghost before = spans@;
        if white_space(c) {
            if in_tok {
                spans.push((tok_start, i));
                assert(spans_view(cs@, spans@) =~= spans_view(cs@, before).push(
                    cs@.subrange(tok_start as int, i as int),
                ));
                in_tok = false;
            }
        } else {
            if !in_tok {
                tok_start = i;
                in_tok = true;
                assert(cs@.subrange(tok_start as int, i + 1) =~= seq![].push(c));
            } else {
                assert(cs@.subrange(tok_start as int, i + 1) =~= cs@.subrange(
                    tok_start as int,
                    i as int,
                ).push(c));
            }
        }
        assert forall|k: int| 0 <= k < spans@.len() implies start <= #[trigger] spans@[k].0
            <= spans@[k].1 && spans@[k].1 <= i + 1 by {
            if k < before.len() {
                assert(spans@[k] == before[k]);
            }
        }
        i += 1;
    }
    assert(s.len() == end - start);
    if in_tok {
        let ghost before = spans@;
        spans.push((tok_start, end));
        assert(spans_view(cs@, spans@) =~= spans_view(cs@, before).push(
            cs@.subrange(tok_start as int, end as int),
        ));
    }
    spans
}

/// Line splitting after the first `n` characters of `s`: the lines completed by a `'\n'` so
/// far, and the characters of the line being read.
pub open spec fn line_scan(s: Seq<char>, n: nat) -> (Seq<Seq<char>>, Seq<char>)
    decreases n,
{
    if n == 0 || n > s.len() {
        (seq![], seq![])
    } else {
        let (done, cur) = line_scan(s, (n - 1) as nat);
        if s[n - 1] == '\n' {
            (done.push(cur), seq![])
        } else {
            (done, cur.push(s[n - 1]))
        }
    }
}

/// The lines of `s`, split at each `'\n'`, without it; text after the last `'\n'` is a line
/// when it is not empty (`BufRead::lines`, except that a `'\r'` before the `'\n'` stays; it is
/// white space, so the tokens of a line are the same).
pub open spec fn lines(s: Seq<char>) -> Seq<Seq<char>> {
    let (done, cur) = line_scan(s, s.len());
    if cur.len() > 0 {
        done.push(cur)
    } else {
        done
    }
}

/// The rest of the last line of `ls` that begins with `marker`, after the marker.
pub open spec fn last_marked(ls: Seq<Seq<char>>, marker: Seq<char>) -> Option<Seq<char>>
    decreases ls.len(),
{
    if ls.len() == 0 {
        None
    } else if starts_with(ls.last(), marker) {
        Some(ls.last().subrange(marker.len() as int, ls.last().len() as int))
    } else {
        last_marked(ls.drop_last(), marker)
    }
}

/// Finds the last line of `cs` that begins with `marker`, and returns the span of its rest.
pub fn find_marked_line(cs: &Vec<char>, marker: &str) -> (r: Option<(usize, usize)>)
    ensures
        match r {
            Some(p) => p.0 <= p.1 <= cs.len() && last_marked(lines(cs@), marker@) == Some(
                cs@.subrange(p.0 as int, p.1 as int),
            ),
            None => last_marked(lines(cs@), marker@) is None,
        },
{
    let m = marker.unicode_len();
    let mut found: Option<(usize, usize)> = None;
    let mut line_start: usize = 0;
    let mut i: usize = 0;
    while i < cs.len()
        invariant
            line_start <= i <= cs.len(),
            m == marker@.len(),
            line_scan(cs@, i as nat).1 == cs@.subrange(line_start as int, i as int),
            match found {
                Some(p) => p.0 <= p.1 <= cs.len() && last_marked(line_scan(cs@, i as nat).0, marker@)
                    == Some(cs@.subrange(p.0 as int, p.1 as int)),
                None => last_marked(line_scan(cs@, i as nat).0, marker@) is None,
            },
        decreases cs.len() - i,
    {
        if cs[i] == '\n' {
            let ghost line = cs@.subrange(line_start as int, i as int);
            let ghost done = line_scan(cs@, i as nat).0.push(line);
            assert(line_scan(cs@, (i + 1) as nat).0 == done);
            assert(done.drop_last() =~= line_scan(cs@, i as nat).0);
            if span_starts_with(cs, line_start, i, marker) {
                found = Some((line_start + m, i));
                assert(line.subrange(m as int, line.len() as int) =~= cs@.subrange(
                    line_start + m,
                    i as int,
                ));
            }
            line_start = i + 1;
        } else {
            assert(cs@.subrange(line_start as int, i + 1) =~= cs@.subrange(
                line_start as int,
                i as int,
            ).push(cs@[i as int]));
        }
        i += 1;
    }
    if line_start < cs.len() {
        let ghost line = cs@.subrange(line_start as int, cs.len() as int);
        let ghost done = line_scan(cs@, cs@.len()).0.push(line);
        assert(lines(cs@) == done);
        assert(done.drop_last() =~= line_scan(cs@, cs@.len()).0);
        if span_starts_with(cs, line_start, cs.len(), marker) {
            found = Some((line_start + m, cs.len()));
            assert(line.subrange(m as int, line.len() as int) =~= cs@.subrange(
                line_start + m,
                cs.len() as int,
            ));
        }
    }
    found
}

/// `c` is one of `'0'..='9'`.
pub open spec fn is_digit(c: char) -> bool {
    48 <= (c as u32) && (c as u32) <= 57
}

/// The value of the decimal digit `c`.
pub open spec fn digit_value(c: char) -> nat {
    ((c as u32) - 48) as nat
}

/// Every character of `s` is a decimal digit.
pub open spec fn all_digits(s: Seq<char>) -> bool {
    forall|i: int| 0 <= i < s.len() ==> is_digit(#[trigger] s[i])
}

/// The number that the digits `s` write in base ten.
pub open spec fn digits_value(s: Seq<char>) -> nat
    decreases s.len(),
{
    if s.len() == 0 {
        0
    } else {
        digits_value(s.drop_last()) * 10 + digit_value(s.last())
    }
}

/// `s` without one leading `'+'`.
pub open spec fn unsigned_body(s: Seq<char>) -> Seq<char> {
    if s.len() > 0 && s[0] == '+' {
        s.drop_first()
    } else {
        s
    }
}

/// `s` writes an unsigned integer as `str::parse` reads one: an optional `'+'`, then one or
/// more decimal digits.
pub open spec fn is_unsigned(s: Seq<char>) -> bool {
    unsigned_body(s).len() > 0 && all_digits(unsigned_body(s))
}

/// The value of an unsigned integer written as [`is_unsigned`] says.
pub open spec fn unsigned_value(s: Seq<char>) -> nat {
    digits_value(unsigned_body(s))
}

/// What `str::parse` gives for an unsigned integer type whose largest value is `max`.
pub open spec fn parse_unsigned_spec(s: Seq<char>, max: nat) -> Option<nat> {
    if is_unsigned(s) && unsigned_value(s) <= max {
        Some(unsigned_value(s))
    } else {
        None
    }
}

/// A longer run of digits has at least the value of its prefix.
pub proof fn lemma_digits_value_prefix(s: Seq<char>, k: int)
    requires
        all_digits(s),
        0 <= k <= s.len(),
    ensures
        digits_value(s.subrange(0, k)) <= digits_value(s),
    decreases s.len(),
{
    if k < s.len() {
        let t = s.drop_last();
        assert(all_digits(t)) by {
            assert forall|i: int| 0 <= i < t.len() implies is_digit(#[trigger] t[i]) by {
                assert(t[i] == s[i]);
            }
        }
        lemma_digits_value_prefix(t, k);
        assert(t.subrange(0, k) =~= s.subrange(0, k));
    } else {
        assert(s.subrange(0, k) =~= s);
    }
}

/// Reads the unsigned integer written in `cs[start..end]`, as `str::parse` reads one for an
/// integer type whose largest value is `max`.
pub fn parse_unsigned(cs: &Vec<char>, start: usize, end: usize, max: u64) -> (r: Option<u64>)
    requires
        start <= end <= cs.len(),
    ensures
        match parse_unsigned_spec(cs@.subrange(start as int, end as int), max as nat) {
            Some(v) => r == Some(v as u64),
            None => r is None,
        },
{
    let ghost s = cs@.subrange(start as int, end as int);
    let mut i: usize = start;
    if i < end && cs[i] == '+' {
        i += 1;
    }
    let body_start = i;
    assert(unsigned_body(s) =~= cs@.subrange(body_start as int, end as int));
    if i == end {
        return None;
    }
    let mut acc: u64 = 0;
    while i < end
        invariant
            start <= body_start <= i <= end <= cs.len(),
            body_start < end,
            s == cs@.subrange(start as int, end as int),
            unsigned_body(s) == cs@.subrange(body_start as int, end as int),
            all_digits(cs@.subrange(body_start as int, i as int)),
            acc as nat == digits_value(cs@.subrange(body_start as int, i as int)),
            acc <= max,
        decreases end - i,
    {
        let ghost body = cs@.subrange(body_start as int, end as int);
        let c = cs[i];
        let v = c as u32;
        if v < 48 || v > 57 {
            assert(body[i - body_start] == c);
            return None;
        }
        let d = (v - 48) as u64;
        let ghost next = cs@.subrange(body_start as int, i + 1);
        assert(next.drop_last() =~= cs@.subrange(body_start as int, i as int));
        assert(next.last() == c);
        if acc > max / 10 {
            assert(acc * 10 > max) by (nonlinear_arith)
                requires
                    acc > max / 10,
            ;
            proof {
                if all_digits(body) {
                    lemma_digits_value_prefix(body, i + 1 - body_start);
                    assert(body.subrange(0, i + 1 - body_start) =~= next);
                }
            }
            return None;
        }
        assert(acc * 10 <= max) by (nonlinear_arith)
            requires
                acc <= max / 10,
        ;
        if d > max - acc * 10 {
            proof {
                if all_digits(body) {
                    lemma_digits_value_prefix(body, i + 1 - body_start);
                    assert(body.subrange(0, i + 1 - body_start) =~= next);
                }
            }
            return None;
        }
        acc = acc * 10 + d;
        assert(all_digits(next)) by {
            assert forall|j: int| 0 <= j < next.len() implies is_digit(#[trigger] next[j]) by {
                if j < next.len() - 1 {
                    assert(next[j] == cs@.subrange(body_start as int, i as int)[j]);
                }
            }
        }
        i += 1;
    }
    assert(cs@.subrange(body_start as int, i as int) =~= unsigned_body(s));
    Some(acc)
}

/// The decimal digit for `d < 10`.
pub open spec fn digit_char(d: nat) -> char {
    if d == 0 {
        '0'
    } else if d == 1 {
        '1'
    } else if d == 2 {
        '2'
    } else if d == 3 {
        '3'
    } else if d == 4 {
        '4'
    } else if d == 5 {
        '5'
    } else if d == 6 {
        '6'
    } else if d == 7 {
        '7'
    } else if d == 8 {
        '8'
    } else {
        '9'
    }
}

proof fn lemma_digit_char(d: nat)
    requires
        d < 10,
    ensures
        is_digit(digit_char(d)),
        digit_value(digit_char(d)) == d,
{
}

/// `n` written in base ten, without sign or leading zeros.
pub open spec fn decimal(n: nat) -> Seq<char>
    decreases n,
{
    if n < 10 {
        seq![digit_char(n)]
    } else {
        decimal(n / 10).push(digit_char(n % 10))
    }
}

/// The decimal form of `n` is a non-empty run of digits whose value is `n`.
pub proof fn lemma_decimal_digits(n: nat)
    ensures
        decimal(n).len() > 0,
        all_digits(decimal(n)),
        digits_value(decimal(n)) == n,
    decreases n,
{
    if n < 10 {
        lemma_digit_char(n);
        let d = decimal(n);
        assert(d.drop_last() =~= Seq::<char>::empty());
        assert(digits_value(Seq::<char>::empty()) == 0);
    } else {
        lemma_digit_char(n % 10);
        lemma_decimal_digits(n / 10);
        let d = decimal(n);
        assert(d.drop_last() =~= decimal(n / 10));
        assert((n / 10) * 10 + n % 10 == n);
        assert forall|i: int| 0 <= i < d.len() implies is_digit(#[trigger] d[i]) by {
            if i < d.len() - 1 {
                assert(d[i] == decimal(n / 10)[i]);
            }
        }
    }
}

/// Reading back the decimal form of `n` gives `n`.
pub proof fn lemma_decimal_round_trip(n: nat)
    ensures
        is_unsigned(decimal(n)),
        unsigned_value(decimal(n)) == n,
{
    lemma_decimal_digits(n);
    assert(is_digit(decimal(n)[0]));
    assert(unsigned_body(decimal(n)) == decimal(n));
}

/// Distinct numbers have distinct decimal forms.
pub proof fn lemma_decimal_injective(a: nat, b: nat)
    ensures
        decimal(a) == decimal(b) ==> a == b,
{
    lemma_decimal_digits(a);
    lemma_decimal_digits(b);
}

fn digit_str(d: usize) -> (r: &'static str)
    requires
        d < 10,
    ensures
        r@ == seq![digit_char(d as nat)],
{
    proof {
        reveal_strlit("0");
        reveal_strlit("1");
        reveal_strlit("2");
        reveal_strlit("3");
        reveal_strlit("4");
        reveal_strlit("5");
        reveal_strlit("6");
        reveal_strlit("7");
        reveal_strlit("8");
        reveal_strlit("9");
    }
    let r = if d == 0 {
        "0"
    } else if d == 1 {
        "1"
    } else if d == 2 {
        "2"
    } else if d == 3 {
        "3"
    } else if d == 4 {
        "4"
    } else if d == 5 {
        "5"
    } else if d == 6 {
        "6"
    } else if d == 7 {
        "7"
    } else if d == 8 {
        "8"
    } else {
        "9"
    };
    assert(r@ =~= seq![digit_char(d as nat)]);
    r
}

/// Writes `n` in base ten, without sign or leading zeros.
pub fn usize_to_decimal(n: usize) -> (r: String)
    ensures
        r@ == decimal(n as nat),
{
    let mut m: usize = n;
    let mut s = String::new();
    loop
        invariant_except_break
            decimal(n as nat) == decimal(m as nat) + s@,
        invariant
            m > 0 || n == 0,
            m <= n,
        ensures
            s@ == decimal(n as nat),
        decreases m,
    {
        let d = m % 10;
        let ghost rest = s@;
        s = String::from_str(digit_str(d)).concat(s.as_str());
        assert(s@ == seq![digit_char(d as nat)] + rest);
        if m < 10 {
            assert(decimal(m as nat) + rest =~= s@);
            break;
        }
        assert(decimal(m as nat) == decimal((m / 10) as nat).push(digit_char(d as nat)));
        assert(decimal(m as nat) + rest =~= decimal((m / 10) as nat) + s@);
        m = m / 10;
    }
    s
}

} // verus!
