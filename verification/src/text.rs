//! Text primitives shared by the pickers, the command parsers and the tab bar:
//! character sequences, whitespace trimming, prefixes, and unsigned decimal
//! numbers (parsing and printing), each with its mathematical meaning.
use vstd::prelude::*;

verus! {

broadcast use vstd::string::group_string_axioms;

// ─── Mathematical model ─────────────────────────────────────────────────────

/// `c` is one of the ASCII digits `0`..=`9`.
pub open spec fn is_digit(c: char) -> bool {
    '0' <= c && c <= '9'
}

/// The value of an ASCII digit.
pub open spec fn digit_value(c: char) -> nat {
    ((c as int) - ('0' as int)) as nat
}

/// Every character of `s` is an ASCII digit.
pub open spec fn all_digits(s: Seq<char>) -> bool {
    forall|i: int| 0 <= i < s.len() ==> is_digit(#[trigger] s[i])
}

/// The number that a run of decimal digits denotes, most significant first.
pub open spec fn digits_value(s: Seq<char>) -> nat
    decreases s.len(),
{
    if s.len() == 0 {
        0
    } else {
        digits_value(s.drop_last()) * 10 + digit_value(s.last())
    }
}

/// What `str::parse` gives for an unsigned integer type whose largest value is
/// `max`: an optional `+`, then one or more ASCII digits, with a value that fits.
pub open spec fn parse_unsigned(s: Seq<char>, max: nat) -> Option<nat> {
    let body = if s.len() > 0 && s[0] == '+' {
        s.drop_first()
    } else {
        s
    };
    if body.len() > 0 && all_digits(body) && digits_value(body) <= max {
        Some(digits_value(body))
    } else {
        None
    }
}

/// The ASCII digit for a value below ten.
pub open spec fn digit_char(d: nat) -> char {
    if d == 0 {
        '0'
    } else if d == 1 {
        '1'
    } else if d == 2 {
        '2'
    } else if d == 3 {
        '3'
    } else if d == 4 {
        '4'
    } else if d == 5 {
        '5'
    } else if d == 6 {
        '6'
    } else if d == 7 {
        '7'
    } else if d == 8 {
        '8'
    } else {
        '9'
    }
}

/// The decimal text of `n`, without leading zeros, as `Display` prints it.
pub open spec fn decimal(n: nat) -> Seq<char>
    decreases n,
{
    if n < 10 {
        seq![digit_char(n)]
    } else {
        decimal(n / 10).push(digit_char(n % 10))
    }
}

/// The characters that `char::is_whitespace` accepts (Unicode `White_Space`).
pub open spec fn is_whitespace(c: char) -> bool {
    let u = c as u32;
    ||| 0x09 <= u <= 0x0D
    ||| u == 0x20
    ||| u == 0x85
    ||| u == 0xA0
    ||| u == 0x1680
    ||| 0x2000 <= u <= 0x200A
    ||| u == 0x2028
    ||| u == 0x2029
    ||| u == 0x202F
    ||| u == 0x205F
    ||| u == 0x3000
}

/// `s` without its leading whitespace.
pub open spec fn trim_start(s: Seq<char>) -> Seq<char>
    decreases s.len(),
{
    if s.len() > 0 && is_whitespace(s[0]) {
        trim_start(s.drop_first())
    } else {
        s
    }
}

/// `s` without its trailing whitespace.
pub open spec fn trim_end(s: Seq<char>) -> Seq<char>
    decreases s.len(),
{
    if s.len() > 0 && is_whitespace(s.last()) {
        trim_end(s.drop_last())
    } else {
        s
    }
}

/// What `str::trim` keeps of `s`.
pub open spec fn trim(s: Seq<char>) -> Seq<char> {
    trim_end(trim_start(s))
}

/// `s` without its last character, if it has one (as `String::pop` leaves it).
pub open spec fn pop_last(s: Seq<char>) -> Seq<char> {
    if s.len() > 0 {
        s.drop_last()
    } else {
        s
    }
}

/// `p` is a prefix of `s`.
pub open spec fn has_prefix(s: Seq<char>, p: Seq<char>) -> bool {
    p.len() <= s.len() && s.subrange(0, p.len() as int) == p
}

/// The position of the first `c` in `s`, or -1 when `s` holds none.
pub open spec fn first_index_of(s: Seq<char>, c: char) -> int
    decreases s.len(),
{
    if s.len() == 0 {
        -1
    } else if s[0] == c {
        0
    } else {
        let k = first_index_of(s.drop_first(), c);
        if k < 0 {
            -1
        } else {
            k + 1
        }
    }
}

/// What `splitn(3, c)` gives when it gives three parts: the text before the
/// first `c`, the text between the first and the second, and the rest.
pub open spec fn split3(s: Seq<char>, c: char) -> Option<(Seq<char>, Seq<char>, Seq<char>)> {
    let i = first_index_of(s, c);
    if i < 0 {
        None
    } else {
        let rest = s.subrange(i + 1, s.len() as int);
        let j = first_index_of(rest, c);
        if j < 0 {
            None
        } else {
            Some((s.subrange(0, i), rest.subrange(0, j), rest.subrange(j + 1, rest.len() as int)))
        }
    }
}

/// The position of the last `c` in `s`, or -1 when `s` holds none.
pub open spec fn last_index_of(s: Seq<char>, c: char) -> int
    decreases s.len(),
{
    if s.len() == 0 {
        -1
    } else if s.last() == c {
        s.len() - 1
    } else {
        last_index_of(s.drop_last(), c)
    }
}

/// What `rsplit_once(c)` gives: the text before the last `c` and the text
/// after it; `None` when `s` holds no `c`.
pub open spec fn split_last(s: Seq<char>, c: char) -> Option<(Seq<char>, Seq<char>)> {
    let i = last_index_of(s, c);
    if i < 0 {
        None
    } else {
        Some((s.subrange(0, i), s.subrange(i + 1, s.len() as int)))
    }
}

// ─── Lemmas ─────────────────────────────────────────────────────────────────

/// The decimal text of a number is a non-empty run of digits that denotes it.
pub proof fn lemma_decimal(n: nat)
    ensures
        decimal(n).len() > 0,
        all_digits(decimal(n)),
        digits_value(decimal(n)) == n,
        decimal(n)[0] != '+',
    decreases n,
{
    lemma_digit_char(n % 10);
    if n < 10 {
        assert(n % 10 == n);
        assert(seq![digit_char(n)] =~= Seq::<char>::empty().push(digit_char(n)));
        lemma_digits_value_push(Seq::<char>::empty(), digit_char(n));
    } else {
        lemma_decimal(n / 10);
        let d = decimal(n / 10);
        let c = digit_char(n % 10);
        lemma_digits_value_push(d, c);
        assert(n == (n / 10) * 10 + n % 10) by (nonlinear_arith);
        assert forall|i: int| 0 <= i < d.push(c).len() implies is_digit(#[trigger] d.push(c)[i]) by {
            if i < d.len() {
                assert(is_digit(d[i]));
            }
        }
    }
}

/// The digit for a value below ten is a digit with that value.
pub proof fn lemma_digit_char(d: nat)
    requires
        d < 10,
    ensures
        is_digit(digit_char(d)),
        digit_value(digit_char(d)) == d,
{
    assert('0' as int == 48);
    assert('9' as int == 57);
}

/// Reading back the decimal text of a number that fits gives the number.
pub proof fn lemma_parse_decimal(n: nat, max: nat)
    requires
        n <= max,
    ensures
        parse_unsigned(decimal(n), max) == Some(n),
{
    lemma_decimal(n);
}

proof fn lemma_digits_value_push(s: Seq<char>, c: char)
    ensures
        digits_value(s.push(c)) == digits_value(s) * 10 + digit_value(c),
{
    assert(s.push(c).drop_last() =~= s);
}

proof fn lemma_trim_start_suffix(s: Seq<char>, i: int)
    requires
        0 <= i <= s.len(),
        forall|k: int| 0 <= k < i ==> is_whitespace(#[trigger] s[k]),
    ensures
        trim_start(s) == trim_start(s.subrange(i, s.len() as int)),
    decreases i,
{
    if i > 0 {
        lemma_trim_start_suffix(s.drop_first(), i - 1);
        assert(s.drop_first().subrange(i - 1, s.drop_first().len() as int) =~= s.subrange(
            i,
            s.len() as int,
        ));
    } else {
        assert(s.subrange(0, s.len() as int) =~= s);
    }
}

proof fn lemma_trim_end_prefix(s: Seq<char>, j: int)
    requires
        0 <= j <= s.len(),
        forall|k: int| j <= k < s.len() ==> is_whitespace(#[trigger] s[k]),
    ensures
        trim_end(s) == trim_end(s.subrange(0, j)),
    decreases s.len() - j,
{
    if j < s.len() {
        lemma_trim_end_prefix(s.drop_last(), j);
        assert(s.drop_last().subrange(0, j) =~= s.subrange(0, j));
    } else {
        assert(s.subrange(0, j) =~= s);
    }
}

/// `first_index_of` finds the first occurrence, and -1 means none.
pub proof fn lemma_first_index_of(s: Seq<char>, c: char)
    ensures
        -1 <= first_index_of(s, c) < s.len(),
        first_index_of(s, c) >= 0 ==> s[first_index_of(s, c)] == c,
        forall|k: int| 0 <= k < s.len() && (first_index_of(s, c) < 0 || k < first_index_of(s, c)) ==> s[k] != c,
    decreases s.len(),
{
    if s.len() > 0 && s[0] != c {
        lemma_first_index_of(s.drop_first(), c);
        assert forall|k: int| 0 <= k < s.len() && (first_index_of(s, c) < 0 || k < first_index_of(s, c)) implies s[k] != c by {
            if k > 0 {
                assert(s[k] == s.drop_first()[k - 1]);
            }
        }
    }
}

/// The first `c` of `a + seq![c] + b` follows `a` when `a` holds no `c`.
pub proof fn lemma_first_index_of_concat(a: Seq<char>, c: char, b: Seq<char>)
    requires
        forall|k: int| 0 <= k < a.len() ==> a[k] != c,
    ensures
        first_index_of(a + seq![c] + b, c) == a.len(),
    decreases a.len(),
{
    let s = a + seq![c] + b;
    if a.len() == 0 {
        assert(s[0] == c);
    } else {
        lemma_first_index_of_concat(a.drop_first(), c, b);
        assert(s.drop_first() =~= a.drop_first() + seq![c] + b);
        assert(s[0] == a[0]);
    }
}

/// A position from which `s` holds no `c` up to the end is no occurrence.
pub proof fn lemma_first_index_of_none(s: Seq<char>, c: char)
    requires
        forall|k: int| 0 <= k < s.len() ==> s[k] != c,
    ensures
        first_index_of(s, c) == -1,
    decreases s.len(),
{
    if s.len() > 0 {
        lemma_first_index_of_none(s.drop_first(), c);
    }
}

/// Cutting at the first two `c`s of `a + c + b + c + r`, where `a` and `b`
/// hold no `c`, gives `a`, `b` and `r` back.
pub proof fn lemma_split3_join(a: Seq<char>, b: Seq<char>, r: Seq<char>, c: char)
    requires
        forall|k: int| 0 <= k < a.len() ==> a[k] != c,
        forall|k: int| 0 <= k < b.len() ==> b[k] != c,
    ensures
        split3(a + seq![c] + b + seq![c] + r, c) == Some((a, b, r)),
{
    let s = a + seq![c] + b + seq![c] + r;
    assert(s =~= a + seq![c] + (b + seq![c] + r));
    lemma_first_index_of_concat(a, c, b + seq![c] + r);
    let rest = s.subrange(a.len() + 1int, s.len() as int);
    assert(rest =~= b + seq![c] + r);
    lemma_first_index_of_concat(b, c, r);
    assert(s.subrange(0, a.len() as int) =~= a);
    assert(rest.subrange(0, b.len() as int) =~= b);
    assert(rest.subrange(b.len() + 1int, rest.len() as int) =~= r);
}

/// `last_index_of` is the position of a `c` with none after it, and -1
/// means none.
pub proof fn lemma_last_index_of(s: Seq<char>, c: char)
    ensures
        -1 <= last_index_of(s, c) < s.len(),
        last_index_of(s, c) >= 0 ==> s[last_index_of(s, c)] == c,
        forall|k: int| last_index_of(s, c) < k < s.len() && 0 <= k ==> s[k] != c,
    decreases s.len(),
{
    if s.len() > 0 && s.last() != c {
        lemma_last_index_of(s.drop_last(), c);
        assert forall|k: int| last_index_of(s, c) < k < s.len() && 0 <= k implies s[k] != c by {
            if k < s.len() - 1 {
                assert(s[k] == s.drop_last()[k]);
            }
        }
    }
}

/// A `c` at `i` with none after it is the last `c`.
pub proof fn lemma_last_index_at(s: Seq<char>, c: char, i: int)
    requires
        0 <= i < s.len(),
        s[i] == c,
        forall|k: int| i < k < s.len() ==> s[k] != c,
    ensures
        last_index_of(s, c) == i,
    decreases s.len(),
{
    if s.last() != c {
        assert forall|k: int| i < k < s.drop_last().len() implies s.drop_last()[k] != c by {
            assert(s.drop_last()[k] == s[k]);
        }
        lemma_last_index_at(s.drop_last(), c, i);
    }
}

/// Cutting `a + c + b` at its last `c`, where `b` holds no `c`, gives `a`
/// and `b` back.
pub proof fn lemma_split_last_join(a: Seq<char>, b: Seq<char>, c: char)
    requires
        forall|k: int| 0 <= k < b.len() ==> b[k] != c,
    ensures
        split_last(a + seq![c] + b, c) == Some((a, b)),
{
    let s = a + seq![c] + b;
    assert forall|k: int| a.len() < k < s.len() implies s[k] != c by {
        assert(s[k] == b[k - a.len() - 1]);
    }
    lemma_last_index_at(s, c, a.len() as int);
    assert(s.subrange(0, a.len() as int) =~= a);
    assert(s.subrange(a.len() + 1int, s.len() as int) =~= b);
}

/// The decimal text of a number holds no colon.
pub proof fn lemma_decimal_no_colon(n: nat)
    ensures
        forall|k: int| 0 <= k < decimal(n).len() ==> decimal(n)[k] != ':',
{
    lemma_decimal(n);
    assert forall|k: int| 0 <= k < decimal(n).len() implies decimal(n)[k] != ':' by {
        assert(is_digit(decimal(n)[k]));
    }
}

// ─── Wrappers for `String` methods that vstd leaves unspecified ──────────────

/// `String::push`: appends `c` at the end, as its documentation says.
#[verifier::external_body]
pub(crate) fn push_char(s: &mut String, c: char)
    ensures
        final(s)@ == old(s)@.push(c),
{
    s.push(c)
}

/// `String::pop`: takes the last character off, or gives `None` on an empty
/// string, as its documentation says.
#[verifier::external_body]
pub(crate) fn pop_char(s: &mut String) -> (r: Option<char>)
    ensures
        old(s)@.len() == 0 ==> r is None && final(s)@ == old(s)@,
        old(s)@.len() > 0 ==> r == Some(old(s)@.last()) && final(s)@ == old(s)@.drop_last(),
{
    s.pop()
}

// ─── Executable helpers ─────────────────────────────────────────────────────

/// The characters of a string slice, in order.
pub fn chars_of(s: &str) -> (out: Vec<char>)
    ensures
        out@ == s@,
{
    let mut out: Vec<char> = Vec::new();
    for c in it: s.chars()
        invariant
            out@ == it.seq().take(it.index() as int),
    {
        out.push(c);
    }
    out
}

/// A string holding `chars[from..to]`.
pub fn string_from_range(chars: &Vec<char>, from: usize, to: usize) -> (s: String)
    requires
        from <= to <= chars.len(),
    ensures
        s@ == chars@.subrange(from as int, to as int),
{
    let mut s = String::new();
    let mut i = from;
    while i < to
        invariant
            from <= i <= to <= chars.len(),
            s@ == chars@.subrange(from as int, i as int),
        decreases to - i,
    {
        push_char(&mut s, chars[i]);
        assert(chars@.subrange(from as int, i + 1) =~= chars@.subrange(from as int, i as int).push(
            chars@[i as int],
        ));
        i = i + 1;
    }
    s
}

/// An owned copy of a string slice.
pub fn owned(s: &str) -> (r: String)
    ensures
        r@ == s@,
{
    String::from_str(s)
}

/// Executable whitespace test, as `char::is_whitespace`.
pub fn char_is_whitespace(c: char) -> (b: bool)
    ensures
        b == is_whitespace(c),
{
    let u = c as u32;
    (0x09 <= u && u <= 0x0D) || u == 0x20 || u == 0x85 || u == 0xA0 || u == 0x1680 || (0x2000
        <= u && u <= 0x200A) || u == 0x2028 || u == 0x2029 || u == 0x202F || u == 0x205F || u
        == 0x3000
}

/// `s` with leading and trailing whitespace removed, as `str::trim`.
pub fn trim_owned(s: &str) -> (r: String)
    ensures
        r@ == trim(s@),
{
    let cs = chars_of(s);
    let n = cs.len();
    let mut i: usize = 0;
    while i < n && char_is_whitespace(cs[i])
        invariant
            n == cs.len(),
            cs@ == s@,
            i <= n,
            forall|k: int| 0 <= k < i ==> is_whitespace(#[trigger] cs@[k]),
        decreases n - i,
    {
        i = i + 1;
    }
    proof {
        lemma_trim_start_suffix(cs@, i as int);
        let rest = cs@.subrange(i as int, n as int);
        if rest.len() > 0 {
            assert(rest[0] == cs@[i as int]);
        }
        assert(trim_start(rest) == rest);
    }
    let mut j: usize = n;
    while j > i && char_is_whitespace(cs[j - 1])
        invariant
            n == cs.len(),
            i <= j <= n,
            forall|k: int| j <= k < n ==> is_whitespace(#[trigger] cs@[k]),
        decreases j,
    {
        j = j - 1;
    }
    proof {
        let rest = cs@.subrange(i as int, n as int);
        lemma_trim_end_prefix(rest, j - i);
        assert(rest.subrange(0, j - i) =~= cs@.subrange(i as int, j as int));
        let kept = cs@.subrange(i as int, j as int);
        if kept.len() > 0 {
            assert(kept.last() == cs@[j - 1]);
        }
        assert(trim_end(kept) == kept);
    }
    string_from_range(&cs, i, j)
}

/// Whether `s` starts with `p`, as `str::starts_with`.
pub fn starts_with(s: &str, p: &str) -> (b: bool)
    ensures
        b == has_prefix(s@, p@),
{
    let sc = chars_of(s);
    let pc = chars_of(p);
    if pc.len() > sc.len() {
        return false;
    }
    let mut i: usize = 0;
    while i < pc.len()
        invariant
            pc.len() <= sc.len(),
            sc@ == s@,
            pc@ == p@,
            i <= pc.len(),
            forall|k: int| 0 <= k < i ==> sc@[k] == pc@[k],
        decreases pc.len() - i,
    {
        if sc[i] != pc[i] {
            assert(s@.subrange(0, p@.len() as int)[i as int] != p@[i as int]);
            return false;
        }
        i = i + 1;
    }
    assert(s@.subrange(0, p@.len() as int) =~= p@);
    true
}

/// `s` without the prefix `p`, or `None` if `s` does not start with `p`, as
/// `str::strip_prefix`.
pub fn strip_prefix(s: &str, p: &str) -> (r: Option<String>)
    ensures
        r is Some <==> has_prefix(s@, p@),
        r matches Some(rest) ==> rest@ == s@.subrange(p@.len() as int, s@.len() as int),
{
    if starts_with(s, p) {
        let sc = chars_of(s);
        let pc = chars_of(p);
        Some(string_from_range(&sc, pc.len(), sc.len()))
    } else {
        None
    }
}

/// Whether two string slices hold the same characters.
pub fn str_equal(a: &str, b: &str) -> (r: bool)
    ensures
        r == (a@ == b@),
{
    let ac = chars_of(a);
    let bc = chars_of(b);
    if ac.len() != bc.len() {
        return false;
    }
    let mut i: usize = 0;
    while i < ac.len()
        invariant
            ac.len() == bc.len(),
            ac@ == a@,
            bc@ == b@,
            i <= ac.len(),
            forall|k: int| 0 <= k < i ==> ac@[k] == bc@[k],
        decreases ac.len() - i,
    {
        if ac[i] != bc[i] {
            return false;
        }
        i = i + 1;
    }
    assert(a@ =~= b@);
    true
}

/// Parses an unsigned decimal number no larger than `max`, as `str::parse` does
/// for an unsigned integer type whose largest value is `max`.
pub fn parse_unsigned_bounded(s: &str, max: u64) -> (r: Option<u64>)
    ensures
        match r {
            Some(v) => parse_unsigned(s@, max as nat) == Some(v as nat),
            None => parse_unsigned(s@, max as nat) is None,
        },
{
    let cs = chars_of(s);
    let n = cs.len();
    let start: usize = if n > 0 && cs[0] == '+' {
        1
    } else {
        0
    };
    let ghost body = if s@.len() > 0 && s@[0] == '+' {
        s@.drop_first()
    } else {
        s@
    };
    assert(body =~= cs@.subrange(start as int, n as int));
    if start == n {
        return None;
    }
    let mut acc: u64 = 0;
    let mut i: usize = start;
    while i < n
        invariant
            cs@ == s@,
            n == cs.len(),
            start < n,
            start <= i <= n,
            body == cs@.subrange(start as int, n as int),
            body == (if s@.len() > 0 && s@[0] == '+' {
                s@.drop_first()
            } else {
                s@
            }),
            all_digits(cs@.subrange(start as int, i as int)),
            acc as nat == digits_value(cs@.subrange(start as int, i as int)),
            acc <= max,
        decreases n - i,
    {
        let c = cs[i];
        proof {
            lemma_digits_value_push(cs@.subrange(start as int, i as int), c);
            assert(cs@.subrange(start as int, i + 1) =~= cs@.subrange(start as int, i as int).push(
                c,
            ));
        }
        if !('0' <= c && c <= '9') {
            assert(!is_digit(body[i - start]));
            return None;
        }
        let d: u64 = (c as u32 - '0' as u32) as u64;
        if d > max || acc > (max - d) / 10 {
            proof {
                let pre = cs@.subrange(start as int, i as int);
                lemma_prefix_value_bound(body, (i + 1 - start) as int);
                assert(body.subrange(0, (i + 1 - start) as int) =~= pre.push(c));
                assert(acc * 10 + d > max) by (nonlinear_arith)
                    requires
                        d > max || acc > (max - d) / 10,
                ;
            }
            return None;
        }
        assert(acc * 10 + d <= max) by (nonlinear_arith)
            requires
                acc <= (max - d) / 10,
                d <= max,
        ;
        acc = acc * 10 + d;
        i = i + 1;
    }
    assert(cs@.subrange(start as int, n as int) =~= body);
    Some(acc)
}

/// A prefix of a run of digits denotes no more than the whole run.
proof fn lemma_prefix_value_bound(s: Seq<char>, k: int)
    requires
        0 <= k <= s.len(),
    ensures
        all_digits(s) ==> digits_value(s.subrange(0, k)) <= digits_value(s),
    decreases s.len() - k,
{
    if k < s.len() {
        lemma_prefix_value_bound(s.drop_last(), k);
        assert(s.drop_last().subrange(0, k) =~= s.subrange(0, k));
        if all_digits(s) {
            assert forall|i: int| 0 <= i < s.drop_last().len() implies is_digit(
                #[trigger] s.drop_last()[i],
            ) by {
                assert(is_digit(s[i]));
            }
        }
    } else {
        assert(s.subrange(0, k) =~= s);
    }
}

/// Parses a `usize`, as `str::parse::<usize>`.
pub fn parse_usize(s: &str) -> (r: Option<usize>)
    ensures
        match r {
            Some(v) => parse_unsigned(s@, usize::MAX as nat) == Some(v as nat),
            None => parse_unsigned(s@, usize::MAX as nat) is None,
        },
{
    match parse_unsigned_bounded(s, usize::MAX as u64) {
        Some(v) => Some(v as usize),
        None => None,
    }
}

/// Parses a `u16`, as `str::parse::<u16>`.
pub fn parse_u16(s: &str) -> (r: Option<u16>)
    ensures
        match r {
            Some(v) => parse_unsigned(s@, u16::MAX as nat) == Some(v as nat),
            None => parse_unsigned(s@, u16::MAX as nat) is None,
        },
{
    match parse_unsigned_bounded(s, u16::MAX as u64) {
        Some(v) => Some(v as u16),
        None => None,
    }
}

/// Appends the decimal text of `n` to `out`.
pub fn push_decimal(out: &mut String, n: u64)
    ensures
        final(out)@ == old(out)@ + decimal(n as nat),
    decreases n,
{
    if n >= 10 {
        push_decimal(out, n / 10);
    }
    let d: u32 = (n % 10) as u32;
    let c = char_from_digit(d);
    push_char(out, c);
    proof {
        if n >= 10 {
            assert(old(out)@ + decimal((n / 10) as nat) + seq![c] =~= old(out)@ + decimal(
                n as nat,
            ));
        } else {
            assert(old(out)@.push(c) =~= old(out)@ + decimal(n as nat));
        }
    }
}

/// The ASCII digit for `d < 10`.
pub fn char_from_digit(d: u32) -> (c: char)
    requires
        d < 10,
    ensures
        c == digit_char(d as nat),
        is_digit(c),
{
    let c = if d == 0 {
        '0'
    } else if d == 1 {
        '1'
    } else if d == 2 {
        '2'
    } else if d == 3 {
        '3'
    } else if d == 4 {
        '4'
    } else if d == 5 {
        '5'
    } else if d == 6 {
        '6'
    } else if d == 7 {
        '7'
    } else if d == 8 {
        '8'
    } else {
        '9'
    };
    c
}

/// The decimal text of `n`, as `n.to_string()`.
pub fn decimal_string(n: u64) -> (s: String)
    ensures
        s@ == decimal(n as nat),
{
    let mut s = String::new();
    push_decimal(&mut s, n);
    assert(Seq::<char>::empty() + decimal(n as nat) =~= decimal(n as nat));
    s
}

/// The position of the first `c` in `s` at or after `from`.
pub fn find_char_from(s: &Vec<char>, c: char, from: usize) -> (r: Option<usize>)
    requires
        from <= s.len(),
    ensures
        match r {
            Some(i) => from <= i < s.len() && s@[i as int] == c && forall|k: int| from <= k < i ==> s@[k] != c,
            None => forall|k: int| from <= k < s.len() ==> s@[k] != c,
        },
{
    let mut i = from;
    while i < s.len()
        invariant
            from <= i <= s.len(),
            forall|k: int| from <= k < i ==> s@[k] != c,
        decreases s.len() - i,
    {
        if s[i] == c {
            return Some(i);
        }
        i = i + 1;
    }
    None
}

/// Splits `s` at its first two `c`s into three parts, as `splitn(3, c)` does
/// when it finds both; `None` when it finds fewer.
pub fn split_three(s: &str, c: char) -> (r: Option<(String, String, String)>)
    ensures
        match r {
            Some(t) => split3(s@, c) == Some((t.0@, t.1@, t.2@)),
            None => split3(s@, c) is None,
        },
{
    let cs = chars_of(s);
    proof {
        lemma_first_index_of(s@, c);
    }
    let i = match find_char_from(&cs, c, 0) {
        Some(i) => i,
        None => {
            proof {
                lemma_first_index_of_none(s@, c);
            }
            return None;
        },
    };
    proof {
        assert(first_index_of(s@, c) == i);
        let rest = s@.subrange(i + 1, s@.len() as int);
        lemma_first_index_of(rest, c);
    }
    let ghost rest = s@.subrange(i + 1, s@.len() as int);
    let j = match find_char_from(&cs, c, i + 1) {
        Some(j) => j,
        None => {
            proof {
                assert forall|k: int| 0 <= k < rest.len() implies rest[k] != c by {
                    assert(rest[k] == cs@[i + 1 + k]);
                }
                lemma_first_index_of_none(rest, c);
            }
            return None;
        },
    };
    proof {
        assert(rest[j - i - 1] == c);
        assert forall|k: int| 0 <= k < j - i - 1 implies rest[k] != c by {
            assert(rest[k] == cs@[i + 1 + k]);
        }
        assert(first_index_of(rest, c) == j - i - 1);
        assert(rest.subrange(0, j - i - 1) =~= cs@.subrange(i + 1, j as int));
        assert(rest.subrange(j - i, rest.len() as int) =~= cs@.subrange(j + 1, cs@.len() as int));
    }
    Some((
        string_from_range(&cs, 0, i),
        string_from_range(&cs, i + 1, j),
        string_from_range(&cs, j + 1, cs.len()),
    ))
}

/// Splits `s` at its last `c`, as `rsplit_once(c)` does.
pub fn split_at_last(s: &str, c: char) -> (r: Option<(String, String)>)
    ensures
        match r {
            Some(t) => split_last(s@, c) == Some((t.0@, t.1@)),
            None => split_last(s@, c) is None,
        },
{
    let cs = chars_of(s);
    proof {
        lemma_last_index_of(s@, c);
    }
    let mut i: usize = cs.len();
    while i > 0
        invariant
            i <= cs.len(),
            cs@ == s@,
            forall|k: int| i <= k < cs.len() ==> cs@[k] != c,
        decreases i,
    {
        if cs[i - 1] == c {
            proof {
                lemma_last_index_at(s@, c, i - 1);
            }
            return Some((string_from_range(&cs, 0, i - 1), string_from_range(&cs, i, cs.len())));
        }
        i = i - 1;
    }
    None
}

/// `a` followed by `b`.
pub fn concat(a: &str, b: &str) -> (r: String)
    ensures
        r@ == a@ + b@,
{
    let mut r = String::from_str(a);
    r.append(b);
    r
}

} // verus!
