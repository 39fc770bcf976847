//! Small verified utilities over `String` and `&str`.

use vstd::prelude::*;
use vstd::string::StrSliceExecFns;

verus! {

/// Relies on `String::push`: appends one character at the end of the string.
#[verifier::external_body]
pub fn push_char(s: &mut String, c: char)
    ensures
        final(s)@ == old(s)@.push(c),
{
    s.push(c);
}

/// Character-by-character string equality.
pub fn str_eq(a: &str, b: &str) -> (r: bool)
    ensures
        r == (a@ == b@),
{
    let na = a.unicode_len();
    let nb = b.unicode_len();
    if na != nb {
        return false;
    }
    let mut i: usize = 0;
    while i < na
        invariant
            na == a@.len(),
            nb == b@.len(),
            na == nb,
            i <= na,
            forall|j: int| 0 <= j < i ==> a@[j] == b@[j],
        decreases na - i,
    {
        if a.get_char(i) != b.get_char(i) {
            return false;
        }
        i += 1;
    }
    proof {
        assert(a@ =~= b@);
    }
    true
}

/// The decimal digit characters.
pub open spec fn digit_char(d: int) -> char {
    if d == 0 {
        '0'
    } else if d == 1 {
        '1'
    } else if d == 2 {
        '2'
    } else if d == 3 {
        '3'
    } else if d == 4 {
        '4'
    } else if d == 5 {
        '5'
    } else if d == 6 {
        '6'
    } else if d == 7 {
        '7'
    } else if d == 8 {
        '8'
    } else {
        '9'
    }
}

/// The decimal rendering of a non-negative integer, most significant digit
/// first.
pub open spec fn nat_digits(n: int) -> Seq<char>
    recommends
        n >= 0,
    decreases n,
{
    if n <= 9 {
        seq![digit_char(n)]
    } else {
        nat_digits(n / 10).push(digit_char(n % 10))
    }
}

/// The decimal rendering of an integer, with a leading minus sign when
/// negative.
pub open spec fn int_text(i: int) -> Seq<char> {
    if i < 0 {
        seq!['-'] + nat_digits(-i)
    } else {
        nat_digits(i)
    }
}

fn digit_char_exec(d: u64) -> (c: char)
    requires
        d <= 9,
    ensures
        c == digit_char(d as int),
{
    if d == 0 {
        '0'
    } else if d == 1 {
        '1'
    } else if d == 2 {
        '2'
    } else if d == 3 {
        '3'
    } else if d == 4 {
        '4'
    } else if d == 5 {
        '5'
    } else if d == 6 {
        '6'
    } else if d == 7 {
        '7'
    } else if d == 8 {
        '8'
    } else {
        '9'
    }
}

fn push_digits(n: u64, out: &mut String)
    ensures
        final(out)@ == old(out)@ + nat_digits(n as int),
    decreases n,
{
    if n <= 9 {
        push_char(out, digit_char_exec(n));
        proof {
            assert(out@ =~= old(out)@ + nat_digits(n as int));
        }
    } else {
        push_digits(n / 10, out);
        push_char(out, digit_char_exec(n % 10));
        proof {
            assert(out@ =~= old(out)@ + nat_digits(n as int));
        }
    }
}

/// The decimal rendering of a signed 64-bit integer.
pub fn i64_to_string(i: i64) -> (r: String)
    ensures
        r@ == int_text(i as int),
{
    let mut out = String::new();
    if i < 0 {
        push_char(&mut out, '-');
        let mag: u64 = ((-(i + 1)) as u64) + 1;
        proof {
            assert(mag as int == -(i as int));
        }
        push_digits(mag, &mut out);
        proof {
            assert(out@ =~= int_text(i as int));
        }
    } else {
        push_digits(i as u64, &mut out);
        proof {
            assert(out@ =~= int_text(i as int));
        }
    }
    out
}

/// Whether a character is a decimal digit.
pub open spec fn is_digit(c: char) -> bool {
    '0' <= c && c <= '9'
}

/// The numeric value of a digit character.
pub open spec fn digit_val(c: char) -> int {
    c as int - '0' as int
}

/// Whether every character of a sequence is a decimal digit.
pub open spec fn all_digits(s: Seq<char>) -> bool {
    forall|j: int| 0 <= j < s.len() ==> is_digit(#[trigger] s[j])
}

/// The numeric value of a sequence of digit characters.
pub open spec fn digits_val(s: Seq<char>) -> int
    decreases s.len(),
{
    if s.len() == 0 {
        0
    } else {
        digits_val(s.drop_last()) * 10 + digit_val(s.last())
    }
}

/// A digit string is the input with one optional leading plus sign removed.
pub open spec fn strip_plus(s: Seq<char>) -> Seq<char> {
    if s.len() > 0 && s[0] == '+' {
        s.skip(1)
    } else {
        s
    }
}

/// What parsing an unsigned size from decimal text yields: an optional
/// leading plus, then at least one digit, with the value in range.
pub open spec fn parse_usize_spec(s: Seq<char>) -> Option<usize> {
    let d = strip_plus(s);
    if d.len() > 0 && all_digits(d) && digits_val(d) <= usize::MAX as int {
        Option::Some(digits_val(d) as usize)
    } else {
        Option::None
    }
}

proof fn lemma_digits_val_nonneg(s: Seq<char>)
    requires
        all_digits(s),
    ensures
        digits_val(s) >= 0,
    decreases s.len(),
{
    if s.len() > 0 {
        assert(all_digits(s.drop_last()));
        lemma_digits_val_nonneg(s.drop_last());
    }
}

proof fn lemma_digits_val_prefix(s: Seq<char>, j: int)
    requires
        all_digits(s),
        0 <= j <= s.len(),
    ensures
        digits_val(s.take(j)) <= digits_val(s),
    decreases s.len() - j,
{
    assert(all_digits(s.take(j)));
    if j == s.len() {
        assert(s.take(j) =~= s);
    } else {
        lemma_digits_val_nonneg(s.take(j));
        assert(s.take(j + 1).drop_last() =~= s.take(j));
        assert(digits_val(s.take(j + 1)) == digits_val(s.take(j)) * 10 + digit_val(s[j]));
        lemma_digits_val_prefix(s, j + 1);
    }
}

/// The segments of a dot-delimited key, in order.  An empty key has one
/// empty segment; consecutive dots yield empty segments.
pub open spec fn split_dots(s: Seq<char>) -> Seq<Seq<char>>
    decreases s.len(),
{
    if s.len() == 0 {
        seq![Seq::<char>::empty()]
    } else if s[0] == '.' {
        seq![Seq::<char>::empty()] + split_dots(s.skip(1))
    } else {
        let rest = split_dots(s.skip(1));
        seq![seq![s[0]] + rest[0]] + rest.skip(1)
    }
}

pub broadcast proof fn lemma_split_dots_len(s: Seq<char>)
    ensures
        #[trigger] split_dots(s).len() >= 1,
    decreases s.len(),
{
    if s.len() > 0 {
        lemma_split_dots_len(s.skip(1));
    }
}

fn split_from(s: &str, i: usize) -> (r: Vec<String>)
    requires
        i <= s@.len(),
    ensures
        r.deep_view() == split_dots(s@.skip(i as int)),
    decreases s@.len() - i,
{
    proof {
        lemma_split_dots_len(s@.skip(i as int));
    }
    let n = s.unicode_len();
    if i == n {
        let mut r: Vec<String> = Vec::new();
        r.push(String::new());
        proof {
            assert(s@.skip(i as int) =~= Seq::<char>::empty());
            assert(r.deep_view() =~= split_dots(s@.skip(i as int)));
        }
        r
    } else {
        let c = s.get_char(i);
        let mut rest = split_from(s, i + 1);
        proof {
            lemma_split_dots_len(s@.skip(i + 1));
            assert(rest@.len() >= 1);
            assert(s@.skip(i as int)[0] == s@[i as int]);
            assert(s@.skip(i as int).skip(1) =~= s@.skip(i + 1));
        }
        if c == '.' {
            rest.insert(0, String::new());
            proof {
                assert(rest.deep_view() =~= split_dots(s@.skip(i as int)));
            }
            rest
        } else {
            let head = rest.remove(0);
            let mut first = String::new();
            push_char(&mut first, c);
            first.append(head.as_str());
            rest.insert(0, first);
            proof {
                assert(rest.deep_view() =~= split_dots(s@.skip(i as int)));
            }
            rest
        }
    }
}

/// The segments of a dot-delimited key, as owned strings.
pub fn split_dots_exec(s: &str) -> (r: Vec<String>)
    ensures
        r.deep_view() == split_dots(s@),
        r@.len() >= 1,
{
    proof {
        lemma_split_dots_len(s@);
    }
    let r = split_from(s, 0);
    proof {
        assert(s@.skip(0) =~= s@);
    }
    r
}

/// What parsing a boolean from text yields: exactly the words of the two
/// truth values.
pub open spec fn parse_bool_spec(s: Seq<char>) -> Option<bool> {
    if s == "true"@ {
        Option::Some(true)
    } else if s == "false"@ {
        Option::Some(false)
    } else {
        Option::None
    }
}

/// What parsing a signed 64-bit integer from decimal text yields: an
/// optional sign, then at least one digit, with the value in range.
pub open spec fn parse_i64_spec(s: Seq<char>) -> Option<i64> {
    if s.len() > 0 && s[0] == '-' {
        let d = s.skip(1);
        if d.len() > 0 && all_digits(d) && digits_val(d) <= 9223372036854775808 {
            Option::Some((-digits_val(d)) as i64)
        } else {
            Option::None
        }
    } else {
        let d = strip_plus(s);
        if d.len() > 0 && all_digits(d) && digits_val(d) <= i64::MAX as int {
            Option::Some(digits_val(d) as i64)
        } else {
            Option::None
        }
    }
}

fn parse_digits(s: &str, start: usize, limit: u64) -> (r: Option<u64>)
    requires
        start <= s@.len(),
        limit >= 9,
    ensures
        ({
            let d = s@.skip(start as int);
            match r {
                Option::Some(v) => d.len() > 0 && all_digits(d) && digits_val(d) == v && v
                    <= limit,
                Option::None => !(d.len() > 0 && all_digits(d) && digits_val(d) <= limit),
            }
        }),
{
    let ghost d = s@.skip(start as int);
    let n = s.unicode_len();
    if n == start {
        return Option::None;
    }
    let mut acc: u64 = 0;
    let mut i: usize = start;
    proof {
        assert(d.take(0) =~= Seq::<char>::empty());
    }
    while i < n
        invariant
            n == s@.len(),
            start <= i <= n,
            d == s@.skip(start as int),
            d.len() == n - start,
            forall|j: int| 0 <= j < d.len() ==> d[j] == s@[start + j],
            all_digits(d.take(i - start)),
            acc == digits_val(d.take(i - start)),
            acc <= limit,
            limit >= 9,
        decreases n - i,
    {
        let c = s.get_char(i);
        if !(('0' <= c) && (c <= '9')) {
            proof {
                assert(d[i - start] == c);
                assert(!all_digits(d));
            }
            return Option::None;
        }
        let dv: u64 = (c as u64) - ('0' as u64);
        proof {
            assert(dv == digit_val(c) && dv <= 9) by {
                assert('0' as int == 48 && '9' as int == 57);
            }
            assert(d.take(i - start + 1).drop_last() =~= d.take(i - start));
            assert(d.take(i - start + 1).last() == c);
        }
        if acc > (limit - dv) / 10 {
            proof {
                assert(acc * 10 + dv > limit) by (nonlinear_arith)
                    requires
                        acc > (limit as int - dv) / 10,
                        0 <= dv <= 9,
                        acc >= 0,
                ;
                assert(digits_val(d.take(i - start + 1)) > limit);
                if all_digits(d) {
                    lemma_digits_val_prefix(d, i - start + 1);
                }
            }
            return Option::None;
        }
        proof {
            assert(acc * 10 + dv <= limit) by (nonlinear_arith)
                requires
                    acc <= (limit as int - dv) / 10,
                    0 <= dv <= 9,
                    acc >= 0,
            ;
        }
        acc = acc * 10 + dv;
        i = i + 1;
    }
    proof {
        assert(d.take(n - start) =~= d);
    }
    Option::Some(acc)
}

/// Parses a signed 64-bit integer from decimal text, as `i64::from_str`
/// does.
pub fn parse_i64(s: &str) -> (r: Option<i64>)
    ensures
        r == parse_i64_spec(s@),
{
    let n = s.unicode_len();
    if n > 0 && s.get_char(0) == '-' {
        match parse_digits(s, 1, 9223372036854775808u64) {
            Option::Some(v) => {
                if v == 9223372036854775808u64 {
                    Option::Some(i64::MIN)
                } else {
                    Option::Some(-(v as i64))
                }
            },
            Option::None => Option::None,
        }
    } else {
        let start: usize = if n > 0 && s.get_char(0) == '+' {
            1
        } else {
            0
        };
        proof {
            assert(strip_plus(s@) =~= s@.skip(start as int));
        }
        match parse_digits(s, start, 9223372036854775807u64) {
            Option::Some(v) => Option::Some(v as i64),
            Option::None => Option::None,
        }
    }
}

/// Parses an unsigned size from decimal text, as `usize::from_str` does.
pub fn parse_usize(s: &str) -> (r: Option<usize>)
    ensures
        r == parse_usize_spec(s@),
{
    let n = s.unicode_len();
    let start: usize = if n > 0 && s.get_char(0) == '+' {
        1
    } else {
        0
    };
    let ghost d = strip_plus(s@);
    proof {
        assert(d =~= s@.skip(start as int));
    }
    if n == start {
        return Option::None;
    }
    let mut acc: usize = 0;
    let mut i: usize = start;
    proof {
        assert(d.take(0) =~= Seq::<char>::empty());
    }
    while i < n
        invariant
            n == s@.len(),
            start <= i <= n,
            d == strip_plus(s@),
            d == s@.skip(start as int),
            d.len() == n - start,
            forall|j: int| 0 <= j < d.len() ==> d[j] == s@[start + j],
            all_digits(d.take(i - start)),
            acc == digits_val(d.take(i - start)),
        decreases n - i,
    {
        let c = s.get_char(i);
        if !(('0' <= c) && (c <= '9')) {
            proof {
                assert(d[i - start] == c);
                assert(!all_digits(d));
            }
            return Option::None;
        }
        let dv: usize = (c as usize) - ('0' as usize);
        proof {
            assert(dv == digit_val(c)) by {
                assert('0' as int == 48);
            }
        }
        if acc > (usize::MAX - dv) / 10 {
            proof {
                assert(acc * 10 + dv > usize::MAX as int) by (nonlinear_arith)
                    requires
                        acc > (usize::MAX as int - dv) / 10,
                        0 <= dv <= 9,
                        acc >= 0,
                ;
                assert(d.take(i - start + 1).drop_last() =~= d.take(i - start));
                assert(d.take(i - start + 1).last() == c);
                assert(digits_val(d.take(i - start + 1)) > usize::MAX as int);
                if all_digits(d) {
                    lemma_digits_val_prefix(d, i - start + 1);
                }
            }
            return Option::None;
        }
        proof {
            assert(acc * 10 + dv <= usize::MAX as int) by (nonlinear_arith)
                requires
                    acc <= (usize::MAX as int - dv) / 10,
                    0 <= dv <= 9,
                    acc >= 0,
            ;
            assert(d.take(i - start + 1).drop_last() =~= d.take(i - start));
            assert(d.take(i - start + 1).last() == c);
        }
        acc = acc * 10 + dv;
        i = i + 1;
    }
    proof {
        assert(d.take(n - start) =~= d);
    }
    Option::Some(acc)
}

} // verus!
