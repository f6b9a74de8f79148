//! Text primitives of the wire protocol and of error messages: decimal numbers, comparisons,
//! and searches, each stated over the characters of a string.
use vstd::arithmetic::div_mod::lemma_div_denominator;
use vstd::arithmetic::power::{lemma_pow0, lemma_pow_positive, pow};
use vstd::prelude::*;
use vstd::string::StringExecFns;
use vstd::utf8::encode_utf8;

verus! {

/// The character of a decimal digit.
pub open spec fn digit_char(d: nat) -> char {
    (48 + d) as char
}

/// The decimal digits of `n`, without leading zeros.
pub open spec fn decimal(n: nat) -> Seq<char>
    decreases n,
{
    if n < 10 {
        seq![digit_char(n)]
    } else {
        decimal(n / 10).push(digit_char(n % 10))
    }
}

/// The decimal digits of `i`, after a `-` when it is negative.
pub open spec fn signed_decimal(i: int) -> Seq<char> {
    if i < 0 {
        seq!['-'] + decimal((-i) as nat)
    } else {
        decimal(i as nat)
    }
}

/// Whether every character is one of `0` to `9`.
pub open spec fn all_digits(s: Seq<char>) -> bool {
    forall|i: int| 0 <= i < s.len() ==> '0' <= #[trigger] s[i] <= '9'
}

/// The number that a string of decimal digits denotes.
pub open spec fn digits_value(s: Seq<char>) -> nat
    decreases s.len(),
{
    if s.len() == 0 {
        0
    } else {
        digits_value(s.drop_last()) * 10 + (s.last() as nat - 48) as nat
    }
}

/// The digits of a length: what follows an optional leading `+`.
pub open spec fn length_digits(s: Seq<char>) -> Seq<char> {
    if s.len() > 0 && s[0] == '+' {
        s.skip(1)
    } else {
        s
    }
}

/// The length that `s` denotes: an optional `+` and at least one decimal digit, of a value that
/// a `usize` can hold.
pub open spec fn parsed_length(s: Seq<char>) -> Option<usize> {
    let d = length_digits(s);
    if d.len() > 0 && all_digits(d) && digits_value(d) <= usize::MAX {
        Some(digits_value(d) as usize)
    } else {
        None
    }
}

/// The code of a character, of its lower case form for `A` to `Z`.
pub open spec fn ascii_lower(c: char) -> int {
    if 'A' <= c <= 'Z' {
        c as int + 32
    } else {
        c as int
    }
}

/// Whether two strings differ at most in the case of ASCII letters.
pub open spec fn same_ignoring_case(a: Seq<char>, b: Seq<char>) -> bool {
    &&& a.len() == b.len()
    &&& forall|i: int| 0 <= i < a.len() ==> ascii_lower(#[trigger] a[i]) == ascii_lower(b[i])
}

/// Whether a `: ` stands at position `i`.
pub open spec fn separator_at(s: Seq<char>, i: int) -> bool {
    0 <= i && i + 1 < s.len() && s[i] == ':' && s[i + 1] == ' '
}

/// Whether the first `: ` stands at position `i`.
pub open spec fn first_separator_at(s: Seq<char>, i: int) -> bool {
    separator_at(s, i) && forall|j: int| 0 <= j < i ==> !#[trigger] separator_at(s, j)
}

/// Whether a method is one that a peer may leave unhandled: its name starts with `$/`.
pub open spec fn is_optional_method(method: Seq<char>) -> bool {
    method.len() >= 2 && method[0] == '$' && method[1] == '/'
}

/// A string is determined by its UTF-8 bytes.
pub proof fn lemma_bytes_determine_text(a: Seq<char>, b: Seq<char>)
    requires
        encode_utf8(a) == encode_utf8(b),
    ensures
        a == b,
{
    vstd::utf8::encode_utf8_decode_utf8(a);
    vstd::utf8::encode_utf8_decode_utf8(b);
}

/// Compares two strings.
pub fn same_text(a: &str, b: &str) -> (r: bool)
    ensures
        r == (a@ == b@),
{
    let x = a.as_bytes();
    let y = b.as_bytes();
    if x.len() != y.len() {
        return false;
    }
    let n: usize = x.len();
    let mut i: usize = 0;
    while i < n
        invariant
            i <= n,
            n == x@.len(),
            n == y@.len(),
            x@ == encode_utf8(a@),
            y@ == encode_utf8(b@),
            forall|j: int| 0 <= j < i ==> x@[j] == y@[j],
        decreases n - i,
    {
        if x[i] != y[i] {
            return false;
        }
        i += 1;
    }
    proof {
        assert(x@ =~= y@);
        lemma_bytes_determine_text(a@, b@);
    }
    true
}

/// The characters of a string.
pub fn chars_of(s: &str) -> (v: Vec<char>)
    ensures
        v@ == s@,
{
    let mut v: Vec<char> = Vec::new();
    for c in it: s.chars()
        invariant
            it.seq() == s@,
            v@ == s@.take(it.index()),
    {
        v.push(c);
    }
    v
}

/// The one-character text of a digit.
fn digit_text(d: u64) -> (s: &'static str)
    requires
        d < 10,
    ensures
        s@ == seq![digit_char(d as nat)],
{
    proof {
        reveal_strlit("0");
        reveal_strlit("1");
        reveal_strlit("2");
        reveal_strlit("3");
        reveal_strlit("4");
        reveal_strlit("5");
        reveal_strlit("6");
        reveal_strlit("7");
        reveal_strlit("8");
        reveal_strlit("9");
    }
    match d {
        0 => "0",
        1 => "1",
        2 => "2",
        3 => "3",
        4 => "4",
        5 => "5",
        6 => "6",
        7 => "7",
        8 => "8",
        _ => "9",
    }
}

/// Appends the decimal digits of `n`.
pub fn append_decimal(out: &mut String, n: u64)
    ensures
        final(out)@ == old(out)@ + decimal(n as nat),
    decreases n,
{
    if n >= 10 {
        append_decimal(out, n / 10);
    }
    out.append(digit_text(n % 10));
}

/// Appends the decimal form of `i`.
pub fn append_signed_decimal(out: &mut String, i: i32)
    ensures
        final(out)@ == old(out)@ + signed_decimal(i as int),
{
    let wide: i64 = i as i64;
    if wide < 0 {
        proof {
            reveal_strlit("-");
        }
        out.append("-");
        append_decimal(out, (-wide) as u64);
    } else {
        append_decimal(out, wide as u64);
    }
}

/// More digits denote no smaller number.
proof fn lemma_digits_value_grows(s: Seq<char>, k: int)
    requires
        0 <= k <= s.len(),
    ensures
        digits_value(s.take(k)) <= digits_value(s),
    decreases s.len(),
{
    if k < s.len() {
        lemma_digits_value_grows(s.drop_last(), k);
        assert(s.drop_last().take(k) =~= s.take(k));
    } else {
        assert(s.take(k) =~= s);
    }
}

/// Reads the length that the characters `from..to` denote.
pub fn parse_length(chars: &Vec<char>, from: usize, to: usize) -> (r: Option<usize>)
    requires
        from <= to <= chars@.len(),
    ensures
        r == parsed_length(chars@.subrange(from as int, to as int)),
{
    let ghost s = chars@.subrange(from as int, to as int);
    let ghost d = length_digits(s);
    let start: usize = if from < to && chars[from] == '+' {
        from + 1
    } else {
        from
    };
    assert(d =~= chars@.subrange(start as int, to as int));
    if start == to {
        return None;
    }
    let mut value: usize = 0;
    let mut i: usize = start;
    assert(d.take(0) =~= Seq::<char>::empty());
    while i < to
        invariant
            start <= i <= to <= chars@.len(),
            d == chars@.subrange(start as int, to as int),
            d == length_digits(s),
            s == chars@.subrange(from as int, to as int),
            all_digits(d.take(i - start)),
            value == digits_value(d.take(i - start)),
        decreases to - i,
    {
        let c: char = chars[i];
        proof {
            let k = i - start;
            assert(d[k] == c);
            assert(d.take(k + 1).drop_last() =~= d.take(k));
            assert(d.take(k + 1).last() == c);
        }
        if c < '0' || c > '9' {
            return None;
        }
        let digit: usize = (c as u32 - 48) as usize;
        assert(digits_value(d.take(i - start + 1)) == value * 10 + digit);
        if value > usize::MAX / 10 || (value == usize::MAX / 10 && digit > usize::MAX % 10) {
            proof {
                lemma_digits_value_grows(d, i - start + 1);
            }
            return None;
        }
        value = value * 10 + digit;
        assert(all_digits(d.take(i - start + 1))) by {
            assert forall|j: int| 0 <= j < d.take(i - start + 1).len() implies '0'
                <= #[trigger] d.take(i - start + 1)[j] <= '9' by {
                if j < i - start {
                    assert(d.take(i - start)[j] == d.take(i - start + 1)[j]);
                }
            }
        }
        i += 1;
    }
    assert(d.take(to - start) =~= d);
    Some(value)
}

/// Compares the first `len` characters with `word`, without regard to the case of ASCII letters.
pub fn prefix_is_ignoring_case(chars: &Vec<char>, len: usize, word: &str) -> (r: bool)
    requires
        len <= chars@.len(),
    ensures
        r == same_ignoring_case(chars@.take(len as int), word@),
{
    let other = chars_of(word);
    let ghost s = chars@.take(len as int);
    if other.len() != len {
        return false;
    }
    let mut i: usize = 0;
    while i < len
        invariant
            i <= len <= chars@.len(),
            other@ == word@,
            other@.len() == len,
            s == chars@.take(len as int),
            forall|j: int| 0 <= j < i ==> ascii_lower(#[trigger] s[j]) == ascii_lower(word@[j]),
        decreases len - i,
    {
        assert(s[i as int] == chars@[i as int]);
        if lower_code(chars[i]) != lower_code(other[i]) {
            return false;
        }
        i += 1;
    }
    true
}

fn lower_code(c: char) -> (r: u32)
    ensures
        r == ascii_lower(c),
{
    if 'A' <= c && c <= 'Z' {
        c as u32 + 32
    } else {
        c as u32
    }
}

/// The position of the first `: ` among the first `len` characters.
pub fn find_separator(chars: &Vec<char>, len: usize) -> (r: Option<usize>)
    requires
        len <= chars@.len(),
    ensures
        match r {
            Some(i) => first_separator_at(chars@.take(len as int), i as int),
            None => forall|i: int| !#[trigger] separator_at(chars@.take(len as int), i),
        },
{
    let ghost s = chars@.take(len as int);
    let mut i: usize = 0;
    while i < len && i + 1 < len
        invariant
            i <= len <= chars@.len(),
            s == chars@.take(len as int),
            forall|j: int| 0 <= j < i ==> !#[trigger] separator_at(s, j),
        decreases len - i,
    {
        if chars[i] == ':' && chars[i + 1] == ' ' {
            assert(separator_at(s, i as int));
            return Some(i);
        }
        assert(!separator_at(s, i as int));
        i += 1;
    }
    None
}

/// Whether a method's name starts with `$/`.
pub fn optional_method(method: &str) -> (r: bool)
    ensures
        r == is_optional_method(method@),
{
    let chars = chars_of(method);
    chars.len() >= 2 && chars[0] == '$' && chars[1] == '/'
}

/// `prefix` followed by `rest`.
pub fn joined(prefix: &str, rest: &str) -> (r: String)
    ensures
        r@ == prefix@ + rest@,
{
    let mut s = prefix.to_string();
    s.append(rest);
    s
}

/// Every character of a decimal form is a digit, and there is at least one.
pub proof fn lemma_decimal_digits(n: nat)
    ensures
        decimal(n).len() > 0,
        all_digits(decimal(n)),
        digits_value(decimal(n)) == n,
    decreases n,
{
    if n < 10 {
        let s = decimal(n);
        assert(s.drop_last() =~= Seq::<char>::empty());
        assert(digits_value(s.drop_last()) == 0);
    } else {
        lemma_decimal_digits(n / 10);
        let s = decimal(n);
        assert(s.drop_last() =~= decimal(n / 10));
        assert(s.last() == digit_char(n % 10));
    }
}

/// Reading the decimal form of a length gives the length back.
pub proof fn law_length_reads_back(n: usize)
    ensures
        parsed_length(decimal(n as nat)) == Some(n),
{
    lemma_decimal_digits(n as nat);
    let s = decimal(n as nat);
    assert('0' <= s[0] <= '9');
    assert(length_digits(s) == s);
}

/// What a string of digits denotes is determined by its digits: the digit at each place is the one
/// that the number has at that place, and the number has no more places than the string.
pub proof fn law_digits_stand_at_their_places(s: Seq<char>)
    requires
        forall|i: int| 0 <= i < s.len() ==> '0' <= #[trigger] s[i] <= '9',
    ensures
        digits_value(s) < pow(10, s.len()),
        forall|i: int|
            0 <= i < s.len() ==> #[trigger] s[i] as int == 48 + (digits_value(s) as int / pow(
                10,
                (s.len() - 1 - i) as nat,
            )) % 10,
    decreases s.len(),
{
    lemma_pow0(10);
    if s.len() > 0 {
        let t = s.drop_last();
        let d = s.last() as int - 48;
        let v = digits_value(s) as int;
        let w = digits_value(t) as int;
        assert forall|i: int| 0 <= i < t.len() implies '0' <= #[trigger] t[i] <= '9' by {
            assert(t[i] == s[i]);
        }
        assert('0' <= s[s.len() - 1] <= '9');
        law_digits_stand_at_their_places(t);
        assert(pow(10, s.len()) == 10 * pow(10, t.len())) by {
            reveal(pow);
        }
        assert(v == w * 10 + d && 0 <= d < 10);
        assert forall|i: int| 0 <= i < s.len() implies #[trigger] s[i] as int == 48 + (v / pow(
            10,
            (s.len() - 1 - i) as nat,
        )) % 10 by {
            if i == s.len() - 1 {
                assert((w * 10 + d) % 10 == d);
            } else {
                let k = (t.len() - 1 - i) as nat;
                assert(t[i] == s[i]);
                assert(pow(10, k + 1) == 10 * pow(10, k)) by {
                    reveal(pow);
                }
                lemma_pow_positive(10, k);
                assert(v / 10 == w);
                lemma_div_denominator(v, 10, pow(10, k));
                assert((s.len() - 1 - i) as nat == k + 1);
            }
        }
    }
}

/// The decimal form of a number is its positional form: the digit at each place is the one that the
/// number has at that place, no place is left out, and there is no leading zero.
pub proof fn law_decimal_is_positional(n: nat)
    ensures
        decimal(n).len() >= 1,
        n < pow(10, decimal(n).len()),
        decimal(n).len() > 1 ==> decimal(n)[0] != '0',
        forall|i: int|
            0 <= i < decimal(n).len() ==> #[trigger] decimal(n)[i] as int == 48 + (n as int / pow(
                10,
                (decimal(n).len() - 1 - i) as nat,
            )) % 10,
    decreases n,
{
    lemma_decimal_digits(n);
    law_digits_stand_at_their_places(decimal(n));
    if n >= 10 {
        law_decimal_is_positional(n / 10);
        assert(decimal(n)[0] == decimal(n / 10)[0]);
        if decimal(n / 10).len() == 1 {
            lemma_pow0(10);
            assert(decimal(n / 10)[0] as int == 48 + ((n / 10) as int / pow(10, 0)) % 10);
            reveal_with_fuel(pow, 2);
        }
    }
}

/// A number is written in its decimal form behind what is there, with a `-` before it if it is
/// negative.
pub proof fn law_numbers_are_written_in_decimal()
    ensures
        forall|out: &mut String, n: u64, r: ()| #[trigger]
            call_ensures(append_decimal, (out, n), r) ==> final(out)@ == out@ + decimal(n as nat),
        forall|out: &mut String, i: i32, r: ()| #[trigger]
            call_ensures(append_signed_decimal, (out, i), r) ==> final(out)@ == out@ + (if i < 0 {
                seq!['-'] + decimal((-(i as int)) as nat)
            } else {
                decimal(i as nat)
            }),
{
}

} // verus!
