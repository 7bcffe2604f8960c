//! Text helpers: ASCII case folding, substring search and decimal numbers.
use vstd::prelude::*;

verus! {

/// The ASCII lower case of `c`; other characters stay as they are.
pub open spec fn ascii_lower(c: char) -> char {
    if 'A' <= c && c <= 'Z' {
        (c as u32 + 32) as char
    } else {
        c
    }
}

/// `s` with every ASCII letter in lower case.
pub open spec fn lower(s: Seq<char>) -> Seq<char> {
    s.map_values(|c: char| ascii_lower(c))
}

/// `needle` stands in `s`, beginning at position `i`.
pub open spec fn occurs_at(s: Seq<char>, needle: Seq<char>, i: int) -> bool {
    0 <= i && i + needle.len() <= s.len() && s.subrange(i, i + needle.len()) == needle
}

/// `needle` stands somewhere in `s`.
pub open spec fn occurs(s: Seq<char>, needle: Seq<char>) -> bool {
    exists|i: int| occurs_at(s, needle, i)
}

/// The decimal digit of a number below ten.
pub open spec fn digit(d: nat) -> char {
    (48 + d) as char
}

/// `n` in decimal, without leading zeros.
pub open spec fn decimal(n: nat) -> Seq<char>
    decreases n,
{
    if n < 10 {
        seq![digit(n)]
    } else {
        decimal(n / 10).push(digit(n % 10))
    }
}

/// `n` in decimal, with a minus sign where it is negative.
pub open spec fn signed_decimal(n: int) -> Seq<char> {
    if n < 0 {
        seq!['-'] + decimal((-n) as nat)
    } else {
        decimal(n as nat)
    }
}

/// `c` is one of the ten decimal digits.
pub open spec fn is_digit(c: char) -> bool {
    '0' <= c && c <= '9'
}

/// The number that a sequence of decimal digits stands for.
pub open spec fn digits_value(s: Seq<char>) -> nat
    decreases s.len(),
{
    if s.len() == 0 {
        0
    } else {
        digits_value(s.drop_last()) * 10 + (s.last() as nat - 48) as nat
    }
}

/// `s` without one leading plus sign.
pub open spec fn without_plus(s: Seq<char>) -> Seq<char> {
    if s.len() > 0 && s[0] == '+' {
        s.drop_first()
    } else {
        s
    }
}

/// The 16-bit number that `s` writes in decimal: an optional plus sign followed by
/// one or more digits and nothing else.
pub open spec fn parsed_u16(s: Seq<char>) -> Option<u16> {
    let digits = without_plus(s);
    if digits.len() > 0 && (forall|i: int| 0 <= i < digits.len() ==> is_digit(#[trigger] digits[i]))
        && digits_value(digits) <= u16::MAX {
        Some(digits_value(digits) as u16)
    } else {
        None
    }
}

/// The characters of `s`.
pub fn chars_of(s: &str) -> (r: Vec<char>)
    ensures
        r@ == s@,
{
    let mut out: Vec<char> = Vec::new();
    for c in it: s.chars()
        invariant
            out@ == s@.take(it.index()),
            it.seq() == s@,
    {
        proof {
            assert(s@.take(it.index() + 1) == s@.take(it.index()).push(s@[it.index()]));
        }
        out.push(c);
    }
    proof {
        assert(s@.take(s@.len() as int) == s@);
    }
    out
}

/// The ASCII lower case of one character.
pub fn to_lower(c: char) -> (r: char)
    ensures
        r == ascii_lower(c),
{
    if 'A' <= c && c <= 'Z' {
        (c as u8 + 32) as char
    } else {
        c
    }
}

/// Folds the ASCII letters of `s` to lower case.
pub fn lower_of(s: &str) -> (r: Vec<char>)
    ensures
        r@ == lower(s@),
{
    let chars = chars_of(s);
    let mut out: Vec<char> = Vec::new();
    for i in 0..chars.len()
        invariant
            chars@ == s@,
            out@ == lower(s@.take(i as int)),
    {
        proof {
            assert(lower(s@.take(i + 1)) =~= lower(s@.take(i as int)).push(ascii_lower(s@[i as int])));
        }
        out.push(to_lower(chars[i]));
    }
    proof {
        assert(s@.take(s@.len() as int) == s@);
    }
    out
}

/// Whether `needle` stands in `s` at position `i`.
fn matches_at(s: &Vec<char>, needle: &Vec<char>, i: usize) -> (r: bool)
    requires
        i + needle@.len() <= s@.len(),
    ensures
        r == occurs_at(s@, needle@, i as int),
{
    let len: usize = s.len();
    for j in 0..needle.len()
        invariant
            len == s@.len(),
            i + needle@.len() <= len,
            forall|k: int| 0 <= k < j ==> s@[i + k] == needle@[k],
    {
        if s[i + j] != needle[j] {
            proof {
                assert(s@.subrange(i as int, i + needle@.len())[j as int] == s@[i + j]);
            }
            return false;
        }
    }
    proof {
        assert(s@.subrange(i as int, i + needle@.len()) =~= needle@);
    }
    true
}

/// Whether `needle` stands anywhere in `s`.
pub fn occurs_in(s: &Vec<char>, needle: &Vec<char>) -> (r: bool)
    ensures
        r == occurs(s@, needle@),
{
    if needle.len() > s.len() {
        return false;
    }
    let last: usize = s.len() - needle.len();
    let mut i: usize = 0;
    while i <= last
        invariant
            needle@.len() <= s@.len(),
            last == s@.len() - needle@.len(),
            i <= last + 1,
            forall|k: int| 0 <= k < i ==> !occurs_at(s@, needle@, k),
        decreases last + 1 - i,
    {
        if matches_at(s, needle, i) {
            return true;
        }
        if i == last {
            return false;
        }
        i = i + 1;
    }
    false
}

/// Whether the text `needle` stands anywhere in the text `s`.
pub fn contains(s: &str, needle: &str) -> (r: bool)
    ensures
        r == occurs(s@, needle@),
{
    occurs_in(&chars_of(s), &chars_of(needle))
}

/// Whether two texts hold the same characters.
pub fn same_text(a: &str, b: &str) -> (r: bool)
    ensures
        r == (a@ == b@),
{
    a.to_owned() == b.to_owned()
}

/// Whether two texts are equal once ASCII letters are folded to lower case.
pub fn same_text_ignoring_case(a: &str, b: &str) -> (r: bool)
    ensures
        r == (lower(a@) == lower(b@)),
{
    let x = lower_of(a);
    let y = lower_of(b);
    if x.len() != y.len() {
        return false;
    }
    for i in 0..x.len()
        invariant
            x@ == lower(a@),
            y@ == lower(b@),
            x@.len() == y@.len(),
            forall|k: int| 0 <= k < i ==> x@[k] == y@[k],
    {
        if x[i] != y[i] {
            return false;
        }
    }
    proof {
        assert(x@ =~= y@);
    }
    true
}

/// The text of one decimal digit.
fn digit_text(d: u64) -> (r: &'static str)
    requires
        d < 10,
    ensures
        r@ == seq![digit(d as nat)],
{
    proof {
        reveal_strlit("0");
        reveal_strlit("1");
        reveal_strlit("2");
        reveal_strlit("3");
        reveal_strlit("4");
        reveal_strlit("5");
        reveal_strlit("6");
        reveal_strlit("7");
        reveal_strlit("8");
        reveal_strlit("9");
    }
    if d == 0 {
        "0"
    } else if d == 1 {
        "1"
    } else if d == 2 {
        "2"
    } else if d == 3 {
        "3"
    } else if d == 4 {
        "4"
    } else if d == 5 {
        "5"
    } else if d == 6 {
        "6"
    } else if d == 7 {
        "7"
    } else if d == 8 {
        "8"
    } else {
        "9"
    }
}

/// Writes `n` in decimal.
pub fn decimal_text(n: u64) -> (r: String)
    ensures
        r@ == decimal(n as nat),
    decreases n,
{
    if n < 10 {
        digit_text(n).to_owned()
    } else {
        decimal_text(n / 10).concat(digit_text(n % 10))
    }
}

/// Writes `n` in decimal, with a minus sign where it is negative.
pub fn signed_decimal_text(n: i32) -> (r: String)
    ensures
        r@ == signed_decimal(n as int),
{
    if n < 0 {
        proof {
            reveal_strlit("-");
            assert("-"@ =~= seq!['-']);
        }
        "-".to_owned().concat(decimal_text((-(n as i64)) as u64).as_str())
    } else {
        decimal_text(n as u64)
    }
}

/// Taking more digits never makes the number smaller.
proof fn lemma_value_of_prefix(s: Seq<char>, i: int)
    requires
        0 <= i <= s.len(),
        forall|k: int| 0 <= k < s.len() ==> is_digit(#[trigger] s[k]),
    ensures
        digits_value(s.take(i)) <= digits_value(s),
    decreases s.len() - i,
{
    if i == s.len() {
        assert(s.take(i) == s);
    } else {
        assert(s.take(i + 1).drop_last() == s.take(i));
        lemma_value_of_prefix(s, i + 1);
    }
}

/// Reads a 16-bit decimal number.
pub fn parse_u16(s: &str) -> (r: Option<u16>)
    ensures
        r == parsed_u16(s@),
{
    let chars = chars_of(s);
    let start: usize = if chars.len() > 0 && chars[0] == '+' {
        1
    } else {
        0
    };
    let ghost digits = without_plus(s@);
    proof {
        assert(digits =~= s@.skip(start as int));
    }
    if start == chars.len() {
        return None;
    }
    let mut value: u32 = 0;
    for i in start..chars.len()
        invariant
            start <= 1,
            chars@ == s@,
            digits == without_plus(s@),
            digits == s@.skip(start as int),
            value == digits_value(digits.take(i - start)),
            value <= u16::MAX,
            forall|k: int| 0 <= k < i - start ==> is_digit(#[trigger] digits[k]),
    {
        let c = chars[i];
        proof {
            assert(digits[i - start] == c);
            assert(digits.take(i - start + 1).drop_last() == digits.take(i - start));
        }
        if !('0' <= c && c <= '9') {
            return None;
        }
        value = value * 10 + (c as u32 - 48);
        if value > 65535 {
            proof {
                if forall|k: int| 0 <= k < digits.len() ==> is_digit(#[trigger] digits[k]) {
                    lemma_value_of_prefix(digits, i - start + 1);
                }
            }
            return None;
        }
    }
    proof {
        assert(digits.take(digits.len() as int) == digits);
    }
    Some(value as u16)
}

/// The decimal text of a number consists of digits only and stands for that number.
pub proof fn lemma_decimal_value(n: nat)
    ensures
        decimal(n).len() > 0,
        forall|k: int| 0 <= k < decimal(n).len() ==> is_digit(#[trigger] decimal(n)[k]),
        digits_value(decimal(n)) == n,
    decreases n,
{
    if n < 10 {
        assert(decimal(n).drop_last() =~= Seq::<char>::empty());
        assert(digits_value(decimal(n).drop_last()) == 0);
    } else {
        lemma_decimal_value(n / 10);
        assert(decimal(n).drop_last() =~= decimal(n / 10));
    }
}

/// Reading back a port that was written in decimal gives that port.
pub proof fn law_port_text_reads_back(port: u16)
    ensures
        parsed_u16(decimal(port as nat)) == Some(port),
{
    lemma_decimal_value(port as nat);
    assert(is_digit(decimal(port as nat)[0]));
    assert(without_plus(decimal(port as nat)) == decimal(port as nat));
}

/// Folding a text keeps its length. Of every character it keeps all but that an ASCII
/// capital becomes the small letter of the same name.
pub proof fn law_folding_changes_capitals_only(s: Seq<char>, i: int)
    requires
        0 <= i < s.len(),
    ensures
        lower(s).len() == s.len(),
        65 <= s[i] as u32 <= 90 ==> lower(s)[i] as u32 == s[i] as u32 + 32,
        !(65 <= s[i] as u32 <= 90) ==> lower(s)[i] == s[i],
{
}

/// Folding a text that is folded changes nothing.
pub proof fn law_folding_twice_is_folding_once(s: Seq<char>)
    ensures
        lower(lower(s)) == lower(s),
{
    assert(lower(lower(s)) =~= lower(s));
}

/// A text stands in another one exactly where the other one is made of something, that
/// text and something more.
pub proof fn law_occurring_text_splits_the_other(s: Seq<char>, needle: Seq<char>)
    ensures
        occurs(s, needle) <==> exists|a: Seq<char>, b: Seq<char>| s == #[trigger] (a + needle + b),
{
    if occurs(s, needle) {
        let i = choose|i: int| occurs_at(s, needle, i);
        let a = s.take(i);
        let b = s.skip(i + needle.len());
        assert(s =~= a + needle + b) by {
            assert forall|k: int| 0 <= k < s.len() implies s[k] == (a + needle + b)[k] by {
                if i <= k < i + needle.len() {
                    assert(s.subrange(i, i + needle.len())[k - i] == needle[k - i]);
                }
            }
        }
    }
    if exists|a: Seq<char>, b: Seq<char>| s == #[trigger] (a + needle + b) {
        let (a, b) = choose|a: Seq<char>, b: Seq<char>| s == #[trigger] (a + needle + b);
        assert(s.subrange(a.len() as int, (a.len() + needle.len()) as int) =~= needle);
        assert(occurs_at(s, needle, a.len() as int));
    }
}

/// A number below ten is written with one digit, and ten times a number plus another
/// digit is written as that number with the digit behind it.
pub proof fn law_decimal_grows_digit_by_digit(n: nat, d: nat)
    requires
        d < 10,
    ensures
        decimal(d) == seq!["0123456789"@[d as int]],
        n > 0 ==> decimal(10 * n + d) == decimal(n) + seq!["0123456789"@[d as int]],
{
    reveal_strlit("0123456789");
    assert(decimal(d) =~= seq!["0123456789"@[d as int]]);
    if n > 0 {
        assert((10 * n + d) / 10 == n && (10 * n + d) % 10 == d);
        assert(decimal(10 * n + d) =~= decimal(n) + seq!["0123456789"@[d as int]]);
    }
}

/// Different numbers are written differently.
pub proof fn law_decimal_tells_numbers_apart(m: nat, n: nat)
    ensures
        decimal(m) == decimal(n) <==> m == n,
{
    lemma_decimal_value(m);
    lemma_decimal_value(n);
}

/// A negative number is written as its opposite with a minus sign in front; other
/// numbers have no sign.
pub proof fn law_sign_stands_in_front(n: nat)
    ensures
        signed_decimal(n as int) == decimal(n),
        n > 0 ==> signed_decimal(-n) == "-"@ + decimal(n),
{
    reveal_strlit("-");
    assert("-"@ =~= seq!['-']);
}

/// A port of one character is a digit. Nothing, or a plus sign alone, is no port.
pub proof fn law_shortest_ports(c: char)
    ensures
        parsed_u16(Seq::empty()) is None,
        48 <= c as u32 <= 57 ==> parsed_u16(seq![c]) == Some((c as u32 - 48) as u16),
        !(48 <= c as u32 <= 57) ==> parsed_u16(seq![c]) is None,
{
    let s = seq![c];
    if c == '+' {
        assert(without_plus(s) =~= Seq::<char>::empty());
    } else {
        assert(without_plus(s) == s);
        assert(s[0] == c);
        assert(s.drop_last() =~= Seq::<char>::empty());
        assert(digits_value(s.drop_last()) == 0);
        if 48 <= c as u32 <= 57 {
            assert forall|i: int| 0 <= i < s.len() implies is_digit(#[trigger] s[i]) by {}
        } else {
            assert(!is_digit(s[0]));
        }
    }
}

/// A longer text is a port exactly where it is one without its last character, that is
/// a digit, and the number is not too large: ten times the number before, plus the
/// digit. Behind a plus sign a character counts as if it stood alone.
pub proof fn law_ports_are_read_digit_by_digit(s: Seq<char>, c: char)
    requires
        s.len() > 0,
    ensures
        s == seq!['+'] ==> parsed_u16(s.push(c)) == (if 48 <= c as u32 <= 57 {
            Some((c as u32 - 48) as u16)
        } else {
            None
        }),
        s != seq!['+'] ==> parsed_u16(s.push(c)) == (match parsed_u16(s) {
            Some(port) => if 48 <= c as u32 <= 57 && port * 10 + (c as u32 - 48) <= 65535 {
                Some((port * 10 + (c as u32 - 48)) as u16)
            } else {
                None
            },
            None => None,
        }),
{
    let t = s.push(c);
    let old_digits = without_plus(s);
    let digits = without_plus(t);
    assert(digits =~= old_digits.push(c));
    assert(digits.drop_last() =~= old_digits);
    assert(digits_value(digits) == digits_value(old_digits) * 10 + (c as nat - 48) as nat);
    assert(digits[digits.len() - 1] == c);
    let all_old = forall|i: int|
        0 <= i < old_digits.len() ==> is_digit(#[trigger] old_digits[i]);
    let all = forall|i: int| 0 <= i < digits.len() ==> is_digit(#[trigger] digits[i]);
    assert(all <==> all_old && is_digit(c)) by {
        if all {
            assert forall|i: int| 0 <= i < old_digits.len() implies is_digit(
                #[trigger] old_digits[i],
            ) by {
                assert(digits[i] == old_digits[i]);
            }
        }
        if all_old && is_digit(c) {
            assert forall|i: int| 0 <= i < digits.len() implies is_digit(#[trigger] digits[i]) by {
                if i < old_digits.len() {
                    assert(digits[i] == old_digits[i]);
                }
            }
        }
    }
    if old_digits.len() == 0 {
        assert(s =~= seq!['+']);
        assert(digits_value(old_digits) == 0);
    } else if s == seq!['+'] {
        assert(old_digits =~= Seq::<char>::empty());
    }
}

} // verus!
