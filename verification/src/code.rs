use vstd::prelude::*;
use vstd::string::*;

verus! {

/// One more than the largest number that a code can show.
pub const CODE_LIMIT: u32 = 1_000_000;

/// The decimal digit for a value below ten.
pub open spec fn digit_char(d: int) -> char {
    if d == 0 {
        '0'
    } else if d == 1 {
        '1'
    } else if d == 2 {
        '2'
    } else if d == 3 {
        '3'
    } else if d == 4 {
        '4'
    } else if d == 5 {
        '5'
    } else if d == 6 {
        '6'
    } else if d == 7 {
        '7'
    } else if d == 8 {
        '8'
    } else {
        '9'
    }
}

/// Whether a character is a decimal digit.
pub open spec fn is_digit(c: char) -> bool {
    '0' as u32 <= c as u32 && c as u32 <= '9' as u32
}

/// The code for a number below one million: its six decimal digits, most
/// significant first, zeros in front where the number is short.
pub open spec fn code_text(n: int) -> Seq<char> {
    seq![
        digit_char(n / 100_000 % 10),
        digit_char(n / 10_000 % 10),
        digit_char(n / 1_000 % 10),
        digit_char(n / 100 % 10),
        digit_char(n / 10 % 10),
        digit_char(n % 10),
    ]
}

/// Whether a text is a code: exactly six decimal digits.
pub open spec fn is_code(s: Seq<char>) -> bool {
    s.len() == 6 && forall|i: int| 0 <= i < 6 ==> is_digit(#[trigger] s[i])
}

/// The number that six digits spell, for a text that is a code.
pub open spec fn code_value(s: Seq<char>) -> int {
    (s[0] as u32 - '0' as u32) * 100_000 + (s[1] as u32 - '0' as u32) * 10_000 + (s[2] as u32
        - '0' as u32) * 1_000 + (s[3] as u32 - '0' as u32) * 100 + (s[4] as u32 - '0' as u32) * 10
        + (s[5] as u32 - '0' as u32)
}

fn digit_text(d: u32) -> (text: &'static str)
    requires
        d < 10,
    ensures
        text@ == seq![digit_char(d as int)],
{
    proof {
        reveal_strlit("0");
        reveal_strlit("1");
        reveal_strlit("2");
        reveal_strlit("3");
        reveal_strlit("4");
        reveal_strlit("5");
        reveal_strlit("6");
        reveal_strlit("7");
        reveal_strlit("8");
        reveal_strlit("9");
    }
    let text = if d == 0 {
        "0"
    } else if d == 1 {
        "1"
    } else if d == 2 {
        "2"
    } else if d == 3 {
        "3"
    } else if d == 4 {
        "4"
    } else if d == 5 {
        "5"
    } else if d == 6 {
        "6"
    } else if d == 7 {
        "7"
    } else if d == 8 {
        "8"
    } else {
        "9"
    };
    assert(text@ =~= seq![digit_char(d as int)]);
    text
}

/// Writes a number below one million as its code.
pub fn format_code(number: u32) -> (code: String)
    requires
        number < CODE_LIMIT,
    ensures
        code@ == code_text(number as int),
{
    let mut code = String::new();
    code.append(digit_text(number / 100_000 % 10));
    code.append(digit_text(number / 10_000 % 10));
    code.append(digit_text(number / 1_000 % 10));
    code.append(digit_text(number / 100 % 10));
    code.append(digit_text(number / 10 % 10));
    code.append(digit_text(number % 10));
    assert(code@ =~= code_text(number as int));
    code
}

/// Draws a number with `rand::Rng::gen_range` on the thread's generator,
/// which samples the half-open range from `low` up to `high`. Which number of
/// the range comes is not claimed.
#[verifier::external_body]
pub(crate) fn random_between(low: u32, high: u32) -> (number: u32)
    requires
        low < high,
    ensures
        low <= number < high,
{
    rand::Rng::gen_range(&mut rand::thread_rng(), low, high)
}

/// A digit character stands as far above `0` as its value says.
proof fn lemma_digit_char_value(d: int)
    requires
        0 <= d < 10,
    ensures
        is_digit(digit_char(d)),
        digit_char(d) as u32 - '0' as u32 == d,
{
}

/// A number below one million is the sum of its six decimal digits, each
/// times its place value.
proof fn lemma_six_digits(n: int)
    requires
        0 <= n < CODE_LIMIT,
    ensures
        n == (n / 100_000 % 10) * 100_000 + (n / 10_000 % 10) * 10_000 + (n / 1_000 % 10) * 1_000
            + (n / 100 % 10) * 100 + (n / 10 % 10) * 10 + n % 10,
{
    let a = n / 10;
    let b = n / 100;
    let c = n / 1_000;
    let d = n / 10_000;
    let e = n / 100_000;
    assert(a / 10 == b);
    assert(b / 10 == c);
    assert(c / 10 == d);
    assert(d / 10 == e);
    assert(e < 10);
    assert(n == a * 10 + n % 10);
    assert(a == b * 10 + a % 10);
    assert(b == c * 10 + b % 10);
    assert(c == d * 10 + c % 10);
    assert(d == e * 10 + d % 10);
}

/// The code of a number is six digits that spell the number again.
pub proof fn lemma_code_text_reads_back(n: int)
    requires
        0 <= n < CODE_LIMIT,
    ensures
        is_code(code_text(n)),
        code_value(code_text(n)) == n,
{
    let s = code_text(n);
    lemma_digit_char_value(n / 100_000 % 10);
    lemma_digit_char_value(n / 10_000 % 10);
    lemma_digit_char_value(n / 1_000 % 10);
    lemma_digit_char_value(n / 100 % 10);
    lemma_digit_char_value(n / 10 % 10);
    lemma_digit_char_value(n % 10);
    assert(s.len() == 6);
    assert(s[0] == digit_char(n / 100_000 % 10));
    assert(s[1] == digit_char(n / 10_000 % 10));
    assert(s[2] == digit_char(n / 1_000 % 10));
    assert(s[3] == digit_char(n / 100 % 10));
    assert(s[4] == digit_char(n / 10 % 10));
    assert(s[5] == digit_char(n % 10));
    assert forall|i: int| 0 <= i < 6 implies is_digit(#[trigger] s[i]) by {
        assert(i == 0 || i == 1 || i == 2 || i == 3 || i == 4 || i == 5);
    }
    lemma_six_digits(n);
}

/// Two numbers below one million with the same code are the same number.
pub proof fn lemma_code_text_injective(a: int, b: int)
    requires
        0 <= a < CODE_LIMIT,
        0 <= b < CODE_LIMIT,
        code_text(a) == code_text(b),
    ensures
        a == b,
{
    lemma_code_text_reads_back(a);
    lemma_code_text_reads_back(b);
}

} // verus!
