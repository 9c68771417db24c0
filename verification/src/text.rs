//! Text: decimal and hexadecimal digits, trimming, joining and comparing.
//!
//! Everything the other modules say about a string they say about its characters, a `Seq<char>`. The
//! functions here are the few string operations the library is built on, each with the sequence it computes.

use vstd::prelude::*;
use vstd::utf8::encode_utf8;

verus! {

/// `String::push` appends one character.
pub assume_specification[ std::string::String::push ](text: &mut String, c: char)
    ensures
        final(text)@ == old(text)@.push(c),
;

/// Whether two strings are the same. Their bytes decide it, because an encoding says which characters it is of.
pub(crate) fn same(a: &str, b: &str) -> (equal: bool)
    ensures
        equal == (a@ == b@),
{
    let left = a.as_bytes();
    let right = b.as_bytes();
    if left.len() != right.len() {
        return false;
    }
    let mut i: usize = 0;
    while i < left.len()
        invariant
            i <= left@.len(),
            left@.len() == right@.len(),
            left@ == encode_utf8(a@),
            right@ == encode_utf8(b@),
            forall|j: int| 0 <= j < i ==> left@[j] == right@[j],
        decreases left@.len() - i,
    {
        if left[i] != right[i] {
            return false;
        }
        i += 1;
    }
    proof {
        assert(left@ =~= right@);
        vstd::utf8::encode_utf8_decode_utf8(a@);
        vstd::utf8::encode_utf8_decode_utf8(b@);
    }
    true
}

/// Whether a text is of letters, digits and underscores only, without accents.
pub open spec fn is_word(text: Seq<char>) -> bool {
    forall|i: int|
        0 <= i < text.len() ==> ('a' <= #[trigger] text[i] <= 'z' || 'A' <= text[i] <= 'Z' || '0'
            <= text[i] <= '9' || text[i] == '_')
}

/// Whether `part` is somewhere in `text`.
pub open spec fn occurs(part: Seq<char>, text: Seq<char>) -> bool {
    exists|at: int|
        0 <= at <= text.len() - part.len() && #[trigger] text.subrange(at, at + part.len()) == part
}

/// What `{:?}` prints of a string: the string in double quotes, with the escapes `str`'s `Debug` chooses.
pub uninterp spec fn quoted_chars(text: Seq<char>) -> Seq<char>;

/// `format!("{:?}")` of a string: in double quotes, and otherwise as it is where it is of letters, digits and
/// underscores only. What is escaped of any other text, and how, is not stated, only named.
#[verifier::external_body]
pub(crate) fn quoted(text: &str) -> (shown: String)
    ensures
        shown@ == quoted_chars(text@),
        is_word(text@) ==> shown@ == seq!['"'] + text@ + seq!['"'],
{
    format!("{text:?}")
}

/// What `str::to_lowercase` makes of a string, by Unicode's mapping.
pub uninterp spec fn lowercase_chars(text: Seq<char>) -> Seq<char>;

/// `str::to_lowercase`. Unicode's mapping is not stated, only named.
#[verifier::external_body]
pub(crate) fn lowercase(text: &str) -> (lowered: String)
    ensures
        lowered@ == lowercase_chars(text@),
{
    text.to_lowercase()
}

/// The characters of an optional string.
pub open spec fn opt_chars(text: Option<String>) -> Option<Seq<char>> {
    match text {
        Some(inner) => Some(inner@),
        None => None,
    }
}

/// The characters of an optional string slice.
pub open spec fn opt_str_chars(text: Option<&str>) -> Option<Seq<char>> {
    match text {
        Some(inner) => Some(inner@),
        None => None,
    }
}

/// The characters of each string in a list.
pub open spec fn all_chars(texts: Seq<String>) -> Seq<Seq<char>> {
    Seq::new(texts.len(), |i: int| texts[i]@)
}

/// Whether `texts` holds a string with these characters.
pub open spec fn holds(texts: Seq<String>, wanted: Seq<char>) -> bool {
    exists|i: int| 0 <= i < texts.len() && (#[trigger] texts[i])@ == wanted
}

/// Whether `wanted` is one of `texts`.
pub fn contains(texts: &Vec<String>, wanted: &str) -> (found: bool)
    ensures
        found == holds(texts@, wanted@),
{
    let mut i: usize = 0;
    while i < texts.len()
        invariant
            i <= texts.len(),
            forall|j: int| 0 <= j < i ==> (#[trigger] texts@[j])@ != wanted@,
        decreases texts.len() - i,
    {
        if same(texts[i].as_str(), wanted) {
            return true;
        }
        i += 1;
    }
    false
}

/// A copy of a list of strings.
pub fn copied(texts: &Vec<String>) -> (copy: Vec<String>)
    ensures
        copy@ == texts@,
{
    let mut copy: Vec<String> = Vec::new();
    let mut i: usize = 0;
    while i < texts.len()
        invariant
            i <= texts.len(),
            copy@ == texts@.take(i as int),
        decreases texts.len() - i,
    {
        copy.push(texts[i].clone());
        proof {
            assert(texts@.take(i + 1) =~= texts@.take(i as int).push(texts@[i as int]));
        }
        i += 1;
    }
    proof {
        assert(texts@.take(i as int) =~= texts@);
    }
    copy
}

/// A copy of an optional string.
pub fn copied_opt(text: &Option<String>) -> (copy: Option<String>)
    ensures
        copy == *text,
{
    match text {
        Some(inner) => Some(inner.clone()),
        None => None,
    }
}

/// Whether two optional strings are the same.
pub fn same_opt(a: &Option<String>, b: &Option<String>) -> (equal: bool)
    ensures
        equal == (opt_chars(*a) == opt_chars(*b)),
{
    match a {
        Some(left) => match b {
            Some(right) => same(left.as_str(), right.as_str()),
            None => false,
        },
        None => b.is_none(),
    }
}

/// `prefix + text + suffix`, the shape most messages have.
pub fn wrapped(prefix: &str, text: &str, suffix: &str) -> (out: String)
    ensures
        out@ == prefix@ + text@ + suffix@,
{
    let mut out = prefix.to_owned();
    out.append(text);
    out.append(suffix);
    out
}

// ----------------------------------------------------------------------------------------------------
// Digits
// ----------------------------------------------------------------------------------------------------

/// The character of a digit below sixteen, lower case.
pub open spec fn digit_char(digit: int) -> char {
    if digit < 10 {
        (digit + 48) as char
    } else {
        (digit + 87) as char
    }
}

/// A natural number in decimal, without leading zeroes.
pub open spec fn nat_chars(n: nat) -> Seq<char>
    decreases n,
{
    if n < 10 {
        seq![digit_char(n as int)]
    } else {
        nat_chars(n / 10).push(digit_char((n % 10) as int))
    }
}

/// An integer in decimal: its magnitude, after `-` when it is negative.
pub open spec fn int_chars(n: int) -> Seq<char> {
    if n < 0 {
        seq!['-'] + nat_chars((-n) as nat)
    } else {
        nat_chars(n as nat)
    }
}

/// The last `width` decimal digits of `n`, leading zeroes included.
pub open spec fn padded_chars(n: nat, width: nat) -> Seq<char>
    decreases width,
{
    if width == 0 {
        Seq::empty()
    } else {
        padded_chars(n / 10, (width - 1) as nat).push(digit_char((n % 10) as int))
    }
}

/// The digit at one place of the digit table.
pub(crate) fn digit(value: u8) -> (c: char)
    requires
        value < 16,
    ensures
        c == digit_char(value as int),
{
    if value < 10 {
        (value + 48) as char
    } else {
        (value + 87) as char
    }
}

/// The decimal digits of `n`, most significant first.
pub fn nat_text(n: u128) -> (text: String)
    ensures
        text@ == nat_chars(n as nat),
    decreases n,
{
    if n < 10 {
        let mut text = String::new();
        text.push(digit(n as u8));
        proof {
            assert(text@ =~= seq![digit_char(n as int)]);
        }
        text
    } else {
        let mut text = nat_text(n / 10);
        text.push(digit((n % 10) as u8));
        text
    }
}

/// `n` in decimal.
pub fn int_text(n: i128) -> (text: String)
    requires
        n > i128::MIN,
    ensures
        text@ == int_chars(n as int),
{
    if n < 0 {
        let digits = nat_text((-n) as u128);
        let mut text = String::new();
        text.push('-');
        proof {
            assert(text@ =~= seq!['-']);
        }
        text.append(digits.as_str());
        text
    } else {
        nat_text(n as u128)
    }
}

/// The last `width` decimal digits of `n`.
pub fn padded_text(n: u128, width: u32) -> (text: String)
    ensures
        text@ == padded_chars(n as nat, width as nat),
    decreases width,
{
    if width == 0 {
        let text = String::new();
        proof {
            assert(text@ =~= Seq::<char>::empty());
        }
        text
    } else {
        let mut text = padded_text(n / 10, width - 1);
        text.push(digit((n % 10) as u8));
        text
    }
}

/// Two different digits have two different characters.
pub proof fn lemma_digit_injective(a: int, b: int)
    requires
        0 <= a < 16,
        0 <= b < 16,
        digit_char(a) == digit_char(b),
    ensures
        a == b,
{
}

/// Decimal text is never empty and holds only digits.
pub proof fn lemma_nat_chars_digits(n: nat)
    ensures
        nat_chars(n).len() >= 1,
        forall|i: int| 0 <= i < nat_chars(n).len() ==> '0' <= #[trigger] nat_chars(n)[i] <= '9',
    decreases n,
{
    if n >= 10 {
        lemma_nat_chars_digits(n / 10);
    }
}

/// Two natural numbers with the same decimal text are the same number.
pub proof fn lemma_nat_chars_injective(a: nat, b: nat)
    requires
        nat_chars(a) == nat_chars(b),
    ensures
        a == b,
    decreases a,
{
    lemma_nat_chars_digits(a / 10);
    lemma_nat_chars_digits(b / 10);
    let left = nat_chars(a);
    let right = nat_chars(b);
    if a < 10 {
        assert(left.len() == 1);
        assert(b < 10);
        assert(left[0] == digit_char(a as int));
        assert(right[0] == digit_char(b as int));
        lemma_digit_injective(a as int, b as int);
    } else {
        assert(left.len() >= 2);
        assert(b >= 10);
        assert(left.last() == digit_char((a % 10) as int));
        assert(right.last() == digit_char((b % 10) as int));
        lemma_digit_injective((a % 10) as int, (b % 10) as int);
        assert(left.drop_last() =~= nat_chars(a / 10));
        assert(right.drop_last() =~= nat_chars(b / 10));
        lemma_nat_chars_injective(a / 10, b / 10);
    }
}

/// Two integers with the same decimal text are the same integer.
pub proof fn lemma_int_chars_injective(a: int, b: int)
    requires
        int_chars(a) == int_chars(b),
    ensures
        a == b,
{
    if a < 0 && b < 0 {
        assert(int_chars(a).drop_first() =~= nat_chars((-a) as nat));
        assert(int_chars(b).drop_first() =~= nat_chars((-b) as nat));
        lemma_nat_chars_injective((-a) as nat, (-b) as nat);
    } else if a >= 0 && b >= 0 {
        lemma_nat_chars_injective(a as nat, b as nat);
    } else if a < 0 {
        lemma_nat_chars_digits(b as nat);
        assert(int_chars(a)[0] == '-');
    } else {
        lemma_nat_chars_digits(a as nat);
        assert(int_chars(b)[0] == '-');
    }
}

// ----------------------------------------------------------------------------------------------------
// Identifiers
// ----------------------------------------------------------------------------------------------------

/// Where the hexadecimal digit at `place` of a hyphenated identifier stands among its 32 digits.
pub open spec fn uuid_digit_place(place: int) -> int {
    if place < 8 {
        place
    } else if place < 13 {
        place - 1
    } else if place < 18 {
        place - 2
    } else if place < 23 {
        place - 3
    } else {
        place - 4
    }
}

/// `base` to the power of `exponent`.
pub open spec fn power(base: nat, exponent: nat) -> nat
    decreases exponent,
{
    if exponent == 0 {
        1
    } else {
        base * power(base, (exponent - 1) as nat)
    }
}

/// One of the 32 hexadecimal digits of a 128-bit number, most significant first.
pub open spec fn hex_digit_of(id: nat, place: int) -> int {
    ((id / power(16, (31 - place) as nat)) % 16) as int
}

/// An identifier as it is written: 32 lower-case hexadecimal digits, in groups of 8, 4, 4, 4 and 12 with a
/// hyphen between groups.
pub open spec fn uuid_chars(id: u128) -> Seq<char> {
    Seq::new(
        36,
        |place: int|
            if place == 8 || place == 13 || place == 18 || place == 23 {
                '-'
            } else {
                digit_char(hex_digit_of(id as nat, uuid_digit_place(place)))
            },
    )
}

/// `uuid::Uuid`'s hyphenated text, by its `Display`, of the identifier with these 128 bits.
#[verifier::external_body]
pub(crate) fn uuid_text(id: u128) -> (text: String)
    ensures
        text@ == uuid_chars(id),
{
    uuid::Uuid::from_u128(id).to_string()
}

/// The identifier `uuid::Uuid::parse_str` reads a text as, in any of the spellings it takes.
pub uninterp spec fn uuid_reading(text: Seq<char>) -> Option<u128>;

/// `uuid::Uuid::parse_str`. Which spellings it takes is named, not stated, but for one: an identifier's own
/// hyphenated text is read as that identifier.
#[verifier::external_body]
pub(crate) fn read_uuid(text: &str) -> (id: Option<u128>)
    ensures
        id == uuid_reading(text@),
        forall|own: u128| text@ == #[trigger] uuid_chars(own) ==> id == Some(own),
{
    uuid::Uuid::parse_str(text).ok().map(|id| id.as_u128())
}

/// A number below `16^width` is known from its last `width` hexadecimal digits.
proof fn lemma_hex_digits_decide(a: nat, b: nat, width: nat)
    requires
        a < power(16, width),
        b < power(16, width),
        forall|k: nat| k < width ==> #[trigger] hex_low(a, k) == hex_low(b, k),
    ensures
        a == b,
    decreases width,
{
    if width > 0 {
        assert(power(16, 0) == 1);
        assert(hex_low(a, 0) == hex_low(b, 0));
        assert(a % 16 == b % 16);
        assert(power(16, width) == 16 * power(16, (width - 1) as nat));
        assert(a / 16 < power(16, (width - 1) as nat)) by (nonlinear_arith)
            requires
                a < 16 * power(16, (width - 1) as nat),
        ;
        assert(b / 16 < power(16, (width - 1) as nat)) by (nonlinear_arith)
            requires
                b < 16 * power(16, (width - 1) as nat),
        ;
        assert forall|k: nat| k < width - 1 implies #[trigger] hex_low(a / 16, k) == hex_low(
            b / 16,
            k,
        ) by {
            lemma_hex_low_shift(a, k);
            lemma_hex_low_shift(b, k);
            assert(hex_low(a, k + 1) == hex_low(b, k + 1));
        }
        lemma_hex_digits_decide(a / 16, b / 16, (width - 1) as nat);
        assert(a == 16 * (a / 16) + a % 16);
        assert(b == 16 * (b / 16) + b % 16);
    }
}

/// The hexadecimal digit `k` places from the right.
spec fn hex_low(n: nat, k: nat) -> nat {
    (n / power(16, k)) % 16
}

proof fn lemma_hex_low_shift(n: nat, k: nat)
    ensures
        hex_low(n / 16, k) == hex_low(n, k + 1),
{
    lemma_power_positive(k);
    let p = power(16, k);
    assert(power(16, k + 1) == 16 * p);
    vstd::arithmetic::div_mod::lemma_div_denominator(n as int, 16, p as int);
}

proof fn lemma_power_positive(k: nat)
    ensures
        power(16, k) > 0,
    decreases k,
{
    if k > 0 {
        lemma_power_positive((k - 1) as nat);
        assert(16 * power(16, (k - 1) as nat) > 0) by (nonlinear_arith)
            requires
                power(16, (k - 1) as nat) > 0,
        ;
    }
}

proof fn lemma_power_32()
    ensures
        power(16, 32) == u128::MAX as nat + 1,
{
    reveal_with_fuel(power, 33);
    assert(power(16, 8) == 0x1_0000_0000);
    assert(power(16, 16) == 0x1_0000_0000_0000_0000);
    assert(power(16, 24) == 0x1_0000_0000_0000_0000_0000_0000);
}

/// Two identifiers with the same text are the same identifier.
pub proof fn lemma_uuid_chars_injective(a: u128, b: u128)
    requires
        uuid_chars(a) == uuid_chars(b),
    ensures
        a == b,
{
    lemma_power_32();
    assert forall|k: nat| k < 32 implies #[trigger] hex_low(a as nat, k) == hex_low(
        b as nat,
        k,
    ) by {
        let digit = 31 - k;
        let place: int = if digit < 8 {
            digit
        } else if digit < 12 {
            digit + 1
        } else if digit < 16 {
            digit + 2
        } else if digit < 20 {
            digit + 3
        } else {
            digit + 4
        };
        assert(uuid_digit_place(place) == digit);
        assert(uuid_chars(a)[place] == uuid_chars(b)[place]);
        assert(uuid_chars(a)[place] == digit_char(hex_digit_of(a as nat, digit)));
        assert(uuid_chars(b)[place] == digit_char(hex_digit_of(b as nat, digit)));
        lemma_digit_injective(hex_digit_of(a as nat, digit), hex_digit_of(b as nat, digit));
    }
    lemma_hex_digits_decide(a as nat, b as nat, 32);
}

// ----------------------------------------------------------------------------------------------------
// White space
// ----------------------------------------------------------------------------------------------------

/// The characters with Unicode's `White_Space` property.
pub open spec fn is_white(c: char) -> bool {
    ||| '\u{9}' <= c <= '\u{d}'
    ||| c == ' '
    ||| c == '\u{85}'
    ||| c == '\u{a0}'
    ||| c == '\u{1680}'
    ||| '\u{2000}' <= c <= '\u{200a}'
    ||| c == '\u{2028}'
    ||| c == '\u{2029}'
    ||| c == '\u{202f}'
    ||| c == '\u{205f}'
    ||| c == '\u{3000}'
}

/// `text` without its leading white space.
pub open spec fn trimmed_start(text: Seq<char>) -> Seq<char>
    decreases text.len(),
{
    if text.len() > 0 && is_white(text[0]) {
        trimmed_start(text.drop_first())
    } else {
        text
    }
}

/// `text` without its trailing white space.
pub open spec fn trimmed_end(text: Seq<char>) -> Seq<char>
    decreases text.len(),
{
    if text.len() > 0 && is_white(text.last()) {
        trimmed_end(text.drop_last())
    } else {
        text
    }
}

/// `text` without the white space around it.
pub open spec fn trimmed(text: Seq<char>) -> Seq<char> {
    trimmed_end(trimmed_start(text))
}

fn white(c: char) -> (yes: bool)
    ensures
        yes == is_white(c),
{
    ('\u{9}' <= c && c <= '\u{d}') || c == ' ' || c == '\u{85}' || c == '\u{a0}' || c == '\u{1680}'
        || ('\u{2000}' <= c && c <= '\u{200a}') || c == '\u{2028}' || c == '\u{2029}' || c
        == '\u{202f}' || c == '\u{205f}' || c == '\u{3000}'
}

/// `text` without the white space around it.
pub fn trim(text: &str) -> (out: &str)
    ensures
        out@ == trimmed(text@),
{
    let len: usize = text.unicode_len();
    let mut start: usize = 0;
    proof {
        assert(text@.skip(0) =~= text@);
    }
    while start < len
        invariant_except_break
            start <= len,
            len == text@.len(),
            trimmed_start(text@.skip(start as int)) == trimmed_start(text@),
        ensures
            start <= len,
            len == text@.len(),
            trimmed_start(text@) == text@.skip(start as int),
        decreases len - start,
    {
        if !white(text.get_char(start)) {
            break;
        }
        proof {
            let rest = text@.skip(start as int);
            assert(rest[0] == text@[start as int]);
            assert(rest.drop_first() =~= text@.skip(start + 1));
        }
        start += 1;
    }
    let ghost rest = text@.skip(start as int);
    let mut end: usize = len;
    proof {
        assert(text@.subrange(start as int, end as int) =~= rest);
    }
    while end > start
        invariant_except_break
            start <= end <= len,
            len == text@.len(),
            trimmed_end(text@.subrange(start as int, end as int)) == trimmed_end(rest),
        ensures
            start <= end <= len,
            trimmed_end(rest) == text@.subrange(start as int, end as int),
        decreases end,
    {
        if !white(text.get_char(end - 1)) {
            break;
        }
        proof {
            let part = text@.subrange(start as int, end as int);
            assert(part.last() == text@[end - 1]);
            assert(part.drop_last() =~= text@.subrange(start as int, end - 1));
        }
        end -= 1;
    }
    text.substring_char(start, end)
}

// ----------------------------------------------------------------------------------------------------
// Cutting and case
// ----------------------------------------------------------------------------------------------------

/// The first place `c` stands at in `text`, or the length of `text` where it stands nowhere.
pub open spec fn first_place(text: Seq<char>, c: char) -> int
    decreases text.len(),
{
    if text.len() == 0 || text[0] == c {
        0
    } else {
        1 + first_place(text.drop_first(), c)
    }
}

/// What the first place of a character is.
pub proof fn lemma_first_place(text: Seq<char>, c: char)
    ensures
        0 <= first_place(text, c) <= text.len(),
        first_place(text, c) < text.len() ==> text[first_place(text, c)] == c,
        forall|i: int| 0 <= i < first_place(text, c) ==> #[trigger] text[i] != c,
    decreases text.len(),
{
    if text.len() > 0 && text[0] != c {
        let rest = text.drop_first();
        lemma_first_place(rest, c);
        assert forall|i: int| 0 <= i < first_place(text, c) implies #[trigger] text[i] != c by {
            if i > 0 {
                assert(rest[i - 1] == text[i]);
            }
        }
    }
}

/// The first place `c` stands at in `text`, or its length where it stands nowhere.
pub fn place_of(text: &str, c: char) -> (place: usize)
    ensures
        place == first_place(text@, c),
        place <= text@.len(),
{
    let len: usize = text.unicode_len();
    let mut i: usize = 0;
    proof {
        assert(text@.skip(0) =~= text@);
    }
    while i < len
        invariant
            i <= len,
            len == text@.len(),
            first_place(text@, c) == i + first_place(text@.skip(i as int), c),
        decreases len - i,
    {
        proof {
            let rest = text@.skip(i as int);
            assert(rest[0] == text@[i as int]);
            assert(rest.drop_first() =~= text@.skip(i + 1));
        }
        if text.get_char(i) == c {
            return i;
        }
        i += 1;
    }
    len
}

/// The part of `text` before the first `c`: all of it where `c` stands nowhere.
pub open spec fn before_first(text: Seq<char>, c: char) -> Seq<char> {
    text.take(first_place(text, c))
}

/// The part of `text` after the first `c`. Only meaningful where `c` stands in `text`.
pub open spec fn after_first(text: Seq<char>, c: char) -> Seq<char> {
    text.skip(first_place(text, c) + 1)
}

/// The parts of `text` before and after the first `c`, where there is one.
pub fn cut(text: &str, c: char) -> (parts: Option<(&str, &str)>)
    ensures
        match parts {
            Some((head, tail)) => {
                &&& first_place(text@, c) < text@.len()
                &&& head@ == before_first(text@, c)
                &&& tail@ == after_first(text@, c)
            },
            None => first_place(text@, c) == text@.len() && before_first(text@, c) == text@,
        },
{
    let len: usize = text.unicode_len();
    let place: usize = place_of(text, c);
    if place < len {
        let head = text.substring_char(0, place);
        let tail = text.substring_char(place + 1, len);
        proof {
            assert(head@ =~= before_first(text@, c));
            assert(tail@ =~= after_first(text@, c));
        }
        Some((head, tail))
    } else {
        proof {
            assert(text@.take(place as int) =~= text@);
        }
        None
    }
}

/// A character with an upper-case ASCII letter made lower-case.
pub open spec fn ascii_lower(c: char) -> char {
    if 'A' <= c <= 'Z' {
        (c as u32 + 32) as char
    } else {
        c
    }
}

/// `text` with its ASCII letters made lower-case.
pub open spec fn ascii_lowered(text: Seq<char>) -> Seq<char> {
    Seq::new(text.len(), |i: int| ascii_lower(text[i]))
}

/// `text` with its ASCII letters made lower-case.
pub fn ascii_lowercase(text: &str) -> (out: String)
    ensures
        out@ == ascii_lowered(text@),
{
    let mut out = String::new();
    for c in chars: text.chars()
        invariant
            chars.seq() == text@,
            out@ =~= ascii_lowered(text@).take(chars.index()),
    {
        let lower = if 'A' <= c && c <= 'Z' {
            ((c as u8) + 32) as char
        } else {
            c
        };
        proof {
            assert(lower == ascii_lowered(text@)[chars.index()]);
        }
        out.push(lower);
    }
    proof {
        assert(ascii_lowered(text@).take(text@.len() as int) =~= ascii_lowered(text@));
    }
    out
}

/// Whether every character is a decimal digit.
pub open spec fn all_digits(text: Seq<char>) -> bool {
    forall|i: int| 0 <= i < text.len() ==> '0' <= #[trigger] text[i] <= '9'
}

/// The number decimal digits denote.
pub open spec fn digits_value(text: Seq<char>) -> nat
    decreases text.len(),
{
    if text.len() == 0 {
        0
    } else {
        (10 * digits_value(text.drop_last()) + (text.last() as nat - '0' as nat)) as nat
    }
}

/// The integer `text` denotes: an optional sign, then decimal digits and nothing else, within 64 bits.
pub open spec fn int_reading(text: Seq<char>) -> Option<i64> {
    let signed = text.len() > 0 && (text[0] == '-' || text[0] == '+');
    let digits = if signed {
        text.drop_first()
    } else {
        text
    };
    let value = if signed && text[0] == '-' {
        -(digits_value(digits) as int)
    } else {
        digits_value(digits) as int
    };
    if digits.len() > 0 && all_digits(digits) && i64::MIN <= value <= i64::MAX {
        Some(value as i64)
    } else {
        None
    }
}

proof fn lemma_digits_grow(text: Seq<char>, i: int)
    requires
        0 <= i <= text.len(),
        all_digits(text),
    ensures
        digits_value(text.take(i)) <= digits_value(text),
    decreases text.len(),
{
    if i < text.len() {
        let front = text.drop_last();
        assert forall|j: int| 0 <= j < front.len() implies '0' <= #[trigger] front[j] <= '9' by {
            assert(front[j] == text[j]);
        }
        lemma_digits_grow(front, i);
        assert(front.take(i) =~= text.take(i));
        assert(text.last() == text[text.len() - 1]);
    } else {
        assert(text.take(i) =~= text);
    }
}

/// The integer `text` denotes, if it denotes one.
pub fn read_int(text: &str) -> (value: Option<i64>)
    ensures
        value == int_reading(text@),
{
    let len: usize = text.unicode_len();
    if len == 0 {
        return None;
    }
    let first = text.get_char(0);
    let signed = first == '-' || first == '+';
    let start: usize = if signed {
        1
    } else {
        0
    };
    if start == len {
        return None;
    }
    let ghost digits = text@.skip(start as int);
    proof {
        if signed {
            assert(digits =~= text@.drop_first());
        } else {
            assert(digits =~= text@);
        }
        assert(digits.take(0) =~= Seq::<char>::empty());
    }
    let mut total: i128 = 0;
    let mut i: usize = start;
    while i < len
        invariant
            start <= i <= len,
            len == text@.len(),
            digits == text@.skip(start as int),
            signed == (text@[0] == '-' || text@[0] == '+'),
            start == (if signed {
                1int
            } else {
                0int
            }),
            digits == (if signed {
                text@.drop_first()
            } else {
                text@
            }),
            forall|j: int| 0 <= j < i - start ==> '0' <= #[trigger] digits[j] <= '9',
            total == digits_value(digits.take(i - start)),
            0 <= total <= 9_223_372_036_854_775_808,
        decreases len - i,
    {
        let c = text.get_char(i);
        proof {
            assert(digits[i - start] == c);
        }
        if !('0' <= c && c <= '9') {
            proof {
                assert(!all_digits(digits));
            }
            return None;
        }
        let value: i128 = (c as u8 - 48) as i128;
        proof {
            assert(digits.take(i - start + 1).drop_last() =~= digits.take(i - start));
            assert(digits.take(i - start + 1).last() == c);
        }
        total = total * 10 + value;
        if total > 9_223_372_036_854_775_808 {
            proof {
                if all_digits(digits) {
                    lemma_digits_grow(digits, i - start + 1);
                }
            }
            return None;
        }
        i += 1;
    }
    proof {
        assert(digits.take(i - start) =~= digits);
        assert(all_digits(digits));
    }
    let value: i128 = if first == '-' {
        -total
    } else {
        total
    };
    if value <= i64::MAX as i128 {
        Some(value as i64)
    } else {
        None
    }
}

// ----------------------------------------------------------------------------------------------------
// Joining
// ----------------------------------------------------------------------------------------------------

/// The pieces one after another, with `separator` between neighbours.
pub open spec fn joined(pieces: Seq<Seq<char>>, separator: Seq<char>) -> Seq<char>
    decreases pieces.len(),
{
    if pieces.len() == 0 {
        Seq::empty()
    } else if pieces.len() == 1 {
        pieces[0]
    } else {
        joined(pieces.drop_last(), separator) + separator + pieces.last()
    }
}

/// The strings one after another, with `separator` between neighbours.
pub fn join(pieces: &Vec<String>, separator: &str) -> (out: String)
    ensures
        out@ == joined(all_chars(pieces@), separator@),
{
    let mut out = String::new();
    let mut i: usize = 0;
    proof {
        assert(out@ =~= Seq::<char>::empty());
        assert(all_chars(pieces@).take(0) =~= Seq::<Seq<char>>::empty());
    }
    while i < pieces.len()
        invariant
            i <= pieces.len(),
            out@ == joined(all_chars(pieces@).take(i as int), separator@),
        decreases pieces.len() - i,
    {
        let ghost before = all_chars(pieces@).take(i as int);
        let ghost after = all_chars(pieces@).take(i + 1);
        proof {
            assert(after.drop_last() =~= before);
            assert(after.last() == pieces@[i as int]@);
        }
        if i > 0 {
            out.append(separator);
        }
        out.append(pieces[i].as_str());
        proof {
            if i == 0 {
                assert(out@ =~= after[0]);
            }
        }
        i += 1;
    }
    proof {
        assert(all_chars(pieces@).take(i as int) =~= all_chars(pieces@));
    }
    out
}

// ----------------------------------------------------------------------------------------------------
// Order
// ----------------------------------------------------------------------------------------------------

/// Dictionary order by code point, which is the order of the strings' UTF-8 bytes too.
pub open spec fn precedes(a: Seq<char>, b: Seq<char>) -> bool
    decreases a.len(),
{
    if b.len() == 0 {
        false
    } else if a.len() == 0 {
        true
    } else if a[0] != b[0] {
        a[0] < b[0]
    } else {
        precedes(a.drop_first(), b.drop_first())
    }
}

/// Whether `a` comes before `b` in dictionary order.
pub fn before(a: &str, b: &str) -> (yes: bool)
    ensures
        yes == precedes(a@, b@),
{
    let mut i: usize = 0;
    let left: usize = a.unicode_len();
    let right: usize = b.unicode_len();
    proof {
        assert(a@.skip(0) =~= a@);
        assert(b@.skip(0) =~= b@);
    }
    while i < left && i < right
        invariant
            i <= left,
            i <= right,
            left == a@.len(),
            right == b@.len(),
            precedes(a@, b@) == precedes(a@.skip(i as int), b@.skip(i as int)),
        decreases left - i,
    {
        let x = a.get_char(i);
        let y = b.get_char(i);
        proof {
            let s = a@.skip(i as int);
            let t = b@.skip(i as int);
            assert(s[0] == x && t[0] == y);
            assert(s.drop_first() =~= a@.skip(i + 1));
            assert(t.drop_first() =~= b@.skip(i + 1));
        }
        if x != y {
            return x < y;
        }
        i += 1;
    }
    i < right
}

/// Dictionary order never puts a string before itself.
pub proof fn lemma_precedes_irreflexive(a: Seq<char>)
    ensures
        !precedes(a, a),
    decreases a.len(),
{
    if a.len() > 0 {
        lemma_precedes_irreflexive(a.drop_first());
    }
}

/// Dictionary order is transitive.
pub proof fn lemma_precedes_transitive(a: Seq<char>, b: Seq<char>, c: Seq<char>)
    requires
        precedes(a, b),
        precedes(b, c),
    ensures
        precedes(a, c),
    decreases a.len(),
{
    if a.len() > 0 && b.len() > 0 && c.len() > 0 && a[0] == b[0] && b[0] == c[0] {
        lemma_precedes_transitive(a.drop_first(), b.drop_first(), c.drop_first());
    }
}

/// Of two different strings, one comes before the other.
pub proof fn lemma_precedes_total(a: Seq<char>, b: Seq<char>)
    requires
        a != b,
    ensures
        precedes(a, b) || precedes(b, a),
    decreases a.len(),
{
    if a.len() > 0 && b.len() > 0 && a[0] == b[0] {
        if a.drop_first() == b.drop_first() {
            assert(a =~= seq![a[0]] + a.drop_first());
            assert(b =~= seq![b[0]] + b.drop_first());
        }
        lemma_precedes_total(a.drop_first(), b.drop_first());
    } else if a.len() == 0 && b.len() == 0 {
        assert(a =~= b);
    }
}

/// Trimming takes white space off both ends and nothing else: what is left is a stretch of the text that neither starts
/// nor ends with white space, and all that was cut off is white space.
pub proof fn trimming_takes_only_white_space(text: Seq<char>) -> (cut: (int, int))
    ensures
        0 <= cut.0 <= cut.1 <= text.len(),
        trimmed(text) == text.subrange(cut.0, cut.1),
        forall|i: int| 0 <= i < cut.0 ==> is_white(#[trigger] text[i]),
        forall|i: int| cut.1 <= i < text.len() ==> is_white(#[trigger] text[i]),
        trimmed(text).len() > 0 ==> !is_white(trimmed(text)[0]) && !is_white(trimmed(text).last()),
{
    let from = lemma_trimmed_start(text);
    let rest = trimmed_start(text);
    let to = lemma_trimmed_end(rest);
    assert(trimmed(text) =~= text.subrange(from, from + to));
    assert forall|i: int| from + to <= i < text.len() implies is_white(#[trigger] text[i]) by {
        assert(rest[i - from] == text[i]);
    }
    if trimmed(text).len() > 0 {
        assert(trimmed(text)[0] == rest[0]);
    }
    (from, from + to)
}

proof fn lemma_trimmed_start(text: Seq<char>) -> (from: int)
    ensures
        0 <= from <= text.len(),
        trimmed_start(text) == text.skip(from),
        forall|i: int| 0 <= i < from ==> is_white(#[trigger] text[i]),
        trimmed_start(text).len() > 0 ==> !is_white(trimmed_start(text)[0]),
    decreases text.len(),
{
    if text.len() > 0 && is_white(text[0]) {
        let rest = text.drop_first();
        let from = lemma_trimmed_start(rest);
        assert(rest.skip(from) =~= text.skip(from + 1));
        assert forall|i: int| 0 <= i < from + 1 implies is_white(#[trigger] text[i]) by {
            if i > 0 {
                assert(rest[i - 1] == text[i]);
            }
        }
        from + 1
    } else {
        assert(text.skip(0) =~= text);
        0
    }
}

proof fn lemma_trimmed_end(text: Seq<char>) -> (to: int)
    ensures
        0 <= to <= text.len(),
        trimmed_end(text) == text.take(to),
        forall|i: int| to <= i < text.len() ==> is_white(#[trigger] text[i]),
        trimmed_end(text).len() > 0 ==> !is_white(trimmed_end(text).last()),
    decreases text.len(),
{
    if text.len() > 0 && is_white(text.last()) {
        let front = text.drop_last();
        let to = lemma_trimmed_end(front);
        assert(front.take(to) =~= text.take(to));
        assert forall|i: int| to <= i < text.len() implies is_white(#[trigger] text[i]) by {
            if i < front.len() {
                assert(front[i] == text[i]);
            }
        }
        to
    } else {
        assert(text.take(text.len() as int) =~= text);
        text.len() as int
    }
}

/// White space is what separates words: a space, a tab, an end of line. No letter, digit or sign is.
pub proof fn white_space_is_no_word(c: char)
    ensures
        is_white(' ') && is_white('\t') && is_white('\n') && is_white('\r'),
        '!' <= c <= '~' ==> !is_white(c),
{
}

/// A small letter is a capital's own, thirty-two further; nothing else changes, and what is small stays so.
pub proof fn lowering_changes_capitals_only(c: char, text: Seq<char>)
    ensures
        'A' <= c <= 'Z' ==> ascii_lower(c) as int == c as int + 32 && 'a' <= ascii_lower(c) <= 'z',
        !('A' <= c <= 'Z') ==> ascii_lower(c) == c,
        ascii_lowered(text).len() == text.len(),
        ascii_lowered(ascii_lowered(text)) == ascii_lowered(text),
{
    assert(ascii_lowered(ascii_lowered(text)) =~= ascii_lowered(text));
}

/// A text that holds a separator is what stands before the first one, the separator and what stands behind it.
pub proof fn a_text_is_cut_at_the_first_separator(text: Seq<char>, c: char)
    ensures
        text.contains(c) ==> text == before_first(text, c) + seq![c] + after_first(text, c),
        !text.contains(c) ==> before_first(text, c) == text,
        !before_first(text, c).contains(c),
{
    lemma_first_place(text, c);
    let place = first_place(text, c);
    if text.contains(c) {
        let i = choose|i: int| 0 <= i < text.len() && text[i] == c;
        assert(place < text.len());
        assert(text =~= before_first(text, c) + seq![c] + after_first(text, c));
    } else {
        if place < text.len() {
            assert(text.contains(text[place]));
        }
        assert(before_first(text, c) =~= text);
    }
    if before_first(text, c).contains(c) {
        let i = choose|i: int| 0 <= i < place && before_first(text, c)[i] == c;
        assert(text[i] == c);
    }
}

/// A padded number is as wide as it was asked to be, and all digits.
pub proof fn lemma_padded_length(n: nat, width: nat)
    ensures
        padded_chars(n, width).len() == width,
        forall|i: int| 0 <= i < width ==> '0' <= #[trigger] padded_chars(n, width)[i] <= '9',
    decreases width,
{
    if width > 0 {
        lemma_padded_length(n / 10, (width - 1) as nat);
        let front = padded_chars(n / 10, (width - 1) as nat);
        assert forall|i: int| 0 <= i < width implies '0' <= #[trigger] padded_chars(n, width)[i] <= '9' by {
            if i < front.len() {
                assert(padded_chars(n, width)[i] == front[i]);
            }
        }
    }
}

proof fn lemma_digits_read_back(n: nat)
    ensures
        digits_value(nat_chars(n)) == n,
    decreases n,
{
    reveal_with_fuel(digits_value, 2);
    if n >= 10 {
        lemma_digits_read_back(n / 10);
        assert(nat_chars(n).drop_last() =~= nat_chars(n / 10));
        assert(nat_chars(n).last() == digit_char((n % 10) as int));
    } else {
        assert(nat_chars(n).drop_last() =~= Seq::<char>::empty());
    }
}

/// A number that is written is read back as that number.
pub proof fn a_number_reads_back(n: i64)
    ensures
        int_reading(int_chars(n as int)) == Some(n),
{
    let magnitude = if n < 0 {
        (-(n as int)) as nat
    } else {
        n as nat
    };
    lemma_digits_read_back(magnitude);
    lemma_nat_chars_digits(magnitude);
    let digits = nat_chars(magnitude);
    if n < 0 {
        assert((seq!['-'] + digits).drop_first() =~= digits);
    } else {
        assert('0' <= digits[0] <= '9');
    }
}

/// Pieces are joined with the separator between each two of them and nowhere else.
pub proof fn pieces_are_joined_by_the_separator(pieces: Seq<Seq<char>>, more: Seq<char>, separator: Seq<char>)
    ensures
        joined(Seq::empty(), separator) == Seq::<char>::empty(),
        joined(seq![more], separator) == more,
        pieces.len() > 0 ==> joined(pieces.push(more), separator) == joined(pieces, separator) + separator + more,
{
    assert(pieces.push(more).drop_last() =~= pieces);
}

/// A digit is written as itself, ten to fifteen as the first six small letters.
pub proof fn a_digit_is_written_as_itself(digit: int)
    requires
        0 <= digit < 16,
    ensures
        digit < 10 ==> digit_char(digit) as int == '0' as int + digit,
        digit >= 10 ==> digit_char(digit) as int == 'a' as int + digit - 10,
{
}

/// Texts are ordered by their first different character, the smaller one first, and a text comes before what it begins.
pub proof fn texts_are_ordered_by_their_first_difference(start: Seq<char>, a: char, b: char, one: Seq<char>, other: Seq<char>)
    requires
        a < b,
    ensures
        precedes(start, start.push(a)),
        precedes(start + seq![a] + one, start + seq![b] + other),
        !precedes(start + seq![b] + other, start + seq![a] + one),
    decreases start.len(),
{
    let x = start + seq![a] + one;
    let y = start + seq![b] + other;
    if start.len() > 0 {
        let rest = start.drop_first();
        texts_are_ordered_by_their_first_difference(rest, a, b, one, other);
        assert(x.drop_first() =~= rest + seq![a] + one);
        assert(y.drop_first() =~= rest + seq![b] + other);
        assert(start.push(a).drop_first() =~= rest.push(a));
    }
}

} // verus!
