//! Reading numbers and names out of text.
use vstd::prelude::*;
use vstd::string::*;

verus! {

/// The value of a digit character: `0` to `9`, then the letters of either
/// case from ten on.
pub open spec fn digit_value(c: char) -> Option<int> {
    if '0' <= c <= '9' {
        Some(c as int - '0' as int)
    } else if 'a' <= c <= 'z' {
        Some(c as int - 'a' as int + 10)
    } else if 'A' <= c <= 'Z' {
        Some(c as int - 'A' as int + 10)
    } else {
        None
    }
}

/// The number that a digit string spells out in the given radix, most
/// significant digit first; `None` if a character is no digit of that radix.
/// The empty string spells out zero.
pub open spec fn digits_value(s: Seq<char>, radix: int) -> Option<int>
    decreases s.len(),
{
    if s.len() == 0 {
        Some(0)
    } else {
        match (digits_value(s.drop_last(), radix), digit_value(s.last())) {
            (Some(upper), Some(d)) => if d < radix {
                Some(upper * radix + d)
            } else {
                None
            },
            _ => None,
        }
    }
}

/// The unsigned number that a text spells out: an optional `+`, then at least
/// one digit of the radix, with a value of at most `max`.
pub open spec fn parse_unsigned(s: Seq<char>, radix: int, max: int) -> Option<int> {
    let digits = if s.len() > 0 && s[0] == '+' {
        s.skip(1)
    } else {
        s
    };
    if digits.len() == 0 {
        None
    } else {
        match digits_value(digits, radix) {
            Some(v) => if v <= max {
                Some(v)
            } else {
                None
            },
            None => None,
        }
    }
}

/// Whether a character has the Unicode property `White_Space`.
pub open spec fn is_white_space(c: char) -> bool {
    ||| '\u{9}' <= c <= '\u{d}'
    ||| c == ' '
    ||| c == '\u{85}'
    ||| c == '\u{a0}'
    ||| c == '\u{1680}'
    ||| '\u{2000}' <= c <= '\u{200a}'
    ||| c == '\u{2028}'
    ||| c == '\u{2029}'
    ||| c == '\u{202f}'
    ||| c == '\u{205f}'
    ||| c == '\u{3000}'
}

/// The text without its leading white space.
pub open spec fn trimmed_start(s: Seq<char>) -> Seq<char>
    decreases s.len(),
{
    if s.len() > 0 && is_white_space(s[0]) {
        trimmed_start(s.skip(1))
    } else {
        s
    }
}

/// The text without its trailing white space.
pub open spec fn trimmed_end(s: Seq<char>) -> Seq<char>
    decreases s.len(),
{
    if s.len() > 0 && is_white_space(s.last()) {
        trimmed_end(s.drop_last())
    } else {
        s
    }
}

/// The text without its leading and trailing white space.
pub open spec fn trimmed(s: Seq<char>) -> Seq<char> {
    trimmed_end(trimmed_start(s))
}

/// Whether the text starts with `0x`.
pub open spec fn has_hex_prefix(s: Seq<char>) -> bool {
    s.len() >= 2 && s[0] == '0' && s[1] == 'x'
}

/// The error of the integer parsers of std. Nothing is known of what it holds.
#[verifier::external_type_specification]
#[verifier::external_body]
pub struct ExParseIntError(std::num::ParseIntError);

/// What [`std::primitive::char::is_numeric`] answers for a character: whether it is
/// in one of the Unicode categories of numbers.
pub uninterp spec fn char_is_numeric(c: char) -> bool;

/// Calls `char::is_numeric`. The answer depends on the character alone and is
/// known here only by its name.
#[verifier::external_body]
pub(crate) fn is_numeric(c: char) -> (b: bool)
    ensures
        b == char_is_numeric(c),
{
    c.is_numeric()
}

/// Calls `str::trim`, which hands back the part of the text between its
/// leading and its trailing white space, that is, the characters with the
/// Unicode property `White_Space`.
#[verifier::external_body]
pub(crate) fn trim(s: &str) -> (t: &str)
    ensures
        t@ == trimmed(s@),
{
    s.trim()
}

/// Calls `Num::from_str_radix` of `num_traits` for `u8`, which is
/// `u8::from_str_radix`: it accepts an optional `+` and then digits of the
/// radix, and fails on anything else, on an empty digit string and on a value
/// that does not fit.
#[verifier::external_body]
fn u8_from_str_radix(s: &str, radix: u32) -> (r: Option<u8>)
    requires
        2 <= radix <= 36,
    ensures
        r matches Some(v) ==> parse_unsigned(s@, radix as int, u8::MAX as int) == Some(v as int),
        r is None ==> parse_unsigned(s@, radix as int, u8::MAX as int) is None,
{
    <u8 as num_traits::Num>::from_str_radix(s, radix).ok()
}

/// Calls `Num::from_str_radix` of `num_traits` for `u32`, which is
/// `u32::from_str_radix`: it accepts an optional `+` and then digits of the
/// radix, and fails on anything else, on an empty digit string and on a value
/// that does not fit.
#[verifier::external_body]
fn u32_from_str_radix(s: &str, radix: u32) -> (r: Option<u32>)
    requires
        2 <= radix <= 36,
    ensures
        r matches Some(v) ==> parse_unsigned(s@, radix as int, u32::MAX as int) == Some(v as int),
        r is None ==> parse_unsigned(s@, radix as int, u32::MAX as int) is None,
{
    <u32 as num_traits::Num>::from_str_radix(s, radix).ok()
}

/// Calls `str::parse` for `u8`, which reads a decimal number as
/// `u8::from_str_radix` does with radix ten.
#[verifier::external_body]
fn u8_from_decimal(s: &str) -> (r: Option<u8>)
    ensures
        r matches Some(v) ==> parse_unsigned(s@, 10, u8::MAX as int) == Some(v as int),
        r is None ==> parse_unsigned(s@, 10, u8::MAX as int) is None,
{
    s.parse::<u8>().ok()
}

/// Calls `str::parse` for `u32`, which reads a decimal number as
/// `u32::from_str_radix` does with radix ten.
#[verifier::external_body]
fn u32_from_decimal(s: &str) -> (r: Option<u32>)
    ensures
        r matches Some(v) ==> parse_unsigned(s@, 10, u32::MAX as int) == Some(v as int),
        r is None ==> parse_unsigned(s@, 10, u32::MAX as int) is None,
{
    s.parse::<u32>().ok()
}

/// Calls `u16::from_str_radix`: it accepts an optional `+` and then digits of
/// the radix, and fails on anything else, on an empty digit string and on a
/// value that does not fit.
#[verifier::external_body]
pub(crate) fn u16_from_str_radix(s: &str, radix: u32) -> (r: Result<
    u16,
    std::num::ParseIntError,
>)
    requires
        2 <= radix <= 36,
    ensures
        r matches Ok(v) ==> parse_unsigned(s@, radix as int, u16::MAX as int) == Some(v as int),
        r is Err ==> parse_unsigned(s@, radix as int, u16::MAX as int) is None,
{
    u16::from_str_radix(s, radix)
}

/// Calls `str::parse` for `u16`, which reads a decimal number as
/// `u16::from_str_radix` does with radix ten.
#[verifier::external_body]
pub(crate) fn u16_from_decimal(s: &str) -> (r: Result<u16, std::num::ParseIntError>)
    ensures
        r matches Ok(v) ==> parse_unsigned(s@, 10, u16::MAX as int) == Some(v as int),
        r is Err ==> parse_unsigned(s@, 10, u16::MAX as int) is None,
{
    s.parse::<u16>()
}

/// Whether two texts are the same.
pub fn str_equal(a: &str, b: &str) -> (same: bool)
    ensures
        same == (a@ == b@),
{
    let n = a.unicode_len();
    if n != b.unicode_len() {
        return false;
    }
    let mut i: usize = 0;
    while i < n
        invariant
            n == a@.len(),
            n == b@.len(),
            i <= n,
            forall|k: int| 0 <= k < i ==> a@[k] == b@[k],
        decreases n - i,
    {
        if a.get_char(i) != b.get_char(i) {
            return false;
        }
        i += 1;
    }
    assert(a@ =~= b@);
    true
}

/// The text behind a leading `0x`, if the text has one.
pub fn strip_hex_prefix(s: &str) -> (rest: Option<&str>)
    ensures
        has_hex_prefix(s@) ==> (rest matches Some(t) && t@ == s@.skip(2)),
        !has_hex_prefix(s@) ==> rest is None,
{
    let n = s.unicode_len();
    if n >= 2 && s.get_char(0) == '0' && s.get_char(1) == 'x' {
        let t = s.substring_char(2, n);
        assert(t@ =~= s@.skip(2));
        Some(t)
    } else {
        None
    }
}

/// The number of characters in front of the first one that is `a` or `b`: the
/// length of the text if it holds neither.
pub open spec fn prefix_len(s: Seq<char>, a: char, b: char) -> nat
    decreases s.len(),
{
    if s.len() == 0 || s[0] == a || s[0] == b {
        0
    } else {
        1 + prefix_len(s.skip(1), a, b)
    }
}

/// Counts the characters in front of the first one that is `a` or `b`.
pub fn split_point(s: &str, a: char, b: char) -> (cut: usize)
    ensures
        cut == prefix_len(s@, a, b),
        cut <= s@.len(),
{
    let n = s.unicode_len();
    let mut i: usize = 0;
    assert(s@.skip(0) =~= s@);
    while i < n
        invariant
            n == s@.len(),
            i <= n,
            prefix_len(s@, a, b) == i + prefix_len(s@.skip(i as int), a, b),
        decreases n - i,
    {
        let c = s.get_char(i);
        assert(s@.skip(i as int)[0] == c);
        if c == a || c == b {
            return i;
        }
        assert(s@.skip(i as int).skip(1) =~= s@.skip(i + 1));
        i += 1;
    }
    i
}

/// An unsigned integer type that can be read from text.
pub trait Number: Sized {
    /// The largest value of the type.
    spec fn spec_max() -> int;

    /// The value as a mathematical integer.
    spec fn spec_value(&self) -> int;

    /// Reads digits of the given radix.
    fn from_radix(s: &str, radix: u32) -> (r: Option<Self>)
        requires
            2 <= radix <= 36,
        ensures
            r matches Some(v) ==> parse_unsigned(s@, radix as int, Self::spec_max()) == Some(
                v.spec_value(),
            ),
            r is None ==> parse_unsigned(s@, radix as int, Self::spec_max()) is None,
    ;

    /// Reads decimal digits.
    fn from_decimal(s: &str) -> (r: Option<Self>)
        ensures
            r matches Some(v) ==> parse_unsigned(s@, 10, Self::spec_max()) == Some(
                v.spec_value(),
            ),
            r is None ==> parse_unsigned(s@, 10, Self::spec_max()) is None,
    ;
}

impl Number for u8 {
    open spec fn spec_max() -> int {
        u8::MAX as int
    }

    open spec fn spec_value(&self) -> int {
        *self as int
    }

    fn from_radix(s: &str, radix: u32) -> (r: Option<u8>) {
        u8_from_str_radix(s, radix)
    }

    fn from_decimal(s: &str) -> (r: Option<u8>) {
        u8_from_decimal(s)
    }
}

impl Number for u32 {
    open spec fn spec_max() -> int {
        u32::MAX as int
    }

    open spec fn spec_value(&self) -> int {
        *self as int
    }

    fn from_radix(s: &str, radix: u32) -> (r: Option<u32>) {
        u32_from_str_radix(s, radix)
    }

    fn from_decimal(s: &str) -> (r: Option<u32>) {
        u32_from_decimal(s)
    }
}

/// The number that a text spells out: hexadecimal behind `0x`, decimal
/// otherwise.
pub open spec fn spec_parse_number(s: Seq<char>, max: int) -> Option<int> {
    if has_hex_prefix(s) {
        parse_unsigned(s.skip(2), 16, max)
    } else {
        parse_unsigned(s, 10, max)
    }
}

/// The message for a text that spells out no number of the wanted type.
pub open spec fn number_error(s: Seq<char>) -> Seq<char> {
    if has_hex_prefix(s) {
        "hex number '"@ + s + "' is invalid or too large"@
    } else {
        "number '"@ + s + "' is invalid or too large!"@
    }
}

/// Reads a number: hexadecimal behind `0x`, decimal otherwise. A text that
/// spells out no number, or one that does not fit the type, gives a message
/// that quotes it.
pub fn parse_number<T: Number>(s: &str) -> (r: Result<T, String>)
    ensures
        r matches Ok(v) ==> spec_parse_number(s@, T::spec_max()) == Some(v.spec_value()),
        r matches Err(e) ==> (spec_parse_number(s@, T::spec_max()) is None && e@ == number_error(
            s@,
        )),
{
    match strip_hex_prefix(s) {
        Some(stripped) => match T::from_radix(stripped, 16) {
            Some(v) => Ok(v),
            None => Err(
                String::from_str("hex number '").concat(s).concat("' is invalid or too large"),
            ),
        },
        None => match T::from_decimal(s) {
            Some(v) => Ok(v),
            None => Err(String::from_str("number '").concat(s).concat("' is invalid or too large!")),
        },
    }
}

/// Where the bytes that an argument names are to be had.
#[derive(Debug)]
pub enum BytesArgument {
    /// The argument spells the bytes out.
    Bytes(Vec<u8>),
    /// The argument names a file, and the number of bytes to take from its
    /// start where it gives one.
    File {
        /// Path of the file.
        path: String,
        /// Number of bytes to take, if not all.
        limit: Option<u32>,
    },
}

/// The contents of a [`BytesArgument`].
pub ghost enum BytesArgumentView {
    /// See [`BytesArgument::Bytes`].
    Bytes(Seq<u8>),
    /// See [`BytesArgument::File`].
    File { path: Seq<char>, limit: Option<u32> },
}

impl View for BytesArgument {
    type V = BytesArgumentView;

    open spec fn view(&self) -> BytesArgumentView {
        match self {
            BytesArgument::Bytes(bytes) => BytesArgumentView::Bytes(bytes@),
            BytesArgument::File { path, limit } => BytesArgumentView::File {
                path: path@,
                limit: *limit,
            },
        }
    }
}

/// Whether a character is a brace.
pub open spec fn is_brace(c: char) -> bool {
    c == '{' || c == '}'
}

/// The number of braces that a text starts with.
pub open spec fn leading_braces(s: Seq<char>) -> nat
    decreases s.len(),
{
    if s.len() > 0 && is_brace(s[0]) {
        1 + leading_braces(s.skip(1))
    } else {
        0
    }
}

/// The number of braces that a text ends with.
pub open spec fn trailing_braces(s: Seq<char>) -> nat
    decreases s.len(),
{
    if s.len() > 0 && is_brace(s.last()) {
        1 + trailing_braces(s.drop_last())
    } else {
        0
    }
}

/// The text between the braces that it starts with and those that it ends
/// with.
pub open spec fn between_braces(s: Seq<char>) -> Seq<char> {
    let inner = s.skip(leading_braces(s) as int);
    inner.take(inner.len() - trailing_braces(inner))
}

/// The test that tells digits from the spaces between them.
pub open spec fn is_no_space() -> spec_fn(char) -> bool {
    |c: char| c != ' '
}

/// The message for two characters that spell out no byte.
pub open spec fn bad_byte(a: char, b: char) -> Seq<char> {
    "invalid byte: '"@ + seq![a, b] + "'"@
}

/// The bytes that a text of hexadecimal digits spells out, two characters to
/// the byte, or the message for the first two characters that spell out none.
/// A last character without a partner does not count.
pub open spec fn hex_pairs(t: Seq<char>) -> Result<Seq<u8>, Seq<char>>
    decreases t.len(),
{
    if t.len() < 2 {
        Ok(Seq::empty())
    } else {
        match hex_pairs(t.take(t.len() - 2)) {
            Err(e) => Err(e),
            Ok(front) => match parse_unsigned(
                seq![t[t.len() - 2], t[t.len() - 1]],
                16,
                u8::MAX as int,
            ) {
                Some(v) => Ok(front.push(v as u8)),
                None => Err(bad_byte(t[t.len() - 2], t[t.len() - 1])),
            },
        }
    }
}

/// What an argument that names bytes means. An argument that starts with two
/// opening braces spells the bytes out between its braces, in hexadecimal,
/// two digits to the byte, with spaces wherever wanted; an odd number of
/// digits is refused before any of them is read. Any other argument is the
/// path of a file, with the number of bytes to take behind a comma.
pub open spec fn spec_parse_hex_values(s: Seq<char>) -> Result<BytesArgumentView, Seq<char>> {
    if s.len() >= 2 && s[0] == '{' && s[1] == '{' {
        let digits = between_braces(s).filter(is_no_space());
        if digits.len() % 2 != 0 {
            Err("length of the input is not odd"@)
        } else {
            match hex_pairs(digits) {
                Ok(bytes) => Ok(BytesArgumentView::Bytes(bytes)),
                Err(e) => Err(e),
            }
        }
    } else {
        let cut = prefix_len(s, ',', ',') as int;
        if cut < s.len() {
            match spec_parse_number(s.skip(cut + 1), u32::MAX as int) {
                Some(limit) => Ok(
                    BytesArgumentView::File { path: s.take(cut), limit: Some(limit as u32) },
                ),
                None => Err(number_error(s.skip(cut + 1))),
            }
        } else {
            Ok(BytesArgumentView::File { path: s, limit: None })
        }
    }
}

/// Once two characters spell out no byte, more characters behind them change
/// nothing.
proof fn lemma_hex_pairs_error_stays(front: Seq<char>, back: Seq<char>)
    requires
        front.len() % 2 == 0,
        back.len() % 2 == 0,
        hex_pairs(front) is Err,
    ensures
        hex_pairs(front + back) == hex_pairs(front),
    decreases back.len(),
{
    if back.len() == 0 {
        assert(front + back =~= front);
    } else {
        let whole = front + back;
        let shorter = back.take(back.len() - 2);
        lemma_hex_pairs_error_stays(front, shorter);
        assert(whole.take(whole.len() - 2) =~= front + shorter);
    }
}

/// Counts the braces that a text starts with.
fn count_leading_braces(s: &str) -> (count: usize)
    ensures
        count == leading_braces(s@),
        count <= s@.len(),
{
    let n = s.unicode_len();
    let mut i: usize = 0;
    assert(s@.skip(0) =~= s@);
    while i < n
        invariant
            n == s@.len(),
            i <= n,
            leading_braces(s@) == i + leading_braces(s@.skip(i as int)),
        decreases n - i,
    {
        let c = s.get_char(i);
        assert(s@.skip(i as int)[0] == c);
        if !(c == '{' || c == '}') {
            return i;
        }
        assert(s@.skip(i as int).skip(1) =~= s@.skip(i + 1));
        i += 1;
    }
    i
}

/// Counts the braces that a text ends with.
fn count_trailing_braces(s: &str) -> (count: usize)
    ensures
        count == trailing_braces(s@),
        count <= s@.len(),
{
    let n = s.unicode_len();
    let mut k: usize = 0;
    assert(s@.take(n as int) =~= s@);
    while k < n
        invariant
            n == s@.len(),
            k <= n,
            trailing_braces(s@) == k + trailing_braces(s@.take(n - k)),
        decreases n - k,
    {
        let c = s.get_char(n - k - 1);
        assert(s@.take(n - k).last() == c);
        if !(c == '{' || c == '}') {
            return k;
        }
        assert(s@.take(n - k).drop_last() =~= s@.take(n - k - 1));
        k += 1;
    }
    k
}

/// Reads the bytes that a text of hexadecimal digits and spaces spells out.
fn hex_bytes(t: &str) -> (r: Result<Vec<u8>, String>)
    ensures
        r matches Ok(bytes) ==> t@.filter(is_no_space()).len() % 2 == 0 && hex_pairs(
            t@.filter(is_no_space()),
        ) == Ok::<Seq<u8>, Seq<char>>(bytes@),
        r matches Err(e) ==> e@ == (if t@.filter(is_no_space()).len() % 2 != 0 {
            "length of the input is not odd"@
        } else {
            hex_pairs(t@.filter(is_no_space()))->Err_0
        }) && (t@.filter(is_no_space()).len() % 2 == 0 ==> hex_pairs(t@.filter(is_no_space()))
            is Err),
{
    let n = t.unicode_len();
    let ghost keep = is_no_space();
    let mut digits: usize = 0;
    let mut i: usize = 0;
    assert(t@.take(0) =~= Seq::<char>::empty());
    proof {
        reveal(Seq::filter);
    }
    while i < n
        invariant
            n == t@.len(),
            i <= n,
            digits <= i,
            digits == t@.take(i as int).filter(keep).len(),
            keep == is_no_space(),
        decreases n - i,
    {
        let c = t.get_char(i);
        proof {
            assert(t@.take(i + 1) =~= t@.take(i as int).push(c));
            t@.take(i as int).lemma_filter_push(c, keep);
        }
        if c != ' ' {
            digits += 1;
        }
        i += 1;
    }
    assert(t@.take(n as int) =~= t@);
    if digits % 2 != 0 {
        return Err(String::from_str("length of the input is not odd"));
    }
    let mut bytes: Vec<u8> = Vec::new();
    let mut pending: Option<&str> = None;
    let ghost mut paired: Seq<char> = Seq::empty();
    let mut j: usize = 0;
    while j < n
        invariant
            n == t@.len(),
            j <= n,
            keep == is_no_space(),
            t@.filter(keep).len() % 2 == 0,
            paired.len() % 2 == 0,
            hex_pairs(paired) == Ok::<Seq<u8>, Seq<char>>(bytes@),
            pending matches Some(first) ==> first@.len() == 1,
            t@.take(j as int).filter(keep) == (match pending {
                Some(first) => paired.push(first@[0]),
                None => paired,
            }),
        decreases n - j,
    {
        let c = t.get_char(j);
        proof {
            assert(t@.take(j + 1) =~= t@.take(j as int).push(c));
            t@.take(j as int).lemma_filter_push(c, keep);
        }
        if c != ' ' {
            let this = t.substring_char(j, j + 1);
            assert(this@ =~= seq![c]);
            match pending {
                None => {
                    pending = Some(this);
                },
                Some(first) => {
                    let ghost a = first@[0];
                    let pair = String::from_str(first).concat(this);
                    assert(pair@ =~= seq![a, c]);
                    let ghost now = paired.push(a).push(c);
                    assert(now.take(now.len() - 2) =~= paired);
                    assert(now[now.len() - 2] == a && now[now.len() - 1] == c);
                    match u8_from_str_radix(pair.as_str(), 16) {
                        Some(v) => {
                            bytes.push(v);
                            pending = None;
                            proof {
                                paired = now;
                            }
                        },
                        None => {
                            proof {
                                assert(t@ =~= t@.take(j + 1) + t@.skip(j + 1));
                                Seq::filter_distributes_over_add(
                                    t@.take(j + 1),
                                    t@.skip(j + 1),
                                    keep,
                                );
                                assert(t@.filter(keep) =~= now + t@.skip(j + 1).filter(keep));
                                assert(hex_pairs(now) == Err::<Seq<u8>, Seq<char>>(
                                    bad_byte(a, c),
                                ));
                                lemma_hex_pairs_error_stays(now, t@.skip(j + 1).filter(keep));
                            }
                            return Err(
                                String::from_str("invalid byte: '").concat(pair.as_str()).concat(
                                    "'",
                                ),
                            );
                        },
                    }
                },
            }
        }
        j += 1;
    }
    assert(t@.take(n as int) =~= t@);
    Ok(bytes)
}

/// Reads an argument that names bytes: spelled out between braces, or as the
/// path of a file.
pub fn parse_hex_values(s: &str) -> (r: Result<BytesArgument, String>)
    ensures
        r matches Ok(argument) ==> spec_parse_hex_values(s@) == Ok::<BytesArgumentView, Seq<char>>(
            argument@,
        ),
        r matches Err(e) ==> spec_parse_hex_values(s@) == Err::<BytesArgumentView, Seq<char>>(e@),
{
    let n = s.unicode_len();
    if n >= 2 && s.get_char(0) == '{' && s.get_char(1) == '{' {
        let leading = count_leading_braces(s);
        let inner = s.substring_char(leading, n);
        assert(inner@ =~= s@.skip(leading as int));
        let trailing = count_trailing_braces(inner);
        let text = inner.substring_char(0, n - leading - trailing);
        assert(text@ =~= between_braces(s@));
        match hex_bytes(text) {
            Ok(bytes) => Ok(BytesArgument::Bytes(bytes)),
            Err(e) => Err(e),
        }
    } else {
        let cut = split_point(s, ',', ',');
        if cut < n {
            let path = s.substring_char(0, cut);
            let number = s.substring_char(cut + 1, n);
            assert(path@ =~= s@.take(cut as int));
            assert(number@ =~= s@.skip(cut + 1));
            match parse_number::<u32>(number) {
                Ok(limit) => Ok(
                    BytesArgument::File { path: String::from_str(path), limit: Some(limit) },
                ),
                Err(e) => Err(e),
            }
        } else {
            Ok(BytesArgument::File { path: String::from_str(s), limit: None })
        }
    }
}

} // verus!
