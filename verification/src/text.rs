//! Text used in messages: decimal numbers, NUL-terminated bytes, and lossy
//! UTF-8 decoding.

use vstd::prelude::*;
use vstd::string::*;
use vstd::utf8::*;

verus! {

/// Decimal digit of a value below ten.
pub open spec fn digit_char(d: nat) -> char {
    (48 + d) as char
}

/// Decimal notation of `n`, without leading zeros.
pub open spec fn decimal(n: nat) -> Seq<char>
    decreases n,
{
    if n < 10 {
        seq![digit_char(n)]
    } else {
        decimal(n / 10).push(digit_char(n % 10))
    }
}

/// Decimal notation of `n`, with a leading minus sign below zero.
pub open spec fn signed_decimal(n: int) -> Seq<char> {
    if n < 0 {
        seq!['-'] + decimal((-n) as nat)
    } else {
        decimal(n as nat)
    }
}

/// Index of the first zero byte, or the length when there is none.
pub open spec fn first_nul(bytes: Seq<u8>) -> nat
    decreases bytes.len(),
{
    if bytes.len() == 0 || bytes[0] == 0 {
        0
    } else {
        1 + first_nul(bytes.drop_first())
    }
}

/// Text that precedes the first zero byte of a C character array.
pub open spec fn c_text(bytes: Seq<u8>) -> Seq<char> {
    decoded(bytes.take(first_nul(bytes) as int))
}

/// Bytes of an optional vector.
pub open spec fn optional_bytes(value: Option<Vec<u8>>) -> Option<Seq<u8>> {
    match value {
        Some(bytes) => Some(bytes@),
        None => None,
    }
}

/// Text of `bytes`: the one that they encode where they are valid UTF-8, and
/// one with replacements where they are not.
pub open spec fn decoded(bytes: Seq<u8>) -> Seq<char> {
    if valid_utf8(bytes) {
        decode_utf8(bytes)
    } else {
        utf8_lossy(bytes)
    }
}

/// Text that `String::from_utf8_lossy` decodes from `bytes`.
pub uninterp spec fn utf8_lossy(bytes: Seq<u8>) -> Seq<char>;

/// `String::from_utf8_lossy`, as an owned string.
///
/// Claims that the text depends on the bytes alone, and that valid UTF-8 is
/// decoded without a change. Which text replaces invalid bytes is left unsaid.
#[verifier::external_body]
pub(crate) fn from_utf8_lossy(bytes: &[u8]) -> (text: String)
    ensures
        text@ == utf8_lossy(bytes@),
        valid_utf8(bytes@) ==> text@ == decode_utf8(bytes@),
{
    String::from_utf8_lossy(bytes).into_owned()
}

/// Bounds `first_nul`, and says what it finds and what precedes it.
pub proof fn lemma_first_nul(bytes: Seq<u8>)
    ensures
        first_nul(bytes) <= bytes.len(),
        first_nul(bytes) < bytes.len() ==> bytes[first_nul(bytes) as int] == 0,
        forall|i: int| 0 <= i < first_nul(bytes) ==> #[trigger] bytes[i] != 0,
    decreases bytes.len(),
{
    if bytes.len() != 0 && bytes[0] != 0 {
        let rest = bytes.drop_first();
        lemma_first_nul(rest);
        assert forall|i: int| 0 <= i < first_nul(bytes) implies #[trigger] bytes[i] != 0 by {
            if i > 0 {
                assert(bytes[i] == rest[i - 1]);
            }
        }
    }
}

/// The first zero byte is the only one that no zero byte precedes.
pub proof fn lemma_first_nul_is(bytes: Seq<u8>, at: nat)
    requires
        at <= bytes.len(),
        at < bytes.len() ==> bytes[at as int] == 0,
        forall|i: int| 0 <= i < at ==> #[trigger] bytes[i] != 0,
    ensures
        first_nul(bytes) == at,
{
    lemma_first_nul(bytes);
    let found = first_nul(bytes);
    if found < at {
        assert(bytes[found as int] != 0);
    } else if at < found {
        assert(bytes[at as int] != 0);
    }
}

/// Finds the first zero byte.
pub fn find_nul(bytes: &[u8]) -> (at: usize)
    ensures
        at == first_nul(bytes@),
{
    let mut i: usize = 0;
    while i < bytes.len() && bytes[i] != 0
        invariant
            i <= bytes@.len(),
            forall|j: int| 0 <= j < i ==> #[trigger] bytes@[j] != 0,
        decreases bytes@.len() - i,
    {
        i = i + 1;
    }
    proof {
        lemma_first_nul_is(bytes@, i as nat);
    }
    i
}

/// Decodes a C character array up to its terminating zero byte.
pub fn c_array_text(bytes: &[u8]) -> (text: String)
    ensures
        text@ == c_text(bytes@),
{
    let end = find_nul(bytes);
    proof {
        lemma_first_nul(bytes@);
        assert(bytes@.subrange(0, end as int) == bytes@.take(end as int));
    }
    from_utf8_lossy(vstd::slice::slice_subrange(bytes, 0, end))
}

/// No bytes.
pub fn no_bytes() -> (bytes: &'static [u8])
    ensures
        bytes@ == Seq::<u8>::empty(),
{
    vstd::slice::slice_subrange("".as_bytes(), 0, 0)
}

/// Copies `bytes`, with a terminating zero byte behind them.
pub fn terminated(bytes: &[u8]) -> (out: Vec<u8>)
    ensures
        out@ == bytes@.push(0),
{
    let mut out: Vec<u8> = Vec::new();
    let mut i: usize = 0;
    while i < bytes.len()
        invariant
            i <= bytes@.len(),
            out@ == bytes@.take(i as int),
        decreases bytes@.len() - i,
    {
        out.push(bytes[i]);
        i = i + 1;
    }
    out.push(0);
    out
}

/// Copies `bytes`.
pub fn copied(bytes: &[u8]) -> (out: Vec<u8>)
    ensures
        out@ == bytes@,
{
    let mut out: Vec<u8> = Vec::new();
    let mut i: usize = 0;
    while i < bytes.len()
        invariant
            i <= bytes@.len(),
            out@ == bytes@.take(i as int),
        decreases bytes@.len() - i,
    {
        out.push(bytes[i]);
        i = i + 1;
    }
    out
}

/// Text that a string was stored from is the text that is read back.
pub proof fn law_encoded_text_is_decoded(s: Seq<char>)
    ensures
        decoded(encode_utf8(s)) == s,
{
    encode_utf8_valid_utf8(s);
    encode_utf8_decode_utf8(s);
}

fn digit(d: u64) -> (text: &'static str)
    requires
        d < 10,
    ensures
        text@ == seq![digit_char(d as nat)],
{
    proof {
        reveal_strlit("0");
        reveal_strlit("1");
        reveal_strlit("2");
        reveal_strlit("3");
        reveal_strlit("4");
        reveal_strlit("5");
        reveal_strlit("6");
        reveal_strlit("7");
        reveal_strlit("8");
        reveal_strlit("9");
    }
    if d == 0 {
        "0"
    } else if d == 1 {
        "1"
    } else if d == 2 {
        "2"
    } else if d == 3 {
        "3"
    } else if d == 4 {
        "4"
    } else if d == 5 {
        "5"
    } else if d == 6 {
        "6"
    } else if d == 7 {
        "7"
    } else if d == 8 {
        "8"
    } else {
        "9"
    }
}

/// Writes `n` in decimal.
pub fn decimal_text(n: u64) -> (text: String)
    ensures
        text@ == decimal(n as nat),
    decreases n,
{
    if n < 10 {
        digit(n).to_owned()
    } else {
        let mut text = decimal_text(n / 10);
        text.append(digit(n % 10));
        text
    }
}

/// Writes `n` in decimal, with a minus sign below zero.
pub fn signed_decimal_text(n: i64) -> (text: String)
    ensures
        text@ == signed_decimal(n as int),
{
    if n == i64::MIN {
        let mut text = String::new();
        text.append("-");
        text.append(decimal_text(9223372036854775808u64).as_str());
        proof {
            reveal_strlit("-");
        }
        text
    } else if n < 0 {
        let mut text = String::new();
        text.append("-");
        text.append(decimal_text((-n) as u64).as_str());
        proof {
            reveal_strlit("-");
        }
        text
    } else {
        decimal_text(n as u64)
    }
}

/// Whether every character of `s` is a decimal digit.
pub open spec fn is_number(s: Seq<char>) -> bool {
    &&& s.len() > 0
    &&& forall|i: int| 0 <= i < s.len() ==> '0' <= #[trigger] s[i] <= '9'
}

/// Number that the digits `s` stand for.
pub open spec fn number_of(s: Seq<char>) -> nat
    decreases s.len(),
{
    if s.len() == 0 {
        0
    } else {
        10 * number_of(s.drop_last()) + (s.last() as nat - '0' as nat) as nat
    }
}

/// Decimal notation consists of digits, stands for its number, and starts with
/// a zero only where that is all.
proof fn lemma_decimal(n: nat)
    ensures
        is_number(decimal(n)),
        number_of(decimal(n)) == n,
        decimal(n)[0] == '0' ==> n == 0,
        n == 0 ==> decimal(n).len() == 1,
    decreases n,
{
    let s = decimal(n);
    assert(s.last() as nat - '0' as nat == n % 10);
    if n < 10 {
        assert(s.drop_last() =~= Seq::empty());
        reveal_with_fuel(number_of, 2);
    } else {
        lemma_decimal(n / 10);
        assert(s.drop_last() =~= decimal(n / 10));
        assert(s[0] == decimal(n / 10)[0]);
    }
}

/// A number is written in digits that stand for it, without leading zeros.
pub proof fn law_number_is_written_in_decimal(n: u64, text: String)
    requires
        call_ensures(decimal_text, (n,), text),
    ensures
        is_number(text@),
        number_of(text@) == n,
        text@[0] == '0' ==> text@.len() == 1,
{
    lemma_decimal(n as nat);
}

/// A number below zero is written as a minus sign and its magnitude, and
/// another one as its magnitude alone.
pub proof fn law_signed_number_is_written_in_decimal(n: i64, text: String)
    requires
        call_ensures(signed_decimal_text, (n,), text),
    ensures
        n >= 0 ==> is_number(text@) && number_of(text@) == n && (text@[0] == '0' ==> text@.len()
            == 1),
        n < 0 ==> text@[0] == '-' && is_number(text@.skip(1)) && number_of(text@.skip(1)) == -n
            && text@[1] != '0',
{
    if n < 0 {
        lemma_decimal((-n) as nat);
        assert(text@.skip(1) =~= decimal((-n) as nat));
        assert(text@[1] == decimal((-n) as nat)[0]);
    } else {
        lemma_decimal(n as nat);
    }
}

/// What is found is the first zero byte, or the end where there is none.
pub proof fn law_first_zero_byte_is_found(bytes: &[u8], at: usize)
    requires
        call_ensures(find_nul, (bytes,), at),
    ensures
        at <= bytes@.len(),
        at < bytes@.len() ==> bytes@[at as int] == 0,
        forall|i: int| 0 <= i < at ==> #[trigger] bytes@[i] != 0,
{
    lemma_first_nul(bytes@);
}

/// A character array is read up to its first zero byte, or whole where it has
/// none. Valid UTF-8 is read as it is.
pub proof fn law_array_is_read_up_to_zero_byte(bytes: &[u8], text: String, at: int)
    requires
        call_ensures(c_array_text, (bytes,), text),
        0 <= at <= bytes@.len(),
        at < bytes@.len() ==> bytes@[at] == 0,
        forall|i: int| 0 <= i < at ==> #[trigger] bytes@[i] != 0,
    ensures
        valid_utf8(bytes@.take(at)) ==> text@ == decode_utf8(bytes@.take(at)),
        !valid_utf8(bytes@.take(at)) ==> text@ == utf8_lossy(bytes@.take(at)),
{
    lemma_first_nul_is(bytes@, at as nat);
}

/// Text in front of a zero byte is the text of the array.
pub proof fn lemma_stored_text(bytes: Seq<u8>, s: Seq<char>, rest: Seq<u8>)
    requires
        bytes == encode_utf8(s).push(0) + rest,
        !encode_utf8(s).contains(0),
    ensures
        c_text(bytes) == s,
{
    let stored = encode_utf8(s);
    assert forall|i: int| 0 <= i < stored.len() implies #[trigger] bytes[i] != 0 by {
        assert(bytes[i] == stored[i]);
        assert(stored.contains(stored[i]));
    }
    assert(bytes[stored.len() as int] == 0);
    lemma_first_nul_is(bytes, stored.len());
    assert(bytes.take(stored.len() as int) =~= stored);
    law_encoded_text_is_decoded(s);
}

/// A text that stands in a character array in front of a zero byte is read
/// back.
pub proof fn law_stored_text_is_read_back(bytes: &[u8], text: String, s: Seq<char>, rest: Seq<u8>)
    requires
        call_ensures(c_array_text, (bytes,), text),
        bytes@ == encode_utf8(s).push(0) + rest,
        !encode_utf8(s).contains(0),
    ensures
        text@ == s,
{
    lemma_stored_text(bytes@, s, rest);
}

/// A copy has the bytes of what was copied, and a terminated one a zero byte
/// behind them.
pub proof fn law_copies_keep_every_byte(bytes: &[u8], copy: Vec<u8>, ended: Vec<u8>, i: int)
    requires
        call_ensures(copied, (bytes,), copy),
        call_ensures(terminated, (bytes,), ended),
    ensures
        copy@.len() == bytes@.len(),
        ended@.len() == bytes@.len() + 1,
        ended@[bytes@.len() as int] == 0,
        0 <= i < bytes@.len() ==> copy@[i] == bytes@[i] && ended@[i] == bytes@[i],
{
}

/// No bytes are none.
pub proof fn law_no_bytes_are_none(bytes: &'static [u8])
    requires
        call_ensures(no_bytes, (), bytes),
    ensures
        bytes@.len() == 0,
{
}

/// Whether `text` is what `bytes` are shown as: the text that they encode where
/// they are valid UTF-8, and one with replacements where they are not.
pub open spec fn shows(bytes: Seq<u8>, text: Seq<char>) -> bool {
    &&& valid_utf8(bytes) ==> text == decode_utf8(bytes)
    &&& !valid_utf8(bytes) ==> text == utf8_lossy(bytes)
}

} // verus!
