//! Text encodings of byte strings: base64 and a 93-symbol alphabet.

use vstd::prelude::*;

verus! {

/// `base64::DecodeError`, carried through unopened.
#[verifier::external_type_specification]
#[verifier::external_body]
pub struct ExDecodeError(base64::DecodeError);

/// The URL-safe, padded base64 text of a byte string.
pub uninterp spec fn base64_url(bytes: Seq<u8>) -> Seq<char>;

/// The bytes that a URL-safe, padded base64 text stands for, if it is one.
pub uninterp spec fn base64_url_decoded(text: Seq<char>) -> Option<Seq<u8>>;

/// The digits to base 93, least significant first, that the radix converter
/// gives for digits to base 256.
pub uninterp spec fn radix_93(digits: Seq<u8>) -> Seq<u8>;

/// Calls `base64::Engine::encode_string` of `URL_SAFE` on an empty string.
/// Claimed: the string then holds the URL-safe padded base64 text of `x`.
#[verifier::external_body]
fn url_safe_encode(x: &[u8]) -> (s: String)
    ensures
        s@ == base64_url(x@),
{
    let mut s = String::new();
    base64::Engine::encode_string(&base64::engine::general_purpose::URL_SAFE, x, &mut s);
    s
}

/// Calls `base64::Engine::decode` of `URL_SAFE`.
/// Claimed: it succeeds on exactly the texts that are URL-safe padded
/// base64, with the bytes they stand for.
#[verifier::external_body]
fn url_safe_decode(input: &str) -> (r: Result<Vec<u8>, base64::DecodeError>)
    ensures
        r is Ok <==> base64_url_decoded(input@) is Some,
        r is Ok ==> base64_url_decoded(input@) == Some(r->Ok_0@),
{
    base64::Engine::decode(&base64::engine::general_purpose::URL_SAFE, input)
}

/// Calls `convert_base::Convert::new(256, 93)` and `convert` on bytes.
/// Claimed: the result depends on the input digits alone. The converter
/// multiplies the length by eight to size its output, so eight times the
/// length has to fit the machine.
#[verifier::external_body]
fn to_radix_93(b: &[u8]) -> (digits: Vec<u8>)
    requires
        8 * b@.len() <= usize::MAX,
    ensures
        digits@ == radix_93(b@),
{
    convert_base::Convert::new(256, 93).convert::<u8, u8>(b)
}

/// Calls `String::from_iter` on the characters of a vector.
/// Claimed: the string holds those characters in order.
#[verifier::external_body]
pub(crate) fn string_of(chars: &Vec<char>) -> (s: String)
    ensures
        s@ == chars@,
{
    String::from_iter(chars.iter())
}

/// Encodes bytes as URL-safe base64 with padding.
pub fn b64enc(x: &[u8]) -> (s: String)
    ensures
        s@ == base64_url(x@),
{
    url_safe_encode(x)
}

/// Decodes URL-safe base64 with padding.
pub fn b64dec(input: &str) -> (r: Result<Vec<u8>, base64::DecodeError>)
    ensures
        r is Ok <==> base64_url_decoded(input@) is Some,
        r is Ok ==> base64_url_decoded(input@) == Some(r->Ok_0@),
{
    url_safe_decode(input)
}

/// The 93 symbols, by digit. The letter at digit 49 repeats the one at 48.
pub open spec fn b93_alphabet() -> Seq<char> {
    seq![
        '0', '1', '2', '3', '4', '5', '6', '7', '8', '9', 'a', 'b', 'c', 'd', 'e', 'f', 'g', 'h',
        'i', 'j', 'k', 'l', 'm', 'n', 'o', 'p', 'q', 'r', 's', 't', 'u', 'v', 'w', 'x', 'y', 'z',
        'A', 'B', 'C', 'D', 'E', 'F', 'G', 'H', 'I', 'J', 'K', 'L', 'M', 'M', 'O', 'P', 'Q', 'R',
        'S', 'T', 'U', 'V', 'W', 'X', 'Y', 'Z', '~', '!', '@', '#', '$', '%', '^', '&', '*', '(',
        ')', '-', '_', '+', '=', '[', '{', ']', '}', '\\', '|', ';', ':', '"', '\'', ',', '<', '.',
        '>', '/', '?',
    ]
}

/// The symbol of one digit; a blank for a digit outside the alphabet.
pub open spec fn b93_symbol(digit: u8) -> char {
    if digit < 93 {
        b93_alphabet()[digit as int]
    } else {
        ' '
    }
}

/// The text of a digit string, symbol by symbol.
pub open spec fn b93_text(digits: Seq<u8>) -> Seq<char> {
    Seq::new(digits.len(), |i: int| b93_symbol(digits[i]))
}

/// The symbol of one digit.
pub fn b93_char(digit: u8) -> (c: char)
    ensures
        c == b93_symbol(digit),
{
    let table: [char; 93] = [
        '0', '1', '2', '3', '4', '5', '6', '7', '8', '9', 'a', 'b', 'c', 'd', 'e', 'f', 'g', 'h',
        'i', 'j', 'k', 'l', 'm', 'n', 'o', 'p', 'q', 'r', 's', 't', 'u', 'v', 'w', 'x', 'y', 'z',
        'A', 'B', 'C', 'D', 'E', 'F', 'G', 'H', 'I', 'J', 'K', 'L', 'M', 'M', 'O', 'P', 'Q', 'R',
        'S', 'T', 'U', 'V', 'W', 'X', 'Y', 'Z', '~', '!', '@', '#', '$', '%', '^', '&', '*', '(',
        ')', '-', '_', '+', '=', '[', '{', ']', '}', '\\', '|', ';', ':', '"', '\'', ',', '<', '.',
        '>', '/', '?',
    ];
    assert(table@ =~= b93_alphabet());
    if digit < 93 {
        table[digit as usize]
    } else {
        ' '
    }
}

/// Writes a digit string in the 93-symbol alphabet.
pub fn b93_write(digits: &[u8]) -> (s: String)
    ensures
        s@ == b93_text(digits@),
{
    let mut chars: Vec<char> = Vec::new();
    let mut i: usize = 0;
    while i < digits.len()
        invariant
            i <= digits@.len(),
            chars@.len() == i,
            forall|j: int| 0 <= j < i ==> chars@[j] == b93_symbol(digits@[j]),
        decreases digits@.len() - i,
    {
        chars.push(b93_char(digits[i]));
        i += 1;
    }
    assert(chars@ =~= b93_text(digits@));
    string_of(&chars)
}

/// Encodes bytes in the 93-symbol alphabet: the bytes are read as digits to
/// base 256, least significant first, and rewritten to base 93.
pub fn b93enc(b: &[u8]) -> (s: String)
    requires
        8 * b@.len() <= usize::MAX,
    ensures
        s@ == b93_text(radix_93(b@)),
{
    let digits = to_radix_93(b);
    b93_write(digits.as_slice())
}

} // verus!
