//! Text that the library builds itself: decimal numbers and hexadecimal
//! account names.

use vstd::prelude::*;
use vstd::string::*;

verus! {

/// The character of a decimal digit.
pub open spec fn digit_char(d: nat) -> char {
    if d == 0 {
        '0'
    } else if d == 1 {
        '1'
    } else if d == 2 {
        '2'
    } else if d == 3 {
        '3'
    } else if d == 4 {
        '4'
    } else if d == 5 {
        '5'
    } else if d == 6 {
        '6'
    } else if d == 7 {
        '7'
    } else if d == 8 {
        '8'
    } else {
        '9'
    }
}

/// A natural number in decimal, without leading zeros.
pub open spec fn decimal_text(n: nat) -> Seq<char>
    decreases n,
{
    if n < 10 {
        seq![digit_char(n)]
    } else {
        decimal_text(n / 10) + seq![digit_char(n % 10)]
    }
}

/// The one-character text of a digit.
fn digit_text(d: u8) -> (text: &'static str)
    requires
        d < 10,
    ensures
        text@ == seq![digit_char(d as nat)],
{
    proof {
        reveal_strlit("0");
        reveal_strlit("1");
        reveal_strlit("2");
        reveal_strlit("3");
        reveal_strlit("4");
        reveal_strlit("5");
        reveal_strlit("6");
        reveal_strlit("7");
        reveal_strlit("8");
        reveal_strlit("9");
    }
    let text = if d == 0 {
        "0"
    } else if d == 1 {
        "1"
    } else if d == 2 {
        "2"
    } else if d == 3 {
        "3"
    } else if d == 4 {
        "4"
    } else if d == 5 {
        "5"
    } else if d == 6 {
        "6"
    } else if d == 7 {
        "7"
    } else if d == 8 {
        "8"
    } else {
        "9"
    };
    assert(text@ =~= seq![digit_char(d as nat)]);
    text
}

/// Writes a number in decimal. Amounts and heights are stored as such text,
/// so that no digit is lost.
pub fn decimal_string(n: u128) -> (text: String)
    ensures
        text@ == decimal_text(n as nat),
    decreases n,
{
    if n < 10 {
        digit_text(n as u8).to_owned()
    } else {
        let mut text = decimal_string(n / 10);
        text.append(digit_text((n % 10) as u8));
        text
    }
}

/// The value of a hexadecimal digit in either case, if it is one.
pub open spec fn hex_value(c: char) -> Option<nat> {
    if '0' <= c <= '9' {
        Some((c as nat - '0' as nat) as nat)
    } else if 'a' <= c <= 'f' {
        Some((c as nat - 'a' as nat + 10) as nat)
    } else if 'A' <= c <= 'F' {
        Some((c as nat - 'A' as nat + 10) as nat)
    } else {
        None
    }
}

/// An even number of hexadecimal digits.
pub open spec fn is_hex_text(text: Seq<char>) -> bool {
    &&& text.len() % 2 == 0
    &&& forall|i: int| 0 <= i < text.len() ==> hex_value(#[trigger] text[i]) is Some
}

/// The bytes that hexadecimal text spells, two digits to a byte, the high
/// one first.
pub open spec fn hex_bytes(text: Seq<char>) -> Seq<u8> {
    Seq::new(
        text.len() / 2,
        |i: int| (16 * hex_value(text[2 * i]).unwrap() + hex_value(text[2 * i + 1]).unwrap()) as u8,
    )
}

/// Calls `hex::decode`: it accepts an even number of hexadecimal digits in
/// either case and returns the bytes they spell, and rejects any other text.
#[verifier::external_body]
pub(crate) fn hex_decode(text: &str) -> (decoded: Option<Vec<u8>>)
    ensures
        decoded is Some <==> is_hex_text(text@),
        decoded matches Some(bytes) ==> bytes@ == hex_bytes(text@),
{
    match hex::decode(text) {
        Ok(bytes) => Some(bytes),
        Err(_) => None,
    }
}

/// The text that `near_crypto::PublicKey` displays for the ED25519 key with
/// these 32 bytes.
pub uninterp spec fn ed25519_key_text(bytes: Seq<u8>) -> Seq<char>;

/// Calls `near_crypto::ED25519PublicKey::try_from` on the bytes, which accepts
/// exactly 32 of them, and displays the key as a `near_crypto::PublicKey`.
#[verifier::external_body]
pub(crate) fn display_ed25519_key(bytes: &Vec<u8>) -> (text: Option<String>)
    ensures
        text is Some <==> bytes@.len() == 32,
        text matches Some(t) ==> t@ == ed25519_key_text(bytes@),
{
    match near_crypto::ED25519PublicKey::try_from(bytes.as_slice()) {
        Ok(key) => Some(near_crypto::PublicKey::from(key).to_string()),
        Err(_) => None,
    }
}

/// The name of an implicit account: 64 hexadecimal digits, which spell the
/// 32 bytes of the key that owns it.
pub open spec fn is_implicit_account(account_id: Seq<char>) -> bool {
    account_id.len() == 64 && is_hex_text(account_id)
}

/// The text of the full-access key that an implicit account starts with.
pub open spec fn implicit_key_text(account_id: Seq<char>) -> Seq<char> {
    ed25519_key_text(hex_bytes(account_id))
}

/// The public key that owns an implicit account, as stored text. `None`
/// exactly where the account name is not that of an implicit account.
pub fn implicit_account_key(account_id: &str) -> (key: Option<String>)
    ensures
        key is Some <==> is_implicit_account(account_id@),
        key matches Some(text) ==> text@ == implicit_key_text(account_id@),
{
    match hex_decode(account_id) {
        Some(bytes) => display_ed25519_key(&bytes),
        None => None,
    }
}

} // verus!
