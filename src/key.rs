use vstd::prelude::*;
use vstd::string::is_ascii_spec_bytes;
use vstd::utf8::is_ascii_chars;

verus! {

/// Why a keyword argument operation was refused.
#[derive(Clone, Copy, Debug, PartialEq, Eq, Structural)]
pub enum ErrorKind {
    /// The key holds a character outside ASCII.
    NonASCIIKey,
    /// The key holds a character other than an ASCII letter, digit or `_`.
    InvalidKeyName,
    /// The key is empty.
    EmptyKey,
    /// The key is already present.
    KeyExists,
    /// The key is not present.
    KeyDoesNotExist,
    /// The table already holds the largest number of arguments.
    MaxArguments,
}

/// A byte that may stand in a key: an ASCII letter, an ASCII digit or `_`.
pub open spec fn is_key_byte(b: u8) -> bool {
    ||| 0x30 <= b <= 0x39
    ||| 0x41 <= b <= 0x5a
    ||| 0x61 <= b <= 0x7a
    ||| b == 0x5f
}

/// A character that may stand in a key: an ASCII letter, an ASCII digit or
/// `_`.
pub open spec fn is_key_char(c: char) -> bool {
    ||| '0' <= c <= '9'
    ||| 'A' <= c <= 'Z'
    ||| 'a' <= c <= 'z'
    ||| c == '_'
}

/// What checking the key `s` gives: the first of its faults, in the order
/// non-ASCII, empty, invalid character; or none.
pub open spec fn key_check(s: Seq<char>) -> Result<(), ErrorKind> {
    if !is_ascii_chars(s) {
        Err(ErrorKind::NonASCIIKey)
    } else if s.len() == 0 {
        Err(ErrorKind::EmptyKey)
    } else if forall|i: int| 0 <= i < s.len() ==> is_key_char(#[trigger] s[i]) {
        Ok(())
    } else {
        Err(ErrorKind::InvalidKeyName)
    }
}

/// Checks that a key is a non-empty ASCII identifier made of letters,
/// digits and `_`.
pub fn validate_key(key: &str) -> (r: Result<(), ErrorKind>)
    ensures
        r == key_check(key@),
{
    broadcast use is_ascii_spec_bytes;

    if !key.is_ascii() {
        return Err(ErrorKind::NonASCIIKey);
    }
    let bytes = key.as_bytes();
    if bytes.len() == 0 {
        return Err(ErrorKind::EmptyKey);
    }
    let r = validate_key_ident(bytes);
    proof {
        assert(bytes@ =~= Seq::new(key@.len(), |i| key@.index(i) as u8));
        assert(bytes@.len() == key@.len());
        assert forall|i: int| 0 <= i < key@.len() implies is_key_byte(#[trigger] bytes@[i])
            == is_key_char(key@[i]) by {
            let c = key@[i];
            assert(bytes@[i] == c as u8);
            assert(c <= '\u{7f}');
        }
        if r is Ok {
            assert forall|i: int| 0 <= i < key@.len() implies is_key_char(#[trigger] key@[i]) by {
                assert(is_key_byte(bytes@[i]));
            }
        } else {
            let i = choose|i: int| 0 <= i < bytes@.len() && !is_key_byte(#[trigger] bytes@[i]);
            assert(!is_key_char(key@[i]));
        }
    }
    match r {
        Ok(()) => Ok(()),
        Err(_) => Err(ErrorKind::InvalidKeyName),
    }
}

/// Checks that every byte of a key is an ASCII letter, an ASCII digit or `_`.
pub fn validate_key_ident(key_bytes: &[u8]) -> (r: Result<(), ErrorKind>)
    ensures
        r is Ok <==> forall|i: int| 0 <= i < key_bytes@.len() ==> is_key_byte(#[trigger] key_bytes@[i]),
        r is Err ==> r == Err::<(), ErrorKind>(ErrorKind::InvalidKeyName),
{
    let mut i: usize = 0;
    while i < key_bytes.len()
        invariant
            i <= key_bytes@.len(),
            forall|j: int| 0 <= j < i ==> is_key_byte(#[trigger] key_bytes@[j]),
        decreases key_bytes@.len() - i,
    {
        let b = key_bytes[i];
        let ok = (0x30 <= b && b <= 0x39) || (0x41 <= b && b <= 0x5a) || (0x61 <= b && b <= 0x7a)
            || b == 0x5f;
        if !ok {
            return Err(ErrorKind::InvalidKeyName);
        }
        i = i + 1;
    }
    Ok(())
}

} // verus!
