//! From the bytes of an authorization header to the credential it carries.

use crate::auth::error::AuthenticationError;
use vstd::prelude::*;

verus! {

/// A byte that may stand in a header read as text: a printable ASCII
/// character, a space or a tab.
pub open spec fn is_visible(byte: u8) -> bool {
    (32 <= byte && byte < 127) || byte == 9
}

/// Every byte of the header value may stand in text.
pub open spec fn is_text(value: Seq<u8>) -> bool {
    forall|i: int| 0 <= i < value.len() ==> is_visible(#[trigger] value[i])
}

/// The characters that a header value spells, one for each byte.
pub open spec fn text_of(value: Seq<u8>) -> Seq<char> {
    Seq::new(value.len(), |i: int| value[i] as char)
}

/// The credential that a request presents: the text of its authorization
/// header. A request without the header has chosen no method of
/// authentication; a header that is not text is a failed attempt.
pub open spec fn credential_of(header: Option<Seq<u8>>) -> Result<Seq<char>, AuthenticationError> {
    match header {
        None => Err(AuthenticationError::InvalidAuthMethod),
        Some(value) => if is_text(value) {
            Ok(text_of(value))
        } else {
            Err(AuthenticationError::InvalidCredentials)
        },
    }
}

/// Appends one character through `String::push`: the string afterwards is
/// the string before with `c` at its end.
#[verifier::external_body]
fn push_char(text: &mut String, c: char)
    ensures
        final(text)@ == old(text)@.push(c),
{
    text.push(c);
}

/// Reads a header value as text, if every byte of it may stand in text.
pub fn header_text(value: &[u8]) -> (text: Option<String>)
    ensures
        match text {
            Some(t) => is_text(value@) && t@ == text_of(value@),
            None => !is_text(value@),
        },
{
    let mut text = String::new();
    let mut i: usize = 0;
    while i < value.len()
        invariant
            i <= value@.len(),
            text@ == text_of(value@.subrange(0, i as int)),
            is_text(value@.subrange(0, i as int)),
        decreases value@.len() - i,
    {
        let byte = value[i];
        if !((32 <= byte && byte < 127) || byte == 9) {
            return None;
        }
        push_char(&mut text, byte as char);
        proof {
            let before = value@.subrange(0, i as int);
            let after = value@.subrange(0, i + 1);
            assert(after =~= before.push(byte));
            assert(text_of(after) =~= text_of(before).push(byte as char));
            assert forall|j: int| 0 <= j < after.len() implies is_visible(#[trigger] after[j]) by {
                if j < i {
                    assert(after[j] == before[j]);
                }
            }
        }
        i += 1;
    }
    assert(value@.subrange(0, i as int) =~= value@);
    Some(text)
}

/// The bytes of a header, if the request has it.
pub open spec fn header_bytes(header: Option<&[u8]>) -> Option<Seq<u8>> {
    match header {
        Some(value) => Some(value@),
        None => None,
    }
}

/// Reads the credential from the authorization header of a request, absent
/// or present.
pub fn credential_of_header(header: Option<&[u8]>) -> (credential: Result<
    String,
    AuthenticationError,
>)
    ensures
        match credential {
            Ok(text) => credential_of(header_bytes(header)) == Ok::<
                Seq<char>,
                AuthenticationError,
            >(text@),
            Err(e) => credential_of(header_bytes(header)) == Err::<Seq<char>, AuthenticationError>(
                e,
            ),
        },
{
    match header {
        None => Err(AuthenticationError::InvalidAuthMethod),
        Some(value) => match header_text(value) {
            Some(text) => Ok(text),
            None => Err(AuthenticationError::InvalidCredentials),
        },
    }
}

} // verus!
