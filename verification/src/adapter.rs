//! The greeting operation: a fixed text, produced as an owned `String`
//! and packaged as a well-formed boundary string. The packaging runs
//! through the generic embedded-terminator check, and the proof shows
//! that for this text the check can never fail.

use vstd::prelude::*;
use vstd::string::StrSliceExecFns;
use vstd::string::StringSliceAdditionalSpecFns;
use vstd::utf8::encode_utf8;
use vstd::utf8::is_ascii_chars;
use vstd::utf8::is_ascii_chars_encode_utf8;
use crate::boundary::BoundaryString;
use crate::boundary::has_zero_byte;

verus! {

/// The greeting text, as a character sequence.
pub open spec fn greeting_text() -> Seq<char> {
    "Hello, world!"@
}

/// The greeting text as bytes: it is plain ASCII, one byte per character.
pub open spec fn greeting_bytes() -> Seq<u8> {
    seq![72u8, 101u8, 108u8, 108u8, 111u8, 44u8, 32u8, 119u8, 111u8, 114u8, 108u8, 100u8, 33u8]
}

/// The greeting text is ASCII, 13 characters long, its UTF-8 encoding is
/// exactly `greeting_bytes()`, and no byte of that encoding is zero.
pub proof fn lemma_greeting_bytes()
    ensures
        is_ascii_chars(greeting_text()),
        greeting_text().len() == 13,
        greeting_bytes().len() == 13,
        encode_utf8(greeting_text()) =~= greeting_bytes(),
        !has_zero_byte(greeting_bytes()),
{
    reveal_strlit("Hello, world!");
    assert(is_ascii_chars(greeting_text())) by {
        assert forall|i| 0 <= i < greeting_text().len() implies '\0'
            <= #[trigger] greeting_text()[i] <= '\u{7f}' by {
        }
    }
    is_ascii_chars_encode_utf8(greeting_text());
    assert(encode_utf8(greeting_text()) =~= greeting_bytes());
    assert forall|i: int| 0 <= i < greeting_bytes().len() implies greeting_bytes()[i] != 0 by {
    }
}

/// The greeting, as an owned native string.
pub fn hello_world() -> (r: String)
    ensures
        r@ == greeting_text(),
{
    "Hello, world!".to_owned()
}

/// The greeting, packaged for the boundary: a well-formed boundary
/// string whose contents are exactly the greeting's bytes. Construction
/// runs the generic embedded-terminator check; for this text the check
/// provably succeeds, so the result is total.
pub fn greeting() -> (r: BoundaryString)
    ensures
        r.well_formed(),
        r.contents() == greeting_bytes(),
        r@ == greeting_bytes().push(0u8),
{
    let s = hello_world();
    let bytes = s.as_str().as_bytes_vec();
    proof {
        lemma_greeting_bytes();
        assert(bytes@ =~= greeting_bytes());
    }
    match BoundaryString::new(bytes) {
        Ok(b) => b,
        Err(_) => vstd::pervasive::unreached(),
    }
}

} // verus!
