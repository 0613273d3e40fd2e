//! Host strings in their marshaled form.
//!
//! The host keeps a string in a buffer of its own and trades it with the
//! binding as UTF-8 bytes with an explicit length: bytes and length go in
//! when a host string is made from text, and come back in two steps, a
//! measuring call and a filling call, when text is read from a host string.
//! [`GodotString`] is that marshaled form; the calls themselves are made by
//! the embedding.

use vstd::prelude::*;
use vstd::string::*;
use vstd::utf8::*;
use vstd::std_specs::convert::FromSpecImpl;
use std::convert::Infallible;
use std::string::FromUtf8Error;
use crate::text::{append_signed, signed_digits};

verus! {

#[verifier::external_type_specification]
#[verifier::external_body]
pub struct ExFromUtf8Error(FromUtf8Error);

/// `String::from_utf8` succeeds exactly on well-formed UTF-8 and then
/// returns the text that the bytes encode.
pub assume_specification[ String::from_utf8 ](bytes: Vec<u8>) -> (text: Result<
    String,
    FromUtf8Error,
>)
    ensures
        text is Ok <==> valid_utf8(bytes@),
        text matches Ok(decoded) ==> decoded@ == decode_utf8(bytes@),
;

/// The host answered a measuring call with a negative length.
#[derive(Clone, Copy, Debug, PartialEq, Eq, Structural)]
pub struct NegativeLength {
    pub reported: i64,
}

/// The diagnostic for a negative length.
pub open spec fn negative_length_message(reported: i64) -> Seq<char> {
    "host reported a negative string length: "@ + signed_digits(reported as int)
}

impl NegativeLength {
    /// The diagnostic to terminate with.
    pub fn message(&self) -> (text: String)
        ensures
            text@ == negative_length_message(self.reported),
    {
        let mut text = String::from_str("host reported a negative string length: ");
        append_signed(&mut text, self.reported);
        text
    }
}

/// The bytes of a C string for `bytes`: the bytes, then the terminator.
pub open spec fn c_string_bytes(bytes: Seq<u8>) -> Seq<u8> {
    bytes.push(0u8)
}

/// The buffer for a filling call that follows a measuring call which
/// reported `measured` bytes: exactly that many bytes, all zero.
pub open spec fn zeroed(measured: int) -> Seq<u8> {
    Seq::new(measured as nat, |i: int| 0u8)
}

/// The buffer to hand to the filling call, once the measuring call has
/// reported `measured`. A negative length is fatal.
pub fn read_buffer(measured: i64) -> (buffer: Result<Vec<u8>, NegativeLength>)
    requires
        measured <= usize::MAX,
    ensures
        measured < 0 ==> buffer == Err::<Vec<u8>, NegativeLength>(
            NegativeLength { reported: measured },
        ),
        measured >= 0 ==> (buffer matches Ok(bytes) && bytes@ == zeroed(measured as int)),
{
    if measured < 0 {
        Err(NegativeLength { reported: measured })
    } else {
        let bytes = vec![0u8; measured as usize];
        assert(bytes@ =~= zeroed(measured as int));
        Ok(bytes)
    }
}

/// A host string as it crosses the boundary: well-formed UTF-8.
#[derive(Debug)]
pub struct GodotString {
    utf8: Vec<u8>,
}

impl View for GodotString {
    type V = Seq<char>;

    /// The text that the string holds.
    open spec fn view(&self) -> Seq<char> {
        decode_utf8(self.spec_bytes())
    }
}

impl GodotString {
    #[verifier::type_invariant]
    spec fn inv(self) -> bool {
        valid_utf8(self.utf8@)
    }

    /// The bytes that are traded with the host.
    pub closed spec fn spec_bytes(&self) -> Seq<u8> {
        self.utf8@
    }

    /// The empty string.
    pub fn new() -> (string: Self)
        ensures
            string@ == Seq::<char>::empty(),
            string.spec_bytes() == Seq::<u8>::empty(),
    {
        let utf8: Vec<u8> = Vec::new();
        assert(valid_utf8(utf8@));
        assert(decode_utf8(utf8@) =~= Seq::<char>::empty());
        GodotString { utf8 }
    }

    /// The host string that a filling call left in `buffer`. The host
    /// promises well-formed UTF-8 there; the bytes are taken as they are.
    pub fn from_filled(buffer: Vec<u8>) -> (string: Self)
        requires
            valid_utf8(buffer@),
        ensures
            string.spec_bytes() == buffer@,
            string@ == decode_utf8(buffer@),
    {
        GodotString { utf8: buffer }
    }

    /// The bytes to hand to the host when it makes a string of this one.
    pub fn as_utf8(&self) -> (bytes: &Vec<u8>)
        ensures
            bytes@ == self.spec_bytes(),
            valid_utf8(bytes@),
    {
        proof {
            use_type_invariant(self);
        }
        &self.utf8
    }

    /// The length to hand to the host along with the bytes.
    pub fn native_len(&self) -> (len: i64)
        requires
            self.spec_bytes().len() <= i64::MAX,
        ensures
            len == self.spec_bytes().len(),
    {
        self.utf8.len() as i64
    }

    /// The text of the string.
    pub fn to_string(&self) -> (text: String)
        ensures
            text@ == self@,
    {
        proof {
            use_type_invariant(self);
        }
        match String::from_utf8(self.utf8.clone()) {
            Ok(text) => text,
            Err(_) => String::new(),
        }
    }

    /// Whether the text holds a NUL, which a C string cannot carry.
    pub fn has_interior_nul(&self) -> (found: bool)
        ensures
            found == self.spec_bytes().contains(0u8),
    {
        let mut i: usize = 0;
        while i < self.utf8.len()
            invariant
                i <= self.utf8.len(),
                forall|j: int| 0 <= j < i ==> self.utf8@[j] != 0u8,
            decreases self.utf8.len() - i,
        {
            if self.utf8[i] == 0 {
                return true;
            }
            i += 1;
        }
        false
    }

    /// The bytes of a C string with this text, for an embedder interface
    /// that takes text as a NUL-terminated buffer. Transitional: the
    /// embedding gives the buffer away to the host and never frees it.
    pub fn leak_c_string(&self) -> (bytes: Vec<u8>)
        requires
            !self.spec_bytes().contains(0u8),
        ensures
            bytes@ == c_string_bytes(self.spec_bytes()),
    {
        let mut bytes = self.utf8.clone();
        assert(bytes@ =~= self.utf8@);
        bytes.push(0u8);
        bytes
    }
}

impl Clone for GodotString {
    fn clone(&self) -> (copy: Self)
        ensures
            copy.spec_bytes() == self.spec_bytes(),
            copy@ == self@,
    {
        proof {
            use_type_invariant(self);
        }
        let utf8 = self.utf8.clone();
        assert(utf8@ =~= self.utf8@);
        GodotString { utf8 }
    }
}

impl From<&str> for GodotString {
    /// The host string for a text: the text's UTF-8 bytes.
    fn from(val: &str) -> (string: Self)
        ensures
            string@ == val@,
            string.spec_bytes() == encode_utf8(val@),
    {
        broadcast use {encode_utf8_valid_utf8, encode_utf8_decode_utf8};

        let utf8 = val.as_bytes_vec();
        GodotString { utf8 }
    }
}

/// Two host strings with the same bytes are not known to be one value, so
/// the conversion is stated over the bytes, on `from` itself.
impl FromSpecImpl<&str> for GodotString {
    open spec fn obeys_from_spec() -> bool {
        false
    }

    open spec fn from_spec(val: &str) -> Self {
        choose|string: GodotString| string.spec_bytes() == encode_utf8(val@)
    }
}

impl From<String> for GodotString {
    /// The host string for a text: the text's UTF-8 bytes.
    fn from(s: String) -> (string: Self)
        ensures
            string@ == s@,
            string.spec_bytes() == encode_utf8(s@),
    {
        broadcast use {encode_utf8_valid_utf8, encode_utf8_decode_utf8};

        let utf8 = s.as_str().as_bytes_vec();
        GodotString { utf8 }
    }
}

impl FromSpecImpl<String> for GodotString {
    open spec fn obeys_from_spec() -> bool {
        false
    }

    open spec fn from_spec(s: String) -> Self {
        choose|string: GodotString| string.spec_bytes() == encode_utf8(s@)
    }
}

impl From<&GodotString> for String {
    fn from(string: &GodotString) -> (text: String)
        ensures
            text@ == string@,
    {
        string.to_string()
    }
}

/// Two texts with the same characters are not known to be one value, so the
/// conversion is stated over the characters, on `from` itself.
impl FromSpecImpl<&GodotString> for String {
    open spec fn obeys_from_spec() -> bool {
        false
    }

    open spec fn from_spec(string: &GodotString) -> String {
        choose|text: String| text@ == string@
    }
}

impl std::str::FromStr for GodotString {
    type Err = Infallible;

    fn from_str(s: &str) -> (string: Result<Self, Infallible>)
        ensures
            string matches Ok(made) && made@ == s@ && made.spec_bytes() == encode_utf8(s@),
    {
        let made: GodotString = From::from(s);
        Ok(made)
    }
}

impl Default for GodotString {
    fn default() -> (string: Self)
        ensures
            string@ == Seq::<char>::empty(),
            string.spec_bytes() == Seq::<u8>::empty(),
    {
        GodotString::new()
    }
}

/// Text comes back unchanged from its marshaled form: the bytes that go to
/// the host are well-formed, and decoding them gives the text again.
pub proof fn law_round_trip(text: Seq<char>)
    ensures
        valid_utf8(encode_utf8(text)),
        decode_utf8(encode_utf8(text)) == text,
{
    broadcast use {encode_utf8_valid_utf8, encode_utf8_decode_utf8};

}

/// The marshaled form determines the text and the text determines the
/// marshaled form: two well-formed byte strings that decode to the same text
/// are the same bytes.
pub proof fn law_marshaled_form_is_unique(first: Seq<u8>, second: Seq<u8>)
    requires
        valid_utf8(first),
        valid_utf8(second),
        decode_utf8(first) == decode_utf8(second),
    ensures
        first == second,
{
    decode_utf8_encode_utf8(first);
    decode_utf8_encode_utf8(second);
}

/// A C string ends in a NUL, and that NUL is its only one exactly when the
/// text holds none: only then does a reader that stops at the first NUL see
/// the whole text.
pub proof fn law_c_string_terminator(bytes: Seq<u8>)
    ensures
        c_string_bytes(bytes).len() == bytes.len() + 1,
        c_string_bytes(bytes).last() == 0u8,
        c_string_bytes(bytes).subrange(0, bytes.len() as int) == bytes,
        !bytes.contains(0u8) <==> (forall|i: int|
            0 <= i < bytes.len() ==> #[trigger] c_string_bytes(bytes)[i] != 0u8),
{
    let all = c_string_bytes(bytes);
    assert(all.subrange(0, bytes.len() as int) =~= bytes);
    if bytes.contains(0u8) {
        let at = bytes.index_of(0u8);
        assert(0 <= at < bytes.len() && bytes[at] == 0u8);
        assert(all[at] == 0u8);
    } else {
        assert forall|i: int| 0 <= i < bytes.len() implies #[trigger] all[i] != 0u8 by {
            assert(bytes[i] == all[i]);
        }
    }
}

} // verus!
