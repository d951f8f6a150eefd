//! Strings that can be handed to C: their UTF-8 bytes hold no NUL.
//!
//! A name that reaches the C side of the layout engine is read up to its
//! first NUL byte, so a string holding one is refused, and the refusal
//! reports where the first NUL stands and the bytes that held it.

use vstd::prelude::*;
use vstd::utf8::encode_utf8;
use vstd::slice::slice_to_vec;

verus! {

/// The UTF-8 bytes of a string.
pub open spec fn utf8_bytes(s: String) -> Seq<u8> {
    encode_utf8(s@)
}

/// Some byte is NUL.
pub open spec fn has_nul(bytes: Seq<u8>) -> bool {
    exists|i: int| 0 <= i < bytes.len() && bytes[i] == 0
}

/// `position` is where the first NUL byte stands.
pub open spec fn is_first_nul(bytes: Seq<u8>, position: int) -> bool {
    &&& 0 <= position < bytes.len()
    &&& bytes[position] == 0
    &&& forall|i: int| 0 <= i < position ==> bytes[i] != 0
}

/// A character sequence whose UTF-8 bytes can be handed to C.
pub open spec fn c_safe(chars: Seq<char>) -> bool {
    !has_nul(encode_utf8(chars))
}

/// Every string of the sequence can be handed to C.
pub open spec fn all_nul_free(strings: Seq<String>) -> bool {
    forall|i: int| 0 <= i < strings.len() ==> !has_nul(#[trigger] utf8_bytes(strings[i]))
}

/// `k` is the first string of the sequence that holds a NUL byte.
pub open spec fn is_first_with_nul(strings: Seq<String>, k: int) -> bool {
    &&& 0 <= k < strings.len()
    &&& has_nul(utf8_bytes(strings[k]))
    &&& forall|i: int| 0 <= i < k ==> !has_nul(#[trigger] utf8_bytes(strings[i]))
}

/// What a refusal records: where the first NUL stands and the refused bytes.
pub struct NulErrorView {
    pub position: usize,
    pub bytes: Seq<u8>,
}

/// `e` is the refusal of the string `s`.
pub open spec fn refuses(s: String, e: NulErrorView) -> bool {
    &&& e.bytes == utf8_bytes(s)
    &&& is_first_nul(e.bytes, e.position as int)
}

/// `e` is the refusal of the first string of `strings` that holds a NUL.
pub open spec fn refuses_first(strings: Seq<String>, e: NulErrorView) -> bool {
    exists|k: int| is_first_with_nul(strings, k) && refuses(#[trigger] strings[k], e)
}

/// A string was refused because one of its bytes is NUL.
#[derive(Debug)]
pub struct NulError {
    position: usize,
    bytes: Vec<u8>,
}

impl View for NulError {
    type V = NulErrorView;

    closed spec fn view(&self) -> NulErrorView {
        NulErrorView { position: self.position, bytes: self.bytes@ }
    }
}

impl NulError {
    /// Where the first NUL byte stands in the refused bytes.
    pub fn nul_position(&self) -> (position: usize)
        ensures
            position == self@.position,
    {
        self.position
    }

    /// The refused bytes.
    pub fn into_vec(self) -> (bytes: Vec<u8>)
        ensures
            bytes@ == self@.bytes,
    {
        self.bytes
    }
}

/// The refusal of `s`, if its bytes hold a NUL.
pub fn find_nul(s: &String) -> (found: Option<NulError>)
    ensures
        found is None <==> !has_nul(utf8_bytes(*s)),
        found matches Some(e) ==> refuses(*s, e@),
{
    let bytes: &[u8] = s.as_str().as_bytes();
    assert(bytes@ == utf8_bytes(*s));
    let len = bytes.len();
    let mut i: usize = 0;
    while i < len
        invariant
            len == bytes@.len(),
            bytes@ == utf8_bytes(*s),
            i <= len,
            forall|j: int| 0 <= j < i ==> bytes@[j] != 0,
        decreases len - i,
    {
        if bytes[i] == 0 {
            let copied = slice_to_vec(bytes);
            assert(bytes@[i as int] == 0);
            return Some(NulError { position: i, bytes: copied });
        }
        i = i + 1;
    }
    None
}

/// Hands `s` back when it can be given to C; refuses it otherwise.
pub fn into_c_string(s: String) -> (res: Result<String, NulError>)
    ensures
        res is Ok <==> !has_nul(utf8_bytes(s)),
        res matches Ok(t) ==> t == s,
        res matches Err(e) ==> refuses(s, e@),
{
    match find_nul(&s) {
        Some(e) => Err(e),
        None => Ok(s),
    }
}

/// Hands the strings back when each can be given to C; otherwise refuses the
/// first that cannot.
pub fn strings_to_cstrings(strings: Vec<String>) -> (res: Result<Vec<String>, NulError>)
    ensures
        res is Ok <==> all_nul_free(strings@),
        res matches Ok(v) ==> v@ == strings@,
        res matches Err(e) ==> refuses_first(strings@, e@),
{
    let len = strings.len();
    let mut i: usize = 0;
    while i < len
        invariant
            len == strings@.len(),
            i <= len,
            forall|j: int| 0 <= j < i ==> !has_nul(#[trigger] utf8_bytes(strings@[j])),
        decreases len - i,
    {
        match find_nul(&strings[i]) {
            Some(e) => {
                assert(is_first_with_nul(strings@, i as int));
                return Err(e);
            },
            None => {},
        }
        i = i + 1;
    }
    Ok(strings)
}

} // verus!
