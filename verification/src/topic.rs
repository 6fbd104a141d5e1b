//! Names of endpoints, in the form in which the transport takes them.

use vstd::prelude::*;
use vstd::string::StringSliceAdditionalSpecFns;

verus! {

/// The bytes of a C string that holds `bytes`: `bytes`, then the terminating
/// zero.
pub open spec fn c_string_of(bytes: Seq<u8>) -> Seq<u8> {
    bytes.push(0u8)
}

/// Whether `position` is where the first zero byte of `bytes` stands.
pub open spec fn is_first_nul(bytes: Seq<u8>, position: int) -> bool {
    &&& 0 <= position < bytes.len()
    &&& bytes[position] == 0u8
    &&& forall|i: int| 0 <= i < position ==> bytes[i] != 0u8
}

/// Calls `cstr_core::CString::new` on the bytes of `name`, and on success
/// `CString::into_bytes_with_nul`, on failure `NulError::nul_position`.
///
/// The contract claims what the source of `cstr_core` shows: `new` fails
/// exactly if the bytes hold a zero, and then reports where the first one
/// stands; otherwise the string holds the bytes and one zero after them.
#[verifier::external_body]
pub(crate) fn c_string_bytes(name: &str) -> (res: Result<Vec<u8>, usize>)
    ensures
        res is Ok <==> !name.spec_bytes().contains(0u8),
        res matches Ok(bytes) ==> bytes@ == c_string_of(name.spec_bytes()),
        res matches Err(position) ==> is_first_nul(name.spec_bytes(), position as int),
{
    match cstr_core::CString::new(name) {
        Ok(c_string) => Ok(c_string.into_bytes_with_nul()),
        Err(error) => Err(error.nul_position()),
    }
}

/// Looks for a zero byte in `name`. A name without one can be handed to the
/// transport as a C string.
pub fn first_nul(name: &str) -> (res: Option<usize>)
    ensures
        res is None <==> !name.spec_bytes().contains(0u8),
        res matches Some(position) ==> is_first_nul(name.spec_bytes(), position as int),
{
    let bytes = name.as_bytes();
    let mut i: usize = 0;
    while i < bytes.len()
        invariant
            bytes@ == name.spec_bytes(),
            i <= bytes.len(),
            forall|j: int| 0 <= j < i ==> bytes@[j] != 0u8,
        decreases bytes.len() - i,
    {
        if bytes[i] == 0u8 {
            return Some(i);
        }
        i += 1;
    }
    None
}

/// The name of a topic as a C string, for the transport.
pub fn topic_c_string(topic: &str) -> (bytes: Vec<u8>)
    requires
        !topic.spec_bytes().contains(0u8),
    ensures
        bytes@ == c_string_of(topic.spec_bytes()),
{
    match c_string_bytes(topic) {
        Ok(bytes) => bytes,
        // Not reached: only a name with a zero byte fails to convert.
        Err(_) => Vec::new(),
    }
}

} // verus!
