//! What the store hands back in C++ containers, as plain values.
use cxx::CxxString;
use cxx::CxxVector;
use vstd::prelude::*;
use vstd::slice::slice_to_vec;
use vstd::utf8::*;

verus! {

/// `cxx::CxxVector`, the binding to a C++ vector: opaque here.
#[verifier::external_type_specification]
#[verifier::external_body]
#[verifier::reject_recursive_types(T)]
pub struct ExCxxVector<T>(cxx::CxxVector<T>);

/// `cxx::CxxString`, the binding to a C++ string: opaque here.
#[verifier::external_type_specification]
#[verifier::external_body]
pub struct ExCxxString(cxx::CxxString);

/// The bytes that a C++ vector of bytes holds, in order.
pub uninterp spec fn vector_bytes(v: &CxxVector<u8>) -> Seq<u8>;

/// The byte strings that a C++ vector of strings holds, in order.
pub uninterp spec fn vector_strings(v: &CxxVector<CxxString>) -> Seq<Seq<u8>>;

/// The bytes that a C++ string holds.
pub uninterp spec fn string_bytes(s: &CxxString) -> Seq<u8>;

/// The text that the lossy conversion makes of bytes: where they are not
/// well-formed UTF-8, each ill-formed stretch gives way to U+FFFD.
pub uninterp spec fn utf8_lossy(bytes: Seq<u8>) -> Seq<char>;

/// `cxx::CxxVector::as_slice`, believed to give the elements of the vector
/// in order.
#[verifier::external_body]
fn vector_as_slice<'a>(v: &'a CxxVector<u8>) -> (r: &'a [u8])
    ensures
        r@ == vector_bytes(v),
{
    v.as_slice()
}

/// `cxx::CxxVector::len`, believed to give the number of elements.
#[verifier::external_body]
fn vector_len(v: &CxxVector<CxxString>) -> (n: usize)
    ensures
        n == vector_strings(v).len(),
{
    v.len()
}

/// `cxx::CxxVector::get`, believed to give the element at `pos`, and none
/// exactly when `pos` is past the end.
#[verifier::external_body]
fn vector_get<'a>(v: &'a CxxVector<CxxString>, pos: usize) -> (r: Option<&'a CxxString>)
    ensures
        r is Some <==> pos < vector_strings(v).len(),
        r matches Some(s) ==> string_bytes(s) == vector_strings(v)[pos as int],
{
    v.get(pos)
}

/// `cxx::CxxString::to_string_lossy`, believed to give a text that depends
/// on nothing but the bytes of the string, and that is what those bytes
/// encode where they are well-formed UTF-8.
#[verifier::external_body]
fn string_lossy(s: &CxxString) -> (r: String)
    ensures
        r@ == utf8_lossy(string_bytes(s)),
        valid_utf8(string_bytes(s)) ==> r@ == decode_utf8(string_bytes(s)),
{
    s.to_string_lossy().into_owned()
}

/// The bytes of a blob as the store returned them.
pub fn blob_bytes(native: &CxxVector<u8>) -> (bytes: Vec<u8>)
    ensures
        bytes@ == vector_bytes(native),
{
    slice_to_vec(vector_as_slice(native))
}

/// Whether `text` is what the lossy conversion makes of `bytes`.
pub open spec fn is_lossy_text(bytes: Seq<u8>, text: Seq<char>) -> bool {
    &&& text == utf8_lossy(bytes)
    &&& valid_utf8(bytes) ==> text == decode_utf8(bytes)
}

/// The names that the store returned, in its order. A name that is
/// well-formed UTF-8 is decoded as it stands; any other is converted
/// lossily.
pub fn names_lossy(native: &CxxVector<CxxString>) -> (names: Vec<String>)
    ensures
        names@.len() == vector_strings(native).len(),
        forall|i: int|
            0 <= i < names@.len() ==> is_lossy_text(vector_strings(native)[i], #[trigger] names@[i]@),
{
    let n: usize = vector_len(native);
    let mut names: Vec<String> = Vec::new();
    let mut i: usize = 0;
    while i < n
        invariant
            i <= n,
            n == vector_strings(native).len(),
            names@.len() == i,
            forall|k: int|
                0 <= k < i ==> is_lossy_text(vector_strings(native)[k], #[trigger] names@[k]@),
        decreases n - i,
    {
        if let Some(s) = vector_get(native, i) {
            names.push(string_lossy(s));
        }
        i = i + 1;
    }
    names
}

} // verus!
