//! The decisions of the flat C entry points.
//!
//! Every entry point answers 0 for success and -1 for failure; results that
//! do not fit a return value travel through out-parameters. What the caller
//! passes by pointer is modelled by plain values: a C string by the bytes
//! before its terminator, a buffer by its bytes, and a null pointer by `None`.
use crate::call::Outcome;
use crate::call::Step;
use crate::call::StoreCall;
use crate::call::StoreCallView;
use crate::call::TagCall;
use crate::call::TagOpView;
use crate::json::any_nul;
use crate::json::json_array;
use crate::json::json_array_text;
use crate::json::lemma_json_array_nul;
use crate::json::lemma_json_array_round_trip;
use crate::json::parse_json_array;
use crate::json::texts;
use crate::text::c_string;
use crate::text::c_text;
use crate::text::cstr_to_str;
use crate::wrapper::init;
use crate::wrapper::init_reply;
use crate::wrapper::Client;
use crate::wrapper::Tag;
use vstd::prelude::*;
use vstd::string::StringExecFns;
use vstd::utf8::decode_utf8;
use vstd::utf8::encode_utf8;
use vstd::utf8::encode_utf8_decode_utf8;
use vstd::utf8::encode_utf8_valid_utf8;
use vstd::utf8::valid_utf8;

verus! {

/// Return value of an entry point that succeeded.
pub const SUCCESS: i32 = 0;

/// Return value of an entry point that failed.
pub const FAILURE: i32 = -1;

/// The return value for a native call that reports by a flag: success only
/// where the call came back and came back with `true`.
pub open spec fn flag_code(outcome: Outcome<bool>) -> i32 {
    match outcome {
        Outcome::Returned(true) => SUCCESS,
        _ => FAILURE,
    }
}

fn code_of_flag(outcome: Outcome<bool>) -> (code: i32)
    ensures
        code == flag_code(outcome),
{
    match outcome {
        Outcome::Returned(true) => SUCCESS,
        _ => FAILURE,
    }
}

/// Initialization: a null configuration path stands for the empty one, and
/// a path that is not text is refused.
pub fn cte_c_init<'a>(config: Option<&'a [u8]>) -> (step: Step<StoreCall<'a>, i32>)
    ensures
        match config {
            None => step matches Step::Call(call) && call@ == (StoreCallView::Init {
                config_path: Seq::empty(),
            }),
            Some(_) => match c_text(config) {
                Some(path) => step matches Step::Call(call) && call@ == (StoreCallView::Init {
                    config_path: path,
                }),
                None => step matches Step::Return(code) && code == FAILURE,
            },
        },
{
    match config {
        None => {
            proof {
                reveal_strlit("");
                assert(""@ =~= Seq::<char>::empty());
            }
            Step::Call(init(""))
        },
        Some(_) => match cstr_to_str(config) {
            Ok(path) => Step::Call(init(path)),
            Err(_) => Step::Return(FAILURE),
        },
    }
}

/// Return value of initialization: success only where the store came back
/// and reported that it started.
pub fn cte_c_init_reply(outcome: Outcome<bool>) -> (code: i32)
    ensures
        code == flag_code(outcome),
{
    match outcome {
        Outcome::Returned(started) => match init_reply(started) {
            Ok(_) => SUCCESS,
            Err(_) => FAILURE,
        },
        Outcome::Fault(_) => FAILURE,
    }
}

/// What creating a tag hands to the caller: the handle, or none for the
/// null handle, and the line to print where a fault was contained.
#[derive(Debug)]
pub struct NewTag<H> {
    pub handle: Option<Box<Tag<H>>>,
    pub diagnostic: Option<String>,
}

/// The message of a contained fault, as far as it carried one.
pub open spec fn fault_message(message: Option<String>) -> Seq<char> {
    match message {
        Some(text) => text@,
        None => "unknown panic"@,
    }
}

/// The line that reports a fault contained while a tag was created.
pub open spec fn tag_new_diagnostic(message: Option<String>) -> Seq<char> {
    "cte_c_tag_new panic: "@ + fault_message(message)
}

/// Creating or opening a tag by name: a name that is null or not text gives
/// the null handle.
pub fn cte_c_tag_new<'a, H>(name: Option<&'a [u8]>) -> (step: Step<StoreCall<'a>, NewTag<H>>)
    ensures
        match c_text(name) {
            Some(text) => step matches Step::Call(call) && call@ == (StoreCallView::TagNew {
                tag_name: text,
            }),
            None => {
                &&& step matches Step::Return(made)
                &&& made.handle is None
                &&& made.diagnostic is None
            },
        },
{
    match cstr_to_str(name) {
        Ok(text) => Step::Call(Tag::<H>::new(text)),
        Err(_) => Step::Return(NewTag { handle: None, diagnostic: None }),
    }
}

/// The handle for a created tag: the native object boxed behind a handle of
/// its own, or the null handle and a diagnostic where the store faulted.
pub fn cte_c_tag_new_reply<H>(outcome: Outcome<H>) -> (made: NewTag<H>)
    ensures
        match outcome {
            Outcome::Returned(native) => {
                &&& made.diagnostic is None
                &&& made.handle matches Some(tag) && tag.native_spec() == native
            },
            Outcome::Fault(message) => {
                &&& made.handle is None
                &&& made.diagnostic matches Some(line) && line@ == tag_new_diagnostic(message)
            },
        },
{
    match outcome {
        Outcome::Returned(native) => NewTag {
            handle: Some(Box::new(Tag::adopt(native))),
            diagnostic: None,
        },
        Outcome::Fault(message) => {
            let mut line = String::from_str("cte_c_tag_new panic: ");
            match &message {
                Some(text) => line.append(text.as_str()),
                None => line.append("unknown panic"),
            }
            NewTag { handle: None, diagnostic: Some(line) }
        },
    }
}

/// Releases a handle together with the native object it owns. The null
/// handle is accepted and nothing happens.
pub fn cte_c_tag_free<H>(tag: Option<Box<Tag<H>>>) {
}

/// Releases a C string that was handed out with a listing. The null pointer
/// is accepted and nothing happens.
pub fn cte_c_free_string(text: Option<Vec<u8>>) {
}

/// Writing a blob: refused for a null handle, a null data pointer, and a
/// name that is null or not text.
pub fn cte_c_tag_put_blob<'a, H>(
    tag: Option<&'a Tag<H>>,
    name: Option<&'a [u8]>,
    data: Option<&'a [u8]>,
    offset: u64,
    score_bits: u32,
) -> (step: Step<TagCall<'a, H>, i32>)
    ensures
        match (tag, data, c_text(name)) {
            (Some(tag), Some(data), Some(name)) => step matches Step::Call(call) && call.tag == tag
                && call.op@ == (TagOpView::PutBlob { name, data: data@, offset, score_bits }),
            _ => step matches Step::Return(code) && code == FAILURE,
        },
{
    match (tag, data) {
        (Some(tag), Some(data)) => match cstr_to_str(name) {
            Ok(name) => Step::Call(tag.put_blob_with_options(name, data, offset, score_bits)),
            Err(_) => Step::Return(FAILURE),
        },
        _ => Step::Return(FAILURE),
    }
}

/// Return value of writing a blob: success where the store came back.
pub fn cte_c_tag_put_blob_reply(outcome: Outcome<()>) -> (code: i32)
    ensures
        code == if outcome is Returned {
            SUCCESS
        } else {
            FAILURE
        },
{
    match outcome {
        Outcome::Returned(_) => SUCCESS,
        Outcome::Fault(_) => FAILURE,
    }
}

/// Asking for the size of a blob: 0 for a null handle and for a name that
/// is null or not text.
pub fn cte_c_tag_get_blob_size<'a, H>(
    tag: Option<&'a Tag<H>>,
    name: Option<&'a [u8]>,
) -> (step: Step<TagCall<'a, H>, u64>)
    ensures
        match (tag, c_text(name)) {
            (Some(tag), Some(name)) => step matches Step::Call(call) && call.tag == tag
                && call.op@ == (TagOpView::GetBlobSize { name }),
            _ => step matches Step::Return(size) && size == 0,
        },
{
    match tag {
        Some(tag) => match cstr_to_str(name) {
            Ok(name) => Step::Call(tag.get_blob_size(name)),
            Err(_) => Step::Return(0),
        },
        None => Step::Return(0),
    }
}

/// The size of a blob as the store gave it, or 0 where the store faulted.
pub fn cte_c_tag_get_blob_size_reply(outcome: Outcome<u64>) -> (size: u64)
    ensures
        size == match outcome {
            Outcome::Returned(n) => n,
            Outcome::Fault(_) => 0,
        },
{
    match outcome {
        Outcome::Returned(n) => n,
        Outcome::Fault(_) => 0,
    }
}

/// Reading a blob into the caller's buffer, of which `capacity` is the
/// declared size, or `None` for a null pointer. Refused for a null handle,
/// a null buffer, and a name that is null or not text; otherwise the store
/// is asked for as many bytes as the buffer takes.
pub fn cte_c_tag_get_blob<'a, H>(
    tag: Option<&'a Tag<H>>,
    name: Option<&'a [u8]>,
    capacity: Option<u64>,
    offset: u64,
) -> (step: Step<TagCall<'a, H>, i32>)
    ensures
        match (tag, capacity, c_text(name)) {
            (Some(tag), Some(size), Some(name)) => step matches Step::Call(call) && call.tag == tag
                && call.op@ == (TagOpView::GetBlob { name, size, offset }),
            _ => step matches Step::Return(code) && code == FAILURE,
        },
{
    match (tag, capacity) {
        (Some(tag), Some(size)) => match cstr_to_str(name) {
            Ok(name) => Step::Call(tag.get_blob_with_offset(name, size, offset)),
            Err(_) => Step::Return(FAILURE),
        },
        _ => Step::Return(FAILURE),
    }
}

/// How many bytes go into a buffer of `capacity` bytes when `available`
/// bytes were read.
pub open spec fn copy_len(available: nat, capacity: nat) -> nat {
    if available <= capacity {
        available
    } else {
        capacity
    }
}

/// A buffer after the bytes read were copied to its front: as many as it
/// takes, the rest of it untouched.
pub open spec fn copied(data: Seq<u8>, buf: Seq<u8>) -> Seq<u8> {
    let n = copy_len(data.len(), buf.len()) as int;
    data.take(n) + buf.skip(n)
}

/// The copy neither grows nor shrinks the buffer, and where more bytes were
/// read than the buffer takes, the buffer ends up holding exactly the
/// leading bytes that fit.
pub proof fn lemma_copy_truncates(data: Seq<u8>, buf: Seq<u8>)
    ensures
        copied(data, buf).len() == buf.len(),
        buf.len() <= data.len() ==> copied(data, buf) == data.take(buf.len() as int),
        data.len() <= buf.len() ==> copied(data, buf).take(data.len() as int) == data,
{
    if buf.len() <= data.len() {
        assert(copied(data, buf) =~= data.take(buf.len() as int));
    }
    if data.len() <= buf.len() {
        assert(copied(data, buf).take(data.len() as int) =~= data);
    }
}

/// Copies what the store read into the caller's buffer and gives the return
/// value. Bytes beyond the buffer's size are dropped without notice; a
/// fault leaves the buffer as it was.
pub fn cte_c_tag_get_blob_reply(outcome: Outcome<Vec<u8>>, buf: &mut [u8]) -> (code: i32)
    ensures
        match outcome {
            Outcome::Returned(data) => code == SUCCESS && final(buf)@ == copied(data@, old(buf)@),
            Outcome::Fault(_) => code == FAILURE && final(buf)@ == old(buf)@,
        },
{
    match outcome {
        Outcome::Returned(data) => {
            let n: usize = if data.len() <= buf.len() {
                data.len()
            } else {
                buf.len()
            };
            let mut i: usize = 0;
            while i < n
                invariant
                    i <= n,
                    n <= data@.len(),
                    n <= buf@.len(),
                    buf@.len() == old(buf)@.len(),
                    buf@ == data@.take(i as int) + old(buf)@.skip(i as int),
                decreases n - i,
            {
                buf[i] = data[i];
                i = i + 1;
                assert(buf@ =~= data@.take(i as int) + old(buf)@.skip(i as int));
            }
            assert(buf@ =~= copied(data@, old(buf)@));
            SUCCESS
        },
        Outcome::Fault(_) => FAILURE,
    }
}

/// Listing the blobs of a tag: refused for a null handle and where the
/// caller gave no place to put the listing.
pub fn cte_c_tag_get_contained_blobs<'a, H>(
    tag: Option<&'a Tag<H>>,
    has_out: bool,
) -> (step: Step<TagCall<'a, H>, i32>)
    ensures
        match tag {
            Some(tag) if has_out => step matches Step::Call(call) && call.tag == tag && call.op@
                == TagOpView::GetContainedBlobs,
            _ => step matches Step::Return(code) && code == FAILURE,
        },
{
    match tag {
        Some(tag) => if has_out {
            Step::Call(tag.get_contained_blobs())
        } else {
            Step::Return(FAILURE)
        },
        None => Step::Return(FAILURE),
    }
}

/// The bytes of the C string that lists the names: the UTF-8 encoding of
/// the JSON array, and the terminator.
pub open spec fn listing_bytes(names: Seq<Seq<char>>) -> Seq<u8> {
    encode_utf8(json_array_text(names)).push(0u8)
}

/// A listing reads back as the names it was written for: the bytes before
/// the terminator are well-formed UTF-8, and the text they encode is the
/// array of exactly these names, whatever characters they hold.
pub proof fn lemma_listing_reads_back(names: Seq<Seq<char>>)
    ensures
        listing_bytes(names).last() == 0u8,
        valid_utf8(listing_bytes(names).drop_last()),
        parse_json_array(decode_utf8(listing_bytes(names).drop_last())) == Some(names),
{
    let json = json_array_text(names);
    assert(listing_bytes(names).drop_last() =~= encode_utf8(json));
    encode_utf8_valid_utf8(json);
    encode_utf8_decode_utf8(json);
    lemma_json_array_round_trip(names);
}

/// The listing for the caller: the names as a JSON array in an owned C
/// string. It fails where the store faulted and where a name holds the NUL
/// character, which a C string cannot carry; nothing is handed out then.
pub fn cte_c_tag_get_contained_blobs_reply(
    outcome: Outcome<Vec<String>>,
) -> (r: (i32, Option<Vec<u8>>))
    ensures
        match outcome {
            Outcome::Returned(names) => {
                if any_nul(texts(names@)) {
                    r.0 == FAILURE && r.1 is None
                } else {
                    &&& r.0 == SUCCESS
                    &&& r.1 matches Some(bytes) && bytes@ == listing_bytes(texts(names@))
                }
            },
            Outcome::Fault(_) => r.0 == FAILURE && r.1 is None,
        },
{
    match outcome {
        Outcome::Returned(names) => {
            let json = json_array(names.as_slice());
            proof {
                lemma_json_array_nul(texts(names@));
            }
            match c_string(json.as_str()) {
                Some(bytes) => (SUCCESS, Some(bytes)),
                None => (FAILURE, None),
            }
        },
        Outcome::Fault(_) => (FAILURE, None),
    }
}

/// Deleting a tag by name: refused for a name that is null or not text.
pub fn cte_c_del_tag<'a>(name: Option<&'a [u8]>) -> (step: Step<StoreCall<'a>, i32>)
    ensures
        match c_text(name) {
            Some(text) => step matches Step::Call(call) && call@ == (StoreCallView::DelTag {
                name: text,
            }),
            None => step matches Step::Return(code) && code == FAILURE,
        },
{
    match cstr_to_str(name) {
        Ok(text) => Step::Call(Client::del_tag(text)),
        Err(_) => Step::Return(FAILURE),
    }
}

/// Return value of deleting a tag: success only where the store came back
/// and reported the deletion.
pub fn cte_c_del_tag_reply(outcome: Outcome<bool>) -> (code: i32)
    ensures
        code == flag_code(outcome),
{
    code_of_flag(outcome)
}

/// Registering a storage target: refused for a path that is null or not
/// text.
pub fn cte_c_register_target<'a>(
    path: Option<&'a [u8]>,
    size: u64,
) -> (step: Step<StoreCall<'a>, i32>)
    ensures
        match c_text(path) {
            Some(text) => step matches Step::Call(call) && call@ == (StoreCallView::RegisterTarget {
                target_path: text,
                size,
            }),
            None => step matches Step::Return(code) && code == FAILURE,
        },
{
    match cstr_to_str(path) {
        Ok(text) => Step::Call(Client::register_target(text, size)),
        Err(_) => Step::Return(FAILURE),
    }
}

/// Return value of registering a target: success only where the store came
/// back and reported the registration.
pub fn cte_c_register_target_reply(outcome: Outcome<bool>) -> (code: i32)
    ensures
        code == flag_code(outcome),
{
    code_of_flag(outcome)
}

} // verus!
