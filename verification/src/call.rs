//! What crosses to the native store, as plain values: the operations with
//! their arguments, and what comes back.
use crate::wrapper::Tag;
use vstd::prelude::*;

verus! {

/// Bit pattern of the default placement score, the single-precision value 1.0.
///
/// A score is a hint for the store and is never interpreted on this side, so
/// it travels as the 32 bits of its IEEE 754 encoding.
pub const DEFAULT_SCORE_BITS: u32 = 0x3f80_0000;

/// Identity of a tag inside the store.
#[derive(Clone, Copy, Debug, PartialEq, Eq, Structural)]
pub struct CteTagId {
    pub major: u32,
    pub minor: u32,
}

/// An operation of the store that needs no tag.
#[derive(Clone, Copy, Debug, PartialEq, Eq)]
pub enum StoreCall<'a> {
    Init { config_path: &'a str },
    TagNew { tag_name: &'a str },
    TagFromId { major: u32, minor: u32 },
    RegisterTarget { target_path: &'a str, size: u64 },
    DelTag { name: &'a str },
    TagQuery { regex: &'a str, max_tags: u32 },
    BlobQuery { tag_re: &'a str, blob_re: &'a str, max_results: u32 },
}

/// Mathematical model of a [`StoreCall`].
pub enum StoreCallView {
    Init { config_path: Seq<char> },
    TagNew { tag_name: Seq<char> },
    TagFromId { major: u32, minor: u32 },
    RegisterTarget { target_path: Seq<char>, size: u64 },
    DelTag { name: Seq<char> },
    TagQuery { regex: Seq<char>, max_tags: u32 },
    BlobQuery { tag_re: Seq<char>, blob_re: Seq<char>, max_results: u32 },
}

impl<'a> View for StoreCall<'a> {
    type V = StoreCallView;

    open spec fn view(&self) -> StoreCallView {
        match *self {
            StoreCall::Init { config_path } => StoreCallView::Init { config_path: config_path@ },
            StoreCall::TagNew { tag_name } => StoreCallView::TagNew { tag_name: tag_name@ },
            StoreCall::TagFromId { major, minor } => StoreCallView::TagFromId { major, minor },
            StoreCall::RegisterTarget { target_path, size } => StoreCallView::RegisterTarget {
                target_path: target_path@,
                size,
            },
            StoreCall::DelTag { name } => StoreCallView::DelTag { name: name@ },
            StoreCall::TagQuery { regex, max_tags } => StoreCallView::TagQuery {
                regex: regex@,
                max_tags,
            },
            StoreCall::BlobQuery { tag_re, blob_re, max_results } => StoreCallView::BlobQuery {
                tag_re: tag_re@,
                blob_re: blob_re@,
                max_results,
            },
        }
    }
}

/// An operation of the store on one tag.
#[derive(Clone, Copy, Debug, PartialEq, Eq)]
pub enum TagOp<'a> {
    PutBlob { name: &'a str, data: &'a [u8], offset: u64, score_bits: u32 },
    GetBlob { name: &'a str, size: u64, offset: u64 },
    GetBlobScore { name: &'a str },
    GetBlobSize { name: &'a str },
    GetContainedBlobs,
    ReorganizeBlob { name: &'a str, score_bits: u32 },
    GetId,
}

/// Mathematical model of a [`TagOp`].
pub enum TagOpView {
    PutBlob { name: Seq<char>, data: Seq<u8>, offset: u64, score_bits: u32 },
    GetBlob { name: Seq<char>, size: u64, offset: u64 },
    GetBlobScore { name: Seq<char> },
    GetBlobSize { name: Seq<char> },
    GetContainedBlobs,
    ReorganizeBlob { name: Seq<char>, score_bits: u32 },
    GetId,
}

impl<'a> View for TagOp<'a> {
    type V = TagOpView;

    open spec fn view(&self) -> TagOpView {
        match *self {
            TagOp::PutBlob { name, data, offset, score_bits } => TagOpView::PutBlob {
                name: name@,
                data: data@,
                offset,
                score_bits,
            },
            TagOp::GetBlob { name, size, offset } => TagOpView::GetBlob { name: name@, size, offset },
            TagOp::GetBlobScore { name } => TagOpView::GetBlobScore { name: name@ },
            TagOp::GetBlobSize { name } => TagOpView::GetBlobSize { name: name@ },
            TagOp::GetContainedBlobs => TagOpView::GetContainedBlobs,
            TagOp::ReorganizeBlob { name, score_bits } => TagOpView::ReorganizeBlob {
                name: name@,
                score_bits,
            },
            TagOp::GetId => TagOpView::GetId,
        }
    }
}

/// An operation together with the tag whose native object it is performed on.
#[derive(Debug)]
pub struct TagCall<'a, H> {
    pub tag: &'a Tag<H>,
    pub op: TagOp<'a>,
}

/// How a native call ended.
#[derive(Debug, PartialEq, Eq)]
pub enum Outcome<T> {
    /// The call came back with its result.
    Returned(T),
    /// The call raised a fault, which was caught at the boundary. The text is
    /// the fault's message, where it carried one.
    Fault(Option<String>),
}

/// What an exported entry point decides before any native code runs.
#[derive(Debug)]
pub enum Step<C, R> {
    /// The arguments are in order: perform this call.
    Call(C),
    /// Return this value at once, without calling the store.
    Return(R),
}

} // verus!
