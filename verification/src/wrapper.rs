//! The safe wrapper: initialization, tags, and the tag-less client operations.
use crate::call::CteTagId;
use crate::call::StoreCall;
use crate::call::StoreCallView;
use crate::call::TagCall;
use crate::call::TagOp;
use crate::call::TagOpView;
use crate::call::DEFAULT_SCORE_BITS;
use vstd::prelude::*;

verus! {

/// Why an operation of this layer failed.
#[derive(Clone, Copy, Debug, PartialEq, Eq, Structural)]
pub enum Error {
    /// The store did not start.
    InitError,
    /// A text argument was absent or not well-formed UTF-8.
    InvalidArgument,
}

impl Error {
    /// Text of the error as a mathematical sequence.
    pub open spec fn message_spec(self) -> Seq<char> {
        match self {
            Error::InitError => "CTE initialization failed"@,
            Error::InvalidArgument => "invalid argument"@,
        }
    }

    /// Human-readable text of the error.
    pub fn message(&self) -> (text: String)
        ensures
            text@ == self.message_spec(),
    {
        match self {
            Error::InitError => "CTE initialization failed".to_owned(),
            Error::InvalidArgument => "invalid argument".to_owned(),
        }
    }
}

/// The one-time initialization of the store with a configuration path; the
/// empty path selects the built-in defaults.
pub fn init<'a>(config_path: &'a str) -> (call: StoreCall<'a>)
    ensures
        call@ == (StoreCallView::Init { config_path: config_path@ }),
{
    StoreCall::Init { config_path }
}

/// Result of initialization, given whether the store reported that it started.
pub fn init_reply(started: bool) -> (r: Result<(), Error>)
    ensures
        r is Ok <==> started,
        r is Err ==> r == Err::<(), Error>(Error::InitError),
{
    if started {
        Ok(())
    } else {
        Err(Error::InitError)
    }
}

/// The operation that writes `data` to the named blob with the defaults:
/// from the start of the blob, with the default score.
pub open spec fn put_blob_op(name: Seq<char>, data: Seq<u8>) -> TagOpView {
    TagOpView::PutBlob { name, data, offset: 0, score_bits: DEFAULT_SCORE_BITS }
}

/// The operation that reads up to `size` bytes from the start of the named
/// blob.
pub open spec fn get_blob_op(name: Seq<char>, size: u64) -> TagOpView {
    TagOpView::GetBlob { name, size, offset: 0 }
}

/// Whether `read` asks for exactly the stretch that `write` fills: the same
/// blob by name, from the same offset, as many bytes as were written.
pub open spec fn reads_back(write: TagOpView, read: TagOpView) -> bool {
    &&& write matches TagOpView::PutBlob { name: written, data, offset: at, .. }
    &&& read matches TagOpView::GetBlob { name: wanted, size, offset: from }
    &&& wanted == written
    &&& from == at
    &&& size == data.len()
}

/// Reading a blob by the name it was put under, for as many bytes as were
/// put, asks the store for exactly the stretch that the write filled.
pub proof fn lemma_get_blob_reads_back_put_blob(name: Seq<char>, data: Seq<u8>)
    requires
        data.len() <= u64::MAX,
    ensures
        reads_back(put_blob_op(name, data), get_blob_op(name, data.len() as u64)),
{
}

/// A handle that exclusively owns one native tag object of type `H`.
#[derive(Debug)]
pub struct Tag<H> {
    inner: H,
}

impl<H> Tag<H> {
    /// The native object that this handle owns.
    pub closed spec fn native_spec(&self) -> H {
        self.inner
    }

    /// Creating or opening a tag by name.
    pub fn new<'a>(name: &'a str) -> (call: StoreCall<'a>)
        ensures
            call@ == (StoreCallView::TagNew { tag_name: name@ }),
    {
        StoreCall::TagNew { tag_name: name }
    }

    /// Opening an existing tag by its identity. Existence is not checked.
    pub fn from_id(id: CteTagId) -> (call: StoreCall<'static>)
        ensures
            call@ == (StoreCallView::TagFromId { major: id.major, minor: id.minor }),
    {
        StoreCall::TagFromId { major: id.major, minor: id.minor }
    }

    /// Takes ownership of the native object that the store handed out.
    pub fn adopt(native: H) -> (tag: Self)
        ensures
            tag.native_spec() == native,
    {
        Tag { inner: native }
    }

    /// The native object, for performing a call on it.
    pub fn native(&self) -> (native: &H)
        ensures
            *native == self.native_spec(),
    {
        &self.inner
    }

    /// Writing `data` into the named blob at offset 0 with the default score.
    pub fn put_blob<'a>(&'a self, name: &'a str, data: &'a [u8]) -> (call: TagCall<'a, H>)
        ensures
            call.tag == self,
            call.op@ == put_blob_op(name@, data@),
    {
        TagCall { tag: self, op: TagOp::PutBlob { name, data, offset: 0, score_bits: DEFAULT_SCORE_BITS } }
    }

    /// Writing `data` into the named blob at `offset` with the given score.
    pub fn put_blob_with_options<'a>(
        &'a self,
        name: &'a str,
        data: &'a [u8],
        offset: u64,
        score_bits: u32,
    ) -> (call: TagCall<'a, H>)
        ensures
            call.tag == self,
            call.op@ == (TagOpView::PutBlob { name: name@, data: data@, offset, score_bits }),
    {
        TagCall { tag: self, op: TagOp::PutBlob { name, data, offset, score_bits } }
    }

    /// Reading up to `size` bytes of the named blob from its start.
    pub fn get_blob<'a>(&'a self, name: &'a str, size: u64) -> (call: TagCall<'a, H>)
        ensures
            call.tag == self,
            call.op@ == get_blob_op(name@, size),
    {
        TagCall { tag: self, op: TagOp::GetBlob { name, size, offset: 0 } }
    }

    /// Reading up to `size` bytes of the named blob from `offset` on.
    pub fn get_blob_with_offset<'a>(
        &'a self,
        name: &'a str,
        size: u64,
        offset: u64,
    ) -> (call: TagCall<'a, H>)
        ensures
            call.tag == self,
            call.op@ == (TagOpView::GetBlob { name: name@, size, offset }),
    {
        TagCall { tag: self, op: TagOp::GetBlob { name, size, offset } }
    }

    /// Asking for the placement score of the named blob.
    pub fn get_blob_score<'a>(&'a self, name: &'a str) -> (call: TagCall<'a, H>)
        ensures
            call.tag == self,
            call.op@ == (TagOpView::GetBlobScore { name: name@ }),
    {
        TagCall { tag: self, op: TagOp::GetBlobScore { name } }
    }

    /// Asking for the size of the named blob in bytes; the store answers 0
    /// for a blob it does not have.
    pub fn get_blob_size<'a>(&'a self, name: &'a str) -> (call: TagCall<'a, H>)
        ensures
            call.tag == self,
            call.op@ == (TagOpView::GetBlobSize { name: name@ }),
    {
        TagCall { tag: self, op: TagOp::GetBlobSize { name } }
    }

    /// Listing the names of all blobs under this tag.
    pub fn get_contained_blobs<'a>(&'a self) -> (call: TagCall<'a, H>)
        ensures
            call.tag == self,
            call.op@ == TagOpView::GetContainedBlobs,
    {
        TagCall { tag: self, op: TagOp::GetContainedBlobs }
    }

    /// Changing the placement score of the named blob. The store may migrate
    /// data afterwards; the call does not wait for it.
    pub fn reorganize_blob<'a>(&'a self, name: &'a str, score_bits: u32) -> (call: TagCall<'a, H>)
        ensures
            call.tag == self,
            call.op@ == (TagOpView::ReorganizeBlob { name: name@, score_bits }),
    {
        TagCall { tag: self, op: TagOp::ReorganizeBlob { name, score_bits } }
    }

    /// Asking for the identity of this tag.
    pub fn get_tag_id<'a>(&'a self) -> (call: TagCall<'a, H>)
        ensures
            call.tag == self,
            call.op@ == TagOpView::GetId,
    {
        TagCall { tag: self, op: TagOp::GetId }
    }
}

/// The operations that need no tag. There is no state behind it: every call
/// stands alone.
pub struct Client;

impl Client {
    /// Registering a file-backed storage target of `size` bytes.
    pub fn register_target<'a>(target_path: &'a str, size: u64) -> (call: StoreCall<'a>)
        ensures
            call@ == (StoreCallView::RegisterTarget { target_path: target_path@, size }),
    {
        StoreCall::RegisterTarget { target_path, size }
    }

    /// Deleting a tag by name.
    pub fn del_tag<'a>(name: &'a str) -> (call: StoreCall<'a>)
        ensures
            call@ == (StoreCallView::DelTag { name: name@ }),
    {
        StoreCall::DelTag { name }
    }

    /// Asking for at most `max_tags` names of tags that match a pattern.
    pub fn tag_query<'a>(regex: &'a str, max_tags: u32) -> (call: StoreCall<'a>)
        ensures
            call@ == (StoreCallView::TagQuery { regex: regex@, max_tags }),
    {
        StoreCall::TagQuery { regex, max_tags }
    }

    /// Asking for at most `max_results` blobs whose tag and name match the
    /// two patterns.
    pub fn blob_query<'a>(
        tag_re: &'a str,
        blob_re: &'a str,
        max_results: u32,
    ) -> (call: StoreCall<'a>)
        ensures
            call@ == (StoreCallView::BlobQuery { tag_re: tag_re@, blob_re: blob_re@, max_results }),
    {
        StoreCall::BlobQuery { tag_re, blob_re, max_results }
    }

    /// The number of complete pairs in a flat answer of `n` entries.
    pub open spec fn pair_count(n: nat) -> nat {
        n / 2
    }

    /// Pairs never reach past the answer, and an answer of odd length `n`
    /// gives `(n - 1) / 2` of them: its last entry belongs to none.
    pub proof fn lemma_odd_answer_drops_last(n: nat)
        ensures
            2 * Self::pair_count(n) <= n,
            n % 2 == 0 ==> 2 * Self::pair_count(n) == n,
            n % 2 == 1 ==> Self::pair_count(n) == (n - 1) / 2 && 2 * Self::pair_count(n) == n - 1,
    {
    }

    /// The answer to a blob query, paired up: the store lists tag name and
    /// blob name in turn, and an entry left over at the end is dropped.
    pub fn blob_query_reply(flat: &[String]) -> (pairs: Vec<(String, String)>)
        ensures
            pairs@.len() == Self::pair_count(flat@.len()),
            forall|i: int|
                0 <= i < pairs@.len() ==> #[trigger] pairs@[i] == (flat@[2 * i], flat@[2 * i + 1]),
    {
        let mut pairs: Vec<(String, String)> = Vec::new();
        let mut i: usize = 0;
        while i + 1 < flat.len()
            invariant
                i % 2 == 0,
                i <= flat@.len(),
                pairs@.len() == i / 2,
                forall|k: int|
                    0 <= k < pairs@.len() ==> #[trigger] pairs@[k] == (flat@[2 * k], flat@[2 * k + 1]),
            decreases flat@.len() - i,
        {
            pairs.push((flat[i].clone(), flat[i + 1].clone()));
            i = i + 2;
        }
        pairs
    }
}

} // verus!
