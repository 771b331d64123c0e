//! What each entry point decides, before the native call and after it.
use cte::ffi_c::cte_c_del_tag;
use cte::ffi_c::cte_c_del_tag_reply;
use cte::ffi_c::cte_c_free_string;
use cte::ffi_c::cte_c_init;
use cte::ffi_c::cte_c_init_reply;
use cte::ffi_c::cte_c_register_target;
use cte::ffi_c::cte_c_register_target_reply;
use cte::ffi_c::cte_c_tag_get_blob;
use cte::ffi_c::cte_c_tag_get_blob_reply;
use cte::ffi_c::cte_c_tag_get_blob_size;
use cte::ffi_c::cte_c_tag_get_blob_size_reply;
use cte::ffi_c::cte_c_tag_get_contained_blobs;
use cte::ffi_c::cte_c_tag_get_contained_blobs_reply;
use cte::ffi_c::cte_c_tag_new;
use cte::ffi_c::cte_c_tag_new_reply;
use cte::ffi_c::cte_c_tag_put_blob;
use cte::ffi_c::cte_c_tag_put_blob_reply;
use cte::ffi_c::FAILURE;
use cte::ffi_c::SUCCESS;
use cte::init;
use cte::Client;
use cte::CteTagId;
use cte::Outcome;
use cte::Step;
use cte::StoreCall;
use cte::Tag;
use cte::TagCall;
use cte::TagOp;
use cte::DEFAULT_SCORE_BITS;

fn call_of<C, R: std::fmt::Debug>(step: Step<C, R>) -> C {
    match step {
        Step::Call(call) => call,
        Step::Return(value) => panic!("returned {:?} without a call", value),
    }
}

fn return_of<C: std::fmt::Debug, R>(step: Step<C, R>) -> R {
    match step {
        Step::Return(value) => value,
        Step::Call(call) => panic!("asked for {:?}", call),
    }
}

fn on_tag<'a>(call: &TagCall<'a, u32>, tag: &Tag<u32>) -> TagOp<'a> {
    assert!(std::ptr::eq(call.tag, tag));
    call.op
}

const ILL_FORMED: &[u8] = &[0x62, 0xff, 0x62];

#[test]
fn codes() {
    assert_eq!(SUCCESS, 0);
    assert_eq!(FAILURE, -1);
}

#[test]
fn wrapper_calls_carry_their_arguments() {
    assert_eq!(init(""), StoreCall::Init { config_path: "" });
    assert_eq!(init("/etc/cte.yaml"), StoreCall::Init { config_path: "/etc/cte.yaml" });
    assert_eq!(Tag::<u32>::new("T"), StoreCall::TagNew { tag_name: "T" });
    assert_eq!(
        Tag::<u32>::from_id(CteTagId { major: 7, minor: 9 }),
        StoreCall::TagFromId { major: 7, minor: 9 }
    );
    assert_eq!(
        Client::register_target("/tmp/t", 64 * 1024 * 1024),
        StoreCall::RegisterTarget { target_path: "/tmp/t", size: 67_108_864 }
    );
    assert_eq!(Client::del_tag("T"), StoreCall::DelTag { name: "T" });
    assert_eq!(Client::tag_query("t.*", 5), StoreCall::TagQuery { regex: "t.*", max_tags: 5 });
    assert_eq!(
        Client::blob_query("t.*", "b.*", 3),
        StoreCall::BlobQuery { tag_re: "t.*", blob_re: "b.*", max_results: 3 }
    );
}

#[test]
fn tag_calls_carry_their_arguments_and_the_tag() {
    let tag: Tag<u32> = Tag::adopt(41);
    assert_eq!(*tag.native(), 41);
    assert_eq!(
        on_tag(&tag.put_blob("b", b"hello"), &tag),
        TagOp::PutBlob { name: "b", data: b"hello", offset: 0, score_bits: 0x3f80_0000 }
    );
    assert_eq!(
        on_tag(&tag.put_blob_with_options("b", b"hello", 12, 0.5f32.to_bits()), &tag),
        TagOp::PutBlob { name: "b", data: b"hello", offset: 12, score_bits: 0x3f00_0000 }
    );
    assert_eq!(on_tag(&tag.get_blob("b", 5), &tag), TagOp::GetBlob { name: "b", size: 5, offset: 0 });
    assert_eq!(
        on_tag(&tag.get_blob_with_offset("b", 5, 2), &tag),
        TagOp::GetBlob { name: "b", size: 5, offset: 2 }
    );
    assert_eq!(on_tag(&tag.get_blob_score("b"), &tag), TagOp::GetBlobScore { name: "b" });
    assert_eq!(on_tag(&tag.get_blob_size("b"), &tag), TagOp::GetBlobSize { name: "b" });
    assert_eq!(on_tag(&tag.get_contained_blobs(), &tag), TagOp::GetContainedBlobs);
    assert_eq!(
        on_tag(&tag.reorganize_blob("b", 2.0f32.to_bits()), &tag),
        TagOp::ReorganizeBlob { name: "b", score_bits: 0x4000_0000 }
    );
    assert_eq!(on_tag(&tag.get_tag_id(), &tag), TagOp::GetId);
    assert_eq!(DEFAULT_SCORE_BITS, 1.0f32.to_bits());
}

#[test]
fn init_takes_a_null_path_for_the_empty_one() {
    assert_eq!(call_of(cte_c_init(None)), StoreCall::Init { config_path: "" });
    assert_eq!(call_of(cte_c_init(Some(b""))), StoreCall::Init { config_path: "" });
    assert_eq!(
        call_of(cte_c_init(Some(b"/etc/cte.yaml"))),
        StoreCall::Init { config_path: "/etc/cte.yaml" }
    );
    assert_eq!(return_of(cte_c_init(Some(ILL_FORMED))), -1);
}

#[test]
fn flags_become_codes() {
    assert_eq!(cte_c_init_reply(Outcome::Returned(true)), 0);
    assert_eq!(cte_c_init_reply(Outcome::Returned(false)), -1);
    assert_eq!(cte_c_init_reply(Outcome::Fault(None)), -1);
    assert_eq!(cte_c_del_tag_reply(Outcome::Returned(true)), 0);
    assert_eq!(cte_c_del_tag_reply(Outcome::Returned(false)), -1);
    assert_eq!(cte_c_del_tag_reply(Outcome::Fault(Some("boom".to_string()))), -1);
    assert_eq!(cte_c_register_target_reply(Outcome::Returned(true)), 0);
    assert_eq!(cte_c_register_target_reply(Outcome::Returned(false)), -1);
    assert_eq!(cte_c_register_target_reply(Outcome::Fault(None)), -1);
}

#[test]
fn del_tag_and_register_target_check_their_text() {
    assert_eq!(call_of(cte_c_del_tag(Some(b"T"))), StoreCall::DelTag { name: "T" });
    assert_eq!(return_of(cte_c_del_tag(None)), -1);
    assert_eq!(return_of(cte_c_del_tag(Some(ILL_FORMED))), -1);
    assert_eq!(
        call_of(cte_c_register_target(Some(b"/tmp/t"), 64 * 1024 * 1024)),
        StoreCall::RegisterTarget { target_path: "/tmp/t", size: 67_108_864 }
    );
    assert_eq!(return_of(cte_c_register_target(None, 1)), -1);
    assert_eq!(return_of(cte_c_register_target(Some(ILL_FORMED), 1)), -1);
}

#[test]
fn tag_new_checks_the_name() {
    assert_eq!(call_of(cte_c_tag_new::<u32>(Some(b"T"))), StoreCall::TagNew { tag_name: "T" });
    let null = return_of(cte_c_tag_new::<u32>(None));
    assert!(null.handle.is_none());
    assert!(null.diagnostic.is_none());
    let refused = return_of(cte_c_tag_new::<u32>(Some(ILL_FORMED)));
    assert!(refused.handle.is_none());
    assert!(refused.diagnostic.is_none());
}

#[test]
fn tag_new_boxes_the_native_object() {
    let made = cte_c_tag_new_reply(Outcome::Returned(17u32));
    assert!(made.diagnostic.is_none());
    let handle: Box<Tag<u32>> = made.handle.expect("a handle");
    assert_eq!(*handle.native(), 17);
}

#[test]
fn tag_new_reports_a_fault_and_gives_the_null_handle() {
    let with_text = cte_c_tag_new_reply::<u32>(Outcome::Fault(Some("boom".to_string())));
    assert!(with_text.handle.is_none());
    assert_eq!(with_text.diagnostic, Some("cte_c_tag_new panic: boom".to_string()));
    let without = cte_c_tag_new_reply::<u32>(Outcome::Fault(None));
    assert!(without.handle.is_none());
    assert_eq!(without.diagnostic, Some("cte_c_tag_new panic: unknown panic".to_string()));
}

#[test]
fn put_blob_checks_every_pointer() {
    let tag: Tag<u32> = Tag::adopt(1);
    let call = call_of(cte_c_tag_put_blob(Some(&tag), Some(b"b"), Some(b"hello"), 3, 0.5f32.to_bits()));
    assert_eq!(
        on_tag(&call, &tag),
        TagOp::PutBlob { name: "b", data: b"hello", offset: 3, score_bits: 0x3f00_0000 }
    );
    let empty = call_of(cte_c_tag_put_blob(Some(&tag), Some(b""), Some(b""), 0, 0));
    assert_eq!(on_tag(&empty, &tag), TagOp::PutBlob { name: "", data: b"", offset: 0, score_bits: 0 });
    assert_eq!(return_of(cte_c_tag_put_blob::<u32>(None, Some(b"b"), Some(b"x"), 0, 0)), -1);
    assert_eq!(return_of(cte_c_tag_put_blob(Some(&tag), None, Some(b"x"), 0, 0)), -1);
    assert_eq!(return_of(cte_c_tag_put_blob(Some(&tag), Some(ILL_FORMED), Some(b"x"), 0, 0)), -1);
    assert_eq!(return_of(cte_c_tag_put_blob(Some(&tag), Some(b"b"), None, 0, 0)), -1);
    assert_eq!(cte_c_tag_put_blob_reply(Outcome::Returned(())), 0);
    assert_eq!(cte_c_tag_put_blob_reply(Outcome::Fault(None)), -1);
}

#[test]
fn get_blob_size_answers_zero_for_every_failure() {
    let tag: Tag<u32> = Tag::adopt(1);
    let call = call_of(cte_c_tag_get_blob_size(Some(&tag), Some(b"b")));
    assert_eq!(on_tag(&call, &tag), TagOp::GetBlobSize { name: "b" });
    assert_eq!(return_of(cte_c_tag_get_blob_size::<u32>(None, Some(b"b"))), 0);
    assert_eq!(return_of(cte_c_tag_get_blob_size(Some(&tag), None)), 0);
    assert_eq!(return_of(cte_c_tag_get_blob_size(Some(&tag), Some(ILL_FORMED))), 0);
    assert_eq!(cte_c_tag_get_blob_size_reply(Outcome::Returned(5)), 5);
    assert_eq!(cte_c_tag_get_blob_size_reply(Outcome::Returned(0)), 0);
    assert_eq!(cte_c_tag_get_blob_size_reply(Outcome::Returned(u64::MAX)), u64::MAX);
    assert_eq!(cte_c_tag_get_blob_size_reply(Outcome::Fault(None)), 0);
}

#[test]
fn get_blob_asks_for_as_much_as_the_buffer_takes() {
    let tag: Tag<u32> = Tag::adopt(1);
    let call = call_of(cte_c_tag_get_blob(Some(&tag), Some(b"b"), Some(5), 2));
    assert_eq!(on_tag(&call, &tag), TagOp::GetBlob { name: "b", size: 5, offset: 2 });
    assert_eq!(return_of(cte_c_tag_get_blob::<u32>(None, Some(b"b"), Some(5), 0)), -1);
    assert_eq!(return_of(cte_c_tag_get_blob(Some(&tag), None, Some(5), 0)), -1);
    assert_eq!(return_of(cte_c_tag_get_blob(Some(&tag), Some(ILL_FORMED), Some(5), 0)), -1);
    assert_eq!(return_of(cte_c_tag_get_blob(Some(&tag), Some(b"b"), None, 0)), -1);
}

#[test]
fn the_copy_is_cut_to_the_buffer() {
    let mut exact = [0u8; 5];
    assert_eq!(cte_c_tag_get_blob_reply(Outcome::Returned(b"hello".to_vec()), &mut exact), 0);
    assert_eq!(&exact, b"hello");

    let mut small = [0u8; 2];
    assert_eq!(cte_c_tag_get_blob_reply(Outcome::Returned(b"hello".to_vec()), &mut small), 0);
    assert_eq!(&small, b"he");

    let mut large = [7u8; 7];
    assert_eq!(cte_c_tag_get_blob_reply(Outcome::Returned(b"hello".to_vec()), &mut large), 0);
    assert_eq!(&large, b"hello\x07\x07");

    let mut untouched = [7u8; 3];
    assert_eq!(cte_c_tag_get_blob_reply(Outcome::Returned(Vec::new()), &mut untouched), 0);
    assert_eq!(untouched, [7u8; 3]);

    let mut none: [u8; 0] = [];
    assert_eq!(cte_c_tag_get_blob_reply(Outcome::Returned(b"hello".to_vec()), &mut none), 0);

    let mut after_fault = [7u8; 3];
    assert_eq!(cte_c_tag_get_blob_reply(Outcome::Fault(None), &mut after_fault), -1);
    assert_eq!(after_fault, [7u8; 3]);
}

#[test]
fn a_listing_needs_a_handle_and_a_place() {
    let tag: Tag<u32> = Tag::adopt(1);
    let call = call_of(cte_c_tag_get_contained_blobs(Some(&tag), true));
    assert_eq!(on_tag(&call, &tag), TagOp::GetContainedBlobs);
    assert_eq!(return_of(cte_c_tag_get_contained_blobs(Some(&tag), false)), -1);
    assert_eq!(return_of(cte_c_tag_get_contained_blobs::<u32>(None, true)), -1);
    assert_eq!(return_of(cte_c_tag_get_contained_blobs::<u32>(None, false)), -1);
}

#[test]
fn a_listing_is_a_c_string_of_json() {
    let names = vec!["b".to_string(), "a\"b\\c".to_string()];
    assert_eq!(
        cte_c_tag_get_contained_blobs_reply(Outcome::Returned(names)),
        (0, Some(b"[\"b\",\"a\\\"b\\\\c\"]\0".to_vec()))
    );
    assert_eq!(
        cte_c_tag_get_contained_blobs_reply(Outcome::Returned(Vec::new())),
        (0, Some(b"[]\0".to_vec()))
    );
    assert_eq!(
        cte_c_tag_get_contained_blobs_reply(Outcome::Returned(vec!["\u{e9}".to_string()])),
        (0, Some(vec![0x5b, 0x22, 0xc3, 0xa9, 0x22, 0x5d, 0]))
    );
}

#[test]
fn a_listing_fails_on_a_name_with_nul_and_on_a_fault() {
    let names = vec!["fine".to_string(), "cut\0short".to_string()];
    assert_eq!(cte_c_tag_get_contained_blobs_reply(Outcome::Returned(names)), (-1, None));
    assert_eq!(cte_c_tag_get_contained_blobs_reply(Outcome::Fault(None)), (-1, None));
}

#[test]
fn freeing_a_string_takes_null_too() {
    let (_, json) = cte_c_tag_get_contained_blobs_reply(Outcome::Returned(vec!["b".to_string()]));
    cte_c_free_string(json);
    cte_c_free_string(None);
    cte_c_free_string(None);
}
