//! The safety boundary between a client and a native tag/blob store.
//!
//! Nothing here touches the store. Every operation is split around the native
//! call it stands for: one function fixes what is handed to the store (a
//! [`StoreCall`] or a [`TagCall`]), and, where the answer needs interpreting,
//! a second one (named `.._reply`) says what the caller gets for each possible
//! answer, a contained fault included. Whoever links the store performs the
//! call in between.
pub mod call;
pub mod convert;
pub mod ffi_c;
pub mod json;
pub mod text;
pub mod wrapper;

pub use call::CteTagId;
pub use call::Outcome;
pub use call::Step;
pub use call::StoreCall;
pub use call::TagCall;
pub use call::TagOp;
pub use call::DEFAULT_SCORE_BITS;
pub use wrapper::init;
pub use wrapper::init_reply;
pub use wrapper::Client;
pub use wrapper::Error;
pub use wrapper::Tag;
