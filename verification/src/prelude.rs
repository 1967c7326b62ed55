//! What most users of the crate need in scope.

pub use crate::err::err;
pub use crate::join_all::join_all;
pub use crate::lazy::lazy;
pub use crate::loop_fn::loop_fn;
pub use crate::ok::ok;
pub use crate::repeat::repeat;
pub use crate::result::result;
pub use crate::retry::retry;
pub use crate::with_ctx::with_ctx;
pub use crate::Transaction;
pub use crate::TransactionExt;
