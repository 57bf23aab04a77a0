pub mod bypass;
pub mod eliminate_identity;
pub mod eliminate_nop_concat;
pub mod eliminate_nop_transpose;

pub use eliminate_identity::EliminateIdentity;
pub use eliminate_nop_concat::EliminateNopConcat;
pub use eliminate_nop_transpose::EliminateNopTranspose;
pub mod eliminate_nopcast;

pub use eliminate_nopcast::EliminateNopCast;
