//! A safety layer between a host scripting engine and a native add-on: the
//! host's value layout and type tags, the ownership discipline of its
//! reference-counted values, the cache of its string ids, the depth of
//! synchronization callbacks, the two-phase buffer protocol, and the record
//! of unrecoverable failures.
pub mod buffer;
pub mod display;
pub mod error;
pub mod list;
pub mod panic;
pub mod pixloc;
pub mod refcount;
pub mod serde_value;
pub mod string;
pub mod strid;
pub mod sync;
pub mod sys;
mod text;
pub mod value;
pub mod value_type;
pub mod xyz;

pub use crate::error::{ByondError, ByondResult};
pub use crate::refcount::RcByondValue;
pub use crate::sys::ByondVersion;
pub use crate::value::ByondValue;
pub use crate::value_type::ByondValueType;
pub use crate::xyz::ByondXYZ;
