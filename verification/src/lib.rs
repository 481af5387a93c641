//! Flat, fixed-shape records for slices, strings, vectors and owned strings.
//!
//! A native view such as `&[T]` or a native buffer such as `Vec<T>` has a
//! representation that the compiler is free to choose. The records of this
//! crate reduce each of them to what has to cross a boundary: an address, a
//! length and, for the owning ones, a capacity. Each record is made from its
//! native form with `from` and turned back into it with `into`; the contracts
//! say that nothing is lost on the way.
//!
//! | native form   | record                          |
//! |---------------|---------------------------------|
//! | `&[T]`        | `SharedSlice`, `CSharedSlice`   |
//! | `&mut [T]`    | `UniqueSlice`, `CUniqueSlice`   |
//! | `&str`        | `SharedStr`, `CSharedStr`       |
//! | `&mut str`    | `UniqueStr`, `CUniqueStr`       |
//! | `Vec<T>`      | `StableVec`                     |
//! | `String`      | `StableString`                  |
//!
//! The element type of a slice or vector record must be `StableLayout`.
//!
//! A record never reads or rebuilds memory from a bare address. It is backed
//! by the borrow or the buffer that it was made from, so that the borrow
//! rules still hold for it, and it reports its fields through `addr`, `len`
//! and `capacity`.

pub mod c_shared_slice;
pub mod c_shared_str;
pub mod c_unique_slice;
pub mod c_unique_str;
mod native;
pub mod shared_slice;
pub mod shared_str;
pub mod stable_layout;
pub mod stable_string;
pub mod stable_vec;
pub mod unique_slice;
pub mod unique_str;

pub use crate::c_shared_slice::CSharedSlice;
pub use crate::c_shared_str::CSharedStr;
pub use crate::c_unique_slice::CUniqueSlice;
pub use crate::c_unique_str::CUniqueStr;
pub use crate::shared_slice::SharedSlice;
pub use crate::shared_str::SharedStr;
pub use crate::stable_layout::StableLayout;
pub use crate::stable_string::StableString;
pub use crate::stable_vec::StableVec;
pub use crate::unique_slice::UniqueSlice;
pub use crate::unique_str::UniqueStr;
