#![allow(non_camel_case_types)]
#![allow(non_snake_case)]

pub mod call;
pub mod slice;
pub mod status;

pub use call::{check_status, ffi_try};
pub use slice::{r, rocksdb_Slice, s};
pub use status::{rocksdb_Status, rocksdb_Status_Code, rocksdb_Status_Severity, rocksdb_Status_SubCode};
