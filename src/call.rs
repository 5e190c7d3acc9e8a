use crate::status::{fresh_status, rocksdb_Status, rocksdb_Status_Code};
use vstd::prelude::*;

verus! {

/// Decides what a native call comes to once it has returned `res` and left
/// `status` behind: the value where the status is ok, the status itself as
/// the error otherwise.
pub fn check_status<T>(res: T, status: rocksdb_Status) -> (r: Result<T, rocksdb_Status>)
    ensures
        status@.code == rocksdb_Status_Code::kOk ==> r == Ok::<T, rocksdb_Status>(res),
        status@.code != rocksdb_Status_Code::kOk ==> (r matches Err(e) && e@ == status@),
{
    if status.ok() {
        Ok(res)
    } else {
        Err(status)
    }
}

/// Runs a native call that reports through a status it is handed and hands
/// back. The call gets a fresh ok status; its return value comes back where
/// the status it left is ok, and that status comes back as the error
/// otherwise, with its code, sub-code, severity and message.
pub fn ffi_try<T, F: FnOnce(rocksdb_Status) -> (T, rocksdb_Status)>(func: F) -> (r: Result<
    T,
    rocksdb_Status,
>)
    requires
        forall|st: rocksdb_Status|
            st@ == fresh_status(rocksdb_Status_Code::kOk) ==> call_requires(func, (st,)),
    ensures
        exists|st: rocksdb_Status, out: (T, rocksdb_Status)|
            {
                &&& st@ == fresh_status(rocksdb_Status_Code::kOk)
                &&& call_ensures(func, (st,), out)
                &&& out.1@.code == rocksdb_Status_Code::kOk ==> r == Ok::<T, rocksdb_Status>(out.0)
                &&& out.1@.code != rocksdb_Status_Code::kOk ==> (r matches Err(e) && e@ == out.1@)
            },
{
    let status = rocksdb_Status::with_code(rocksdb_Status_Code::kOk);
    let (res, status) = func(status);
    check_status(res, status)
}

} // verus!
