//! The values of the Windows bindings that the controller reads. Nothing here
//! is proved: each contract restates what the `windows` crate's source shows.

use vstd::prelude::*;

verus! {

/// `HANDLE::is_invalid` of the `windows` crate: a handle is invalid exactly
/// when its raw value is 0 or -1.
#[verifier::external_body]
pub(crate) fn handle_is_invalid(raw: isize) -> (invalid: bool)
    ensures
        invalid == (raw == 0 || raw == -1),
{
    windows::Win32::Foundation::HANDLE(raw).is_invalid()
}

/// `BOOL::as_bool` of the `windows` crate: every value but 0 counts as true.
#[verifier::external_body]
pub(crate) fn flag_is_set(value: i32) -> (set: bool)
    ensures
        set == (value != 0),
{
    windows::Win32::Foundation::BOOL(value).as_bool()
}

/// The constant `PROCESS_ALL_ACCESS` of the `windows` crate, as the plain
/// access mask it wraps.
#[verifier::external_body]
pub(crate) fn process_all_access() -> (mask: u32)
    ensures
        mask == 0x1F_FFFF,
{
    windows::Win32::System::Threading::PROCESS_ALL_ACCESS.0
}

} // verus!
