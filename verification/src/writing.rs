//! The write probe: a fixed payload goes to the out mount, and the result says
//! whether it arrived.
use crate::failure::handle_error;
use crate::failure::MountReadFailed;
use vstd::prelude::*;

verus! {

/// The two bytes written to `outFile`: the digits of 42.
pub open spec fn spec_out_payload() -> Seq<u8> {
    seq![0x34u8, 0x32u8]
}

/// The failure of the write probe, if it has one.
pub open spec fn spec_write_failure(written: bool) -> Option<MountReadFailed> {
    if written {
        None
    } else {
        Some(MountReadFailed::Out)
    }
}

/// What the write probe returns: the greatest number of 32 bits where the
/// payload was written, the failure's number where it was not.
pub open spec fn spec_c(written: bool) -> int {
    match spec_write_failure(written) {
        Some(e) => e.spec_code(),
        None => u32::MAX as int,
    }
}

/// The bytes that the write probe puts into `outFile`.
pub fn out_payload() -> (payload: Vec<u8>)
    ensures
        payload@ == spec_out_payload(),
{
    let mut payload: Vec<u8> = Vec::new();
    payload.push(0x34u8);
    payload.push(0x32u8);
    assert(payload@ =~= spec_out_payload());
    payload
}

/// Says whether the write failed.
pub fn write_failure(written: bool) -> (failure: Option<MountReadFailed>)
    ensures
        failure == spec_write_failure(written),
{
    if written {
        None
    } else {
        Some(MountReadFailed::Out)
    }
}

/// The write probe. `written` says whether the payload reached `outFile`.
pub fn c(written: bool) -> (r: u32)
    ensures
        r == spec_c(written),
        written ==> r == u32::MAX,
        !written ==> r == 404,
{
    if written {
        u32::MAX
    } else {
        handle_error(MountReadFailed::Out) as u32
    }
}

} // verus!
