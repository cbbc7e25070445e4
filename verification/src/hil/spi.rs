use vstd::prelude::*;
use crate::error_code::ErrorCode;
use crate::kernel::leasable_buffer::SubSliceMut;

verus! {

/// An SPI controller.
///
/// `read_write_bytes` transfers the active bytes of `write`, reading as many
/// into `read` when one is given. `Ok(())` promises one `read_write_done`;
/// `Err` starts nothing and hands both buffers back as they were: `INVAL`
/// for a zero-length transfer, `BUSY` while one is outstanding. The byte
/// methods block, and answer `Ok`, `OFF`, `BUSY` or `FAIL`.
///
/// Each implementation says, through the `_answers` relations, which
/// answers it gives to which request.
pub trait SpiMaster {
    /// Whether `r` is an answer this controller gives to a transfer from
    /// `write` into `read`.
    spec fn transfer_answers(&self, write: SubSliceMut, read: Option<SubSliceMut>, r: Result<(), ErrorCode>) -> bool;

    /// Whether `r` is an answer this controller gives to writing `val`.
    spec fn write_byte_answers(&self, val: u8, r: Result<(), ErrorCode>) -> bool;

    /// Whether `r` is an answer this controller gives to reading a byte.
    spec fn read_byte_answers(&self, r: Result<u8, ErrorCode>) -> bool;

    /// Whether `r` is an answer this controller gives to writing `val` and
    /// reading a byte.
    spec fn read_write_byte_answers(&self, val: u8, r: Result<u8, ErrorCode>) -> bool;

    /// Whether `busy` is an answer this controller gives to `is_busy`.
    spec fn busy_answers(&self, busy: bool) -> bool;

    fn read_write_bytes(&self, write: SubSliceMut, read: Option<SubSliceMut>) -> (r: Result<(), (ErrorCode, SubSliceMut, Option<SubSliceMut>)>)
        ensures
            self.transfer_answers(write, read, match r { Ok(()) => Ok(()), Err((e, _, _)) => Err(e) }),
            r matches Err((_, w, rd)) ==> w == write && (rd is None || rd == read),
    ;

    fn write_byte(&self, val: u8) -> (r: Result<(), ErrorCode>)
        ensures
            self.write_byte_answers(val, r),
    ;

    fn read_byte(&self) -> (r: Result<u8, ErrorCode>)
        ensures
            self.read_byte_answers(r),
    ;

    fn read_write_byte(&self, val: u8) -> (r: Result<u8, ErrorCode>)
        ensures
            self.read_write_byte_answers(val, r),
    ;

    /// Whether a transfer is outstanding.
    fn is_busy(&self) -> (busy: bool)
        ensures
            self.busy_answers(busy),
    ;
}

/// Receives completed transfers: both buffers back with their windows as
/// they went in, the write buffer's bytes unchanged, and `Ok(len)`.
pub trait SpiMasterClient {
    fn read_write_done(&self, write: SubSliceMut, read: Option<SubSliceMut>, status: Result<usize, ErrorCode>);
}

} // verus!
