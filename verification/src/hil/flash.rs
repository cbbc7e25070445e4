use vstd::prelude::*;
use crate::error_code::ErrorCode;

verus! {

/// Flash errors returned in the callbacks.
#[derive(Copy, Clone, Debug, PartialEq, Eq, Structural)]
pub enum Error {
    /// An error occurred during the flash operation.
    FlashError,
    /// A flash memory protection violation was detected.
    FlashMemoryProtectionError,
}

/// Something that takes a client to call when operations complete.
pub trait HasClient<C> {
    fn set_client(&self, client: C);
}

/// Pages of writable persistent flash.
///
/// All three operations are asynchronous: `Ok(())` promises exactly one
/// client callback, `Err` touches nothing, hands any buffer back and makes no
/// callback. `INVAL` for a page past the end of the device, `BUSY` while an
/// operation is outstanding, `NOSUPPORT` for what the device cannot do.
/// Whether `write_page` erases first is not settled: a caller that needs the
/// page equal to its buffer erases it first.
///
/// Each implementation says, through the `_answers` relations, which
/// synchronous answers it gives to which request.
pub trait Flash {
    /// Whether `r` is an answer this device gives to reading `page_number`
    /// into `buf`.
    spec fn read_answers(&self, page_number: usize, buf: Vec<u8>, r: Result<(), ErrorCode>) -> bool;

    /// Whether `r` is an answer this device gives to writing `buf` to
    /// `page_number`.
    spec fn write_answers(&self, page_number: usize, buf: Vec<u8>, r: Result<(), ErrorCode>) -> bool;

    /// Whether `r` is an answer this device gives to erasing `page_number`.
    spec fn erase_answers(&self, page_number: usize, r: Result<(), ErrorCode>) -> bool;

    fn read_page(&self, page_number: usize, buf: Vec<u8>) -> (r: Result<(), (ErrorCode, Vec<u8>)>)
        ensures
            self.read_answers(page_number, buf, spec_plain_answer(r)),
            spec_gives_back(buf, r),
    ;

    fn write_page(&self, page_number: usize, buf: Vec<u8>) -> (r: Result<(), (ErrorCode, Vec<u8>)>)
        ensures
            self.write_answers(page_number, buf, spec_plain_answer(r)),
            spec_gives_back(buf, r),
    ;

    /// Erase a page by setting every byte to 0xFF.
    fn erase_page(&self, page_number: usize) -> (r: Result<(), ErrorCode>)
        ensures
            self.erase_answers(page_number, r),
    ;
}

/// An operation's synchronous answer without the buffer it hands back.
pub open spec fn spec_plain_answer(r: Result<(), (ErrorCode, Vec<u8>)>) -> Result<(), ErrorCode> {
    match r {
        Ok(()) => Ok(()),
        Err((e, _)) => Err(e),
    }
}

/// Whether a refused operation handed back the very buffer it was given.
pub open spec fn spec_gives_back(buf: Vec<u8>, r: Result<(), (ErrorCode, Vec<u8>)>) -> bool {
    r matches Err((_, d)) ==> d == buf
}

/// Receives the one callback that follows each accepted operation; read and
/// write hand the buffer back whatever the result.
pub trait Client {
    fn read_complete(&self, read_buffer: Vec<u8>, result: Result<(), Error>);

    fn write_complete(&self, write_buffer: Vec<u8>, result: Result<(), Error>);

    fn erase_complete(&self, result: Result<(), Error>);
}

} // verus!
