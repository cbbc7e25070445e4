use vstd::prelude::*;
use crate::error_code::ErrorCode;

verus! {

/// Stop bits per word.
#[derive(Copy, Clone, Debug, PartialEq, Eq, Structural)]
pub enum StopBits {
    One,
    Two,
}

/// Parity bit.
#[derive(Copy, Clone, Debug, PartialEq, Eq, Structural)]
pub enum Parity {
    /// No parity bit.
    NoParity,
    Odd,
    Even,
}

/// Bits per word.
#[derive(Copy, Clone, Debug, PartialEq, Eq, Structural)]
pub enum Width {
    Six,
    Seven,
    Eight,
}

/// A UART configuration.
#[derive(Copy, Clone, Debug, PartialEq, Eq, Structural)]
pub struct Parameters {
    pub baud_rate: u32,
    pub width: Width,
    pub stop_bits: StopBits,
    pub parity: Parity,
    pub hw_flow_control: bool,
}

/// What went wrong with a receive.
#[derive(Copy, Clone, Debug, PartialEq, Eq, Structural)]
pub enum Error {
    /// Nothing went wrong.
    NoError,
    ParityError,
    FramingError,
    OverrunError,
    RepeatCallError,
    ResetError,
    Aborted,
}

/// The transmit and receive sides of a UART.
///
/// A buffer call answers `Err(SIZE)` for a length past the buffer and
/// `Err(BUSY)` while one is outstanding, and any `Err` starts nothing and
/// hands the buffer back as it was. `Ok(())` promises one callback. An abort
/// with nothing outstanding answers `Ok(())`; with something outstanding it
/// answers an error and the callback follows, reporting `Err(CANCEL)` and how
/// many words arrived. Words wider than the configured width are truncated.
///
/// Each implementation says, through the `_answers` relations, which
/// synchronous answers it gives to which request.
pub trait UartData {
    /// Whether `r` is an answer this UART gives to transmitting `tx_len`
    /// words of `tx_buffer`.
    spec fn transmit_answers(&self, tx_buffer: Vec<u8>, tx_len: usize, r: Result<(), ErrorCode>) -> bool;

    /// Whether `r` is an answer this UART gives to transmitting `word`.
    spec fn transmit_word_answers(&self, word: u32, r: Result<(), ErrorCode>) -> bool;

    /// Whether `r` is an answer this UART gives to aborting a transmit.
    spec fn transmit_abort_answers(&self, r: Result<(), ErrorCode>) -> bool;

    /// Whether `r` is an answer this UART gives to receiving `rx_len` words
    /// into a buffer of `rx_buffer_len` bytes.
    spec fn receive_answers(&self, rx_buffer_len: usize, rx_len: usize, r: Result<(), ErrorCode>) -> bool;

    /// Whether `r` is an answer this UART gives to receiving a word.
    spec fn receive_word_answers(&self, r: Result<(), ErrorCode>) -> bool;

    /// Whether `r` is an answer this UART gives to aborting a receive.
    spec fn receive_abort_answers(&self, r: Result<(), ErrorCode>) -> bool;

    fn transmit_buffer(&self, tx_buffer: Vec<u8>, tx_len: usize) -> (r: Result<(), (ErrorCode, Vec<u8>)>)
        ensures
            self.transmit_answers(tx_buffer, tx_len, match r { Ok(()) => Ok(()), Err((e, _)) => Err(e) }),
            r matches Err((_, b)) ==> b == tx_buffer,
    ;

    fn transmit_word(&self, word: u32) -> (r: Result<(), ErrorCode>)
        ensures
            self.transmit_word_answers(word, r),
    ;

    fn transmit_abort(&self) -> (r: Result<(), ErrorCode>)
        ensures
            self.transmit_abort_answers(r),
    ;

    fn receive_buffer(&self, rx_buffer: Vec<u8>, rx_len: usize) -> (r: Result<(), (ErrorCode, Vec<u8>)>)
        ensures
            self.receive_answers(rx_buffer@.len() as usize, rx_len, match r { Ok(()) => Ok(()), Err((e, _)) => Err(e) }),
            r matches Err((_, b)) ==> b == rx_buffer,
    ;

    fn receive_word(&self) -> (r: Result<(), ErrorCode>)
        ensures
            self.receive_word_answers(r),
    ;

    fn receive_abort(&self) -> (r: Result<(), ErrorCode>)
        ensures
            self.receive_abort_answers(r),
    ;
}

/// Setting a UART's parameters: `Err(INVAL)` for impossible ones, such as a
/// baud rate of 0.
pub trait Configure {
    /// Whether `r` is an answer this end gives to being set to `params`.
    spec fn configure_answers(&self, params: Parameters, r: Result<(), ErrorCode>) -> bool;

    fn configure(&self, params: Parameters) -> (r: Result<(), ErrorCode>)
        ensures
            self.configure_answers(params, r),
    ;
}

} // verus!
