use std::cell::{Cell, RefCell};
use tock_rp2::capsules::test::capsule_test::CapsuleTestError;
use tock_rp2::capsules::test::spi_contract::{SpiClause, SpiStage, TestSpiContract};
use tock_rp2::capsules::test::uart_contract::{TestUartContract, UartClause, UartStage};
use tock_rp2::error_code::ErrorCode;
use tock_rp2::hil::spi::SpiMaster;
use tock_rp2::hil::uart::{Configure, Error as UartError, Parameters, UartData};
use tock_rp2::kernel::leasable_buffer::SubSliceMut;

/// An SPI controller that refuses zero-length and second transfers and
/// holds an accepted one until the test completes it.
struct FakeSpi {
    busy: Cell<bool>,
    held: RefCell<Option<(SubSliceMut, Option<SubSliceMut>)>>,
    /// Keep the read buffer of a refused transfer instead of handing it
    /// back.
    drops_read: bool,
}

impl SpiMaster for FakeSpi {
    fn transfer_answers(&self, write: SubSliceMut, _read: Option<SubSliceMut>, r: Result<(), ErrorCode>) -> bool {
        if write.len() == 0 { r == Err(ErrorCode::INVAL) } else { r == Ok(()) || r == Err(ErrorCode::BUSY) }
    }
    fn write_byte_answers(&self, _val: u8, r: Result<(), ErrorCode>) -> bool {
        r == Err(ErrorCode::OFF)
    }
    fn read_byte_answers(&self, r: Result<u8, ErrorCode>) -> bool {
        r == Ok(0)
    }
    fn read_write_byte_answers(&self, _val: u8, r: Result<u8, ErrorCode>) -> bool {
        r == Err(ErrorCode::NOSUPPORT)
    }
    fn busy_answers(&self, _busy: bool) -> bool {
        true
    }
    fn read_write_bytes(&self, write: SubSliceMut, read: Option<SubSliceMut>) -> Result<(), (ErrorCode, SubSliceMut, Option<SubSliceMut>)> {
        if write.len() == 0 {
            return Err((ErrorCode::INVAL, write, if self.drops_read { None } else { read }));
        }
        if self.busy.get() {
            return Err((ErrorCode::BUSY, write, read));
        }
        self.busy.set(true);
        *self.held.borrow_mut() = Some((write, read));
        Ok(())
    }
    fn write_byte(&self, _val: u8) -> Result<(), ErrorCode> {
        Err(ErrorCode::OFF)
    }
    fn read_byte(&self) -> Result<u8, ErrorCode> {
        Ok(0)
    }
    fn read_write_byte(&self, _val: u8) -> Result<u8, ErrorCode> {
        Err(ErrorCode::NOSUPPORT)
    }
    fn is_busy(&self) -> bool {
        self.busy.get()
    }
}

#[test]
fn an_spi_controller_is_held_to_its_documented_answers() {
    let spi = FakeSpi { busy: Cell::new(false), held: RefCell::new(None), drops_read: false };
    let mut t = TestSpiContract::new_loopback(spi, vec![0u8; 8], vec![0u8; 8], vec![0u8; 8]);
    let r = t.run();
    assert_eq!(r.checks, vec![
        (SpiClause::NotBusyWhenIdle, true),
        (SpiClause::WriteByteEnumerated, true),
        (SpiClause::ReadByteEnumerated, true),
        // NOSUPPORT is not one of the codes `hil::spi` documents.
        (SpiClause::ReadWriteByteEnumerated, false),
        (SpiClause::ZeroLengthIsInval, true),
        (SpiClause::IdleTransferStarts, true),
        (SpiClause::BusyWhileOutstanding, true),
        (SpiClause::SecondTransferIsBusy, true),
    ]);
    assert_eq!(r.verdict, None);
    assert_eq!(t.stage, SpiStage::AwaitingTransfer);
    assert!(t.spare.is_some());
    // The transfer completes, with MOSI looped to MISO.
    let (write, read) = t.spi.held.borrow_mut().take().unwrap();
    let mut read = read.unwrap();
    for i in 0..4 {
        let b = write.get(i);
        read.set(i, b);
    }
    t.spi.busy.set(false);
    let r = t.read_write_done(write, Some(read), Ok(4));
    assert_eq!(r.checks, vec![
        (SpiClause::CompletionReportsLen, true),
        (SpiClause::WriteBufferUnmodified, true),
        (SpiClause::WriteBoundsUnmodified, true),
        (SpiClause::ReadBoundsUnmodified, true),
        (SpiClause::LoopbackBytesMatch, true),
        (SpiClause::NotBusyAfterCallback, true),
    ]);
    assert_eq!(r.verdict, Some(Err(CapsuleTestError::IncorrectResult)));
    assert_eq!(t.failures, 1);
    assert_eq!(t.checks, 14);
}

#[test]
fn a_callback_after_an_error_is_counted() {
    let spi = FakeSpi { busy: Cell::new(false), held: RefCell::new(None), drops_read: false };
    let mut t = TestSpiContract::new(spi, vec![0u8; 4], vec![0u8; 4], vec![0u8; 4]);
    let r = t.read_write_done(SubSliceMut::new(vec![1, 2]), None, Ok(2));
    assert_eq!(r.checks, vec![(SpiClause::ErrMustNotCallBack, false)]);
    assert_eq!(r.verdict, None);
}

/// A UART that keeps the documented answers; its receives and transmits are
/// held until the test completes them.
struct FakeUart {
    rx: RefCell<Option<Vec<u8>>>,
    tx: RefCell<Option<Vec<u8>>>,
}

impl UartData for FakeUart {
    fn transmit_answers(&self, tx_buffer: Vec<u8>, tx_len: usize, r: Result<(), ErrorCode>) -> bool {
        if tx_len > tx_buffer.len() { r == Err(ErrorCode::SIZE) } else { r == Ok(()) || r == Err(ErrorCode::BUSY) }
    }
    fn transmit_word_answers(&self, _word: u32, r: Result<(), ErrorCode>) -> bool {
        r == Err(ErrorCode::NOSUPPORT)
    }
    fn transmit_abort_answers(&self, r: Result<(), ErrorCode>) -> bool {
        r == Ok(()) || r == Err(ErrorCode::BUSY)
    }
    fn receive_answers(&self, rx_buffer_len: usize, rx_len: usize, r: Result<(), ErrorCode>) -> bool {
        if rx_len > rx_buffer_len { r == Err(ErrorCode::SIZE) } else { r == Ok(()) || r == Err(ErrorCode::BUSY) }
    }
    fn receive_word_answers(&self, r: Result<(), ErrorCode>) -> bool {
        r == Err(ErrorCode::FAIL)
    }
    fn receive_abort_answers(&self, r: Result<(), ErrorCode>) -> bool {
        r == Ok(()) || r == Err(ErrorCode::BUSY)
    }
    fn transmit_buffer(&self, tx_buffer: Vec<u8>, tx_len: usize) -> Result<(), (ErrorCode, Vec<u8>)> {
        if tx_len > tx_buffer.len() {
            return Err((ErrorCode::SIZE, tx_buffer));
        }
        if self.tx.borrow().is_some() {
            return Err((ErrorCode::BUSY, tx_buffer));
        }
        *self.tx.borrow_mut() = Some(tx_buffer);
        Ok(())
    }
    fn transmit_word(&self, _word: u32) -> Result<(), ErrorCode> {
        Err(ErrorCode::NOSUPPORT)
    }
    fn transmit_abort(&self) -> Result<(), ErrorCode> {
        if self.tx.borrow().is_some() { Err(ErrorCode::BUSY) } else { Ok(()) }
    }
    fn receive_buffer(&self, rx_buffer: Vec<u8>, rx_len: usize) -> Result<(), (ErrorCode, Vec<u8>)> {
        if rx_len > rx_buffer.len() {
            return Err((ErrorCode::SIZE, rx_buffer));
        }
        if self.rx.borrow().is_some() {
            return Err((ErrorCode::BUSY, rx_buffer));
        }
        *self.rx.borrow_mut() = Some(rx_buffer);
        Ok(())
    }
    fn receive_word(&self) -> Result<(), ErrorCode> {
        Err(ErrorCode::FAIL)
    }
    fn receive_abort(&self) -> Result<(), ErrorCode> {
        if self.rx.borrow().is_some() { Err(ErrorCode::BUSY) } else { Ok(()) }
    }
}

#[test]
fn a_uart_is_held_to_its_documented_answers() {
    let uart = FakeUart { rx: RefCell::new(None), tx: RefCell::new(None) };
    let mut t: TestUartContract<FakeUart, NoConfigure> = TestUartContract::new(uart, vec![0u8; 8]);
    let r = t.run();
    assert_eq!(r.checks, vec![
        (UartClause::TxPastBufferIsSize, true),
        (UartClause::RxPastBufferIsSize, true),
        (UartClause::TxAbortIdleIsOk, true),
        (UartClause::RxAbortIdleIsOk, true),
        (UartClause::SecondRxIsBusy, true),
    ]);
    assert_eq!(t.stage, UartStage::AwaitingAbortCallback);
    assert_eq!(t.buffer.as_ref().map(|b| b.len()), Some(4));
    // The aborted receive calls back with nothing received.
    let rx = t.uart.rx.borrow_mut().take().unwrap();
    let r = t.received_buffer(rx, 0, Err(ErrorCode::CANCEL), UartError::Aborted);
    assert_eq!(r.checks, vec![
        (UartClause::CancelledRxCallsBack, true),
        (UartClause::CancelledRxIsCancel, true),
        (UartClause::CancelledRxReportsArrived, true),
        (UartClause::SecondTxIsBusy, true),
    ]);
    assert_eq!(t.stage, UartStage::AwaitingTransmit);
    let sent = t.uart.tx.borrow_mut().take().unwrap();
    assert_eq!(&sent[..4], b"abcd");
    let r = t.transmitted_buffer(sent, 4, Ok(()));
    assert_eq!(r.checks, vec![
        (UartClause::CompletedTxCallsBack, true),
        (UartClause::CompletedTxIsOk, true),
        (UartClause::CompletedTxReportsLen, true),
        (UartClause::ReentrantTxNotBusy, true),
        (UartClause::TxWordEnumerated, true),
        (UartClause::RxWordEnumerated, true),
    ]);
    assert_eq!(r.verdict, Some(Ok(())));
    assert_eq!(t.stage, UartStage::Done);
    assert_eq!(t.failures, 0);
}

/// A configurable end that refuses a zero baud rate and accepts the rest.
struct GoodConfigure;

impl Configure for GoodConfigure {
    fn configure_answers(&self, params: Parameters, r: Result<(), ErrorCode>) -> bool {
        r == if params.baud_rate == 0 { Err(ErrorCode::INVAL) } else { Ok(()) }
    }
    fn configure(&self, params: Parameters) -> Result<(), ErrorCode> {
        if params.baud_rate == 0 { Err(ErrorCode::INVAL) } else { Ok(()) }
    }
}

/// A configurable end that accepts anything.
struct NoConfigure;

impl Configure for NoConfigure {
    fn configure_answers(&self, _params: Parameters, r: Result<(), ErrorCode>) -> bool {
        r == Ok(())
    }
    fn configure(&self, _params: Parameters) -> Result<(), ErrorCode> {
        Ok(())
    }
}

#[test]
fn a_loopback_uart_carries_the_pattern_and_truncates_wide_words() {
    let uart = FakeUart { rx: RefCell::new(None), tx: RefCell::new(None) };
    let mut t: TestUartContract<FakeUart, GoodConfigure> = TestUartContract::new_loopback(uart, vec![0u8; 8]);
    let c = t.check_configure(GoodConfigure);
    assert_eq!(c.checks, vec![(UartClause::ZeroBaudIsInval, true)]);
    t.run();
    let rx = t.uart.rx.borrow_mut().take().unwrap();
    t.received_buffer(rx, 0, Err(ErrorCode::CANCEL), UartError::Aborted);
    assert_eq!(t.stage, UartStage::AwaitingLoopback);
    // The pattern goes out and comes back.
    let sent = t.uart.tx.borrow_mut().take().unwrap();
    let mut rx = t.uart.rx.borrow_mut().take().unwrap();
    rx[..4].copy_from_slice(&sent[..4]);
    let r = t.transmitted_buffer(sent, 4, Ok(()));
    assert_eq!(r.verdict, None);
    assert!(t.buffer.is_some());
    let r = t.received_buffer(rx, 4, Ok(()), UartError::NoError);
    assert_eq!(r.checks, vec![
        (UartClause::CompletedRxIsOk, true),
        (UartClause::CompletedRxReportsLen, true),
        (UartClause::CompletedRxNoError, true),
        (UartClause::BytesReceivedMatch, true),
    ]);
    assert_eq!(t.stage, UartStage::AwaitingWidth);
    // The seven-bit word comes back without bit 7.
    let wide = t.uart.tx.borrow_mut().take().unwrap();
    assert_eq!(wide[0], 0xc5);
    t.transmitted_buffer(wide, 1, Ok(()));
    let mut rx = t.uart.rx.borrow_mut().take().unwrap();
    rx[0] = 0x45;
    let r = t.received_buffer(rx, 1, Ok(()), UartError::NoError);
    assert_eq!(r.checks, vec![
        (UartClause::WideWordTruncated, true),
        (UartClause::ConfigureAcceptsEightBits, true),
        (UartClause::ReentrantRxNotBusy, true),
        (UartClause::TxWordEnumerated, true),
        (UartClause::RxWordEnumerated, true),
    ]);
    assert_eq!(r.verdict, Some(Ok(())));
}

#[test]
fn a_uart_without_a_buffer_cannot_start() {
    let uart = FakeUart { rx: RefCell::new(None), tx: RefCell::new(None) };
    let mut t: TestUartContract<FakeUart, NoConfigure> = TestUartContract::new(uart, vec![0u8; 8]);
    t.buffer = None;
    let r = t.run();
    assert_eq!(r.verdict, Some(Err(CapsuleTestError::ErrorCode(ErrorCode::NOMEM))));
    let r = t.transmitted_buffer(vec![0u8; 4], 4, Ok(()));
    assert_eq!(r.checks, vec![(UartClause::ErrTxMustNotCallBack, false)]);
    let c = t.check_configure(NoConfigure);
    assert_eq!(c.checks, vec![(UartClause::ZeroBaudIsInval, false)]);
}

#[test]
fn a_refusal_that_keeps_the_read_buffer_fails_the_run() {
    let spi = FakeSpi { busy: Cell::new(false), held: RefCell::new(None), drops_read: true };
    let mut t = TestSpiContract::new(spi, vec![0u8; 4], vec![0u8; 4], vec![0u8; 4]);
    let r = t.run();
    assert_eq!(r.checks[4], (SpiClause::ZeroLengthIsInval, true));
    assert_eq!(r.checks[5], (SpiClause::ErrReturnsReadBuffer, false));
    assert_eq!(r.checks.len(), 6);
    assert_eq!(r.verdict, Some(Err(CapsuleTestError::IncorrectResult)));
    assert_eq!(t.stage, SpiStage::Done);
}
