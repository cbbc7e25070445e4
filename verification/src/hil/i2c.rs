use vstd::prelude::*;
use crate::error_code::ErrorCode;

verus! {

/// The type of error encountered during I2C communication.
#[derive(Copy, Clone, Debug, PartialEq, Eq, Structural)]
pub enum Error {
    /// The slave did not acknowledge the chip address.
    AddressNak,
    /// The data was not acknowledged by the slave.
    DataNak,
    /// Arbitration lost.
    ArbitrationLost,
    /// A start condition was received before received data had been read.
    Overrun,
    /// A length argument is larger than the buffer it indexes. Nothing was
    /// transmitted.
    Size,
    /// The requested operation wasn't supported.
    NotSupported,
    /// The underlying device has another request in progress.
    Busy,
}

/// The kernel error code an I2C error is reported as.
pub open spec fn spec_error_code(e: Error) -> ErrorCode {
    match e {
        Error::AddressNak | Error::DataNak => ErrorCode::NOACK,
        Error::ArbitrationLost => ErrorCode::RESERVE,
        Error::Overrun | Error::Size => ErrorCode::SIZE,
        Error::NotSupported => ErrorCode::NOSUPPORT,
        Error::Busy => ErrorCode::BUSY,
    }
}

impl Error {
    /// The kernel error code this error is reported as.
    pub fn error_code(self) -> (c: ErrorCode)
        ensures
            c == spec_error_code(self),
    {
        match self {
            Error::AddressNak | Error::DataNak => ErrorCode::NOACK,
            Error::ArbitrationLost => ErrorCode::RESERVE,
            Error::Overrun | Error::Size => ErrorCode::SIZE,
            Error::NotSupported => ErrorCode::NOSUPPORT,
            Error::Busy => ErrorCode::BUSY,
        }
    }

    /// How the error reads on a console.
    pub fn description(self) -> (s: &'static str)
        ensures
            self == Error::AddressNak ==> s@ == "I2C Address Not Acknowledged"@,
            self == Error::DataNak ==> s@ == "I2C Data Not Acknowledged"@,
            self == Error::ArbitrationLost ==> s@ == "I2C Bus Arbitration Lost"@,
            self == Error::Overrun ==> s@ == "I2C receive overrun"@,
            self == Error::Size ==> s@ == "I2C length is larger than the buffer"@,
            self == Error::NotSupported ==> s@ == "I2C/SMBus command not supported"@,
            self == Error::Busy ==> s@ == "I2C/SMBus is busy"@,
    {
        match self {
            Error::AddressNak => "I2C Address Not Acknowledged",
            Error::DataNak => "I2C Data Not Acknowledged",
            Error::ArbitrationLost => "I2C Bus Arbitration Lost",
            Error::Overrun => "I2C receive overrun",
            Error::Size => "I2C length is larger than the buffer",
            Error::NotSupported => "I2C/SMBus command not supported",
            Error::Busy => "I2C/SMBus is busy",
        }
    }
}

impl core::convert::From<Error> for ErrorCode {
    fn from(val: Error) -> (c: ErrorCode) {
        val.error_code()
    }
}

impl vstd::std_specs::convert::FromSpecImpl<Error> for ErrorCode {
    open spec fn obeys_from_spec() -> bool {
        true
    }

    open spec fn from_spec(v: Error) -> ErrorCode {
        spec_error_code(v)
    }
}

/// What type of transmission just finished from a master device.
#[derive(Copy, Clone, Debug, PartialEq, Eq, Structural)]
pub enum SlaveTransmissionType {
    Write,
    Read,
}

/// A controller with no SMBus (or I2C) support at all: every transfer is
/// refused with `NotSupported` and the buffer handed back.
#[derive(Copy, Clone, Debug, PartialEq, Eq, Structural)]
pub struct NoSMBus;

impl I2CMaster for NoSMBus {
    open spec fn write_answers(&self, addr: u8, data: Vec<u8>, len: usize, r: Result<(), Error>) -> bool {
        r == Err::<(), Error>(Error::NotSupported)
    }

    open spec fn read_answers(&self, addr: u8, buffer: Vec<u8>, len: usize, r: Result<(), Error>) -> bool {
        r == Err::<(), Error>(Error::NotSupported)
    }

    open spec fn write_read_answers(&self, addr: u8, data: Vec<u8>, write_len: usize, read_len: usize, r: Result<(), Error>) -> bool {
        r == Err::<(), Error>(Error::NotSupported)
    }

    fn enable(&self) {
    }

    fn disable(&self) {
    }

    /// Refused: `NotSupported`, with the buffer.
    fn write_read(&self, addr: u8, data: Vec<u8>, write_len: usize, read_len: usize) -> (r: Result<(), (Error, Vec<u8>)>)
        ensures
            r matches Err((e, d)) && e == Error::NotSupported && d@ == data@,
    {
        Err((Error::NotSupported, data))
    }

    /// Refused: `NotSupported`, with the buffer.
    fn write(&self, addr: u8, data: Vec<u8>, len: usize) -> (r: Result<(), (Error, Vec<u8>)>)
        ensures
            r matches Err((e, d)) && e == Error::NotSupported && d@ == data@,
    {
        Err((Error::NotSupported, data))
    }

    /// Refused: `NotSupported`, with the buffer.
    fn read(&self, addr: u8, buffer: Vec<u8>, len: usize) -> (r: Result<(), (Error, Vec<u8>)>)
        ensures
            r matches Err((e, d)) && e == Error::NotSupported && d@ == buffer@,
    {
        Err((Error::NotSupported, buffer))
    }
}

impl SMBusMaster for NoSMBus {
    /// Refused: `NotSupported`, with the buffer.
    fn smbus_write_read(&self, addr: u8, data: Vec<u8>, write_len: usize, read_len: usize) -> (r: Result<(), (Error, Vec<u8>)>)
        ensures
            r matches Err((e, d)) && e == Error::NotSupported && d@ == data@,
    {
        Err((Error::NotSupported, data))
    }

    /// Refused: `NotSupported`, with the buffer.
    fn smbus_write(&self, addr: u8, data: Vec<u8>, len: usize) -> (r: Result<(), (Error, Vec<u8>)>)
        ensures
            r matches Err((e, d)) && e == Error::NotSupported && d@ == data@,
    {
        Err((Error::NotSupported, data))
    }

    /// Refused: `NotSupported`, with the buffer.
    fn smbus_read(&self, addr: u8, buffer: Vec<u8>, len: usize) -> (r: Result<(), (Error, Vec<u8>)>)
        ensures
            r matches Err((e, d)) && e == Error::NotSupported && d@ == buffer@,
    {
        Err((Error::NotSupported, buffer))
    }
}

/// A transfer's synchronous answer without the buffer it hands back.
pub open spec fn spec_plain_answer(r: Result<(), (Error, Vec<u8>)>) -> Result<(), Error> {
    match r {
        Ok(()) => Ok(()),
        Err((e, _)) => Err(e),
    }
}

/// Whether a refused transfer handed back the very buffer it was given.
pub open spec fn spec_gives_back(data: Vec<u8>, r: Result<(), (Error, Vec<u8>)>) -> bool {
    r matches Err((_, d)) ==> d == data
}

/// An I2C master controller. A transfer that returns `Ok` completes
/// with one `command_complete`; one that returns `Err` hands the buffer back
/// and makes no callback. Only `Busy`, `Size` and `NotSupported` are
/// returned here; bus errors arrive in the callback.
///
/// Each implementation says, through the `_answers` relations, which
/// synchronous answers it gives to which request.
pub trait I2CMaster {
    /// Whether `r` is an answer this controller gives to a write of `len`
    /// bytes of `data` to `addr`.
    spec fn write_answers(&self, addr: u8, data: Vec<u8>, len: usize, r: Result<(), Error>) -> bool;

    /// Whether `r` is an answer this controller gives to a read of `len`
    /// bytes from `addr` into `buffer`.
    spec fn read_answers(&self, addr: u8, buffer: Vec<u8>, len: usize, r: Result<(), Error>) -> bool;

    /// Whether `r` is an answer this controller gives to writing
    /// `write_len` bytes of `data` to `addr` and then reading `read_len`
    /// bytes back into it.
    spec fn write_read_answers(&self, addr: u8, data: Vec<u8>, write_len: usize, read_len: usize, r: Result<(), Error>) -> bool;

    fn enable(&self);

    fn disable(&self);

    fn write_read(&self, addr: u8, data: Vec<u8>, write_len: usize, read_len: usize) -> (r: Result<(), (Error, Vec<u8>)>)
        ensures
            self.write_read_answers(addr, data, write_len, read_len, spec_plain_answer(r)),
            spec_gives_back(data, r),
    ;

    fn write(&self, addr: u8, data: Vec<u8>, len: usize) -> (r: Result<(), (Error, Vec<u8>)>)
        ensures
            self.write_answers(addr, data, len, spec_plain_answer(r)),
            spec_gives_back(data, r),
    ;

    fn read(&self, addr: u8, buffer: Vec<u8>, len: usize) -> (r: Result<(), (Error, Vec<u8>)>)
        ensures
            self.read_answers(addr, buffer, len, spec_plain_answer(r)),
            spec_gives_back(buffer, r),
    ;
}

/// SMBus variants of the master operations, with the same contract.
pub trait SMBusMaster: I2CMaster {
    fn smbus_write_read(&self, addr: u8, data: Vec<u8>, write_len: usize, read_len: usize) -> Result<(), (Error, Vec<u8>)>;

    fn smbus_write(&self, addr: u8, data: Vec<u8>, len: usize) -> Result<(), (Error, Vec<u8>)>;

    fn smbus_read(&self, addr: u8, buffer: Vec<u8>, len: usize) -> Result<(), (Error, Vec<u8>)>;
}

/// An I2C slave controller. `max_len` indexes `data` and must be no
/// larger than it.
pub trait I2CSlave {
    fn enable(&self);

    fn disable(&self);

    fn set_address(&self, addr: u8) -> Result<(), Error>;

    fn write_receive(&self, data: Vec<u8>, max_len: usize) -> Result<(), (Error, Vec<u8>)>;

    fn read_send(&self, data: Vec<u8>, max_len: usize) -> Result<(), (Error, Vec<u8>)>;

    fn listen(&self);
}

/// A controller that can be both master and slave.
pub trait I2CMasterSlave: I2CMaster + I2CSlave {}

/// Told when a master transfer completes, with the buffer it was given.
pub trait I2CHwMasterClient {
    fn command_complete(&self, buffer: Vec<u8>, status: Result<(), Error>);
}

/// Told when a slave transfer completes, or when the master is waiting for
/// a buffer.
pub trait I2CHwSlaveClient {
    fn command_complete(&self, buffer: Vec<u8>, length: usize, transmission_type: SlaveTransmissionType);

    fn read_expected(&self);

    fn write_expected(&self);
}

/// One device on a bus: the master contract with the address bound.
pub trait I2CDevice {
    fn enable(&self);

    fn disable(&self);

    fn write_read(&self, data: Vec<u8>, write_len: usize, read_len: usize) -> Result<(), (Error, Vec<u8>)>;

    fn write(&self, data: Vec<u8>, len: usize) -> Result<(), (Error, Vec<u8>)>;

    fn read(&self, buffer: Vec<u8>, len: usize) -> Result<(), (Error, Vec<u8>)>;
}

/// SMBus variants of the per-device operations.
pub trait SMBusDevice: I2CDevice {
    fn smbus_write_read(&self, data: Vec<u8>, write_len: usize, read_len: usize) -> Result<(), (Error, Vec<u8>)>;

    fn smbus_write(&self, data: Vec<u8>, len: usize) -> Result<(), (Error, Vec<u8>)>;

    fn smbus_read(&self, buffer: Vec<u8>, len: usize) -> Result<(), (Error, Vec<u8>)>;
}

/// Told when a device transfer completes.
pub trait I2CClient {
    fn command_complete(&self, buffer: Vec<u8>, status: Result<(), Error>);
}

} // verus!
