use vstd::prelude::*;
use crate::error_code::ErrorCode;

verus! {

/// A low-speed, single-sample ADC.
///
/// `Ok(())` from a sampling call promises exactly one `sample_ready`; `BUSY`
/// is only answered when a later attempt could succeed.
///
/// Each implementation says, through the `_answers` relations and the two
/// spec functions, which answers it gives to which request.
pub trait Adc {
    type Channel;

    /// Whether `r` is an answer this ADC gives to a sample of `channel`.
    spec fn sample_answers(&self, channel: &Self::Channel, r: Result<(), ErrorCode>) -> bool;

    /// Whether `r` is an answer this ADC gives to sampling `channel`
    /// repeatedly at `frequency` hertz.
    spec fn sample_continuous_answers(&self, channel: &Self::Channel, frequency: u32, r: Result<(), ErrorCode>) -> bool;

    /// Whether `r` is an answer this ADC gives to a stop.
    spec fn stop_answers(&self, r: Result<(), ErrorCode>) -> bool;

    /// The resolution this ADC reports.
    spec fn spec_resolution_bits(&self) -> usize;

    /// The reference voltage this ADC reports.
    spec fn spec_voltage_reference_mv(&self) -> Option<usize>;

    /// Start one sample. `BUSY` while one is in flight.
    fn sample(&self, channel: &Self::Channel) -> (r: Result<(), ErrorCode>)
        ensures
            self.sample_answers(channel, r),
    ;

    /// Sample repeatedly at `frequency` hertz.
    fn sample_continuous(&self, channel: &Self::Channel, frequency: u32) -> (r: Result<(), ErrorCode>)
        ensures
            self.sample_continuous_answers(channel, frequency, r),
    ;

    /// Stop sampling. Stopping an idle ADC is `Ok(())`.
    fn stop_sampling(&self) -> (r: Result<(), ErrorCode>)
        ensures
            self.stop_answers(r),
    ;

    /// The resolution, in bits.
    fn get_resolution_bits(&self) -> (r: usize)
        ensures
            r == self.spec_resolution_bits(),
    ;

    /// The reference voltage in millivolts, if known; never `Some(0)`.
    fn get_voltage_reference_mv(&self) -> (r: Option<usize>)
        ensures
            r == self.spec_voltage_reference_mv(),
    ;
}

/// Receives samples. Every sample is the raw value left-justified in 16
/// bits.
pub trait Client {
    fn sample_ready(&self, sample: u16);
}

/// A buffered, high-speed ADC.
pub trait AdcHighSpeed: Adc {
    /// Sample into two buffers in turn.
    fn sample_highspeed(
        &self,
        channel: &Self::Channel,
        frequency: u32,
        buffer1: Vec<u16>,
        length1: usize,
        buffer2: Vec<u16>,
        length2: usize,
    ) -> Result<(), (ErrorCode, Vec<u16>, Vec<u16>)>;

    /// Hand over the next buffer to fill.
    fn provide_buffer(&self, buf: Vec<u16>, length: usize) -> Result<(), (ErrorCode, Vec<u16>)>;

    /// Take back the buffers once sampling has stopped.
    fn retrieve_buffers(&self) -> Result<(Option<Vec<u16>>, Option<Vec<u16>>), ErrorCode>;
}

/// Receives filled buffers from a high-speed ADC.
pub trait HighSpeedClient {
    fn samples_ready(&self, buf: Vec<u16>, length: usize);
}

/// One ADC channel, with the sampling calls bound to it.
pub trait AdcChannel {
    fn sample(&self) -> Result<(), ErrorCode>;

    fn sample_continuous(&self) -> Result<(), ErrorCode>;

    fn stop_sampling(&self) -> Result<(), ErrorCode>;

    fn get_resolution_bits(&self) -> usize;

    fn get_voltage_reference_mv(&self) -> Option<usize>;
}

} // verus!
