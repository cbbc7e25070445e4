use vstd::prelude::*;
use crate::error_code::ErrorCode;
use crate::registers::{FieldValue, spec_field, spec_bit_set, spec_read_field, is_set, read_field};

verus! {

/// `CS.EN`: power on the ADC and enable its clock.
pub const CS_EN: u32 = 0;
/// `CS.TS_EN`: power on the temperature sensor.
pub const CS_TS_EN: u32 = 1;
/// `CS.START_ONCE`: start a single conversion. Self-clearing.
pub const CS_START_ONCE: u32 = 2;
/// `CS.READY`: the ADC is ready to start a new conversion.
pub const CS_READY: u32 = 8;
/// `CS.AINSEL`: the analogue mux input, four bits at bit 12.
pub const CS_AINSEL_SHIFT: u32 = 12;
/// `FCS.EN`: write each result to the FIFO.
pub const FCS_EN: u32 = 0;
/// `FCS.THRESH`: interrupt when the FIFO holds at least this many, four bits
/// at bit 24.
pub const FCS_THRESH_SHIFT: u32 = 24;
/// `FIFO.VAL`: the conversion result, twelve bits.
pub const FIFO_VAL_MASK: u32 = 0xfff;
/// `INTE.FIFO`.
pub const INTE_FIFO: u32 = 0;

/// One input of the analogue mux. Each chip supplies its own set.
pub trait Channel {
    /// The value `CS.AINSEL` takes for this input.
    spec fn spec_ainsel(&self) -> u32;

    /// Whether this input is the on-die temperature sensor.
    spec fn spec_is_temperature_sensor(&self) -> bool;

    /// The value written to `CS.AINSEL` to select this input.
    fn ainsel(&self) -> (r: u32)
        ensures
            r == self.spec_ainsel(),
    ;

    /// Whether sampling this input requires the temperature sensor powered.
    fn is_temperature_sensor(&self) -> (r: bool)
        ensures
            r == self.spec_is_temperature_sensor(),
    ;
}

/// Whether a conversion is in flight.
#[derive(Copy, Clone, Debug, PartialEq, Eq, Structural)]
pub enum AdcStatus {
    Idle,
    OneSample,
}

/// A read-modify-write of one of the ADC's registers.
#[derive(Copy, Clone, Debug, PartialEq, Eq, Structural)]
pub enum AdcWrite {
    Cs(FieldValue),
    Fcs(FieldValue),
    Inte(FieldValue),
}

/// The 12-bit SAR ADC shared by the RP2 chips.
#[derive(Copy, Clone, Debug, PartialEq, Eq, Structural)]
pub struct Adc {
    /// Where the ADC's registers are.
    pub registers: usize,
    pub status: AdcStatus,
    /// Whether a client has been set to receive samples.
    pub has_client: bool,
}

/// The writes `sample` makes for a channel, in order: the temperature sensor
/// on if it is that channel, the channel into `AINSEL`, the FIFO enabled with
/// a threshold of one, the FIFO interrupt enabled, and the conversion started.
pub open spec fn spec_sample_writes(ainsel: u32, temperature: bool) -> Seq<AdcWrite> {
    let rest = seq![
        AdcWrite::Cs(spec_field(0xf, CS_AINSEL_SHIFT, ainsel)),
        AdcWrite::Fcs(FieldValue {
            mask: spec_field(0xf, FCS_THRESH_SHIFT, 1).mask | spec_field(1, FCS_EN, 1).mask,
            value: spec_field(0xf, FCS_THRESH_SHIFT, 1).value | spec_field(1, FCS_EN, 1).value,
        }),
        AdcWrite::Inte(spec_field(1, INTE_FIFO, 1)),
        AdcWrite::Cs(spec_field(1, CS_START_ONCE, 1)),
    ];
    if temperature {
        seq![AdcWrite::Cs(spec_field(1, CS_TS_EN, 1))] + rest
    } else {
        rest
    }
}

/// The sample a FIFO word carries, left-justified in 16 bits.
pub open spec fn spec_sample(fifo: u32) -> u16 {
    (spec_read_field(fifo, FIFO_VAL_MASK, 0) << 4u32) as u16
}

impl Adc {
    /// The ADC whose registers are at `registers`: idle, with no client.
    pub fn new(registers: usize) -> (a: Adc)
        ensures
            a == (Adc { registers, status: AdcStatus::Idle, has_client: false }),
    {
        Adc { registers, status: AdcStatus::Idle, has_client: false }
    }

    /// Power the ADC on. The caller then waits until `CS.READY` reads set.
    pub fn init(&self) -> (w: AdcWrite)
        ensures
            w == AdcWrite::Cs(spec_field(1, CS_EN, 1)),
    {
        AdcWrite::Cs(FieldValue::new(1, CS_EN, 1))
    }

    /// Whether a `CS` reading says the ADC is ready.
    pub fn is_ready(cs: u32) -> (b: bool)
        ensures
            b == spec_bit_set(cs, CS_READY),
    {
        is_set(cs, CS_READY)
    }

    /// Power the ADC off.
    pub fn disable(&self) -> (w: AdcWrite)
        ensures
            w == AdcWrite::Cs(spec_field(1, CS_EN, 0)),
    {
        AdcWrite::Cs(FieldValue::new(1, CS_EN, 0))
    }

    /// Record the client that receives samples.
    pub fn set_client(&mut self)
        ensures
            *final(self) == (Adc { has_client: true, ..*old(self) }),
    {
        self.has_client = true;
    }

    /// Start one conversion on `channel`, or `BUSY` while one is in flight.
    pub fn sample<C: Channel>(&mut self, channel: &C) -> (r: Result<Vec<AdcWrite>, ErrorCode>)
        ensures
            old(self).status == AdcStatus::OneSample ==> r == Err::<Vec<AdcWrite>, ErrorCode>(ErrorCode::BUSY) && *final(self) == *old(self),
            old(self).status == AdcStatus::Idle ==> {
                &&& r is Ok
                &&& r->Ok_0@ == spec_sample_writes(channel.spec_ainsel(), channel.spec_is_temperature_sensor())
                &&& *final(self) == (Adc { status: AdcStatus::OneSample, ..*old(self) })
            },
    {
        if self.status == AdcStatus::Idle {
            let mut writes: Vec<AdcWrite> = Vec::new();
            if channel.is_temperature_sensor() {
                writes.push(AdcWrite::Cs(FieldValue::new(1, CS_TS_EN, 1)));
            }
            self.status = AdcStatus::OneSample;
            writes.push(AdcWrite::Cs(FieldValue::new(0xf, CS_AINSEL_SHIFT, channel.ainsel())));
            let thresh = FieldValue::new(0xf, FCS_THRESH_SHIFT, 1);
            let en = FieldValue::new(1, FCS_EN, 1);
            writes.push(AdcWrite::Fcs(thresh.combine(en)));
            writes.push(AdcWrite::Inte(FieldValue::new(1, INTE_FIFO, 1)));
            writes.push(AdcWrite::Cs(FieldValue::new(1, CS_START_ONCE, 1)));
            assert(writes@ =~= spec_sample_writes(channel.spec_ainsel(), channel.spec_is_temperature_sensor()));
            Ok(writes)
        } else {
            Err(ErrorCode::BUSY)
        }
    }

    /// Continuous sampling is not supported.
    pub fn sample_continuous<C: Channel>(&self, channel: &C, frequency: u32) -> (r: Result<(), ErrorCode>)
        ensures
            r == Err::<(), ErrorCode>(ErrorCode::NOSUPPORT),
    {
        Err(ErrorCode::NOSUPPORT)
    }

    /// Stop sampling. With nothing sampling there is nothing to stop, and
    /// no further callback can come: `Ok(())`. A conversion in flight cannot
    /// be aborted: `NOSUPPORT`.
    pub fn stop_sampling(&self) -> (r: Result<(), ErrorCode>)
        ensures
            self.status == AdcStatus::Idle ==> r == Ok::<(), ErrorCode>(()),
            self.status == AdcStatus::OneSample ==> r == Err::<(), ErrorCode>(ErrorCode::NOSUPPORT),
    {
        match self.status {
            AdcStatus::Idle => Ok(()),
            AdcStatus::OneSample => Err(ErrorCode::NOSUPPORT),
        }
    }

    /// The converter's resolution.
    pub fn get_resolution_bits(&self) -> (r: usize)
        ensures
            r == 12,
    {
        12
    }

    /// The reference voltage, in millivolts.
    pub fn get_voltage_reference_mv(&self) -> (r: Option<usize>)
        ensures
            r == Some(3300usize),
    {
        Some(3300)
    }

    /// The ADC's interrupt, given what `CS` and the FIFO read.
    ///
    /// Nothing happens unless the ADC reports ready. Then the conversion in
    /// flight, if any, is over; and if a client is set the FIFO interrupt is
    /// disabled and the client is handed the sample, left-justified.
    pub fn handle_interrupt(&mut self, cs: u32, fifo: u32) -> (r: (Option<AdcWrite>, Option<u16>))
        ensures
            !spec_bit_set(cs, CS_READY) ==> r == (None::<AdcWrite>, None::<u16>) && *final(self) == *old(self),
            spec_bit_set(cs, CS_READY) ==> {
                &&& *final(self) == (Adc { status: AdcStatus::Idle, ..*old(self) })
                &&& r == (if old(self).has_client {
                        (Some(AdcWrite::Inte(spec_field(1, INTE_FIFO, 0))), Some(spec_sample(fifo)))
                    } else {
                        (None, None)
                    })
            },
    {
        if is_set(cs, CS_READY) {
            if self.status == AdcStatus::OneSample {
                self.status = AdcStatus::Idle;
            }
            if self.has_client {
                let value = read_field(fifo, FIFO_VAL_MASK, 0);
                let sample = (value << 4u32) as u16;
                return (Some(AdcWrite::Inte(FieldValue::new(1, INTE_FIFO, 0))), Some(sample));
            }
        }
        (None, None)
    }
}

/// Every sample the driver delivers is left-justified: its low four bits
/// are clear, as `hil::adc` requires of a 12-bit converter.
pub proof fn lemma_sample_left_justified(fifo: u32)
    ensures
        spec_sample(fifo) & 0xf == 0,
{
    let v = spec_read_field(fifo, FIFO_VAL_MASK, 0);
    assert(v == (fifo >> 0u32) & 0xfff);
    assert((((fifo >> 0u32) & 0xfff) << 4u32) as u16 & 0xf == 0) by (bit_vector);
}

} // verus!
