use tock_rp2::registers::{is_set, read_field, FieldValue};
use tock_rp2::rp2040::adc::{new_adc, Channel};
use tock_rp2::rp2040::pio::{gpio_init, new_pio0, new_pio1};
use tock_rp2::rp2350::trng::{Continue, Trng, TrngOp, MAX_RESETS};
use tock_rp2::rp2350::watchdog::{Watchdog, WatchdogWrite, DEFAULT_PERIOD_US, MAX_LOAD_US, WDSEL_ALL_BUT_OSCILLATORS};
use tock_rp2::rp2xxx::adc::{AdcStatus, AdcWrite};
use tock_rp2::rp2xxx::pio::PioFunction;
use tock_rp2::error_code::ErrorCode;

#[test]
fn a_field_reads_back_what_was_written() {
    let f = FieldValue::new(0xf, 12, 0x1a);
    assert_eq!(f.mask, 0xf000);
    assert_eq!(f.value, 0xa000);
    let r = f.apply(0xffff_ffff);
    assert_eq!(read_field(r, 0xf, 12), 0xa);
    // Every other bit is kept.
    assert_eq!(r | 0xf000, 0xffff_ffff);
    assert!(is_set(r, 31));
    assert!(!is_set(r, 12));
    let both = FieldValue::new(1, 0, 1).combine(FieldValue::new(1, 4, 1));
    assert_eq!(both.word(), 0x11);
    assert_eq!(both.apply(0x100), 0x111);
}

#[test]
fn the_trng_retries_within_its_budget_then_reports() {
    let mut t = Trng::new();
    t.set_client();
    assert_eq!(t.get().unwrap(), vec![TrngOp::EnableInterrupts, TrngOp::Start]);
    for n in 1..=MAX_RESETS {
        let ops = t.handle_interrupt(1 << 1);
        assert_eq!(ops, vec![TrngOp::SwReset, TrngOp::EnableInterrupts, TrngOp::Start]);
        assert_eq!(t.resets, n);
    }
    let ops = t.handle_interrupt(1 << 1);
    assert_eq!(ops, vec![TrngOp::SwReset, TrngOp::DisableInterrupts, TrngOp::ReportFailure]);
    assert_eq!(t.resets, 0);
}

#[test]
fn a_bad_run_is_collected_again_quietly() {
    let mut t = Trng::new();
    t.set_client();
    t.get().unwrap();
    assert_eq!(t.handle_interrupt(1 << 2), vec![TrngOp::ClearErrors, TrngOp::Stop, TrngOp::Start]);
    assert_eq!(t.handle_interrupt(1 << 3), vec![TrngOp::ClearErrors, TrngOp::Stop, TrngOp::Start]);
    assert!(t.handle_interrupt(1 << 4).is_empty());
}

#[test]
fn a_good_collection_hands_out_six_words_then_drains() {
    let mut t = Trng::new();
    assert_eq!(t.next_word(), None);
    t.set_client();
    t.get().unwrap();
    assert_eq!(t.handle_interrupt(1), vec![TrngOp::Deliver]);
    let words: Vec<usize> = std::iter::from_fn(|| t.next_word()).collect();
    assert_eq!(words, vec![0, 1, 2, 3, 4, 5]);
    assert_eq!(t.entropy_delivered(Some(Continue::More)), vec![TrngOp::Drain, TrngOp::ClearValid, TrngOp::Start]);
    t.handle_interrupt(1);
    assert_eq!(t.next_word(), Some(0));
    assert_eq!(
        t.entropy_delivered(Some(Continue::Done)),
        vec![TrngOp::Drain, TrngOp::ClearValid, TrngOp::Stop, TrngOp::DisableInterrupts]
    );
    assert_eq!(t.next_word(), None);
    assert_eq!(t.cancel().unwrap(), vec![TrngOp::Stop, TrngOp::DisableInterrupts, TrngOp::Drain]);
}

#[test]
fn without_a_client_a_collection_is_drained() {
    let mut t = Trng::new();
    assert_eq!(t.handle_interrupt(1), vec![TrngOp::Drain, TrngOp::ClearValid, TrngOp::Stop, TrngOp::DisableInterrupts]);
    assert_eq!(t.handle_interrupt(1 << 1), vec![TrngOp::SwReset, TrngOp::EnableInterrupts, TrngOp::Start]);
}

#[test]
fn the_watchdog_is_loaded_paused_and_never_resets_the_oscillators() {
    let w = Watchdog::new();
    let writes = w.start(2_000_000);
    assert_eq!(writes.len(), 4);
    assert_eq!(writes[0], WatchdogWrite::Ctrl(FieldValue::new(1, 30, 0)));
    assert_eq!(writes[1], WatchdogWrite::Wdsel(WDSEL_ALL_BUT_OSCILLATORS));
    assert_eq!(writes[2], WatchdogWrite::Load(2_000_000));
    assert_eq!(writes[3], WatchdogWrite::Ctrl(FieldValue::new(1, 30, 1)));
    assert_eq!(WDSEL_ALL_BUT_OSCILLATORS & 0b1100, 0);
    assert_eq!(w.feed(u32::MAX), WatchdogWrite::Load(MAX_LOAD_US));
    assert_eq!(w.tickle(), WatchdogWrite::Load(DEFAULT_PERIOD_US));
    assert_eq!(w.suspend(), w.stop());
    assert_eq!(w.resume(), w.setup());
    assert!(w.caused_last_reset(1));
    assert!(!w.caused_last_reset(2));
    assert_eq!(w.time_remaining_us(0xC012_3456), 0x12_3456);
    let t = w.trigger_reset();
    assert_eq!(t[1], WatchdogWrite::Ctrl(FieldValue::new(1, 31, 1)));
}

#[test]
fn the_adc_samples_one_channel_at_a_time() {
    let mut adc = new_adc();
    assert_eq!(adc.status, AdcStatus::Idle);
    adc.set_client();
    let writes = adc.sample(&Channel::Channel2).unwrap();
    assert_eq!(writes.len(), 4);
    assert_eq!(writes[0], AdcWrite::Cs(FieldValue::new(0xf, 12, 2)));
    assert_eq!(adc.sample(&Channel::Channel1), Err(ErrorCode::BUSY));
    // Not ready yet: nothing happens.
    assert_eq!(adc.handle_interrupt(0, 0xabc), (None, None));
    let (w, s) = adc.handle_interrupt(1 << 8, 0xabc);
    assert_eq!(w, Some(AdcWrite::Inte(FieldValue::new(1, 0, 0))));
    assert_eq!(s, Some(0xabc0));
    assert_eq!(adc.status, AdcStatus::Idle);
    // Nothing is sampling: stopping is no error.
    assert_eq!(adc.stop_sampling(), Ok(()));
    // The temperature sensor is powered first.
    let writes = adc.sample(&Channel::Channel4).unwrap();
    assert_eq!(writes[0], AdcWrite::Cs(FieldValue::new(1, 1, 1)));
    assert_eq!(writes.len(), 5);
    assert_eq!(adc.get_resolution_bits(), 12);
    assert_eq!(adc.get_voltage_reference_mv(), Some(3300));
    assert_eq!(adc.stop_sampling(), Err(ErrorCode::NOSUPPORT));
    assert_eq!(adc.sample_continuous(&Channel::Channel0, 10), Err(ErrorCode::NOSUPPORT));
}

#[test]
fn pio_blocks_sit_at_their_datasheet_addresses() {
    let p0 = new_pio0();
    assert_eq!(p0.base, 0x5020_0000);
    assert_eq!(p0.irq, 0x5020_0128);
    assert_eq!(p0.xor_alias, 0x5020_1000);
    assert_eq!(p0.set_alias, 0x5020_2000);
    assert_eq!(p0.clear_alias, 0x5020_3000);
    let p1 = new_pio1();
    assert_eq!(p1.index, 1);
    assert_eq!(p1.base, 0x5030_0000);
    assert_eq!(gpio_init(1), PioFunction::PIO1);
    assert_eq!(gpio_init(0), PioFunction::PIO0);
    assert_eq!(gpio_init(7), PioFunction::PIO0);
    let p2 = tock_rp2::rp2350::pio::new_pio2();
    assert_eq!(p2.base, 0x5040_0000);
    assert_eq!(p2.index, 2);
}

#[test]
fn the_adc_and_trng_know_where_their_registers_are() {
    assert_eq!(new_adc().registers, 0x4004_C000);
    assert_eq!(tock_rp2::rp2350::adc::new_adc().registers, 0x400A_0000);
    assert_eq!(Trng::new().registers, 0x400F_0000);
}
