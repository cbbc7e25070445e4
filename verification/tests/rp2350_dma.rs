use tock_rp2::rp2350::dma::Rp2350DmaLayout;
use tock_rp2::rp2xxx::dma::{bswap, chain_to, data_size, enable, incr_read, incr_write, treq_sel, DataSize, DmaLayout, DmaPeripheral};
use tock_rp2::rp2xxx::pio::SMNumber;

/// Every field this driver writes, at the bit the RP2350 datasheet gives it:
/// two places above the RP2040's for most of them.
#[test]
fn dma_ctrl_trig_fields_sit_where_the_datasheet_puts_them() {
    assert_eq!(treq_sel::<Rp2350DmaLayout>(0x3f).word(), 0x3f << 17);
    assert_eq!(chain_to::<Rp2350DmaLayout>(0xf).word(), 0xf << 13);
    assert_eq!(incr_write::<Rp2350DmaLayout>(true).word(), 1 << 6);
    assert_eq!(bswap::<Rp2350DmaLayout>(true).word(), 1 << 24);
    assert_eq!(Rp2350DmaLayout::BUSY_SHIFT, 26);
}

/// How far each field moved from its RP2040 position: one bit inserted below
/// `INCR_WRITE`, two below everything from `CHAIN_TO` up.
#[test]
fn each_moved_field_shifted_by_the_bits_inserted_below_it() {
    assert_eq!(Rp2350DmaLayout::INCR_WRITE_SHIFT, 5 + 1);
    assert_eq!(Rp2350DmaLayout::CHAIN_TO_SHIFT, 11 + 2);
    assert_eq!(Rp2350DmaLayout::TREQ_SEL_SHIFT, 15 + 2);
    assert_eq!(Rp2350DmaLayout::BSWAP_SHIFT, 22 + 2);
    assert_eq!(Rp2350DmaLayout::BUSY_SHIFT, 24 + 2);
}

/// The whole word for the two transfers the CYW43439 driver makes.
#[test]
fn the_gspi_control_words() {
    let push = treq_sel::<Rp2350DmaLayout>(DmaPeripheral::PioTxFifo(0, SMNumber::SM0).treq_number())
        .combine(data_size(DataSize::Word))
        .combine(bswap::<Rp2350DmaLayout>(false))
        .combine(incr_read(true))
        .combine(incr_write::<Rp2350DmaLayout>(false))
        .combine(chain_to::<Rp2350DmaLayout>(0))
        .combine(enable(true));
    assert_eq!(push.word(), (2 << 2) | (1 << 4) | 1);

    let pull = treq_sel::<Rp2350DmaLayout>(DmaPeripheral::PioRxFifo(0, SMNumber::SM0).treq_number())
        .combine(data_size(DataSize::Word))
        .combine(bswap::<Rp2350DmaLayout>(false))
        .combine(incr_read(false))
        .combine(incr_write::<Rp2350DmaLayout>(true))
        .combine(chain_to::<Rp2350DmaLayout>(0))
        .combine(enable(true));
    assert_eq!(pull.word(), (4 << 17) | (2 << 2) | (1 << 6) | 1);
}

/// PIO2's transfer requests continue the pattern at 16 to 23.
#[test]
fn pio2_transfer_requests_follow_pio1() {
    assert_eq!(DmaPeripheral::PioTxFifo(2, SMNumber::SM0).treq_number(), 16);
    assert_eq!(DmaPeripheral::PioRxFifo(2, SMNumber::SM3).treq_number(), 23);
}
