//! Reset-cause decoding.

use benchvolt_poc::reset_cause::{
    decode_rcc_csr, INDEPENDENT_WATCHDOG, OPTION_BYTE, PIN, POWER_ON, V18_DOMAIN,
};
use benchvolt_poc::reset_marker::{clear, record, MarkerWrite};

#[test]
fn decodes_individual_and_overlapping_reset_flags() {
    assert_eq!(decode_rcc_csr(1 << 25), OPTION_BYTE);
    assert_eq!(decode_rcc_csr(1 << 29), INDEPENDENT_WATCHDOG);
    assert_eq!(decode_rcc_csr(1 << 23), V18_DOMAIN);
    assert_eq!(decode_rcc_csr((1 << 26) | (1 << 27)), PIN | POWER_ON);
}

#[test]
fn ignores_oscillator_and_clear_control_bits() {
    assert_eq!(decode_rcc_csr(0x0100_0003), 0);
}

#[test]
fn a_marker_is_invalidated_before_it_is_committed() {
    assert_eq!(
        record(0x5a00_0003),
        [
            MarkerWrite::Code(0),
            MarkerWrite::Inverse(0xa5ff_fffc),
            MarkerWrite::Code(0x5a00_0003),
        ]
    );
    assert_eq!(clear(), MarkerWrite::Code(0));
}
