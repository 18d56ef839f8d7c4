use stm32_usb::usb_impl::endpoint::{
    program_control_endpoint, program_interrupt_endpoint, receive_count, receive_status,
    stall_tx_validate_rx, toggle, transmit_status, validate_both_signal_out,
    validate_tx_signal_out, write_endpoint, EndpointStatus, EP_MASK, EP_RX_MASK, EP_RX_VALID,
    EP_STATUS_OUT, EP_TX_MASK, EP_TX_RX_MASK, EP_TX_RX_VALID, EP_TX_STALL, EP_TX_VALID,
    MAX_PACKET_SIZE,
};

const STATES: [u32; 8] = [0x0000, 0x3220, 0x0210, 0x1020, 0x3030, 0x8A9F, 0xFFFF, 0x2631];

#[test]
fn masks_have_their_exact_values() {
    assert_eq!(EP_MASK, 0x0F0F);
    assert_eq!(EP_TX_MASK, 0x0030);
    assert_eq!(EP_RX_MASK, 0x3000);
    assert_eq!(EP_TX_RX_MASK, 0x3030);
    assert_eq!(EP_TX_VALID, 0x0030);
    assert_eq!(EP_RX_VALID, 0x3000);
    assert_eq!(EP_TX_RX_VALID, 0x3030);
    assert_eq!(EP_TX_STALL, 0x0010);
    assert_eq!(EP_STATUS_OUT, 0x0100);
    assert_eq!(MAX_PACKET_SIZE, 64);
}

#[test]
fn status_codes_decode_in_both_directions() {
    assert_eq!(transmit_status(0x0000), EndpointStatus::Disabled);
    assert_eq!(transmit_status(0x0010), EndpointStatus::Stall);
    assert_eq!(transmit_status(0x0020), EndpointStatus::Nak);
    assert_eq!(transmit_status(0x0030), EndpointStatus::Valid);
    assert_eq!(receive_status(0x0000), EndpointStatus::Disabled);
    assert_eq!(receive_status(0x1000), EndpointStatus::Stall);
    assert_eq!(receive_status(0x2000), EndpointStatus::Nak);
    assert_eq!(receive_status(0x3000), EndpointStatus::Valid);
    assert_eq!(transmit_status(0xFFCF), EndpointStatus::Disabled);
    assert_eq!(receive_status(0xCFFF), EndpointStatus::Disabled);
}

#[test]
fn a_write_flips_status_bits_and_stores_the_rest() {
    assert_eq!(write_endpoint(0x0000, 0x3220), 0x3220);
    assert_eq!(write_endpoint(0x3220, 0x3220), 0x0200);
    assert_eq!(write_endpoint(0x1010, 0x0000), 0x1010);
    assert_eq!(write_endpoint(0x0F0F, 0x0000), 0x0000);
    assert_eq!(write_endpoint(0x2010, 0x1130), 0x3120);
}

#[test]
fn toggle_masks_xors_and_sets_flags() {
    assert_eq!(toggle(0xFFFF, 0x0030, 0x0030, 0x0100), 0x0F0F);
    assert_eq!(toggle(0x1234, 0x3030, 0x3010, 0), 0x2224);
    assert_eq!(toggle(0x0000, 0, 0, 0), 0);
    assert_eq!(toggle(0xFFFF_FFFF, 0x3030, 0, 0), 0x3F3F);
}

#[test]
fn stall_tx_validate_rx_has_its_exact_pattern() {
    assert_eq!(stall_tx_validate_rx(0x0000), 0x3010);
    assert_eq!(stall_tx_validate_rx(0x3220), 0x0230);
    assert_eq!(stall_tx_validate_rx(0xFFFF), 0x0F2F);
}

#[test]
fn stall_tx_validate_rx_reaches_stall_and_valid_from_every_state() {
    for register in STATES {
        let after = write_endpoint(register, stall_tx_validate_rx(register));
        assert_eq!(transmit_status(after), EndpointStatus::Stall);
        assert_eq!(receive_status(after), EndpointStatus::Valid);
        assert_eq!(after, (register & 0x0F0F) | 0x3010);
    }
}

#[test]
fn validate_tx_signal_out_has_its_exact_pattern() {
    assert_eq!(validate_tx_signal_out(0x0000), 0x0130);
    assert_eq!(validate_tx_signal_out(0x3220), 0x0310);
    assert_eq!(validate_tx_signal_out(0xFFFF), 0x0F0F);
}

#[test]
fn validate_tx_signal_out_opens_transmission_and_keeps_reception() {
    for register in STATES {
        let after = write_endpoint(register, validate_tx_signal_out(register));
        assert_eq!(transmit_status(after), EndpointStatus::Valid);
        assert_eq!(receive_status(after), receive_status(register));
        assert_eq!(after & EP_STATUS_OUT, EP_STATUS_OUT);
        assert_eq!(after, (register & 0x3F0F) | 0x0130);
    }
}

#[test]
fn validate_both_signal_out_has_its_exact_pattern() {
    assert_eq!(validate_both_signal_out(0x0000), 0x3130);
    assert_eq!(validate_both_signal_out(0x3220), 0x0310);
    assert_eq!(validate_both_signal_out(0xFFFF), 0x0F0F);
}

#[test]
fn validate_both_signal_out_opens_both_directions() {
    for register in STATES {
        let after = write_endpoint(register, validate_both_signal_out(register));
        assert_eq!(transmit_status(after), EndpointStatus::Valid);
        assert_eq!(receive_status(after), EndpointStatus::Valid);
        assert_eq!(after & EP_STATUS_OUT, EP_STATUS_OUT);
        assert_eq!(after, (register & 0x0F0F) | 0x3130);
    }
}

#[test]
fn control_endpoint_is_programmed_with_its_exact_value() {
    assert_eq!(program_control_endpoint(0x0000), 0x3220);
    assert_eq!(program_control_endpoint(0xFFFF), 0xFBEF);
    let after = write_endpoint(0, program_control_endpoint(0));
    assert_eq!(after, 0x3220);
    assert_eq!(transmit_status(after), EndpointStatus::Nak);
    assert_eq!(receive_status(after), EndpointStatus::Valid);
}

#[test]
fn interrupt_endpoint_is_programmed_with_its_exact_value() {
    assert_eq!(program_interrupt_endpoint(0x0000), 0x2631);
    assert_eq!(program_interrupt_endpoint(0xFFFF), 0xEFF1);
    let after = write_endpoint(0, program_interrupt_endpoint(0));
    assert_eq!(after, 0x2631);
    assert_eq!(transmit_status(after), EndpointStatus::Valid);
    assert_eq!(receive_status(after), EndpointStatus::Nak);
    assert_eq!(after & 0x000F, 1);
}

#[test]
fn programming_an_endpoint_that_is_not_disabled_flips_its_status() {
    let after = write_endpoint(0x0010, program_control_endpoint(0x0010));
    assert_eq!(after & 0x0600, 0x0200);
    assert_eq!(transmit_status(after), EndpointStatus::Valid);
    assert_eq!(receive_status(after), EndpointStatus::Valid);
}

#[test]
fn receive_count_encodes_blocks_of_32_bytes() {
    assert_eq!(receive_count(64), 0x8400);
    assert_eq!(receive_count(32), 0x8000);
    assert_eq!(receive_count(1024), 0xFC00);
    assert_eq!(receive_count(95), 0x8400);
}
