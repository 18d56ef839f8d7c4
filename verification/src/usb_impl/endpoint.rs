//! Endpoint registers whose status bits toggle on write, and the values to write
//! to bring them to a wanted status.

use vstd::prelude::*;

verus! {

/// Bits of an endpoint register that a write stores as they are written: the
/// endpoint address, kind and type.
pub const EP_MASK: u32 = 0x0F0F;

/// The two transmit status bits.
pub const EP_TX_MASK: u32 = 0x0030;

/// The two receive status bits.
pub const EP_RX_MASK: u32 = 0x3000;

pub const EP_TX_RX_MASK: u32 = EP_TX_MASK | EP_RX_MASK;

pub const EP_TX_VALID: u32 = 0x0030;

pub const EP_RX_VALID: u32 = 0x3000;

pub const EP_TX_RX_VALID: u32 = EP_TX_VALID | EP_RX_VALID;

pub const EP_TX_STALL: u32 = 0x0010;

/// The flag that makes the endpoint expect the status stage of a control transfer.
pub const EP_STATUS_OUT: u32 = 0x0100;

pub const EP_TX_NAK: u32 = 0x0020;

pub const EP_RX_NAK: u32 = 0x2000;

/// The four bits of the endpoint address.
pub const EP_ADDRESS_MASK: u32 = 0x000F;

/// The two bits of the endpoint type.
pub const EP_TYPE_MASK: u32 = 0x0600;

pub const EP_TYPE_CONTROL: u32 = 0x0200;

pub const EP_TYPE_INTERRUPT: u32 = 0x0600;

/// The largest packet endpoint 0 takes, in bytes.
pub const MAX_PACKET_SIZE: u32 = 64;

/// The status of one direction of an endpoint, a 2-bit code in its register.
#[derive(Clone, Copy, Debug, PartialEq, Eq, Structural)]
pub enum EndpointStatus {
    Disabled,
    Stall,
    Nak,
    Valid,
}

/// The status that a 2-bit code stands for.
pub open spec fn status_of(code: u32) -> EndpointStatus {
    if code == 0 {
        EndpointStatus::Disabled
    } else if code == 1 {
        EndpointStatus::Stall
    } else if code == 2 {
        EndpointStatus::Nak
    } else {
        EndpointStatus::Valid
    }
}

/// The 2-bit transmit status code in an endpoint register.
pub open spec fn tx_code(register: u32) -> u32 {
    (register & EP_TX_MASK) >> 4
}

/// The 2-bit receive status code in an endpoint register.
pub open spec fn rx_code(register: u32) -> u32 {
    (register & EP_RX_MASK) >> 12
}

/// The transmit status an endpoint register holds.
pub open spec fn tx_status(register: u32) -> EndpointStatus {
    status_of(tx_code(register))
}

/// The receive status an endpoint register holds.
pub open spec fn rx_status(register: u32) -> EndpointStatus {
    status_of(rx_code(register))
}

/// An endpoint register after `written` has been written to it: a status bit is
/// flipped where a 1 is written and stays where a 0 is written; every other bit
/// takes the bit written.
pub open spec fn after_write(register: u32, written: u32) -> u32 {
    (written & !EP_TX_RX_MASK) | ((register ^ written) & EP_TX_RX_MASK)
}

/// The value to write so that the status bits under `mask` become those of `val`:
/// the register is cut down to `mask` and the stored bits, the wanted pattern is
/// xor-ed onto it, and `flags` are set.
pub open spec fn toggle_value(register: u32, mask: u32, val: u32, flags: u32) -> u32 {
    ((register & (EP_MASK | mask)) ^ val) | flags
}

/// Writing `toggle_value` sets the status bits under `mask` to those of `val`,
/// keeps the other status bits, keeps the stored bits but for the flags, which are
/// set, and clears the rest.
pub proof fn lemma_toggle(register: u32, mask: u32, val: u32, flags: u32)
    requires
        mask & !EP_TX_RX_MASK == 0,
        val & !mask == 0,
        flags & !EP_MASK == 0,
    ensures
        after_write(register, toggle_value(register, mask, val, flags)) & mask == val,
        after_write(register, toggle_value(register, mask, val, flags)) & (EP_TX_RX_MASK & !mask)
            == register & (EP_TX_RX_MASK & !mask),
        after_write(register, toggle_value(register, mask, val, flags)) & !EP_TX_RX_MASK
            == (register & EP_MASK) | flags,
{
    let after = after_write(register, toggle_value(register, mask, val, flags));
    assert(after & mask == val
        && after & (EP_TX_RX_MASK & !mask) == register & (EP_TX_RX_MASK & !mask)
        && after & !EP_TX_RX_MASK == (register & EP_MASK) | flags) by (bit_vector)
        requires
            mask & !EP_TX_RX_MASK == 0,
            val & !mask == 0,
            flags & !EP_MASK == 0,
            after == after_write(register, toggle_value(register, mask, val, flags)),
    ;
}

/// The value that programs an endpoint register as the control endpoint: type
/// control, transmit NAK, receive VALID written over what the register holds.
pub open spec fn control_setup(register: u32) -> u32 {
    (register & !(EP_TYPE_MASK | EP_TX_RX_MASK)) | (EP_TYPE_CONTROL | EP_TX_NAK | EP_RX_VALID)
}

/// The value that programs an endpoint register as interrupt endpoint 1: type
/// interrupt, transmit VALID, receive NAK, address 1.
pub open spec fn interrupt_setup(register: u32) -> u32 {
    (register & !(EP_TYPE_MASK | EP_TX_RX_MASK | EP_ADDRESS_MASK))
        | (EP_TYPE_INTERRUPT | EP_TX_VALID | EP_RX_NAK | 1)
}

/// The write that programs endpoint 0. The type is stored; the status bits
/// written are flipped into the register, so the endpoint ends up at transmit NAK
/// and receive VALID where both directions were disabled before, as they are
/// after a bus reset.
pub fn program_control_endpoint(register: u32) -> (written: u32)
    ensures
        written == control_setup(register),
        written == (register & !0x3630u32) | 0x3220,
        after_write(register, written) & EP_TYPE_MASK == EP_TYPE_CONTROL,
        after_write(register, written) & EP_TX_RX_MASK
            == (register & EP_TX_RX_MASK) ^ (EP_TX_NAK | EP_RX_VALID),
        after_write(register, written) & !(EP_TYPE_MASK | EP_TX_RX_MASK)
            == register & !(EP_TYPE_MASK | EP_TX_RX_MASK),
        register & EP_TX_RX_MASK == 0 ==> {
            &&& tx_status(after_write(register, written)) == EndpointStatus::Nak
            &&& rx_status(after_write(register, written)) == EndpointStatus::Valid
        },
{
    let written = (register & !(EP_TYPE_MASK | EP_TX_RX_MASK))
        | (EP_TYPE_CONTROL | EP_TX_NAK | EP_RX_VALID);
    let ghost after = after_write(register, written);
    assert(written == (register & !0x3630u32) | 0x3220
        && after & EP_TYPE_MASK == EP_TYPE_CONTROL
        && after & EP_TX_RX_MASK == (register & EP_TX_RX_MASK) ^ (EP_TX_NAK | EP_RX_VALID)
        && after & !(EP_TYPE_MASK | EP_TX_RX_MASK) == register & !(EP_TYPE_MASK | EP_TX_RX_MASK)
        && (register & EP_TX_RX_MASK == 0 ==> tx_code(after) == 2 && rx_code(after) == 3))
        by (bit_vector)
        requires
            written == control_setup(register),
            after == after_write(register, written),
    ;
    written
}

/// The write that programs endpoint 1. Type and address are stored; the status
/// bits written are flipped into the register, so the endpoint ends up at transmit
/// VALID and receive NAK where both directions were disabled before.
pub fn program_interrupt_endpoint(register: u32) -> (written: u32)
    ensures
        written == interrupt_setup(register),
        written == (register & !0x363Fu32) | 0x2631,
        after_write(register, written) & EP_TYPE_MASK == EP_TYPE_INTERRUPT,
        after_write(register, written) & EP_ADDRESS_MASK == 1,
        after_write(register, written) & EP_TX_RX_MASK
            == (register & EP_TX_RX_MASK) ^ (EP_TX_VALID | EP_RX_NAK),
        after_write(register, written) & !(EP_TYPE_MASK | EP_TX_RX_MASK | EP_ADDRESS_MASK)
            == register & !(EP_TYPE_MASK | EP_TX_RX_MASK | EP_ADDRESS_MASK),
        register & EP_TX_RX_MASK == 0 ==> {
            &&& tx_status(after_write(register, written)) == EndpointStatus::Valid
            &&& rx_status(after_write(register, written)) == EndpointStatus::Nak
        },
{
    let written = (register & !(EP_TYPE_MASK | EP_TX_RX_MASK | EP_ADDRESS_MASK))
        | (EP_TYPE_INTERRUPT | EP_TX_VALID | EP_RX_NAK | 1);
    let ghost after = after_write(register, written);
    assert(written == (register & !0x363Fu32) | 0x2631
        && after & EP_TYPE_MASK == EP_TYPE_INTERRUPT
        && after & EP_ADDRESS_MASK == 1
        && after & EP_TX_RX_MASK == (register & EP_TX_RX_MASK) ^ (EP_TX_VALID | EP_RX_NAK)
        && after & !(EP_TYPE_MASK | EP_TX_RX_MASK | EP_ADDRESS_MASK)
            == register & !(EP_TYPE_MASK | EP_TX_RX_MASK | EP_ADDRESS_MASK)
        && (register & EP_TX_RX_MASK == 0 ==> tx_code(after) == 3 && rx_code(after) == 2))
        by (bit_vector)
        requires
            written == interrupt_setup(register),
            after == after_write(register, written),
    ;
    written
}

/// The receive count entry of the buffer descriptor table for a buffer of
/// `packet_size` bytes, counted in blocks of 32 bytes: the block size flag, and
/// the number of blocks less one in the five bits from bit 10.
pub fn receive_count(packet_size: u32) -> (entry: u16)
    requires
        32 <= packet_size <= 1024,
    ensures
        entry == 0x8000 + (packet_size / 32 - 1) * 1024,
{
    let blocks = packet_size / 32 - 1;
    let entry = 0x8000 | (blocks << 10);
    assert(entry == 0x8000 + blocks * 1024 && entry <= 0xffff) by (bit_vector)
        requires
            blocks <= 31,
            entry == 0x8000u32 | (blocks << 10),
    ;
    entry as u16
}

/// What a write of `written` leaves in an endpoint register.
pub fn write_endpoint(register: u32, written: u32) -> (after: u32)
    ensures
        after == after_write(register, written),
{
    (written & !EP_TX_RX_MASK) | ((register ^ written) & EP_TX_RX_MASK)
}

/// The value to write to an endpoint register that holds `register`, to set the
/// status bits under `mask` to `val` and the flags `flags`.
pub fn toggle(register: u32, mask: u32, val: u32, flags: u32) -> (written: u32)
    ensures
        written == toggle_value(register, mask, val, flags),
{
    ((register & (EP_MASK | mask)) ^ val) | flags
}

/// The write that stalls transmission and opens reception: no more data goes to
/// the host, the next packet from the host is taken.
pub fn stall_tx_validate_rx(register: u32) -> (written: u32)
    ensures
        written == toggle_value(register, EP_TX_RX_MASK, EP_RX_VALID | EP_TX_STALL, 0),
        written == (register & 0x3F3F) ^ 0x3010,
        tx_status(after_write(register, written)) == EndpointStatus::Stall,
        rx_status(after_write(register, written)) == EndpointStatus::Valid,
        after_write(register, written) == (register & EP_MASK) | 0x3010,
{
    let written = toggle(register, EP_TX_RX_MASK, EP_RX_VALID | EP_TX_STALL, 0);
    let ghost after = after_write(register, written);
    assert(written == (register & 0x3F3F) ^ 0x3010
        && tx_code(after) == 1
        && rx_code(after) == 3
        && after == (register & EP_MASK) | 0x3010) by (bit_vector)
        requires
            written == toggle_value(register, EP_TX_RX_MASK, EP_RX_VALID | EP_TX_STALL, 0),
            after == after_write(register, written),
    ;
    written
}

/// The write that opens transmission and expects a status stage: the endpoint
/// answers the next IN packet, reception stays as it is.
pub fn validate_tx_signal_out(register: u32) -> (written: u32)
    ensures
        written == toggle_value(register, EP_TX_MASK, EP_TX_VALID, EP_STATUS_OUT),
        written == ((register & 0x0F3F) ^ 0x0030) | 0x0100,
        tx_status(after_write(register, written)) == EndpointStatus::Valid,
        rx_status(after_write(register, written)) == rx_status(register),
        after_write(register, written) == (register & (EP_MASK | EP_RX_MASK)) | 0x0130,
{
    let written = toggle(register, EP_TX_MASK, EP_TX_VALID, EP_STATUS_OUT);
    let ghost after = after_write(register, written);
    assert(written == ((register & 0x0F3F) ^ 0x0030) | 0x0100
        && tx_code(after) == 3
        && rx_code(after) == rx_code(register)
        && after == (register & (EP_MASK | EP_RX_MASK)) | 0x0130) by (bit_vector)
        requires
            written == toggle_value(register, EP_TX_MASK, EP_TX_VALID, EP_STATUS_OUT),
            after == after_write(register, written),
    ;
    written
}

/// The write that opens both directions and expects a status stage: the endpoint
/// is armed again after a response.
pub fn validate_both_signal_out(register: u32) -> (written: u32)
    ensures
        written == toggle_value(register, EP_TX_RX_MASK, EP_TX_RX_VALID, EP_STATUS_OUT),
        written == ((register & 0x3F3F) ^ 0x3030) | 0x0100,
        tx_status(after_write(register, written)) == EndpointStatus::Valid,
        rx_status(after_write(register, written)) == EndpointStatus::Valid,
        after_write(register, written) == (register & EP_MASK) | 0x3130,
{
    let written = toggle(register, EP_TX_RX_MASK, EP_TX_RX_VALID, EP_STATUS_OUT);
    let ghost after = after_write(register, written);
    assert(written == ((register & 0x3F3F) ^ 0x3030) | 0x0100
        && tx_code(after) == 3
        && rx_code(after) == 3
        && after == (register & EP_MASK) | 0x3130) by (bit_vector)
        requires
            written == toggle_value(register, EP_TX_RX_MASK, EP_TX_RX_VALID, EP_STATUS_OUT),
            after == after_write(register, written),
    ;
    written
}

/// Reads the transmit status out of an endpoint register.
pub fn transmit_status(register: u32) -> (status: EndpointStatus)
    ensures
        status == tx_status(register),
{
    status_from((register & EP_TX_MASK) >> 4)
}

/// Reads the receive status out of an endpoint register.
pub fn receive_status(register: u32) -> (status: EndpointStatus)
    ensures
        status == rx_status(register),
{
    status_from((register & EP_RX_MASK) >> 12)
}

fn status_from(code: u32) -> (status: EndpointStatus)
    ensures
        status == status_of(code),
{
    if code == 0 {
        EndpointStatus::Disabled
    } else if code == 1 {
        EndpointStatus::Stall
    } else if code == 2 {
        EndpointStatus::Nak
    } else {
        EndpointStatus::Valid
    }
}

} // verus!
