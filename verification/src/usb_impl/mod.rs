//! The platform adapter: the capability `UsbDevice` over a packet memory area and
//! the registers of the USB peripheral, both held as plain values.

use vstd::prelude::*;

pub mod endpoint;
pub mod pma;

use crate::usb::outcome::{high_byte, low_byte};
use crate::usb::{high_byte_of, low_byte_of, Command, Report, UsbDevice};
use endpoint::{
    after_write, control_setup, interrupt_setup, program_control_endpoint,
    program_interrupt_endpoint, receive_count, rx_status, stall_tx_validate_rx, tx_status,
    validate_both_signal_out, validate_tx_signal_out, write_endpoint, EndpointStatus,
    EP_ADDRESS_MASK, EP_MASK, EP_RX_MASK, EP_TX_RX_MASK, EP_TYPE_CONTROL, EP_TYPE_INTERRUPT,
    EP_TYPE_MASK, MAX_PACKET_SIZE,
};
use pma::{replaced, write_slot, write_slots, PmaError, PmaMemory, PMA_SLOTS};

verus! {

/// Interrupt status register: the endpoint a completed transfer went to.
pub const ISTR_EP_ID: u32 = 0x000F;

/// Interrupt status register: direction of the completed transfer.
pub const ISTR_DIR: u32 = 0x0010;

/// Interrupt status register: expected start of frame.
pub const ISTR_ESOF: u32 = 0x0100;

/// Interrupt status register: start of frame.
pub const ISTR_SOF: u32 = 0x0200;

/// Interrupt status register: reset request.
pub const ISTR_RESET: u32 = 0x0400;

/// Interrupt status register: suspend request.
pub const ISTR_SUSP: u32 = 0x0800;

/// Interrupt status register: correct transfer.
pub const ISTR_CTR: u32 = 0x8000;

/// Device address register: the seven bits of the address.
pub const DADDR_ADD: u32 = 0x007F;

/// Device address register: enable function.
pub const DADDR_EF: u32 = 0x0080;

/// Packet memory slot of the first word of the setup packet: request type in the
/// low byte, request in the high byte. Value, index and length follow.
pub const SETUP_SLOT: usize = 0x10;

/// Packet memory slot where the response buffer starts.
pub const RESPONSE_SLOT: usize = 0x20;

/// The count that is entered in the buffer descriptor table with every response.
pub const RESPONSE_COUNT: u16 = 5;

/// The registers of the USB peripheral that the adapter works on.
#[derive(Clone, Copy, Debug, PartialEq, Eq, Structural)]
pub struct UsbRegisters {
    /// Interrupt status register.
    pub istr: u32,
    /// Device address register.
    pub daddr: u32,
    /// Endpoint 0 register.
    pub ep0r: u32,
    /// Endpoint 1 register.
    pub ep1r: u32,
}

/// The adapter as contracts see it.
pub struct Stm32View {
    /// The packet memory area.
    pub mem: PmaMemory,
    /// The peripheral's registers.
    pub usb: UsbRegisters,
    /// The configuration currently selected.
    pub configuration: u8,
    /// The commands taken so far, oldest first.
    pub history: Seq<Command>,
}

/// The interrupt status register without the bits in `flags`.
pub open spec fn without(register: u32, flags: u32) -> u32 {
    register & !flags
}

/// The device address register with its address field replaced.
pub open spec fn with_address(register: u32, address: u8) -> u32 {
    (register & !DADDR_ADD) | ((address as u32) & DADDR_ADD)
}

/// What the registers and the packet memory say about the transfer at hand, and
/// the configuration selected.
pub open spec fn reported(view: Stm32View) -> Report {
    Report {
        complete: view.usb.istr & ISTR_CTR != 0,
        endpoint: (view.usb.istr & ISTR_EP_ID) as u8,
        device_to_host: view.usb.istr & ISTR_DIR != 0,
        request_type: low_byte(view.mem@[SETUP_SLOT as int]),
        request: high_byte(view.mem@[SETUP_SLOT as int]),
        value: view.mem@[SETUP_SLOT + 1],
        index: view.mem@[SETUP_SLOT + 2],
        length: view.mem@[SETUP_SLOT + 3],
        configuration: view.configuration,
    }
}

/// The packet memory after a response has been put into it: the words from the
/// start of the response buffer on, then `RESPONSE_COUNT` in slots 1 and 2 of the
/// buffer descriptor table.
pub open spec fn with_response(cells: Seq<u32>, response: Seq<u16>) -> Seq<u32> {
    write_slot(
        write_slot(write_slots(cells, RESPONSE_SLOT as int, response), 1, RESPONSE_COUNT),
        2,
        RESPONSE_COUNT,
    )
}

/// The packet memory after the buffer descriptor table has been set up: endpoint 0
/// sends from byte 0x40 and receives up to 64 bytes at byte 0x20, endpoint 1 sends
/// from byte 0x100; both transmit counts are 0.
pub open spec fn with_buffer_table(cells: Seq<u32>) -> Seq<u32> {
    let endpoint0_tx = write_slot(write_slot(cells, 0, 0x40), 1, 0x0);
    let endpoint0_rx = write_slot(write_slot(endpoint0_tx, 2, 0x20), 3, 0x8400);
    write_slot(write_slot(endpoint0_rx, 4, 0x100), 5, 0x0)
}

/// The platform adapter: the capability `UsbDevice` over the packet memory area
/// and the registers of the USB peripheral.
pub struct Stm32UsbDevice {
    mem: PmaMemory,
    usb: UsbRegisters,
    configuration: u8,
    log: Ghost<Seq<Command>>,
}

impl View for Stm32UsbDevice {
    type V = Stm32View;

    closed spec fn view(&self) -> Stm32View {
        Stm32View {
            mem: self.mem,
            usb: self.usb,
            configuration: self.configuration,
            history: self.log@,
        }
    }
}

impl Stm32UsbDevice {
    /// An adapter over the given registers and packet memory; no configuration is
    /// selected and no command has been taken.
    pub fn new(usb: UsbRegisters, mem: PmaMemory) -> (device: Stm32UsbDevice)
        ensures
            device@ == (Stm32View { mem, usb, configuration: 0, history: Seq::empty() }),
    {
        Stm32UsbDevice { mem, usb, configuration: 0, log: Ghost(Seq::empty()) }
    }

    /// The registers as they stand.
    pub fn registers(&self) -> (usb: UsbRegisters)
        ensures
            usb == self@.usb,
    {
        self.usb
    }

    /// The packet memory as it stands.
    pub fn memory(&self) -> (mem: &PmaMemory)
        ensures
            *mem == self@.mem,
    {
        &self.mem
    }

    /// Replaces the registers, as the peripheral does when it raises a flag.
    pub fn set_registers(&mut self, usb: UsbRegisters)
        ensures
            final(self)@ == (Stm32View { usb, ..old(self)@ }),
    {
        self.usb = usb;
    }

    /// Stalls transmission and opens reception on endpoint 0.
    pub fn toggle_tx_stall(&mut self)
        ensures
            final(self)@ == (Stm32View {
                usb: UsbRegisters {
                    ep0r: (old(self)@.usb.ep0r & EP_MASK) | 0x3010,
                    ..old(self)@.usb
                },
                ..old(self)@
            }),
            tx_status(final(self)@.usb.ep0r) == EndpointStatus::Stall,
            rx_status(final(self)@.usb.ep0r) == EndpointStatus::Valid,
    {
        let written = stall_tx_validate_rx(self.usb.ep0r);
        self.usb.ep0r = write_endpoint(self.usb.ep0r, written);
    }

    /// Opens transmission on endpoint 0 and makes it expect a status stage;
    /// reception stays as it is.
    pub fn toggle_tx_out(&mut self)
        ensures
            final(self)@ == (Stm32View {
                usb: UsbRegisters {
                    ep0r: (old(self)@.usb.ep0r & (EP_MASK | EP_RX_MASK)) | 0x0130,
                    ..old(self)@.usb
                },
                ..old(self)@
            }),
            tx_status(final(self)@.usb.ep0r) == EndpointStatus::Valid,
            rx_status(final(self)@.usb.ep0r) == rx_status(old(self)@.usb.ep0r),
    {
        let written = validate_tx_signal_out(self.usb.ep0r);
        self.usb.ep0r = write_endpoint(self.usb.ep0r, written);
    }

    /// Opens both directions of endpoint 0 and makes it expect a status stage.
    pub fn toggle_out(&mut self)
        ensures
            final(self)@ == (Stm32View {
                usb: UsbRegisters {
                    ep0r: (old(self)@.usb.ep0r & EP_MASK) | 0x3130,
                    ..old(self)@.usb
                },
                ..old(self)@
            }),
            tx_status(final(self)@.usb.ep0r) == EndpointStatus::Valid,
            rx_status(final(self)@.usb.ep0r) == EndpointStatus::Valid,
    {
        let written = validate_both_signal_out(self.usb.ep0r);
        self.usb.ep0r = write_endpoint(self.usb.ep0r, written);
    }

    /// Reads a slot of the packet memory.
    pub fn get_mem(&self, index: usize) -> (res: Result<u16, PmaError>)
        ensures
            index < PMA_SLOTS ==> res == Ok::<u16, PmaError>(self@.mem@[index as int]),
            index >= PMA_SLOTS ==> res == Err::<u16, PmaError>(PmaError::OutOfBounds),
    {
        self.mem.get_memory(index)
    }

    /// Writes a slot of the packet memory.
    pub fn set_mem(&mut self, index: usize, value: u16) -> (res: Result<(), PmaError>)
        ensures
            index < PMA_SLOTS ==> res == Ok::<(), PmaError>(())
                && final(self)@.mem.cells() == write_slot(old(self)@.mem.cells(), index as int, value)
                && final(self)@.mem@ == old(self)@.mem@.update(index as int, value),
            index >= PMA_SLOTS ==> res == Err::<(), PmaError>(PmaError::OutOfBounds)
                && final(self)@.mem == old(self)@.mem,
            final(self)@.usb == old(self)@.usb,
            final(self)@.configuration == old(self)@.configuration,
            final(self)@.history == old(self)@.history,
    {
        self.mem.set_memory(index, value)
    }

    /// Writes consecutive slots of the packet memory.
    pub fn set_from_buffer(&mut self, index: usize, buff: &[u16]) -> (res: Result<(), PmaError>)
        ensures
            index + buff@.len() < PMA_SLOTS ==> res == Ok::<(), PmaError>(())
                && final(self)@.mem.cells() == write_slots(old(self)@.mem.cells(), index as int, buff@)
                && final(self)@.mem@ == replaced(old(self)@.mem@, index as int, buff@),
            index + buff@.len() >= PMA_SLOTS ==> res == Err::<(), PmaError>(PmaError::OutOfBounds)
                && final(self)@.mem == old(self)@.mem,
            final(self)@.usb == old(self)@.usb,
            final(self)@.configuration == old(self)@.configuration,
            final(self)@.history == old(self)@.history,
    {
        self.mem.set_from_buffer(index, buff)
    }

    /// Reads a slot that is known to exist.
    fn slot(&self, index: usize) -> (value: u16)
        requires
            index < PMA_SLOTS,
        ensures
            value == self@.mem@[index as int],
    {
        match self.mem.get_memory(index) {
            Ok(value) => value,
            Err(_) => 0,
        }
    }
}

impl UsbDevice for Stm32UsbDevice {
    open spec fn history(&self) -> Seq<Command> {
        self@.history
    }

    open spec fn reset_pending(&self) -> bool {
        self@.usb.istr & ISTR_RESET != 0
    }

    open spec fn report(&self) -> Report {
        reported(self@)
    }

    /// Puts the response into the response buffer and enters `RESPONSE_COUNT` in
    /// slots 1 and 2 of the buffer descriptor table.
    fn set_response(&mut self, response: &[u16])
        ensures
            final(self)@.mem.cells() == with_response(old(self)@.mem.cells(), response@),
            final(self)@.mem@ == replaced(old(self)@.mem@, RESPONSE_SLOT as int, response@).update(
                1,
                RESPONSE_COUNT,
            ).update(2, RESPONSE_COUNT),
            final(self)@.usb == old(self)@.usb,
            final(self)@.configuration == old(self)@.configuration,
    {
        let _ = self.mem.set_from_buffer(RESPONSE_SLOT, response);
        let _ = self.mem.set_memory(1, RESPONSE_COUNT);
        let _ = self.mem.set_memory(2, RESPONSE_COUNT);
        self.log = Ghost(self.log@.push(Command::WriteResponse(response@)));
    }

    fn should_reset(&self) -> (reset: bool) {
        self.usb.istr & ISTR_RESET != 0
    }

    /// Clears the reset request; every other flag stays.
    fn clear_reset(&mut self)
        ensures
            final(self)@ == (Stm32View {
                usb: UsbRegisters {
                    istr: without(old(self)@.usb.istr, ISTR_RESET),
                    ..old(self)@.usb
                },
                history: old(self)@.history.push(Command::ClearReset),
                ..old(self)@
            }),
            !final(self).reset_pending(),
    {
        let istr = self.usb.istr;
        self.usb.istr = istr & !ISTR_RESET;
        self.log = Ghost(self.log@.push(Command::ClearReset));
        let ghost cleared = istr & !ISTR_RESET;
        assert(cleared & ISTR_RESET == 0
            && cleared & ISTR_CTR == istr & ISTR_CTR
            && cleared & ISTR_DIR == istr & ISTR_DIR
            && cleared & ISTR_EP_ID == istr & ISTR_EP_ID) by (bit_vector)
            requires
                cleared == istr & !ISTR_RESET,
        ;
    }

    /// Clears the suspend, start-of-frame and expected-start-of-frame flags.
    fn clear_transfer_flags(&mut self)
        ensures
            final(self)@ == (Stm32View {
                usb: UsbRegisters {
                    istr: without(old(self)@.usb.istr, ISTR_SUSP | ISTR_SOF | ISTR_ESOF),
                    ..old(self)@.usb
                },
                history: old(self)@.history.push(Command::ClearTransferFlags),
                ..old(self)@
            }),
            final(self).reset_pending() == old(self).reset_pending(),
    {
        let istr = self.usb.istr;
        let cleared = istr & !(ISTR_SUSP | ISTR_SOF | ISTR_ESOF);
        self.usb.istr = cleared;
        self.log = Ghost(self.log@.push(Command::ClearTransferFlags));
        assert(cleared & ISTR_RESET == istr & ISTR_RESET
            && cleared & ISTR_CTR == istr & ISTR_CTR
            && cleared & ISTR_DIR == istr & ISTR_DIR
            && cleared & ISTR_EP_ID == istr & ISTR_EP_ID) by (bit_vector)
            requires
                cleared == istr & !(ISTR_SUSP | ISTR_SOF | ISTR_ESOF),
        ;
    }

    fn connection_type(&self) -> (device_to_host: bool) {
        self.usb.istr & ISTR_DIR != 0
    }

    fn get_endpoint(&self) -> (endpoint: u8) {
        let istr = self.usb.istr;
        let id = istr & ISTR_EP_ID;
        assert(id <= 15) by (bit_vector)
            requires
                id == istr & ISTR_EP_ID,
        ;
        id as u8
    }

    fn transfer_correct(&self) -> (complete: bool) {
        self.usb.istr & ISTR_CTR != 0
    }

    fn get_request_type(&self) -> (request_type: u8) {
        low_byte_of(self.slot(SETUP_SLOT))
    }

    fn get_request(&self) -> (request: u8) {
        high_byte_of(self.slot(SETUP_SLOT))
    }

    fn get_value(&self) -> (value: u16) {
        self.slot(SETUP_SLOT + 1)
    }

    fn get_index(&self) -> (index: u16) {
        self.slot(SETUP_SLOT + 2)
    }

    fn get_length(&self) -> (length: u16) {
        self.slot(SETUP_SLOT + 3)
    }

    /// Puts the low seven bits of the address into the address register; the
    /// enable bit stays.
    fn set_address(&mut self, address: u8)
        ensures
            final(self)@ == (Stm32View {
                usb: UsbRegisters {
                    daddr: with_address(old(self)@.usb.daddr, address),
                    ..old(self)@.usb
                },
                history: old(self)@.history.push(Command::SetAddress(address)),
                ..old(self)@
            }),
    {
        self.usb.daddr = (self.usb.daddr & !DADDR_ADD) | ((address as u32) & DADDR_ADD);
        self.log = Ghost(self.log@.push(Command::SetAddress(address)));
    }

    fn get_configuration(&self) -> (configuration: u8) {
        self.configuration
    }

    /// Remembers the configuration selected.
    fn set_configuration(&mut self, configuration: u8)
        ensures
            final(self)@ == (Stm32View {
                configuration,
                history: old(self)@.history.push(Command::SetConfiguration(configuration)),
                ..old(self)@
            }),
    {
        self.configuration = configuration;
        self.log = Ghost(self.log@.push(Command::SetConfiguration(configuration)));
    }

    /// Acknowledges a request by stalling transmission and opening reception.
    fn confirm_request(&mut self)
        ensures
            final(self)@ == (Stm32View {
                usb: UsbRegisters {
                    ep0r: (old(self)@.usb.ep0r & EP_MASK) | 0x3010,
                    ..old(self)@.usb
                },
                history: old(self)@.history.push(Command::ConfirmRequest),
                ..old(self)@
            }),
    {
        self.toggle_tx_stall();
        self.log = Ghost(self.log@.push(Command::ConfirmRequest));
    }

    /// Acknowledges a status stage by opening transmission.
    fn confirm_tx(&mut self)
        ensures
            final(self)@ == (Stm32View {
                usb: UsbRegisters {
                    ep0r: (old(self)@.usb.ep0r & (EP_MASK | EP_RX_MASK)) | 0x0130,
                    ..old(self)@.usb
                },
                history: old(self)@.history.push(Command::ConfirmTx),
                ..old(self)@
            }),
    {
        self.toggle_tx_out();
        self.log = Ghost(self.log@.push(Command::ConfirmTx));
    }

    /// Releases the response by opening both directions.
    fn confirm_response(&mut self)
        ensures
            final(self)@ == (Stm32View {
                usb: UsbRegisters {
                    ep0r: (old(self)@.usb.ep0r & EP_MASK) | 0x3130,
                    ..old(self)@.usb
                },
                history: old(self)@.history.push(Command::ConfirmResponse),
                ..old(self)@
            }),
    {
        self.toggle_out();
        self.log = Ghost(self.log@.push(Command::ConfirmResponse));
    }

    /// Sets up the buffer descriptor table, programs endpoint 0 as the control
    /// endpoint and endpoint 1 as an interrupt endpoint with address 1, and enables
    /// the device function at address 0.
    fn reset_state(&mut self)
        ensures
            final(self)@.mem.cells() == with_buffer_table(old(self)@.mem.cells()),
            final(self)@.mem@ == old(self)@.mem@.update(0, 0x40).update(1, 0x0).update(2, 0x20).update(
                3,
                0x8400,
            ).update(4, 0x100).update(5, 0x0),
            final(self)@.usb == (UsbRegisters {
                istr: old(self)@.usb.istr,
                daddr: DADDR_EF,
                ep0r: after_write(old(self)@.usb.ep0r, control_setup(old(self)@.usb.ep0r)),
                ep1r: after_write(old(self)@.usb.ep1r, interrupt_setup(old(self)@.usb.ep1r)),
            }),
            final(self)@.configuration == old(self)@.configuration,
            final(self)@.usb.ep0r & EP_TYPE_MASK == EP_TYPE_CONTROL,
            final(self)@.usb.ep1r & EP_TYPE_MASK == EP_TYPE_INTERRUPT,
            final(self)@.usb.ep1r & EP_ADDRESS_MASK == 1,
            old(self)@.usb.ep0r & EP_TX_RX_MASK == 0 ==> tx_status(final(self)@.usb.ep0r)
                == EndpointStatus::Nak && rx_status(final(self)@.usb.ep0r) == EndpointStatus::Valid,
            old(self)@.usb.ep1r & EP_TX_RX_MASK == 0 ==> tx_status(final(self)@.usb.ep1r)
                == EndpointStatus::Valid && rx_status(final(self)@.usb.ep1r) == EndpointStatus::Nak,
    {
        proof {
            self.mem.lemma_size();
        }
        let _ = self.mem.set_memory(0, 0x40);
        let _ = self.mem.set_memory(1, 0x0);
        let _ = self.mem.set_memory(2, 0x20);

        let _ = self.mem.set_memory(3, receive_count(MAX_PACKET_SIZE));

        let _ = self.mem.set_memory(4, 0x100);
        let _ = self.mem.set_memory(5, 0x0);

        let ep0r = self.usb.ep0r;
        self.usb.ep0r = write_endpoint(ep0r, program_control_endpoint(ep0r));

        let ep1r = self.usb.ep1r;
        self.usb.ep1r = write_endpoint(ep1r, program_interrupt_endpoint(ep1r));

        self.usb.daddr = DADDR_EF;

        self.log = Ghost(self.log@.push(Command::ResetState));
    }
}

} // verus!
