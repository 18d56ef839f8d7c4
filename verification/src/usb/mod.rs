//! The control-transfer engine and the hardware capability it drives.
//!
//! The engine is called from the two USB interrupts, one call at a time. It asks
//! the device what happened and issues commands in answer; `outcome` says which
//! commands, as a function of what the device reports.

use vstd::prelude::*;

pub mod outcome;
pub mod requests;

use outcome::{
    control_outcome, handling, high_byte, interrupt_outcome, low_byte, request_outcome, words_for,
    Handling,
};
use requests::Request;

verus! {

/// The longest response, in 16-bit words, that a device has to take: the response
/// buffer starts at slot 0x20 of a packet memory of 256 slots, and the slot after
/// the last word written must still lie inside that memory.
pub const MAX_RESPONSE_WORDS: usize = 223;

/// One operation that changes a device, as the engine asks for it.
pub enum Command {
    /// The words were written to the response buffer.
    WriteResponse(Seq<u16>),
    /// The endpoints were programmed anew and the device function enabled.
    ResetState,
    /// The reset condition was acknowledged.
    ClearReset,
    /// The suspend, start-of-frame and expected-start-of-frame flags were cleared.
    ClearTransferFlags,
    /// The device address was put into effect.
    SetAddress(u8),
    /// The configuration was selected.
    SetConfiguration(u8),
    /// A request without a data stage was acknowledged.
    ConfirmRequest,
    /// The response in the buffer was released to the host.
    ConfirmResponse,
    /// A status stage sent by the host was acknowledged.
    ConfirmTx,
}

/// A setup request, decoded for the time of one dispatch.
#[derive(Clone, Copy, Debug, PartialEq, Eq, Structural)]
pub struct SetupRequest {
    pub request_type: u8,
    pub request: Request,
    pub value: u16,
    pub index: u16,
    pub length: u16,
}

/// What the queries of a device return, the reset condition aside.
pub struct Report {
    /// A transfer has been completed.
    pub complete: bool,
    /// The endpoint the transfer went to.
    pub endpoint: u8,
    /// The transfer is a setup or IN stage, which the device answers; otherwise it
    /// is a status or OUT stage sent by the host.
    pub device_to_host: bool,
    /// The five fields of the setup packet, the request as its code.
    pub request_type: u8,
    pub request: u8,
    pub value: u16,
    pub index: u16,
    pub length: u16,
    /// The configuration currently selected.
    pub configuration: u8,
}

impl Report {
    /// The setup request that the reported fields decode to.
    pub open spec fn setup(self) -> SetupRequest {
        SetupRequest {
            request_type: self.request_type,
            request: Request::of_code(self.request),
            value: self.value,
            index: self.index,
            length: self.length,
        }
    }
}

/// The hardware capability the engine drives.
///
/// A device is described by three things: the commands it has taken so far, whether
/// it raises the reset condition, and what its other queries report. Each query
/// returns what the device reports; each command is added to the history. The three
/// commands the engine issues before it looks at the transfer (`reset_state`,
/// `clear_reset`, `clear_transfer_flags`) leave the report as it was. An
/// implementation outside verified code need not define the three descriptions;
/// nothing is then known of it.
pub trait UsbDevice {
    /// The commands taken so far, oldest first.
    open spec fn history(&self) -> Seq<Command> {
        arbitrary()
    }

    /// Whether the reset condition is raised.
    open spec fn reset_pending(&self) -> bool {
        arbitrary()
    }

    /// What the queries other than `should_reset` return.
    open spec fn report(&self) -> Report {
        arbitrary()
    }

    /// Writes the words that the host is to receive into the response buffer.
    fn set_response(&mut self, response: &[u16])
        requires
            response@.len() <= MAX_RESPONSE_WORDS,
        ensures
            final(self).history() == old(self).history().push(Command::WriteResponse(response@)),
    ;

    /// Whether the bus has been reset.
    fn should_reset(&self) -> (reset: bool)
        ensures
            reset == self.reset_pending(),
    ;

    /// Acknowledges the reset.
    fn clear_reset(&mut self)
        ensures
            final(self).history() == old(self).history().push(Command::ClearReset),
            final(self).report() == old(self).report(),
    ;

    /// Clears the flags that call for no action: suspend, start of frame and
    /// expected start of frame.
    fn clear_transfer_flags(&mut self)
        ensures
            final(self).history() == old(self).history().push(Command::ClearTransferFlags),
            final(self).report() == old(self).report(),
    ;

    /// The endpoint on which a transfer was completed.
    fn get_endpoint(&self) -> (endpoint: u8)
        ensures
            endpoint == self.report().endpoint,
    ;

    /// Whether a transfer was completed.
    fn transfer_correct(&self) -> (complete: bool)
        ensures
            complete == self.report().complete,
    ;

    /// The direction of the completed transfer: `true` for a stage that the device
    /// answers.
    fn connection_type(&self) -> (device_to_host: bool)
        ensures
            device_to_host == self.report().device_to_host,
    ;

    /// The request type of the setup packet.
    fn get_request_type(&self) -> (request_type: u8)
        ensures
            request_type == self.report().request_type,
    ;

    /// The request code of the setup packet.
    fn get_request(&self) -> (request: u8)
        ensures
            request == self.report().request,
    ;

    /// The value field of the setup packet.
    fn get_value(&self) -> (value: u16)
        ensures
            value == self.report().value,
    ;

    /// The index field of the setup packet.
    fn get_index(&self) -> (index: u16)
        ensures
            index == self.report().index,
    ;

    /// The length field of the setup packet.
    fn get_length(&self) -> (length: u16)
        ensures
            length == self.report().length,
    ;

    /// The configuration currently selected.
    fn get_configuration(&self) -> (configuration: u8)
        ensures
            configuration == self.report().configuration,
    ;

    /// Puts the device address into effect.
    fn set_address(&mut self, address: u8)
        ensures
            final(self).history() == old(self).history().push(Command::SetAddress(address)),
    ;

    /// Selects a configuration.
    fn set_configuration(&mut self, configuration: u8)
        ensures
            final(self).history() == old(self).history().push(
                Command::SetConfiguration(configuration),
            ),
    ;

    /// Acknowledges a request that has no data stage: no more data goes to the
    /// host, the next packet from the host is taken.
    fn confirm_request(&mut self)
        ensures
            final(self).history() == old(self).history().push(Command::ConfirmRequest),
    ;

    /// Releases the response in the buffer to the host.
    fn confirm_response(&mut self)
        ensures
            final(self).history() == old(self).history().push(Command::ConfirmResponse),
    ;

    /// Acknowledges a status stage sent by the host.
    fn confirm_tx(&mut self)
        ensures
            final(self).history() == old(self).history().push(Command::ConfirmTx),
    ;

    /// Programs the endpoints anew and enables the device function.
    fn reset_state(&mut self)
        ensures
            final(self).history() == old(self).history().push(Command::ResetState),
            final(self).report() == old(self).report(),
    ;
}

/// A setup request the engine has no answer for.
#[derive(Clone, Copy, Debug, PartialEq, Eq, Structural)]
pub enum UsbError {
    UnsupportedRequest { request_type: u8, request: Request },
}

/// The engine as contracts see it.
pub struct UsbView<UD> {
    pub device: UD,
    pub descriptor: Seq<u16>,
    pub pending_address: Option<u8>,
}

/// A descriptor that fits the response buffer.
struct Descriptor {
    words: &'static [u16],
}

impl Descriptor {
    #[verifier::type_invariant]
    spec fn fits(self) -> bool {
        self.words@.len() <= MAX_RESPONSE_WORDS
    }

    fn new(words: &'static [u16]) -> (descriptor: Descriptor)
        requires
            words@.len() <= MAX_RESPONSE_WORDS,
        ensures
            descriptor.words@ == words@,
    {
        Descriptor { words }
    }

    fn words(&self) -> (words: &'static [u16])
        ensures
            words@ == self.words@,
            words@.len() <= MAX_RESPONSE_WORDS,
    {
        proof {
            use_type_invariant(self);
        }
        self.words
    }
}

/// The control-transfer engine of a USB device, over any hardware that offers the
/// capability `UsbDevice`.
pub struct Usb<UD: UsbDevice> {
    _device_descriptor: Descriptor,
    ud: UD,
    pending_address: Option<u8>,
}

impl<UD: UsbDevice> View for Usb<UD> {
    type V = UsbView<UD>;

    closed spec fn view(&self) -> UsbView<UD> {
        UsbView {
            device: self.ud,
            descriptor: self._device_descriptor.words@,
            pending_address: self.pending_address,
        }
    }
}

impl<UD: UsbDevice> Usb<UD> {
    /// An engine that serves `device_descriptor` through `ud`; no address is waiting.
    pub fn new(device_descriptor: &'static [u16], ud: UD) -> (usb: Usb<UD>)
        requires
            device_descriptor@.len() <= MAX_RESPONSE_WORDS,
        ensures
            usb@ == (UsbView { device: ud, descriptor: device_descriptor@, pending_address: None }),
    {
        Usb { _device_descriptor: Descriptor::new(device_descriptor), ud: ud, pending_address: None }
    }

    /// The device the engine drives.
    pub fn device(&self) -> (ud: &UD)
        ensures
            *ud == self@.device,
    {
        &self.ud
    }

    /// The device the engine drives, to act on it between interrupts.
    pub fn device_mut(&mut self) -> (ud: &mut UD)
        ensures
            *ud == old(self)@.device,
            final(self)@ == (UsbView { device: *final(ud), ..old(self)@ }),
    {
        &mut self.ud
    }

    /// The address that waits for the next status stage, if one does.
    pub fn pending_address(&self) -> (pending_address: Option<u8>)
        ensures
            pending_address == self@.pending_address,
    {
        self.pending_address
    }

    /// Entry point for the low-priority interrupt.
    pub fn interrupt_low_priority(&mut self) -> (res: Result<(), UsbError>)
        ensures
            Self::stepped(old(self)@, final(self)@, res),
    {
        self.check_interrupt()
    }

    /// Entry point for the high-priority interrupt; it does what the other one does.
    pub fn interrupt_high_priority(&mut self) -> (res: Result<(), UsbError>)
        ensures
            Self::stepped(old(self)@, final(self)@, res),
    {
        self.check_interrupt()
    }

    /// One interrupt has been served: the device has taken the commands of
    /// `interrupt_outcome` after those it had taken before, the waiting address and
    /// the result are those of the outcome, and the descriptor is untouched.
    pub open spec fn stepped(before: UsbView<UD>, after: UsbView<UD>, res: Result<(), UsbError>) -> bool {
        let outcome = interrupt_outcome(
            before.device.reset_pending(),
            before.device.report(),
            before.descriptor,
            before.pending_address,
        );
        &&& after.device.history() == before.device.history() + outcome.commands
        &&& after.pending_address == outcome.pending_address
        &&& after.descriptor == before.descriptor
        &&& res == outcome.result
    }

    fn check_interrupt(&mut self) -> (res: Result<(), UsbError>)
        ensures
            Self::stepped(old(self)@, final(self)@, res),
    {
        if self.ud.should_reset() {
            self.ud.reset_state();
            self.ud.clear_reset();
        }
        self.ud.clear_transfer_flags();
        let ghost first = if old(self).ud.reset_pending() {
            seq![Command::ResetState, Command::ClearReset, Command::ClearTransferFlags]
        } else {
            seq![Command::ClearTransferFlags]
        };
        assert(self.ud.history() =~= old(self).ud.history() + first);
        if self.ud.transfer_correct() {
            let endpoint = self.ud.get_endpoint();
            match endpoint {
                0 => {
                    let res = self.control_connection();
                    assert(self.ud.history() =~= old(self).ud.history() + (first + control_outcome(
                        old(self).ud.report(),
                        old(self)._device_descriptor.words@,
                        old(self).pending_address,
                    ).commands));
                    res
                },
                _ => {
                    self.check_user_request();
                    Ok(())
                },
            }
        } else {
            Ok(())
        }
    }

    /// Transfers on endpoints other than 0 are not served.
    fn check_user_request(&mut self)
        ensures
            *final(self) == *old(self),
    {
    }

    fn control_connection(&mut self) -> (res: Result<(), UsbError>)
        ensures
            ({
                let outcome = control_outcome(
                    old(self)@.device.report(),
                    old(self)@.descriptor,
                    old(self)@.pending_address,
                );
                &&& final(self)@.device.history() == old(self)@.device.history() + outcome.commands
                &&& final(self)@.pending_address == outcome.pending_address
                &&& final(self)@.descriptor == old(self)@.descriptor
                &&& res == outcome.result
            }),
    {
        if self.ud.connection_type() {
            self.check_request()
        } else {
            match self.pending_address {
                Some(address) => {
                    self.ud.set_address(address);
                    self.pending_address = None;
                    self.ud.confirm_tx();
                    assert(self.ud.history() =~= old(self).ud.history() + seq![
                        Command::SetAddress(address),
                        Command::ConfirmTx,
                    ]);
                },
                None => {
                    self.ud.confirm_tx();
                    assert(self.ud.history() =~= old(self).ud.history() + seq![Command::ConfirmTx]);
                },
            }
            Ok(())
        }
    }

    fn check_request(&mut self) -> (res: Result<(), UsbError>)
        ensures
            ({
                let outcome = request_outcome(
                    old(self)@.device.report().setup(),
                    old(self)@.device.report().configuration,
                    old(self)@.descriptor,
                    old(self)@.pending_address,
                );
                &&& final(self)@.device.history() == old(self)@.device.history() + outcome.commands
                &&& final(self)@.pending_address == outcome.pending_address
                &&& final(self)@.descriptor == old(self)@.descriptor
                &&& res == outcome.result
            }),
    {
        let setup = self.read_setup();
        let configuration = self.ud.get_configuration();

        match dispatch(setup, configuration) {
            Handling::DeviceStatus => {
                // self-powered and remote wakeup are both off
                let response: [u16; 1] = [0];
                assert(response@ =~= seq![0u16]);
                self.respond(&response)
            },
            Handling::Descriptor(length) => {
                let words = words_holding(length);
                let descriptor = self._device_descriptor.words();
                if words < descriptor.len() {
                    let part = &descriptor[0..words];
                    assert(part@ =~= descriptor@.take(words as int));
                    self.respond(part)
                } else {
                    self.respond(descriptor)
                }
            },
            Handling::Configuration(configuration) => {
                let response: [u16; 1] = [configuration as u16];
                assert(response@ =~= seq![configuration as u16]);
                self.respond(&response)
            },
            Handling::InterfaceStatus => {
                let response: [u16; 2] = [0, 0];
                assert(response@ =~= seq![0u16, 0u16]);
                self.respond(&response)
            },
            Handling::Interface => {
                let response: [u16; 1] = [0];
                assert(response@ =~= seq![0u16]);
                self.respond(&response)
            },
            Handling::Acknowledge => self.acknowledge(),
            Handling::CaptureAddress(address) => {
                // the address takes effect only after the status stage
                self.pending_address = Some(address);
                self.acknowledge()
            },
            Handling::Configure(configuration) => {
                self.ud.set_configuration(configuration);
                self.ud.confirm_request();
                assert(self.ud.history() =~= old(self).ud.history() + seq![
                    Command::SetConfiguration(configuration),
                    Command::ConfirmRequest,
                ]);
                Ok(())
            },
            Handling::Unsupported => {
                // stall, and tell the caller
                let _ = self.acknowledge();
                Err(
                    UsbError::UnsupportedRequest {
                        request_type: setup.request_type,
                        request: setup.request,
                    },
                )
            },
        }
    }

    /// Decodes the setup packet the device has received.
    fn read_setup(&self) -> (setup: SetupRequest)
        ensures
            setup == self.ud.report().setup(),
    {
        SetupRequest {
            request_type: self.ud.get_request_type(),
            request: Request::from_u8(self.ud.get_request()),
            value: self.ud.get_value(),
            index: self.ud.get_index(),
            length: self.ud.get_length(),
        }
    }

    /// Writes a response, then releases it: in this order.
    fn respond(&mut self, response: &[u16]) -> (res: Result<(), UsbError>)
        requires
            response@.len() <= MAX_RESPONSE_WORDS,
        ensures
            final(self).ud.history() == old(self).ud.history() + seq![
                Command::WriteResponse(response@),
                Command::ConfirmResponse,
            ],
            final(self).pending_address == old(self).pending_address,
            final(self)._device_descriptor == old(self)._device_descriptor,
            res == Ok::<(), UsbError>(()),
    {
        self.ud.set_response(response);
        self.ud.confirm_response();
        assert(self.ud.history() =~= old(self).ud.history() + seq![
            Command::WriteResponse(response@),
            Command::ConfirmResponse,
        ]);
        Ok(())
    }

    /// Acknowledges a request that has no data stage.
    fn acknowledge(&mut self) -> (res: Result<(), UsbError>)
        ensures
            final(self).ud.history() == old(self).ud.history() + seq![Command::ConfirmRequest],
            final(self).pending_address == old(self).pending_address,
            final(self)._device_descriptor == old(self)._device_descriptor,
            res == Ok::<(), UsbError>(()),
    {
        self.ud.confirm_request();
        assert(self.ud.history() =~= old(self).ud.history() + seq![Command::ConfirmRequest]);
        Ok(())
    }
}

/// Looks a setup request up in the dispatch table.
pub fn dispatch(setup: SetupRequest, configuration: u8) -> (answer: Handling)
    ensures
        answer == handling(setup, configuration),
{
    match (setup.request_type, setup.request) {
        // device level requests
        (0x80, Request::GetStatus) => Handling::DeviceStatus,
        (0x00, Request::ClearFeature) => Handling::Acknowledge,
        (0x00, Request::SetFeature) => Handling::Acknowledge,
        (0x00, Request::SetAddress) => Handling::CaptureAddress(low_byte_of(setup.value)),
        (0x80, Request::GetDescriptor) => Handling::Descriptor(setup.length),
        (0x00, Request::SetDescriptor) => Handling::Acknowledge,
        (0x80, Request::GetConfiguration) => Handling::Configuration(configuration),
        (0x00, Request::SetConfiguration) => Handling::Configure(low_byte_of(setup.value)),
        // interface level requests
        (0x81, Request::GetStatus) => Handling::InterfaceStatus,
        (0x01, Request::ClearFeature) => Handling::Acknowledge,
        (0x81, Request::GetInterface) => Handling::Interface,
        (0x01, Request::SetInterface) => Handling::Acknowledge,
        // nothing else is served
        _ => Handling::Unsupported,
    }
}

/// The low byte of a 16-bit field.
pub fn low_byte_of(value: u16) -> (byte: u8)
    ensures
        byte == low_byte(value),
{
    let low = value & 0xff;
    assert(low == value % 256) by (bit_vector)
        requires
            low == value & 0xff,
    ;
    low as u8
}

/// The high byte of a 16-bit field.
pub fn high_byte_of(value: u16) -> (byte: u8)
    ensures
        byte == high_byte(value),
{
    let high = value >> 8;
    assert(high == value / 256 && high <= 255) by (bit_vector)
        requires
            high == value >> 8,
    ;
    high as u8
}

/// The number of words that hold `length` bytes.
pub fn words_holding(length: u16) -> (words: usize)
    ensures
        words == words_for(length),
{
    (length as usize + 1) / 2
}

} // verus!
