//! What the engine does in answer to what a device reports: the dispatch table
//! and the commands of one interrupt, with the laws that hold of them.

use vstd::prelude::*;

use crate::usb::requests::Request;
use crate::usb::{Command, Report, SetupRequest, UsbError};

verus! {

/// How the engine answers a setup request.
#[derive(Clone, Copy, Debug, PartialEq, Eq, Structural)]
pub enum Handling {
    /// Respond with the device status: one zero word.
    DeviceStatus,
    /// Respond with the descriptor, for a request of this many bytes.
    Descriptor(u16),
    /// Respond with the configuration selected, as one word.
    Configuration(u8),
    /// Respond with the interface status: two reserved zero words.
    InterfaceStatus,
    /// Respond with the interface selected: interface 0.
    Interface,
    /// Acknowledge; nothing else is done.
    Acknowledge,
    /// Keep the address until the status stage has passed, and acknowledge.
    CaptureAddress(u8),
    /// Select the configuration, then acknowledge.
    Configure(u8),
    /// Stall the endpoint and report the request.
    Unsupported,
}

/// What one step of the engine amounts to.
pub struct Outcome {
    /// The commands issued to the device, in order.
    pub commands: Seq<Command>,
    /// The address waiting for the next status stage, after the step.
    pub pending_address: Option<u8>,
    /// What the step returns.
    pub result: Result<(), UsbError>,
}

/// The low byte of a 16-bit field.
pub open spec fn low_byte(value: u16) -> u8 {
    (value % 256) as u8
}

/// The high byte of a 16-bit field.
pub open spec fn high_byte(value: u16) -> u8 {
    (value / 256) as u8
}

/// The number of words that hold `length` bytes.
pub open spec fn words_for(length: u16) -> nat {
    ((length + 1) / 2) as nat
}

/// The descriptor as it is served for a request of `length` bytes: whole, or cut
/// to the words that hold the requested bytes.
pub open spec fn descriptor_response(descriptor: Seq<u16>, length: u16) -> Seq<u16> {
    if words_for(length) < descriptor.len() {
        descriptor.take(words_for(length) as int)
    } else {
        descriptor
    }
}

/// The dispatch table, keyed by request type and request.
pub open spec fn handling(setup: SetupRequest, configuration: u8) -> Handling {
    match (setup.request_type, setup.request) {
        (0x80, Request::GetStatus) => Handling::DeviceStatus,
        (0x00, Request::ClearFeature) => Handling::Acknowledge,
        (0x00, Request::SetFeature) => Handling::Acknowledge,
        (0x00, Request::SetAddress) => Handling::CaptureAddress(low_byte(setup.value)),
        (0x80, Request::GetDescriptor) => Handling::Descriptor(setup.length),
        (0x00, Request::SetDescriptor) => Handling::Acknowledge,
        (0x80, Request::GetConfiguration) => Handling::Configuration(configuration),
        (0x00, Request::SetConfiguration) => Handling::Configure(low_byte(setup.value)),
        (0x81, Request::GetStatus) => Handling::InterfaceStatus,
        (0x01, Request::ClearFeature) => Handling::Acknowledge,
        (0x81, Request::GetInterface) => Handling::Interface,
        (0x01, Request::SetInterface) => Handling::Acknowledge,
        _ => Handling::Unsupported,
    }
}

impl Handling {
    /// The words that go to the host, where the request is answered with data.
    pub open spec fn response(self, descriptor: Seq<u16>) -> Option<Seq<u16>> {
        match self {
            Handling::DeviceStatus => Some(seq![0u16]),
            Handling::Descriptor(length) => Some(descriptor_response(descriptor, length)),
            Handling::Configuration(configuration) => Some(seq![configuration as u16]),
            Handling::InterfaceStatus => Some(seq![0u16, 0u16]),
            Handling::Interface => Some(seq![0u16]),
            _ => None,
        }
    }
}

/// Answering a setup request: a response is written before it is released, a
/// configuration is selected before the request is acknowledged, and a request
/// that is not in the table stalls the endpoint and is reported.
pub open spec fn request_outcome(
    setup: SetupRequest,
    configuration: u8,
    descriptor: Seq<u16>,
    pending_address: Option<u8>,
) -> Outcome {
    match handling(setup, configuration) {
        Handling::Acknowledge => Outcome {
            commands: seq![Command::ConfirmRequest],
            pending_address,
            result: Ok(()),
        },
        Handling::CaptureAddress(address) => Outcome {
            commands: seq![Command::ConfirmRequest],
            pending_address: Some(address),
            result: Ok(()),
        },
        Handling::Configure(configuration) => Outcome {
            commands: seq![Command::SetConfiguration(configuration), Command::ConfirmRequest],
            pending_address,
            result: Ok(()),
        },
        Handling::Unsupported => Outcome {
            commands: seq![Command::ConfirmRequest],
            pending_address,
            result: Err(
                UsbError::UnsupportedRequest {
                    request_type: setup.request_type,
                    request: setup.request,
                },
            ),
        },
        answered => Outcome {
            commands: seq![
                Command::WriteResponse(answered.response(descriptor)->0),
                Command::ConfirmResponse,
            ],
            pending_address,
            result: Ok(()),
        },
    }
}

/// A completed transfer on endpoint 0: a stage the device answers is dispatched; a
/// stage sent by the host puts a waiting address into effect and is acknowledged.
pub open spec fn control_outcome(
    report: Report,
    descriptor: Seq<u16>,
    pending_address: Option<u8>,
) -> Outcome {
    if report.device_to_host {
        request_outcome(report.setup(), report.configuration, descriptor, pending_address)
    } else {
        match pending_address {
            Some(address) => Outcome {
                commands: seq![Command::SetAddress(address), Command::ConfirmTx],
                pending_address: None,
                result: Ok(()),
            },
            None => Outcome {
                commands: seq![Command::ConfirmTx],
                pending_address: None,
                result: Ok(()),
            },
        }
    }
}

/// One interrupt: a reset is answered first, the spurious flags are cleared, and
/// a completed transfer on endpoint 0 is handled. Other endpoints are not served.
pub open spec fn interrupt_outcome(
    reset: bool,
    report: Report,
    descriptor: Seq<u16>,
    pending_address: Option<u8>,
) -> Outcome {
    let first = if reset {
        seq![Command::ResetState, Command::ClearReset, Command::ClearTransferFlags]
    } else {
        seq![Command::ClearTransferFlags]
    };
    if report.complete && report.endpoint == 0 {
        let control = control_outcome(report, descriptor, pending_address);
        Outcome {
            commands: first + control.commands,
            pending_address: control.pending_address,
            result: control.result,
        }
    } else {
        Outcome { commands: first, pending_address, result: Ok(()) }
    }
}

/// The addresses that a run of commands puts into effect, in order.
pub open spec fn addresses_set(commands: Seq<Command>) -> Seq<u8>
    decreases commands.len(),
{
    if commands.len() == 0 {
        Seq::empty()
    } else {
        match commands.last() {
            Command::SetAddress(address) => addresses_set(commands.drop_last()).push(address),
            _ => addresses_set(commands.drop_last()),
        }
    }
}

proof fn lemma_addresses_push(commands: Seq<Command>, command: Command)
    ensures
        addresses_set(commands.push(command)) == (match command {
            Command::SetAddress(address) => addresses_set(commands).push(address),
            _ => addresses_set(commands),
        }),
{
    assert(commands.push(command).drop_last() =~= commands);
}

proof fn lemma_addresses_add(first: Seq<Command>, second: Seq<Command>)
    ensures
        addresses_set(first + second) == addresses_set(first) + addresses_set(second),
    decreases second.len(),
{
    if second.len() == 0 {
        assert(first + second =~= first);
        assert(addresses_set(first) + addresses_set(second) =~= addresses_set(first));
    } else {
        let head = second.drop_last();
        assert(first + second =~= (first + head).push(second.last()));
        assert(second =~= head.push(second.last()));
        lemma_addresses_push(first + head, second.last());
        lemma_addresses_push(head, second.last());
        lemma_addresses_add(first, head);
        assert(addresses_set(first + second) =~= addresses_set(first) + addresses_set(second));
    }
}

proof fn lemma_addresses_of_two(first: Command, second: Command)
    ensures
        addresses_set(seq![first]) == (match first {
            Command::SetAddress(address) => seq![address],
            _ => Seq::empty(),
        }),
        addresses_set(seq![first, second]) == addresses_set(seq![first]) + addresses_set(
            seq![second],
        ),
        addresses_set(seq![second]) == (match second {
            Command::SetAddress(address) => seq![address],
            _ => Seq::empty(),
        }),
{
    lemma_addresses_push(Seq::empty(), first);
    lemma_addresses_push(Seq::empty(), second);
    assert(seq![first] =~= Seq::<Command>::empty().push(first));
    assert(seq![second] =~= Seq::<Command>::empty().push(second));
    assert(seq![first, second] =~= seq![first] + seq![second]);
    lemma_addresses_add(seq![first], seq![second]);
}

/// An interrupt puts an address into effect only when it completes a stage sent by
/// the host on endpoint 0 while an address waits, and then exactly that address,
/// once. Answering a request, whatever it is, sets none.
pub proof fn lemma_addresses_of_interrupt(
    reset: bool,
    report: Report,
    descriptor: Seq<u16>,
    pending_address: Option<u8>,
)
    ensures
        addresses_set(interrupt_outcome(reset, report, descriptor, pending_address).commands)
            == (if report.complete && report.endpoint == 0 && !report.device_to_host
            && pending_address is Some {
            seq![pending_address->0]
        } else {
            Seq::empty()
        }),
{
    let first = if reset {
        seq![Command::ResetState, Command::ClearReset, Command::ClearTransferFlags]
    } else {
        seq![Command::ClearTransferFlags]
    };
    assert(addresses_set(first) =~= Seq::<u8>::empty()) by {
        lemma_addresses_of_two(Command::ResetState, Command::ClearReset);
        lemma_addresses_of_two(Command::ClearTransferFlags, Command::ClearTransferFlags);
        assert(seq![Command::ResetState, Command::ClearReset, Command::ClearTransferFlags]
            =~= seq![Command::ResetState, Command::ClearReset] + seq![
            Command::ClearTransferFlags,
        ]);
        lemma_addresses_add(
            seq![Command::ResetState, Command::ClearReset],
            seq![Command::ClearTransferFlags],
        );
    }
    if report.complete && report.endpoint == 0 {
        let control = control_outcome(report, descriptor, pending_address);
        lemma_addresses_add(first, control.commands);
        if report.device_to_host {
            let answered = handling(report.setup(), report.configuration);
            match answered {
                Handling::Acknowledge | Handling::CaptureAddress(_) | Handling::Unsupported => {
                    lemma_addresses_of_two(Command::ConfirmRequest, Command::ConfirmRequest);
                },
                Handling::Configure(configuration) => {
                    lemma_addresses_of_two(
                        Command::SetConfiguration(configuration),
                        Command::ConfirmRequest,
                    );
                },
                _ => {
                    lemma_addresses_of_two(
                        Command::WriteResponse(answered.response(descriptor)->0),
                        Command::ConfirmResponse,
                    );
                },
            }
        } else {
            match pending_address {
                Some(address) => {
                    lemma_addresses_of_two(Command::SetAddress(address), Command::ConfirmTx);
                },
                None => {
                    lemma_addresses_of_two(Command::ConfirmTx, Command::ConfirmTx);
                },
            }
        }
        assert(addresses_set(first) + addresses_set(control.commands) =~= addresses_set(
            control.commands,
        ));
    }
}

/// An address assigned by the host waits for the status stage. The interrupt that
/// answers the request to set an address keeps the address and sets none. A stage
/// that the device answers, served next, sets none either. The next stage sent by
/// the host that completes on endpoint 0 puts exactly the kept address into effect,
/// once, and nothing waits after it; the stage sent by the host after that sets
/// no address.
pub proof fn lemma_address_waits_for_status_stage(
    setup: Report,
    answered: Report,
    status: Report,
    later: Report,
    resets: (bool, bool, bool, bool),
    descriptor: Seq<u16>,
    pending_address: Option<u8>,
)
    requires
        setup.complete && setup.endpoint == 0 && setup.device_to_host,
        setup.request_type == 0x00 && Request::of_code(setup.request) == Request::SetAddress,
        answered.device_to_host,
        status.complete && status.endpoint == 0 && !status.device_to_host,
        !later.device_to_host,
    ensures
        ({
            let assigned = interrupt_outcome(resets.0, setup, descriptor, pending_address);
            let between = interrupt_outcome(
                resets.1,
                answered,
                descriptor,
                assigned.pending_address,
            );
            let applied = interrupt_outcome(resets.2, status, descriptor, assigned.pending_address);
            let after = interrupt_outcome(resets.3, later, descriptor, applied.pending_address);
            &&& assigned.pending_address == Some(low_byte(setup.value))
            &&& assigned.result is Ok
            &&& addresses_set(assigned.commands) == Seq::<u8>::empty()
            &&& addresses_set(between.commands) == Seq::<u8>::empty()
            &&& addresses_set(applied.commands) == seq![low_byte(setup.value)]
            &&& applied.pending_address is None
            &&& addresses_set(after.commands) == Seq::<u8>::empty()
        }),
{
    let assigned = interrupt_outcome(resets.0, setup, descriptor, pending_address);
    let applied = interrupt_outcome(resets.2, status, descriptor, assigned.pending_address);
    lemma_addresses_of_interrupt(resets.0, setup, descriptor, pending_address);
    lemma_addresses_of_interrupt(resets.1, answered, descriptor, assigned.pending_address);
    lemma_addresses_of_interrupt(resets.2, status, descriptor, assigned.pending_address);
    lemma_addresses_of_interrupt(resets.3, later, descriptor, applied.pending_address);
}

/// A response is written before it is released: in the commands of an interrupt,
/// the release of a response comes directly after the command that wrote it.
pub proof fn lemma_response_written_before_released(
    reset: bool,
    report: Report,
    descriptor: Seq<u16>,
    pending_address: Option<u8>,
)
    ensures
        forall|i: int|
            #![trigger interrupt_outcome(reset, report, descriptor, pending_address).commands[i]]
            0 <= i < interrupt_outcome(reset, report, descriptor, pending_address).commands.len()
                && interrupt_outcome(reset, report, descriptor, pending_address).commands[i]
                is ConfirmResponse ==> i >= 1 && interrupt_outcome(
                reset,
                report,
                descriptor,
                pending_address,
            ).commands[i - 1] is WriteResponse,
{
}

} // verus!
