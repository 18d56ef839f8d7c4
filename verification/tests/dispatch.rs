use stm32_usb::usb::outcome::Handling;
use stm32_usb::usb::requests::Request;
use stm32_usb::usb::{dispatch, high_byte_of, SetupRequest};

fn setup(request_type: u8, request: Request) -> SetupRequest {
    SetupRequest { request_type, request, value: 0x1234, index: 0x0409, length: 0x0012 }
}

const REQUESTS: [Request; 12] = [
    Request::GetStatus,
    Request::ClearFeature,
    Request::SetFeature,
    Request::SetAddress,
    Request::GetDescriptor,
    Request::SetDescriptor,
    Request::GetConfiguration,
    Request::SetConfiguration,
    Request::GetInterface,
    Request::SetInterface,
    Request::SynchFrame,
    Request::Unknown,
];

fn row(request_type: u8, request: Request) -> Option<Handling> {
    match (request_type, request) {
        (0x80, Request::GetStatus) => Some(Handling::DeviceStatus),
        (0x00, Request::ClearFeature) => Some(Handling::Acknowledge),
        (0x00, Request::SetFeature) => Some(Handling::Acknowledge),
        (0x00, Request::SetAddress) => Some(Handling::CaptureAddress(0x34)),
        (0x80, Request::GetDescriptor) => Some(Handling::Descriptor(0x0012)),
        (0x00, Request::SetDescriptor) => Some(Handling::Acknowledge),
        (0x80, Request::GetConfiguration) => Some(Handling::Configuration(7)),
        (0x00, Request::SetConfiguration) => Some(Handling::Configure(0x34)),
        (0x81, Request::GetStatus) => Some(Handling::InterfaceStatus),
        (0x01, Request::ClearFeature) => Some(Handling::Acknowledge),
        (0x81, Request::GetInterface) => Some(Handling::Interface),
        (0x01, Request::SetInterface) => Some(Handling::Acknowledge),
        _ => None,
    }
}

#[test]
fn dispatch_serves_the_twelve_rows_of_the_table() {
    let mut served = 0;
    for request_type in [0x00u8, 0x01, 0x80, 0x81] {
        for request in REQUESTS {
            if let Some(expected) = row(request_type, request) {
                assert_eq!(dispatch(setup(request_type, request), 7), expected);
                served += 1;
            }
        }
    }
    assert_eq!(served, 12);
}

#[test]
fn dispatch_turns_every_other_pair_down() {
    let mut unsupported = 0;
    for request_type in 0..=255u8 {
        for request in REQUESTS {
            if row(request_type, request).is_none() {
                assert_eq!(dispatch(setup(request_type, request), 7), Handling::Unsupported);
                unsupported += 1;
            }
        }
    }
    assert_eq!(unsupported, 256 * 12 - 12);
}

#[test]
fn dispatch_of_synch_frame_on_an_endpoint_is_unsupported() {
    assert_eq!(dispatch(setup(0x02, Request::SynchFrame), 0), Handling::Unsupported);
}

#[test]
fn dispatch_ignores_the_index() {
    let mut request = setup(0x80, Request::GetDescriptor);
    request.index = 0xFFFF;
    assert_eq!(dispatch(request, 0), Handling::Descriptor(0x0012));
}

#[test]
fn high_byte_of_drops_the_low_byte() {
    assert_eq!(high_byte_of(0x0000), 0x00);
    assert_eq!(high_byte_of(0x00FF), 0x00);
    assert_eq!(high_byte_of(0x0100), 0x01);
    assert_eq!(high_byte_of(0xABCD), 0xAB);
}
