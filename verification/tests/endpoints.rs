//! Tests for endpoint selection: first inbound and first outbound data
//! endpoint, with control and isochronous endpoints skipped.

use adcmt7351::transport::select_endpoints;
use adcmt7351::DriverError;
use adcmt7351::EndpointDesc;
use adcmt7351::TransferKind;
use adcmt7351::TransportError;

fn endpoint(address: u8, kind: TransferKind) -> EndpointDesc {
    EndpointDesc { address, kind }
}

#[test]
fn picks_first_in_and_first_out() {
    let descriptors = vec![
        endpoint(0x81, TransferKind::Bulk),
        endpoint(0x02, TransferKind::Bulk),
        endpoint(0x83, TransferKind::Interrupt),
    ];
    let endpoints = select_endpoints(&descriptors).unwrap();
    assert_eq!(endpoints.read_addr, 0x81);
    assert_eq!(endpoints.read_kind, TransferKind::Bulk);
    assert_eq!(endpoints.write_addr, 0x02);
    assert_eq!(endpoints.write_kind, TransferKind::Bulk);
}

#[test]
fn skips_control_and_isochronous_endpoints() {
    let descriptors = vec![
        endpoint(0x80, TransferKind::Control),
        endpoint(0x81, TransferKind::Isochronous),
        endpoint(0x82, TransferKind::Interrupt),
        endpoint(0x01, TransferKind::Control),
        endpoint(0x03, TransferKind::Interrupt),
    ];
    let endpoints = select_endpoints(&descriptors).unwrap();
    assert_eq!(endpoints.read_addr, 0x82);
    assert_eq!(endpoints.read_kind, TransferKind::Interrupt);
    assert_eq!(endpoints.write_addr, 0x03);
    assert_eq!(endpoints.write_kind, TransferKind::Interrupt);
}

#[test]
fn missing_read_endpoint_is_reported_first() {
    let descriptors = vec![endpoint(0x02, TransferKind::Bulk)];
    assert_eq!(
        select_endpoints(&descriptors),
        Err(DriverError::Transport(TransportError::NoReadEndpoint))
    );
    // Even with nothing at all, the read endpoint is named first.
    assert_eq!(
        select_endpoints(&Vec::<EndpointDesc>::new()),
        Err(DriverError::Transport(TransportError::NoReadEndpoint))
    );
}

#[test]
fn missing_write_endpoint_is_reported() {
    let descriptors = vec![
        endpoint(0x81, TransferKind::Bulk),
        endpoint(0x01, TransferKind::Control),
    ];
    assert_eq!(
        select_endpoints(&descriptors),
        Err(DriverError::Transport(TransportError::NoWriteEndpoint))
    );
}
