use mac_usb::descriptors::EndpointDescriptor;
use mac_usb::endpoint::{MacEndpoint, PipeCall};
use mac_usb::error::iokit_error;
use mac_usb::interface::MacInterface;
use mac_usb::ret::{kIOReturnBadArgument, kIOReturnNoDevice, kIOReturnSuccess};
use mac_usb::step::Next;
use mac_usb::transfer::{Buffer, Direction, Transfer, TransferError};

fn endpoint(address: u8) -> MacEndpoint<&'static str> {
    let descriptor = EndpointDescriptor { address, max_packet_size: 64 };
    MacInterface::new(1, 0).endpoint(descriptor, Some(9)).unwrap()
}

fn buffer(memory: &'static str) -> Buffer<&'static str> {
    Buffer { memory, len: 10, requested_len: 20 }
}

fn submit(endpoint: &mut MacEndpoint<&'static str>, memory: &'static str, fresh: u64) -> u64 {
    let transfer = endpoint.make_transfer(buffer(memory), fresh);
    let id = transfer.id;
    endpoint.submit(transfer, kIOReturnSuccess);
    id
}

#[test]
fn directions_come_from_the_address() {
    assert_eq!(Direction::from_address(0x81), Direction::In);
    assert_eq!(Direction::from_address(0x01), Direction::Out);
    assert_eq!(Direction::from_address(0x7f), Direction::Out);
}

#[test]
fn out_transfers_write_and_in_transfers_read() {
    let mut out = endpoint(0x02);
    let transfer = out.make_transfer(buffer("a"), 1);
    assert_eq!(transfer.requested_len, 10);
    assert_eq!(out.pipe_call(&transfer), PipeCall::Write { pipe_ref: 9, len: 10 });

    let mut input = endpoint(0x82);
    let transfer = input.make_transfer(buffer("a"), 1);
    assert_eq!(transfer.requested_len, 20);
    assert_eq!(input.pipe_call(&transfer), PipeCall::Read { pipe_ref: 9, len: 20 });
}

#[test]
fn buffers_return_in_the_order_of_submission() {
    let mut endpoint = endpoint(0x82);
    assert_eq!(submit(&mut endpoint, "a", 1), 1);
    assert_eq!(submit(&mut endpoint, "b", 2), 2);
    assert_eq!(submit(&mut endpoint, "c", 3), 3);
    assert_eq!(endpoint.pending(), 3);
    assert!(endpoint.needs_cancel());

    assert!(endpoint.complete_transfer(3, kIOReturnSuccess, 5));
    assert!(endpoint.poll_next_complete().is_none());
    assert!(endpoint.complete_transfer(1, kIOReturnSuccess, 7));
    let first = endpoint.poll_next_complete().unwrap();
    assert_eq!(first.buffer, Buffer { memory: "a", len: 7, requested_len: 20 });
    assert_eq!((first.actual_len, first.status), (7, kIOReturnSuccess));
    assert!(endpoint.poll_next_complete().is_none());
    assert_eq!(endpoint.pending(), 2);

    assert!(endpoint.complete_transfer(2, kIOReturnNoDevice, 0));
    assert_eq!(endpoint.poll_next_complete().unwrap().status, kIOReturnNoDevice);
    assert_eq!(endpoint.poll_next_complete().unwrap().buffer.memory, "c");
    assert!(endpoint.poll_next_complete().is_none());
    assert_eq!(endpoint.pending(), 0);
    assert!(!endpoint.needs_cancel());
}

#[test]
fn out_buffers_return_as_long_as_they_were() {
    let mut endpoint = endpoint(0x02);
    submit(&mut endpoint, "a", 1);
    endpoint.complete_transfer(1, kIOReturnSuccess, 4);
    let completion = endpoint.poll_next_complete().unwrap();
    assert_eq!(completion.buffer, Buffer { memory: "a", len: 10, requested_len: 10 });
    assert_eq!(completion.actual_len, 4);
}

#[test]
fn transfers_are_used_again() {
    let mut endpoint = endpoint(0x82);
    submit(&mut endpoint, "a", 1);
    endpoint.complete_transfer(1, kIOReturnSuccess, 4);
    endpoint.poll_next_complete().unwrap();
    assert_eq!(endpoint.idle_transfer, Some(1));
    assert_eq!(submit(&mut endpoint, "b", 2), 1);
    assert_eq!(submit(&mut endpoint, "c", 2), 2);
    assert_eq!(endpoint.pending[0].actual_len, 0);
    assert!(!endpoint.pending[0].complete);
}

#[test]
fn a_transfer_ends_once() {
    let mut endpoint = endpoint(0x82);
    submit(&mut endpoint, "a", 1);
    assert!(!endpoint.complete_transfer(2, kIOReturnSuccess, 4));
    assert!(endpoint.complete_transfer(1, kIOReturnSuccess, 4));
    assert!(!endpoint.complete_transfer(1, kIOReturnNoDevice, 5));
    assert_eq!(endpoint.poll_next_complete().unwrap().actual_len, 4);
}

#[test]
fn a_refused_transfer_returns_in_its_turn() {
    let mut endpoint = endpoint(0x82);
    submit(&mut endpoint, "a", 1);
    let refused = endpoint.make_transfer(buffer("b"), 2);
    endpoint.submit(refused, kIOReturnNoDevice);
    assert_eq!(endpoint.pending(), 2);
    assert!(endpoint.poll_next_complete().is_none());
    endpoint.complete_transfer(1, kIOReturnSuccess, 1);
    assert_eq!(endpoint.poll_next_complete().unwrap().buffer.memory, "a");
    let refused = endpoint.poll_next_complete().unwrap();
    assert_eq!(refused.buffer, Buffer { memory: "b", len: 0, requested_len: 20 });
    assert_eq!((refused.actual_len, refused.status), (0, kIOReturnNoDevice));
}

#[test]
fn a_buffer_that_does_not_fit_is_over_at_once() {
    let mut endpoint = endpoint(0x82);
    endpoint.submit_err(buffer("a"), 1, TransferError::InvalidArgument);
    assert_eq!(endpoint.pending(), 1);
    let completion = endpoint.poll_next_complete().unwrap();
    assert_eq!(completion.status, kIOReturnBadArgument);
    assert_eq!(completion.buffer.memory, "a");
}

#[test]
fn waiting_ends_with_a_transfer_or_the_time() {
    let mut endpoint = endpoint(0x82);
    submit(&mut endpoint, "a", 1);
    assert!(matches!(endpoint.wait_next_complete(false), Next::Ask(())));
    assert!(matches!(endpoint.wait_next_complete(true), Next::Done(None)));
    endpoint.complete_transfer(1, kIOReturnSuccess, 1);
    match endpoint.wait_next_complete(true) {
        Next::Done(Some(completion)) => assert_eq!(completion.buffer.memory, "a"),
        _ => panic!("the transfer is over"),
    }
    assert_eq!(endpoint.pending(), 0);
}

#[test]
fn halts_and_cancels_name_the_pipe() {
    let endpoint = endpoint(0x82);
    assert_eq!(endpoint.cancel_all(), 9);
    assert_eq!(endpoint.clear_halt_pipe(), 9);
    assert_eq!(endpoint.clear_halt(Ok(())), Ok(()));
    assert_eq!(
        endpoint.clear_halt(Err(3)),
        Err(iokit_error(3, "failed to clear halt on endpoint"))
    );
}

#[test]
fn a_transfer_gives_its_buffer_back() {
    let transfer = Transfer::new(5, buffer("a"), Direction::In);
    assert_eq!((transfer.id, transfer.requested_len, transfer.complete), (5, 20, false));
    let completion = transfer.take_completion(Direction::In);
    assert_eq!(completion.buffer, Buffer { memory: "a", len: 0, requested_len: 20 });
}
