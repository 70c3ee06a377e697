use rkvm_input::channel::Handoff;
use rkvm_input::channel::HandoffItem;
use rkvm_input::channel::ReadOutcome;
use rkvm_input::channel::RecvOutcome;
use rkvm_input::channel::SendOutcome;
use rkvm_input::error::OsError;
use rkvm_input::monitor::DeviceHandle;

fn device(name: &[u8]) -> DeviceHandle {
    DeviceHandle {
        name: name.to_vec(),
    }
}

#[test]
fn single_slot_blocks_second_publication() {
    let mut h = Handoff::new();
    let first = HandoffItem::Device {
        device: device(b"event1"),
    };
    let second = HandoffItem::Device {
        device: device(b"event2"),
    };
    assert_eq!(h.try_send(first.clone()), SendOutcome::Accepted);
    // The slot is taken: the second publication is refused and handed back
    // untouched, until the consumer drains the first.
    assert_eq!(
        h.try_send(second.clone()),
        SendOutcome::Full {
            item: second.clone()
        }
    );
    assert_eq!(h.recv(), RecvOutcome::Item { item: first });
    assert_eq!(h.try_send(second.clone()), SendOutcome::Accepted);
    assert_eq!(h.recv(), RecvOutcome::Item { item: second });
}

#[test]
fn dropped_consumer_disconnects_producer() {
    let mut h = Handoff::new();
    h.close_consumer();
    let item = HandoffItem::Device {
        device: device(b"event5"),
    };
    assert_eq!(
        h.try_send(item.clone()),
        SendOutcome::Disconnected { item }
    );
}

#[test]
fn empty_and_ended_are_distinguished() {
    let mut h = Handoff::new();
    assert_eq!(h.recv(), RecvOutcome::Empty);
    assert_eq!(h.read(), ReadOutcome::NotYet);
    h.close_producer();
    assert_eq!(h.recv(), RecvOutcome::Ended);
    assert_eq!(h.read(), ReadOutcome::Exited);
}

#[test]
fn pending_item_survives_producer_death() {
    let mut h = Handoff::new();
    let error = OsError { code: 19 };
    assert_eq!(h.try_send(HandoffItem::Fault { error }), SendOutcome::Accepted);
    h.close_producer();
    assert_eq!(h.read(), ReadOutcome::Fault { error });
    assert_eq!(h.read(), ReadOutcome::Exited);
}
