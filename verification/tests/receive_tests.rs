use lurk::protocol::protocol_message::LurkMessageFrame;
use lurk::protocol::receive::{EventDistributor, EventReceiver, LurkEvent};

#[test]
fn test_handler_bind() {
    let frame = LurkMessageFrame::new(0xFF, vec![]);
    let event = LurkEvent { frame };
    let mut receiver: EventReceiver<fn(&LurkEvent)> = EventReceiver::new();
    receiver.bind_handler(|_event| {});
    receiver.distribute_event(&event);
}

#[test]
fn distribute_pops_a_queued_event() {
    let mut receiver: EventReceiver<fn(&LurkEvent)> = EventReceiver::new();
    receiver.bind_handler(|event| {
        assert_eq!(event.frame.message_type, 3);
    });
    let queued = LurkEvent { frame: LurkMessageFrame::new(3, vec![]) };
    receiver.push_event(queued.clone());
    receiver.distribute_event(&queued);
}
