use eyetrackvr_server::app::{inactive_broadcast, CHANNEL_CAPACITY};
use eyetrackvr_server::openxr_output::{BridgePoll, OpenXROutputBridge, TryRecv};

fn channel() -> (async_broadcast::Sender<u32>, async_broadcast::InactiveReceiver<u32>) {
    inactive_broadcast::<u32>()
}

#[test]
fn channel_holds_one_element_and_overflows() {
    let (sender, receiver) = inactive_broadcast::<u8>();
    assert_eq!(CHANNEL_CAPACITY, 1);
    assert_eq!(sender.capacity(), 1);
    assert!(sender.overflow());
    assert_eq!(sender.receiver_count(), 0);
    assert_eq!(sender.inactive_receiver_count(), 1);
    // Nobody reads yet: a send is refused rather than kept.
    assert!(matches!(sender.try_broadcast(1), Err(async_broadcast::TrySendError::Inactive(1))));
    let mut active = receiver.activate_cloned();
    assert_eq!(sender.try_broadcast(2), Ok(None));
    // A second send replaces the first, and says so.
    assert_eq!(sender.try_broadcast(3), Ok(Some(2)));
    assert_eq!(active.try_recv(), Err(async_broadcast::TryRecvError::Overflowed(1)));
    assert_eq!(active.try_recv(), Ok(3));
    assert_eq!(active.try_recv(), Err(async_broadcast::TryRecvError::Empty));
}

#[test]
fn bridge_without_data_has_no_state() {
    let (_sender, receiver) = channel();
    let mut bridge = OpenXROutputBridge::new(&receiver);
    assert_eq!(bridge.get_eyes_state(), None);
    assert_eq!(bridge.get_eyes_state(), None);
}

#[test]
fn bridge_answers_with_the_newest_value() {
    let (sender, receiver) = channel();
    let mut bridge = OpenXROutputBridge::new(&receiver);
    sender.try_broadcast(1).unwrap();
    assert_eq!(bridge.get_eyes_state(), Some(1));
    // Nothing new: the last value seen is the answer.
    assert_eq!(bridge.get_eyes_state(), Some(1));
    // Three values arrive before the next query: only the newest is there.
    sender.try_broadcast(2).unwrap();
    sender.try_broadcast(3).unwrap();
    sender.try_broadcast(4).unwrap();
    assert_eq!(bridge.get_eyes_state(), Some(4));
    assert_eq!(bridge.get_eyes_state(), Some(4));
}

#[test]
fn bridge_keeps_its_state_when_the_channel_closes() {
    let (sender, receiver) = channel();
    let mut bridge = OpenXROutputBridge::new(&receiver);
    sender.try_broadcast(9).unwrap();
    assert_eq!(bridge.get_eyes_state(), Some(9));
    sender.close();
    assert_eq!(bridge.get_eyes_state(), Some(9));
}

#[test]
fn bridge_takes_in_what_the_receiver_gave() {
    let (_sender, receiver) = channel();
    let mut bridge = OpenXROutputBridge::new(&receiver);
    assert!(matches!(bridge.absorb(TryRecv::Empty), BridgePoll::Answer(None)));
    assert!(matches!(bridge.absorb(TryRecv::Overflowed(3)), BridgePoll::Again));
    assert!(matches!(bridge.absorb(TryRecv::Value(5)), BridgePoll::Answer(Some(5))));
    assert!(matches!(bridge.absorb(TryRecv::Overflowed(1)), BridgePoll::Again));
    assert!(matches!(bridge.absorb(TryRecv::Empty), BridgePoll::Answer(Some(5))));
    assert!(matches!(bridge.absorb(TryRecv::Closed), BridgePoll::Answer(Some(5))));
}
