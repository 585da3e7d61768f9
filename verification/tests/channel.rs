use serialgui_rs::channel::Channel;
use serialgui_rs::communicationtrait::CommunicationEvent;

#[test]
fn events_are_delivered_in_send_order() {
    let mut ch: Channel<CommunicationEvent> = Channel::new();
    assert!(ch.push(CommunicationEvent::DataReceived(vec![0xB1])));
    assert!(ch.push(CommunicationEvent::DataReceived(vec![0xB2])));
    match ch.try_recv() {
        Some(CommunicationEvent::DataReceived(d)) => assert_eq!(d, vec![0xB1]),
        _ => panic!("the first chunk sent must be the first observed"),
    }
    match ch.try_recv() {
        Some(CommunicationEvent::DataReceived(d)) => assert_eq!(d, vec![0xB2]),
        _ => panic!("the second chunk sent must be the second observed"),
    }
    assert!(ch.try_recv().is_none());
}

#[test]
fn drain_returns_everything_oldest_first() {
    let mut ch: Channel<Vec<u8>> = Channel::new();
    ch.push(vec![1]);
    ch.push(vec![2]);
    ch.push(vec![3]);
    let all = ch.drain();
    assert_eq!(all, vec![vec![1], vec![2], vec![3]]);
    assert_eq!(ch.len(), 0);
    assert!(ch.try_recv().is_none());
}

#[test]
fn try_recv_on_empty_is_none() {
    let mut ch: Channel<u8> = Channel::new();
    assert!(ch.try_recv().is_none());
    assert_eq!(ch.len(), 0);
}

#[test]
fn push_after_close_is_undelivered() {
    let mut ch: Channel<u8> = Channel::new();
    assert!(ch.is_receiver_live());
    assert!(ch.push(1));
    ch.close();
    assert!(!ch.is_receiver_live());
    assert!(!ch.push(2));
    // what was queued before the close is still there
    assert_eq!(ch.try_recv(), Some(1));
    assert!(ch.try_recv().is_none());
}
