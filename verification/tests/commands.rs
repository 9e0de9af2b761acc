use ebe_nuka::commands::{
    connect_peer, dial_answer, parse_answer, publish_answer, send_message, task_answer,
};
use ebe_nuka::state::SharedState;

#[test]
fn messages_start_empty_and_keep_their_order() {
    let mut state = SharedState::new();
    assert!(state.get_messages().is_empty());
    state.add_message("b".to_owned());
    state.add_message("a".to_owned());
    state.add_message("b".to_owned());
    assert_eq!(state.get_messages(), ["b", "a", "b"]);
    assert_eq!(state.get_messages(), ["b", "a", "b"]);
}

#[test]
fn published_message_is_kept() {
    let mut state = SharedState::new();
    assert_eq!(send_message(&mut state, "hello".to_owned(), Ok(())), Ok(()));
    assert_eq!(state.get_messages(), ["hello"]);
}

#[test]
fn unpublished_message_is_not_kept() {
    let mut state = SharedState::new();
    state.add_message("earlier".to_owned());
    let res = send_message(&mut state, "hello".to_owned(), Err("InsufficientPeers".to_owned()));
    assert_eq!(res, Err("Failed to publish message: InsufficientPeers".to_owned()));
    assert_eq!(state.get_messages(), ["earlier"]);
}

#[test]
fn address_to_connect_to() {
    let text = "/ip4/127.0.0.1/udp/9090/webrtc-direct";
    assert_eq!(connect_peer(text).unwrap().to_string(), text);
    assert_eq!(
        connect_peer("/ip4/127.0.0.1/ipfs/12D3KooWDpJ7As7BWAwRMfu1VU2WCqNjvq387JEYKDBj4kx6nXTN")
            .unwrap()
            .to_string(),
        "/ip4/127.0.0.1/p2p/12D3KooWDpJ7As7BWAwRMfu1VU2WCqNjvq387JEYKDBj4kx6nXTN"
    );
}

#[test]
fn text_that_is_no_address() {
    let refused = |text: &str| connect_peer(text).err().unwrap();
    assert_eq!(refused("127.0.0.1"), "Invalid multiaddr: invalid multiaddr");
    assert_eq!(refused("/udp"), "Invalid multiaddr: invalid protocol string");
    assert_eq!(refused("/nothing"), "Invalid multiaddr: unknown protocol string: nothing");
}

#[test]
fn answer_about_a_parsed_address() {
    let address: libp2p::Multiaddr = "/ip4/1.2.3.4".parse().unwrap();
    assert_eq!(parse_answer(Ok(address.clone())), Ok(address));
    assert_eq!(parse_answer(Err("x".to_owned())), Err("Invalid multiaddr: x".to_owned()));
}

#[test]
fn answer_about_a_dialled_peer() {
    assert_eq!(dial_answer(Ok(())), Ok(()));
    assert_eq!(
        dial_answer(Err("no addresses".to_owned())),
        Err("Failed to dial: no addresses".to_owned())
    );
}

#[test]
fn answer_of_a_task() {
    assert_eq!(task_answer(Ok(Ok(()))), Ok(()));
    assert_eq!(task_answer(Ok(Err("why".to_owned()))), Err("why".to_owned()));
    assert_eq!(
        task_answer(Err("cancelled".to_owned())),
        Err("Task join error: cancelled".to_owned())
    );
}

#[test]
fn answer_about_a_published_message() {
    assert_eq!(publish_answer(Ok(())), Ok(()));
    assert_eq!(
        publish_answer(Err("Duplicate".to_owned())),
        Err("Failed to publish message: Duplicate".to_owned())
    );
}
