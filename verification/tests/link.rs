use std::sync::mpsc::channel;
use tandem::communicator::{absorb, delivery, delivery_with_id};
use tandem::{Communicator, Communique, SendFailure};

fn pair() -> (Communicator<u32, String>, Communicator<String, u32>) {
    let (to_right, from_left) = channel::<Communique<String>>();
    let (to_left, from_right) = channel::<Communique<u32>>();
    (Communicator::new(from_right, to_right), Communicator::new(from_left, to_left))
}

#[test]
fn communique_with_id_keeps_both() {
    let c = Communique::new(7, "load");
    assert_eq!(c.id(), Some(7));
    assert_eq!(*c.open(), "load");
}

#[test]
fn communique_without_id_has_none() {
    let c = Communique::new_no_id(41u8);
    assert_eq!(c.id(), None);
    assert_eq!(*c.open(), 41);
}

#[test]
fn drain_returns_sends_in_order_then_nothing() {
    let (mut left, mut right) = pair();
    assert!(left.send_message("a".to_string()).is_ok());
    assert!(left.send_message_with_id(9, "b".to_string()).is_ok());
    assert_eq!(left.send_message_with_auto_id("c".to_string()).ok(), Some(0));
    assert!(left.send_message("d".to_string()).is_ok());

    let got = right.collect_messages();
    assert_eq!(got.len(), 4);
    assert_eq!((got[0].id(), got[0].open().as_str()), (None, "a"));
    assert_eq!((got[1].id(), got[1].open().as_str()), (Some(9), "b"));
    assert_eq!((got[2].id(), got[2].open().as_str()), (Some(0), "c"));
    assert_eq!((got[3].id(), got[3].open().as_str()), (None, "d"));

    assert!(right.collect_messages().is_empty());
}

#[test]
fn drain_takes_many_in_send_order() {
    let (mut left, mut right) = pair();
    for n in 0..500u32 {
        assert!(right.send_message(n).is_ok());
    }
    let got = left.collect_messages();
    assert_eq!(got.len(), 500);
    for (at, item) in got.iter().enumerate() {
        assert_eq!(*item.open(), at as u32);
        assert_eq!(item.id(), None);
    }
    assert!(left.collect_messages().is_empty());
}

#[test]
fn drain_with_nothing_sent_is_empty() {
    let (mut left, mut right) = pair();
    assert!(left.collect_messages().is_empty());
    assert!(right.collect_messages().is_empty());
    assert!(left.collect_messages().is_empty());
}

#[test]
fn drain_after_the_peer_is_gone_is_empty() {
    let (mut left, right) = pair();
    drop(right);
    assert!(left.collect_messages().is_empty());
}

#[test]
fn drain_still_yields_what_a_dropped_peer_had_sent() {
    let (mut left, mut right) = pair();
    assert!(right.send_message(3).is_ok());
    assert!(right.send_message(4).is_ok());
    drop(right);
    let got = left.collect_messages();
    assert_eq!(got.len(), 2);
    assert_eq!(*got[0].open(), 3);
    assert_eq!(*got[1].open(), 4);
    assert!(left.collect_messages().is_empty());
}

#[test]
fn the_two_directions_do_not_mix() {
    let (mut left, mut right) = pair();
    assert!(left.send_message("ping".to_string()).is_ok());
    assert!(left.collect_messages().is_empty());
    assert!(right.send_message(1).is_ok());
    let at_right = right.collect_messages();
    assert_eq!(at_right.len(), 1);
    assert_eq!(at_right[0].open().as_str(), "ping");
    let at_left = left.collect_messages();
    assert_eq!(at_left.len(), 1);
    assert_eq!(*at_left[0].open(), 1);
}

#[test]
fn auto_ids_count_up_whatever_else_is_sent() {
    let (mut left, mut right) = pair();
    assert_eq!(left.next_id(), 0);
    assert_eq!(left.send_message_with_auto_id("a".to_string()).ok(), Some(0));
    assert!(left.send_message_with_id(100, "b".to_string()).is_ok());
    assert!(left.send_message_with_id(1, "c".to_string()).is_ok());
    assert_eq!(left.send_message_with_auto_id("d".to_string()).ok(), Some(1));
    assert!(left.send_message("e".to_string()).is_ok());
    assert_eq!(left.send_message_with_auto_id("f".to_string()).ok(), Some(2));
    assert_eq!(left.next_id(), 3);

    let ids: Vec<Option<usize>> = right.collect_messages().iter().map(|c| c.id()).collect();
    assert_eq!(ids, vec![Some(0), Some(100), Some(1), Some(1), None, Some(2)]);
}

#[test]
fn auto_ids_are_local_to_each_endpoint() {
    let (mut left, mut right) = pair();
    assert_eq!(left.send_message_with_auto_id("a".to_string()).ok(), Some(0));
    assert_eq!(left.send_message_with_auto_id("b".to_string()).ok(), Some(1));
    assert_eq!(right.send_message_with_auto_id(5).ok(), Some(0));
    assert_eq!(right.next_id(), 1);
    assert_eq!(left.next_id(), 2);
}

#[test]
fn send_after_the_peer_is_gone_fails_every_time() {
    let (mut left, right) = pair();
    drop(right);
    for round in 0..3 {
        match left.send_message(format!("m{}", round)) {
            Ok(()) => panic!("a send to a dropped peer was accepted"),
            Err(failure) => {
                assert_eq!(failure.unsent.id(), None);
                assert_eq!(*failure.unsent.open(), format!("m{}", round));
            },
        }
    }
    match left.send_message_with_id(12, "tagged".to_string()) {
        Ok(()) => panic!("a send to a dropped peer was accepted"),
        Err(failure) => {
            assert_eq!(failure.unsent.id(), Some(12));
            assert_eq!(failure.unsent.open().as_str(), "tagged");
        },
    }
}

#[test]
fn a_failed_auto_id_send_still_spends_the_id() {
    let (mut left, right) = pair();
    assert_eq!(left.send_message_with_auto_id("a".to_string()).ok(), Some(0));
    drop(right);
    match left.send_message_with_auto_id("b".to_string()) {
        Ok(_) => panic!("a send to a dropped peer was accepted"),
        Err(failure) => {
            assert_eq!(failure.unsent.id(), Some(1));
            assert_eq!(failure.unsent.open().as_str(), "b");
        },
    }
    assert_eq!(left.next_id(), 2);
    assert!(left.send_message_with_auto_id("c".to_string()).is_err());
    assert_eq!(left.next_id(), 3);
}

#[test]
fn explicit_ids_leave_the_counter_alone() {
    let (mut left, _right) = pair();
    assert!(left.send_message_with_id(usize::MAX, "x".to_string()).is_ok());
    assert!(left.send_message("y".to_string()).is_ok());
    assert_eq!(left.next_id(), 0);
}

#[test]
fn delivery_passes_success_through() {
    assert!(delivery::<u8>(Ok(())).is_ok());
}

#[test]
fn delivery_wraps_the_refused_envelope() {
    match delivery(Err(Communique::new(4, 'x'))) {
        Ok(()) => panic!("a refusal was reported as success"),
        Err(failure) => {
            assert_eq!(failure.unsent.id(), Some(4));
            assert_eq!(*failure.unsent.open(), 'x');
        },
    }
}

#[test]
fn delivery_with_id_reports_the_id_on_success() {
    assert_eq!(delivery_with_id::<u8>(17, Ok(())).ok(), Some(17));
}

#[test]
fn delivery_with_id_keeps_the_failure() {
    let failure = SendFailure { unsent: Communique::new(17, 2u8) };
    match delivery_with_id(17, Err(failure)) {
        Ok(_) => panic!("a refusal was reported as success"),
        Err(failure) => {
            assert_eq!(failure.unsent.id(), Some(17));
            assert_eq!(*failure.unsent.open(), 2);
        },
    }
}

#[test]
fn absorb_puts_an_envelope_at_the_end_and_goes_on() {
    let mut gathered = vec![Communique::new(3, "first"), Communique::new_no_id("second")];
    assert!(absorb(&mut gathered, Some(Communique::new(1, "third"))));
    assert_eq!(gathered.len(), 3);
    assert_eq!((gathered[0].id(), *gathered[0].open()), (Some(3), "first"));
    assert_eq!((gathered[1].id(), *gathered[1].open()), (None, "second"));
    assert_eq!((gathered[2].id(), *gathered[2].open()), (Some(1), "third"));
    assert!(absorb(&mut gathered, Some(Communique::new_no_id("fourth"))));
    assert_eq!(gathered.len(), 4);
    assert_eq!((gathered[3].id(), *gathered[3].open()), (None, "fourth"));
}

#[test]
fn absorb_of_no_envelope_ends_the_drain_and_adds_nothing() {
    let mut gathered = vec![Communique::new(3, 'a')];
    assert!(!absorb(&mut gathered, None));
    assert_eq!(gathered.len(), 1);
    assert_eq!((gathered[0].id(), *gathered[0].open()), (Some(3), 'a'));

    let mut nothing: Vec<Communique<u8>> = Vec::new();
    assert!(!absorb(&mut nothing, None));
    assert!(nothing.is_empty());
}
