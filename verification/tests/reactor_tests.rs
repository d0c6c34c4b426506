use async_runtime::reactor::{Reactor, WAKER_TOKEN};
use std::cell::Cell;

fn ok_register(seen: &Cell<Option<usize>>) -> impl FnOnce(usize) -> Result<(), String> + '_ {
    move |t| {
        seen.set(Some(t));
        Ok(())
    }
}

#[test]
fn tokens_are_handed_out_from_zero() {
    let mut r: Reactor<&str> = Reactor::new();
    let seen = Cell::new(None);
    assert_eq!(r.register(ok_register(&seen), "a"), Ok(0));
    assert_eq!(seen.get(), Some(0));
    assert_eq!(r.register(ok_register(&seen), "b"), Ok(1));
    assert_eq!(r.register(ok_register(&seen), "c"), Ok(2));
    assert_eq!(r.len(), 3);
    assert_eq!(r.waker(1), Some(&"b"));
}

#[test]
fn deregistered_token_is_reused_first() {
    let mut r: Reactor<u8> = Reactor::new();
    let seen = Cell::new(None);
    for w in 0..4u8 {
        r.register(ok_register(&seen), w).unwrap();
    }
    assert_eq!(r.deregister(|| Ok::<(), String>(()), 1), Ok(()));
    assert!(!r.is_registered(1));
    assert_eq!(r.next_token(), 1);
    assert_eq!(r.register(ok_register(&seen), 40), Ok(1));
    assert_eq!(r.waker(1), Some(&40));
    assert_eq!(r.register(ok_register(&seen), 50), Ok(4));
}

#[test]
fn failed_registration_leaves_table_unchanged() {
    let mut r: Reactor<u8> = Reactor::new();
    let seen = Cell::new(None);
    r.register(ok_register(&seen), 7).unwrap();
    let res = r.register(|t| Err(format!("refused {}", t)), 8);
    assert_eq!(res, Err("refused 1".to_string()));
    assert_eq!(r.len(), 1);
    assert!(!r.is_registered(1));
    assert_eq!(r.next_token(), 1);
}

#[test]
fn failed_deregistration_keeps_the_waker() {
    let mut r: Reactor<u8> = Reactor::new();
    let seen = Cell::new(None);
    r.register(ok_register(&seen), 7).unwrap();
    let res = r.deregister(|| Err("busy"), 0);
    assert_eq!(res, Err("busy"));
    assert_eq!(r.waker(0), Some(&7));
}

#[test]
fn deregistering_unknown_token_is_harmless() {
    let mut r: Reactor<u8> = Reactor::new();
    assert_eq!(r.deregister(|| Ok::<(), ()>(()), 99), Ok(()));
    assert_eq!(r.len(), 0);
}

#[test]
fn events_wake_only_registered_tokens_in_order() {
    let mut r: Reactor<char> = Reactor::new();
    let seen = Cell::new(None);
    r.register(ok_register(&seen), 'x').unwrap();
    r.register(ok_register(&seen), 'y').unwrap();
    let events = vec![1, WAKER_TOKEN, 5, 0, 1];
    assert_eq!(r.tokens_to_wake(&events), vec![1, 0, 1]);
    assert_eq!(r.tokens_to_wake(&Vec::new()), Vec::<usize>::new());
}

#[test]
fn waker_token_never_wakes() {
    let r: Reactor<u8> = Reactor::new();
    assert_eq!(WAKER_TOKEN, usize::MAX);
    assert_eq!(r.tokens_to_wake(&vec![WAKER_TOKEN, WAKER_TOKEN]), Vec::<usize>::new());
    assert_eq!(r.waker(WAKER_TOKEN), None);
}

#[test]
fn empty_table_offers_token_zero() {
    let r: Reactor<u8> = Reactor::new();
    assert_eq!(r.next_token(), 0);
    assert!(r.waker(0).is_none());
}

#[test]
fn deregistered_token_no_longer_wakes() {
    let mut r: Reactor<u8> = Reactor::new();
    let seen = Cell::new(None);
    let t = r.register(ok_register(&seen), 3).unwrap();
    assert_eq!(r.tokens_to_wake(&vec![t]), vec![t]);
    r.deregister(|| Ok::<(), ()>(()), t).unwrap();
    assert_eq!(r.tokens_to_wake(&vec![t]), Vec::<usize>::new());
}

#[test]
fn renewal_replaces_the_waker_of_a_live_token() {
    let mut r: Reactor<&str> = Reactor::new();
    let seen = Cell::new(None);
    let t = r.register(ok_register(&seen), "first poll").unwrap();
    let asked = Cell::new(None);
    let res = r.reregister(
        |tok| -> Result<(), ()> {
            asked.set(Some(tok));
            Ok(())
        },
        t,
        "latest poll",
    );
    assert_eq!(res, Ok(()));
    assert_eq!(asked.get(), Some(t));
    assert_eq!(r.waker(t), Some(&"latest poll"));
    assert_eq!(r.tokens_to_wake(&vec![t]), vec![t]);
}

#[test]
fn failed_renewal_keeps_the_old_waker() {
    let mut r: Reactor<&str> = Reactor::new();
    let seen = Cell::new(None);
    let t = r.register(ok_register(&seen), "first").unwrap();
    assert_eq!(r.reregister(|_tok| Err("gone"), t, "second"), Err("gone"));
    assert_eq!(r.waker(t), Some(&"first"));
}

#[test]
fn renewal_of_unknown_token_adds_nothing() {
    let mut r: Reactor<&str> = Reactor::new();
    assert_eq!(r.reregister(|_tok| Ok::<(), ()>(()), 5, "w"), Ok(()));
    assert_eq!(r.len(), 0);
    assert!(!r.is_registered(5));
}

#[test]
fn register_then_deregister_restores_table_and_token() {
    let mut r: Reactor<u8> = Reactor::new();
    let seen = Cell::new(None);
    r.register(ok_register(&seen), 1).unwrap();
    r.register(ok_register(&seen), 2).unwrap();
    let t = r.register(ok_register(&seen), 3).unwrap();
    assert_eq!(t, 2);
    r.deregister(|| Ok::<(), ()>(()), t).unwrap();
    assert_eq!(r.len(), 2);
    assert_eq!(r.waker(0), Some(&1));
    assert_eq!(r.waker(1), Some(&2));
    assert!(r.waker(2).is_none());
    assert_eq!(r.tokens_to_wake(&vec![2]), Vec::<usize>::new());
    assert_eq!(r.register(ok_register(&seen), 4), Ok(2));
}
