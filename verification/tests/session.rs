//! The binder's lifecycle guarantees, exercised on concrete sessions.

use janus_plugin::session::AttachmentSlot;
use janus_plugin::session::SessionHandle;

#[test]
fn establish_then_retrieve_returns_same_state() {
    let mut slot: AttachmentSlot<u64> = AttachmentSlot::new();
    SessionHandle::establish(&mut slot, 7, 42);
    let handle = SessionHandle::from_ptr(&slot);
    assert_eq!(*handle.state(), 42);
    assert_eq!(handle.handle, 7);
    let again = SessionHandle::from_ptr(&slot);
    assert_eq!(*again.state(), 42);
    let freed = slot.teardown();
    assert_eq!(*freed.unwrap().state(), 42);
}

#[test]
fn borrows_keep_wrapper_alive() {
    let mut slot: AttachmentSlot<String> = AttachmentSlot::new();
    SessionHandle::establish(&mut slot, 1, String::from("live"));
    slot.acquire();
    slot.acquire();
    slot.acquire();
    assert!(slot.teardown().is_none());
    assert!(slot.release().is_none());
    assert!(slot.release().is_none());
    let last = slot.release();
    assert_eq!(*last.unwrap().state(), "live");
}

#[test]
fn destruction_runs_exactly_once_across_cycles() {
    let mut slot: AttachmentSlot<u64> = AttachmentSlot::new();
    SessionHandle::establish(&mut slot, 2, 11);
    let mut destructions: u32 = 0;
    for _ in 0..5 {
        slot.acquire();
        if slot.release().is_some() {
            destructions += 1;
        }
    }
    if slot.teardown().is_some() {
        destructions += 1;
    }
    assert_eq!(destructions, 1);
    assert!(!slot.is_attached());
}

#[test]
fn mutation_visible_to_later_retrieval() {
    let mut slot: AttachmentSlot<u64> = AttachmentSlot::new();
    SessionHandle::establish(&mut slot, 9, 5);
    let prev = slot.set_state(6);
    assert_eq!(prev, 5);
    assert_eq!(*SessionHandle::from_ptr(&slot).state(), 6);
    let freed = slot.teardown();
    assert_eq!(*freed.unwrap().state(), 6);
}

#[test]
fn three_callbacks_increment_counter() {
    let mut slot: AttachmentSlot<u64> = AttachmentSlot::new();
    SessionHandle::establish(&mut slot, 3, 0);
    let mut destructions: u32 = 0;
    for _ in 0..3 {
        slot.acquire();
    }
    for _ in 0..3 {
        let counter = *SessionHandle::from_ptr(&slot).state();
        slot.set_state(counter + 1);
        if slot.release().is_some() {
            destructions += 1;
        }
    }
    let final_state = slot.teardown();
    if final_state.is_some() {
        destructions += 1;
    }
    assert_eq!(destructions, 1);
    assert_eq!(*final_state.unwrap().state(), 3);
}

#[test]
fn retrieve_without_establish_is_guarded() {
    let slot: AttachmentSlot<u64> = AttachmentSlot::new();
    assert!(!slot.is_attached());
}
