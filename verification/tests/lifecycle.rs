use arboard::lifecycle::{on_event, CallAction, Ownership, OwnershipEvent};
use arboard::WaitConfig;

#[test]
fn a_write_that_waits_serves_until_the_selection_is_taken() {
    let wait = WaitConfig::Forever;
    let (state, action) = on_event(Ownership::Idle, wait, OwnershipEvent::Installed);
    assert_eq!((state, action), (Ownership::Offering, CallAction::Serve));
    let (state, action) = on_event(state, wait, OwnershipEvent::Released);
    assert_eq!((state, action), (Ownership::Offering, CallAction::Serve));
    let (state, action) = on_event(state, wait, OwnershipEvent::Taken);
    assert_eq!((state, action), (Ownership::Superseded, CallAction::Return));
    let (state, action) = on_event(state, wait, OwnershipEvent::Released);
    assert_eq!((state, action), (Ownership::Idle, CallAction::Return));
    let (state, action) = on_event(state, wait, OwnershipEvent::Taken);
    assert_eq!((state, action), (Ownership::Idle, CallAction::Return));
}

#[test]
fn a_write_that_does_not_wait_returns_while_it_still_offers() {
    let wait = WaitConfig::Immediate;
    let (state, action) = on_event(Ownership::Idle, wait, OwnershipEvent::Installed);
    assert_eq!((state, action), (Ownership::Offering, CallAction::Return));
    let (state, action) = on_event(state, wait, OwnershipEvent::Taken);
    assert_eq!((state, action), (Ownership::Superseded, CallAction::Return));
}

#[test]
fn a_write_installs_its_content_whatever_was_there() {
    for state in [Ownership::Idle, Ownership::Offering, Ownership::Superseded] {
        assert_eq!(
            on_event(state, WaitConfig::Forever, OwnershipEvent::Installed),
            (Ownership::Offering, CallAction::Serve)
        );
    }
    assert_eq!(
        on_event(Ownership::Superseded, WaitConfig::Immediate, OwnershipEvent::Taken).0,
        Ownership::Superseded
    );
    assert_eq!(
        on_event(Ownership::Idle, WaitConfig::Immediate, OwnershipEvent::Released).0,
        Ownership::Idle
    );
}
