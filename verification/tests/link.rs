use volume_bridge::{
    ConnectionState, InitializationError, Link, LinkCreationError, NoVirtualTarget,
    SetParameterError, Strip, TargetHandle, TopologyFingerprint, WaitStep,
};

const BANANA: TopologyFingerprint = TopologyFingerprint { code: 2 };
const POTATO: TopologyFingerprint = TopologyFingerprint { code: 3 };

fn fresh() -> Link {
    Link::new(Ok(())).expect("the login succeeded")
}

/// Lists the channels of `flags` from position zero and resolves the target.
fn resolve(
    link: &mut Link,
    topology: TopologyFingerprint,
    flags: &[bool],
) -> Result<TargetHandle, NoVirtualTarget> {
    link.begin_listing();
    for (position, is_virtual) in flags.iter().enumerate() {
        assert_eq!(link.listed(), position);
        assert_eq!(link.list_channel(*is_virtual), position + 1);
    }
    link.resolve_first_virtual_target(topology)
}

#[test]
fn a_new_link_is_disconnected_and_knows_nothing() {
    let link = fresh();
    assert!(!link.is_currently_connected());
    assert_eq!(link.connection(), ConnectionState::Disconnected);
    assert_eq!(link.target(), None);
    assert!(link.strips().is_empty());
    assert!(link.virtual_inputs().is_empty());
}

#[test]
fn a_failed_login_gives_its_error() {
    for cause in [
        InitializationError::LoadError,
        InitializationError::LoginError,
        InitializationError::AlreadyLoggedOut,
        InitializationError::InformationError,
        InitializationError::Unknown,
    ] {
        match Link::new(Err(cause)) {
            Err(error) => assert_eq!(error, LinkCreationError::RemoteInit(cause)),
            Ok(_) => panic!("a failed login made a link"),
        }
    }
}

#[test]
fn a_probe_that_succeeds_connects() {
    let mut link = fresh();
    assert_eq!(link.wait_for_connection(true), WaitStep::Ready { reconnected: false });
    assert!(link.is_currently_connected());
    assert_eq!(link.connection(), ConnectionState::Connected);
}

#[test]
fn a_wait_announces_itself_once() {
    let mut link = fresh();
    assert_eq!(link.wait_for_connection(false), WaitStep::Retry { announce: true });
    assert!(!link.is_currently_connected());
    assert_eq!(link.wait_for_connection(false), WaitStep::Retry { announce: false });
    assert_eq!(link.wait_for_connection(false), WaitStep::Retry { announce: false });
    assert_eq!(link.wait_for_connection(true), WaitStep::Ready { reconnected: true });
    assert!(link.is_currently_connected());
    assert_eq!(link.wait_for_connection(true), WaitStep::Ready { reconnected: false });
    assert_eq!(link.wait_for_connection(false), WaitStep::Retry { announce: true });
}

#[test]
fn strips_carry_their_positions() {
    let mut link = fresh();
    assert!(resolve(&mut link, BANANA, &[false, false, false, true, true]).is_ok());
    assert_eq!(
        link.strips(),
        vec![
            Strip { index: 0, is_virtual: false },
            Strip { index: 1, is_virtual: false },
            Strip { index: 2, is_virtual: false },
            Strip { index: 3, is_virtual: true },
            Strip { index: 4, is_virtual: true },
        ]
    );
    assert_eq!(
        link.virtual_inputs(),
        vec![Strip { index: 3, is_virtual: true }, Strip { index: 4, is_virtual: true }]
    );
}

#[test]
fn the_first_virtual_input_is_the_target() {
    let mut link = fresh();
    let resolved = resolve(&mut link, POTATO, &[false, true, false, true]);
    assert_eq!(resolved, Ok(TargetHandle { index: 1, topology: POTATO }));
    assert_eq!(link.target(), Some(TargetHandle { index: 1, topology: POTATO }));
    assert_eq!(link.virtual_inputs()[0].index, 1);

    let resolved = resolve(&mut link, BANANA, &[true]);
    assert_eq!(resolved, Ok(TargetHandle { index: 0, topology: BANANA }));
}

#[test]
fn a_listing_without_virtual_input_has_no_target() {
    let mut link = fresh();
    assert_eq!(resolve(&mut link, BANANA, &[false, false]), Err(NoVirtualTarget));
    assert_eq!(link.target(), None);
    assert_eq!(link.strips().len(), 2);
    assert!(link.virtual_inputs().is_empty());
    assert_eq!(resolve(&mut link, BANANA, &[]), Err(NoVirtualTarget));
    assert!(link.strips().is_empty());
}

#[test]
fn a_failed_resolution_forgets_the_old_target() {
    let mut link = fresh();
    assert!(resolve(&mut link, BANANA, &[false, true]).is_ok());
    assert_eq!(resolve(&mut link, POTATO, &[false]), Err(NoVirtualTarget));
    assert_eq!(link.target(), None);
}

#[test]
fn the_target_is_kept_while_the_topology_stays() {
    let mut link = fresh();
    let target = resolve(&mut link, BANANA, &[false, true]).unwrap();
    for _ in 0..10 {
        assert_eq!(link.current_topology(BANANA), Some(target));
    }
    assert_eq!(link.target(), Some(target));
}

#[test]
fn a_changed_topology_forgets_the_target() {
    let mut link = fresh();
    assert!(resolve(&mut link, BANANA, &[false, true]).is_ok());
    assert_eq!(link.current_topology(POTATO), None);
    assert_eq!(link.target(), None);
    assert_eq!(link.current_topology(BANANA), None);
    assert_eq!(link.strips().len(), 2);
}

#[test]
fn an_unresolved_link_has_no_valid_target() {
    let mut link = fresh();
    assert_eq!(link.current_topology(BANANA), None);
}

#[test]
fn a_refused_write_disconnects() {
    let mut link = fresh();
    link.wait_for_connection(true);
    let target = resolve(&mut link, BANANA, &[true]).unwrap();
    assert!(link.set(Ok(())));
    assert!(link.is_currently_connected());
    assert!(!link.set(Err(SetParameterError)));
    assert!(!link.is_currently_connected());
    assert_eq!(link.target(), Some(target));
    assert_eq!(link.wait_for_connection(false), WaitStep::Retry { announce: true });
}

#[test]
fn a_new_listing_forgets_the_old_one() {
    let mut link = fresh();
    assert!(resolve(&mut link, BANANA, &[false, true, true]).is_ok());
    link.begin_listing();
    assert_eq!(link.listed(), 0);
    assert_eq!(link.target(), None);
    assert!(link.strips().is_empty());
    assert_eq!(link.list_channel(true), 1);
    assert_eq!(link.strips(), vec![Strip { index: 0, is_virtual: true }]);
    assert_eq!(link.target(), None);
    assert_eq!(
        link.resolve_first_virtual_target(POTATO),
        Ok(TargetHandle { index: 0, topology: POTATO })
    );
}
