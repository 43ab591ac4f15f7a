use socks_lib::error::SocksError;
use socks_lib::relay::Direction;
use socks_lib::relay::Ending;
use socks_lib::relay::Relay;
use socks_lib::relay::RelayStep;

#[test]
fn new_relay_has_both_directions_running() {
    let relay = Relay::new();
    assert_eq!(relay, Relay { upstream: None, downstream: None, first_failure: None });
    assert!(!relay.is_complete());
    assert_eq!(relay.outcome(), None);
}

#[test]
fn relay_waits_for_the_second_direction() {
    let mut relay = Relay::new();
    assert_eq!(relay.finish(Direction::Upstream, Ending::EndOfStream), RelayStep::Shutdown);
    assert!(!relay.is_complete());
    assert_eq!(relay.downstream, None);
    assert_eq!(
        relay.finish(Direction::Downstream, Ending::EndOfStream),
        RelayStep::Complete(None)
    );
    assert!(relay.is_complete());
    assert_eq!(relay.outcome(), None);
}

#[test]
fn relay_completes_in_either_order() {
    let mut relay = Relay::new();
    assert_eq!(relay.finish(Direction::Downstream, Ending::EndOfStream), RelayStep::Shutdown);
    assert_eq!(relay.upstream, None);
    assert_eq!(relay.finish(Direction::Upstream, Ending::EndOfStream), RelayStep::Complete(None));
}

#[test]
fn failure_of_one_direction_leaves_the_other_running() {
    let mut relay = Relay::new();
    assert_eq!(relay.finish(Direction::Upstream, Ending::Failure), RelayStep::Shutdown);
    assert_eq!(relay.downstream, None);
    assert!(!relay.is_complete());
    assert_eq!(relay.first_failure, Some(Direction::Upstream));
    assert_eq!(relay.outcome(), Some(SocksError::RelayIOError));
    assert_eq!(
        relay.finish(Direction::Downstream, Ending::EndOfStream),
        RelayStep::Complete(Some(SocksError::RelayIOError))
    );
    assert_eq!(relay.downstream, Some(Ending::EndOfStream));
}

#[test]
fn relay_result_reflects_the_first_failure() {
    let mut relay = Relay::new();
    assert_eq!(relay.finish(Direction::Downstream, Ending::Failure), RelayStep::Shutdown);
    assert_eq!(
        relay.finish(Direction::Upstream, Ending::Failure),
        RelayStep::Complete(Some(SocksError::RelayIOError))
    );
    assert_eq!(relay.first_failure, Some(Direction::Downstream));
}

#[test]
fn late_failure_is_still_a_failure() {
    let mut relay = Relay::new();
    assert_eq!(relay.finish(Direction::Upstream, Ending::EndOfStream), RelayStep::Shutdown);
    assert_eq!(
        relay.finish(Direction::Downstream, Ending::Failure),
        RelayStep::Complete(Some(SocksError::RelayIOError))
    );
    assert_eq!(relay.first_failure, Some(Direction::Downstream));
}

#[test]
fn second_report_of_a_direction_is_ignored() {
    let mut relay = Relay::new();
    assert_eq!(relay.finish(Direction::Upstream, Ending::EndOfStream), RelayStep::Shutdown);
    let before = relay;
    assert_eq!(relay.finish(Direction::Upstream, Ending::Failure), RelayStep::Ignored);
    assert_eq!(relay, before);
    assert_eq!(relay.outcome(), None);
    assert_eq!(relay.finish(Direction::Downstream, Ending::EndOfStream), RelayStep::Complete(None));
    let done = relay;
    assert_eq!(relay.finish(Direction::Downstream, Ending::Failure), RelayStep::Ignored);
    assert_eq!(relay, done);
}
