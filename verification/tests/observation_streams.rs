//! The daemon's socket: requests, replies and streams of observations.

use lojix::error::Error;
use lojix::socket::{
    committed_reply, completed_single_reply, deployment_observation_token,
    request_closes_deployment_observation, Connection, DeploymentObservationStream,
    DeploymentObservationToken, ExchangeIdentifier, ExchangeIdentity, ExchangeLane, LaneSequence,
    LojixReply, NonEmpty, Operation, Reply, RequestRejectionReason, SessionEpoch, SocketAddress,
    SocketConfiguration, SocketRequest, SocketServer, StreamAction, StreamEvent, SubReply,
    DEFAULT_SOCKET_MODE, DEFAULT_SOCKET_PATH,
};

type Asked = Operation<&'static str, u8>;

fn watch() -> Asked {
    Operation::WatchDeployments("all")
}

fn unwatch(token: u64) -> Asked {
    Operation::UnwatchDeployments(DeploymentObservationToken(token))
}

fn stream() -> DeploymentObservationStream {
    let exchange = ExchangeIdentifier {
        session_epoch: SessionEpoch(4),
        lane: ExchangeLane::Connector,
        sequence: LaneSequence(9),
    };
    DeploymentObservationStream::new(exchange, DeploymentObservationToken(7))
}

#[test]
fn the_daemon_listens_for_its_owner_by_default() {
    assert_eq!(DEFAULT_SOCKET_PATH, "/run/lojix/daemon.sock");
    assert_eq!(DEFAULT_SOCKET_MODE, 0o600);
    let server = SocketServer::new(SocketAddress::new("/run/x.sock".to_string()));
    assert_eq!(server.address.path(), "/run/x.sock");
    assert_eq!(server.socket_mode, 0o600);
    assert_eq!(server.state_directory, None);
    assert_eq!(server.socket_group_identifier(None), Ok(None));
}

#[test]
fn a_configured_server_takes_what_it_is_told() {
    let server = SocketServer::from_configuration(SocketConfiguration {
        daemon_socket_path: "/run/x.sock".to_string(),
        daemon_socket_mode: 0o660,
        daemon_socket_group: Some("lojix".to_string()),
        state_directory: "/var/lib/lojix".to_string(),
        gc_root_directory: "/nix/var/nix/gcroots/lojix".to_string(),
    });
    assert_eq!(server.socket_mode, 0o660);
    assert_eq!(server.state_directory.as_deref(), Some("/var/lib/lojix"));
    assert_eq!(server.gc_root_directory.as_deref(), Some("/nix/var/nix/gcroots/lojix"));
    assert_eq!(server.socket_group_identifier(Some(30)), Ok(Some(30)));
    assert_eq!(
        server.socket_group_identifier(None),
        Err(Error::UnknownUnixGroup("lojix".to_string()))
    );
}

#[test]
fn a_connection_is_its_stream() {
    assert_eq!(Connection::new(5).into_inner(), 5);
}

#[test]
fn a_client_starts_with_the_first_exchange_of_its_lane() {
    let exchange = ExchangeIdentity::first_connector_exchange().value();
    assert_eq!(exchange.session_epoch, SessionEpoch(1));
    assert_eq!(exchange.lane, ExchangeLane::Connector);
    assert_eq!(exchange.sequence, LaneSequence::first());
}

#[test]
fn only_a_lone_watch_opens_a_stream() {
    assert_eq!(
        SocketRequest::from_channel_request(NonEmpty::single(watch())),
        SocketRequest::DeploymentObservationStream("all")
    );
    let two = NonEmpty { head: watch(), tail: vec![Operation::Other(1)] };
    match SocketRequest::from_channel_request(two) {
        SocketRequest::OneShot(operations) => {
            assert_eq!(operations.head, watch());
            assert_eq!(operations.tail, vec![Operation::Other(1)]);
        }
        other => panic!("two operations are answered once each, got {other:?}"),
    }
}

#[test]
fn only_a_lone_unwatch_of_the_same_subscription_closes_it() {
    let current = DeploymentObservationToken(7);
    assert_eq!(current.value(), 7);
    assert!(request_closes_deployment_observation(&NonEmpty::single(unwatch(7)), &current));
    assert!(!request_closes_deployment_observation(&NonEmpty::single(unwatch(8)), &current));
    assert!(!request_closes_deployment_observation(&NonEmpty::single(watch()), &current));
    let two = NonEmpty { head: unwatch(7), tail: vec![watch()] };
    assert!(!request_closes_deployment_observation(&two, &current));
}

#[test]
fn replies_keep_the_order_of_their_operations() {
    assert_eq!(
        completed_single_reply(3),
        Reply::Committed(NonEmpty::single(SubReply::Done(3)))
    );
    assert_eq!(
        committed_reply(vec![1, 2, 3]),
        Ok(Reply::Committed(NonEmpty {
            head: SubReply::Done(1),
            tail: vec![SubReply::Done(2), SubReply::Done(3)],
        }))
    );
    assert_eq!(committed_reply::<u8>(Vec::new()), Err(Error::ExpectedSingleReplyPayload));
    let opened: LojixReply<u8> =
        LojixReply::DeploymentObservationSubscriptionOpened(DeploymentObservationToken(2));
    assert_eq!(deployment_observation_token(&opened), Some(DeploymentObservationToken(2)));
    assert_eq!(deployment_observation_token(&LojixReply::Other(1)), None);
}

#[test]
fn events_are_numbered_in_the_lane_of_the_daemon() {
    let mut stream = stream();
    for number in 1..4 {
        match stream.decide::<u8, &str, u8>(StreamEvent::Observed(5)) {
            StreamAction::WriteEvent { identifier, token, observation } => {
                assert_eq!(identifier.session_epoch, SessionEpoch(4));
                assert_eq!(identifier.lane, ExchangeLane::Acceptor);
                assert_eq!(identifier.sequence, LaneSequence(number));
                assert_eq!(token, DeploymentObservationToken(7));
                assert_eq!(observation, 5);
            }
            other => panic!("observations are written, got {other:?}"),
        }
    }
    assert_eq!(stream.next_event_identifier().sequence, LaneSequence(4));
}

#[test]
fn a_stream_closes_its_subscription_before_it_ends() {
    let mut stream = stream();
    let token = DeploymentObservationToken(7);
    let mut decide = |event: StreamEvent<u8, &'static str, u8>| stream.decide(event);
    assert_eq!(decide(StreamEvent::ObservationsEnded), StreamAction::CloseAndEnd(token));
    assert_eq!(decide(StreamEvent::PeerLeft), StreamAction::CloseQuietly(token));
    assert_eq!(
        decide(StreamEvent::WriteFailed(Error::Shutdown)),
        StreamAction::CloseAndFail(token, Error::Shutdown)
    );
    assert_eq!(
        decide(StreamEvent::ReadFailed(Error::FrameTruncated)),
        StreamAction::CloseAndFail(token, Error::FrameTruncated)
    );
    assert_eq!(decide(StreamEvent::OtherFrame), StreamAction::Fail(Error::ExpectedRequestFrame));
}

#[test]
fn a_stream_answers_requests_and_rejects_a_second_watch() {
    let mut stream = stream();
    let exchange = ExchangeIdentity::first_connector_exchange().value();
    assert_eq!(
        stream.decide::<u8, &str, u8>(StreamEvent::Asked(exchange, NonEmpty::single(watch()))),
        StreamAction::Reject(exchange, RequestRejectionReason::Internal)
    );
    match stream.decide::<u8, &str, u8>(StreamEvent::Asked(exchange, NonEmpty::single(unwatch(7)))) {
        StreamAction::Answer { ends, .. } => assert!(ends),
        other => panic!("an unwatch is answered, got {other:?}"),
    }
    let other = NonEmpty::single(Operation::Other(1));
    match stream.decide::<u8, &str, u8>(StreamEvent::Asked(exchange, other)) {
        StreamAction::Answer { ends, .. } => assert!(!ends),
        other => panic!("a request is answered, got {other:?}"),
    }
    assert_eq!(stream.next_event_sequence, LaneSequence(1));
}
