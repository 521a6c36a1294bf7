//! The daemon's socket: which requests open a stream of observations, how replies
//! and events are numbered, and when a stream ends.

use crate::error::Error;
use vstd::prelude::*;

verus! {

/// Where the daemon listens unless it is told otherwise.
pub const DEFAULT_SOCKET_PATH: &'static str = "/run/lojix/daemon.sock";

/// Who may connect unless the daemon is told otherwise: its owner.
pub const DEFAULT_SOCKET_MODE: u32 = 384;

/// A socket's place in the file system.
#[derive(Debug, PartialEq, Eq)]
pub struct SocketAddress {
    pub path: String,
}

impl SocketAddress {
    /// The socket at `path`.
    pub fn new(path: String) -> (r: Self)
        ensures
            r.path == path,
    {
        SocketAddress { path }
    }

    /// The socket's path.
    pub fn path(&self) -> (r: &str)
        ensures
            r@ == self.path@,
    {
        self.path.as_str()
    }
}

/// One peer's stream of bytes.
#[derive(Debug, PartialEq, Eq)]
pub struct Connection<IoStream> {
    pub stream: IoStream,
}

impl<IoStream> Connection<IoStream> {
    /// A connection over `stream`.
    pub fn new(stream: IoStream) -> (r: Self)
        ensures
            r.stream == stream,
    {
        Connection { stream }
    }

    /// The connection's stream.
    pub fn into_inner(self) -> (r: IoStream)
        ensures
            r == self.stream,
    {
        self.stream
    }
}

/// What the daemon is told of its socket.
#[derive(Debug, PartialEq, Eq)]
pub struct SocketConfiguration {
    pub daemon_socket_path: String,
    pub daemon_socket_mode: u32,
    pub daemon_socket_group: Option<String>,
    pub state_directory: String,
    pub gc_root_directory: String,
}

/// How the daemon's socket is set up.
#[derive(Debug, PartialEq, Eq)]
pub struct SocketServer {
    pub address: SocketAddress,
    pub socket_mode: u32,
    pub socket_group: Option<String>,
    /// Made before the socket is bound.
    pub state_directory: Option<String>,
    /// Made before the socket is bound.
    pub gc_root_directory: Option<String>,
}

impl SocketServer {
    /// A server for its owner alone, without directories.
    pub fn new(address: SocketAddress) -> (r: Self)
        ensures
            r.address == address,
            r.socket_mode == DEFAULT_SOCKET_MODE,
            r.socket_group is None,
            r.state_directory is None,
            r.gc_root_directory is None,
    {
        SocketServer {
            address,
            socket_mode: DEFAULT_SOCKET_MODE,
            socket_group: None,
            state_directory: None,
            gc_root_directory: None,
        }
    }

    /// The server that `configuration` describes.
    pub fn from_configuration(configuration: SocketConfiguration) -> (r: Self)
        ensures
            r.address.path == configuration.daemon_socket_path,
            r.socket_mode == configuration.daemon_socket_mode,
            r.socket_group == configuration.daemon_socket_group,
            r.state_directory == Some(configuration.state_directory),
            r.gc_root_directory == Some(configuration.gc_root_directory),
    {
        SocketServer {
            address: SocketAddress::new(configuration.daemon_socket_path),
            socket_mode: configuration.daemon_socket_mode,
            socket_group: configuration.daemon_socket_group,
            state_directory: Some(configuration.state_directory),
            gc_root_directory: Some(configuration.gc_root_directory),
        }
    }

    /// The number of the group that the socket is given to, where there is one;
    /// `found` is what the system knows under the group's name.
    pub fn socket_group_identifier(&self, found: Option<u32>) -> (r: Result<Option<u32>, Error>)
        ensures
            match (self.socket_group, found) {
                (None, _) => r == Ok::<Option<u32>, Error>(None),
                (Some(_), Some(identifier)) => r == Ok::<Option<u32>, Error>(Some(identifier)),
                (Some(group), None) => r matches Err(Error::UnknownUnixGroup(name)) && name@
                    == group@,
            },
    {
        match &self.socket_group {
            None => Ok(None),
            Some(group) => match found {
                Some(identifier) => Ok(Some(identifier)),
                None => Err(Error::UnknownUnixGroup(group.clone())),
            },
        }
    }
}

// ---- exchanges --------------------------------------------------------------------------

/// The peer that numbers an exchange.
#[derive(Clone, Copy, Debug, PartialEq, Eq, Structural)]
pub enum ExchangeLane {
    /// The peer that connected.
    Connector,
    /// The peer that accepted.
    Acceptor,
}

/// A place in one lane.
#[derive(Clone, Copy, Debug, PartialEq, Eq, Structural)]
pub struct LaneSequence(pub u64);

impl LaneSequence {
    /// The first place. Lanes are numbered from one: that is this library's own
    /// choice, and peers have to share it.
    pub fn first() -> (r: Self)
        ensures
            r == LaneSequence(1),
    {
        LaneSequence(1)
    }

    /// The place behind this one.
    pub fn next(self) -> (r: Self)
        requires
            self.0 < u64::MAX,
        ensures
            r.0 == self.0 + 1,
    {
        LaneSequence(self.0 + 1)
    }
}

/// A session of two peers.
#[derive(Clone, Copy, Debug, PartialEq, Eq, Structural)]
pub struct SessionEpoch(pub u64);

/// One request and its reply.
#[derive(Clone, Copy, Debug, PartialEq, Eq, Structural)]
pub struct ExchangeIdentifier {
    pub session_epoch: SessionEpoch,
    pub lane: ExchangeLane,
    pub sequence: LaneSequence,
}

/// One event of a stream.
#[derive(Clone, Copy, Debug, PartialEq, Eq, Structural)]
pub struct StreamEventIdentifier {
    pub session_epoch: SessionEpoch,
    pub lane: ExchangeLane,
    pub sequence: LaneSequence,
}

/// The exchange that a client starts with.
#[derive(Clone, Copy, Debug, PartialEq, Eq, Structural)]
pub struct ExchangeIdentity {
    pub value: ExchangeIdentifier,
}

impl ExchangeIdentity {
    /// The first exchange of the peer that connected.
    pub fn first_connector_exchange() -> (r: Self)
        ensures
            r.value == (ExchangeIdentifier {
                session_epoch: SessionEpoch(1),
                lane: ExchangeLane::Connector,
                sequence: LaneSequence(1),
            }),
    {
        ExchangeIdentity {
            value: ExchangeIdentifier {
                session_epoch: SessionEpoch(1),
                lane: ExchangeLane::Connector,
                sequence: LaneSequence::first(),
            },
        }
    }

    /// The exchange.
    pub fn value(&self) -> (r: ExchangeIdentifier)
        ensures
            r == self.value,
    {
        self.value
    }
}

// ---- requests and replies -------------------------------------------------------------

/// A subscription to observations of deployments.
#[derive(Clone, Copy, Debug, PartialEq, Eq, Structural)]
pub struct DeploymentObservationToken(pub u64);

impl DeploymentObservationToken {
    /// The token's number.
    pub fn value(&self) -> (r: u64)
        ensures
            r == self.0,
    {
        self.0
    }
}

/// An operation as far as the socket tells operations apart.
#[derive(Debug, PartialEq, Eq)]
pub enum Operation<Watch, Request> {
    WatchDeployments(Watch),
    UnwatchDeployments(DeploymentObservationToken),
    Other(Request),
}

/// One value or more.
#[derive(Debug, PartialEq, Eq)]
pub struct NonEmpty<T> {
    pub head: T,
    pub tail: Vec<T>,
}

impl<T> NonEmpty<T> {
    /// The values, in order.
    pub open spec fn items(&self) -> Seq<T> {
        seq![self.head] + self.tail@
    }

    /// One value.
    pub fn single(head: T) -> (r: Self)
        ensures
            r.items() == seq![head],
    {
        let r = NonEmpty { head, tail: Vec::new() };
        assert(r.items() =~= seq![head]);
        r
    }

    /// The values of a list that holds any.
    pub fn try_from_vec(values: Vec<T>) -> (r: Option<Self>)
        ensures
            r is Some <==> values@.len() > 0,
            r matches Some(list) ==> list.items() == values@,
    {
        if values.len() == 0 {
            return None;
        }
        let mut tail = values;
        let head = tail.remove(0);
        let r = NonEmpty { head, tail };
        assert(r.items() =~= values@);
        Some(r)
    }
}

/// How one operation was answered.
#[derive(Debug, PartialEq, Eq)]
pub enum SubReply<Payload> {
    Done(Payload),
}

/// Why a whole request was rejected.
#[derive(Clone, Copy, Debug, PartialEq, Eq, Structural)]
pub enum RequestRejectionReason {
    Internal,
}

/// How a request was answered.
#[derive(Debug, PartialEq, Eq)]
pub enum Reply<Payload> {
    /// Each operation, in order.
    Committed(NonEmpty<SubReply<Payload>>),
    Rejected(RequestRejectionReason),
}

/// What the runtime answers, as far as the socket tells answers apart.
#[derive(Debug, PartialEq, Eq)]
pub enum LojixReply<Payload> {
    DeploymentObservationSubscriptionOpened(DeploymentObservationToken),
    Other(Payload),
}

/// The subscription that `reply` opened, where it opened one.
pub fn deployment_observation_token<Payload>(reply: &LojixReply<Payload>) -> (r: Option<
    DeploymentObservationToken,
>)
    ensures
        r == match *reply {
            LojixReply::DeploymentObservationSubscriptionOpened(token) => Some(token),
            LojixReply::Other(_) => None,
        },
{
    match reply {
        LojixReply::DeploymentObservationSubscriptionOpened(token) => Some(*token),
        LojixReply::Other(_) => None,
    }
}

/// The reply to a request of one operation.
pub fn completed_single_reply<Payload>(payload: Payload) -> (r: Reply<Payload>)
    ensures
        r matches Reply::Committed(replies) && replies.items() == seq![SubReply::Done(payload)],
{
    Reply::Committed(NonEmpty::single(SubReply::Done(payload)))
}

/// The answers to the operations of one request.
pub open spec fn answered<Payload>(payloads: Seq<Payload>) -> Seq<SubReply<Payload>> {
    Seq::new(payloads.len(), |i: int| SubReply::Done(payloads[i]))
}

/// The reply to a request whose operations were answered with `payloads`, in order.
pub fn committed_reply<Payload>(payloads: Vec<Payload>) -> (r: Result<Reply<Payload>, Error>)
    ensures
        match r {
            Ok(reply) => payloads@.len() > 0 && (reply matches Reply::Committed(replies)
                && replies.items() == answered(payloads@)),
            Err(error) => payloads@.len() == 0 && error == Error::ExpectedSingleReplyPayload,
        },
{
    let ghost all = payloads@;
    let size: usize = payloads.len();
    let mut waiting = payloads;
    let mut replies: Vec<SubReply<Payload>> = Vec::new();
    let mut i: usize = 0;
    while i < size
        invariant
            i <= size,
            size == all.len(),
            waiting@ =~= all.skip(i as int),
            replies@ =~= answered(all.take(i as int)),
        decreases size - i,
    {
        let payload = waiting.remove(0);
        assert(payload == all[i as int]);
        replies.push(SubReply::Done(payload));
        i = i + 1;
    }
    assert(all.take(i as int) =~= all);
    match NonEmpty::try_from_vec(replies) {
        Some(list) => Ok(Reply::Committed(list)),
        None => Err(Error::ExpectedSingleReplyPayload),
    }
}

/// What a request asks of its connection.
#[derive(Debug, PartialEq, Eq)]
pub enum SocketRequest<Watch, Request> {
    /// Each operation is answered once.
    OneShot(NonEmpty<Operation<Watch, Request>>),
    /// The connection carries observations from now on.
    DeploymentObservationStream(Watch),
}

impl<Watch, Request> SocketRequest<Watch, Request> {
    /// A request opens a stream exactly when watching is all that it asks for.
    pub fn from_channel_request(request: NonEmpty<Operation<Watch, Request>>) -> (r: Self)
        ensures
            match request.head {
                Operation::WatchDeployments(watch) if request.tail@.len() == 0 => r
                    == SocketRequest::<Watch, Request>::DeploymentObservationStream(watch),
                _ => r == SocketRequest::OneShot(request),
            },
    {
        if request.tail.len() == 0 {
            let NonEmpty { head, tail } = request;
            match head {
                Operation::WatchDeployments(watch) => {
                    SocketRequest::DeploymentObservationStream(watch)
                },
                other => SocketRequest::OneShot(NonEmpty { head: other, tail }),
            }
        } else {
            SocketRequest::OneShot(request)
        }
    }
}

/// A request that closes the subscription `current`: to unwatch it is all that it
/// asks for.
pub open spec fn closes<Watch, Request>(
    request: NonEmpty<Operation<Watch, Request>>,
    current: DeploymentObservationToken,
) -> bool {
    request.tail@.len() == 0 && request.head == Operation::<Watch, Request>::UnwatchDeployments(
        current,
    )
}

/// Whether a request closes the subscription `current`.
pub fn request_closes_deployment_observation<Watch, Request>(
    request: &NonEmpty<Operation<Watch, Request>>,
    current: &DeploymentObservationToken,
) -> (r: bool)
    ensures
        r == closes(*request, *current),
{
    if request.tail.len() > 0 {
        return false;
    }
    match &request.head {
        Operation::UnwatchDeployments(token) => *token == *current,
        _ => false,
    }
}

// ---- streams of observations --------------------------------------------------------

/// What happens on a connection that carries observations.
#[derive(Debug, PartialEq, Eq)]
pub enum StreamEvent<Observation, Watch, Request> {
    /// An observation was made.
    Observed(Observation),
    /// No more observations will be made.
    ObservationsEnded,
    /// An event could not be written.
    WriteFailed(Error),
    /// The peer left.
    PeerLeft,
    /// A frame could not be read.
    ReadFailed(Error),
    /// The peer asks for something else.
    Asked(ExchangeIdentifier, NonEmpty<Operation<Watch, Request>>),
    /// The peer sent a frame that asks for nothing.
    OtherFrame,
}

/// What is done about it.
#[derive(Debug, PartialEq, Eq)]
pub enum StreamAction<Observation, Watch, Request> {
    /// The observation is written, and the stream goes on.
    WriteEvent {
        identifier: StreamEventIdentifier,
        token: DeploymentObservationToken,
        observation: Observation,
    },
    /// The subscription is closed and the stream ends; a failure to close it is
    /// reported.
    CloseAndEnd(DeploymentObservationToken),
    /// The subscription is closed, whether or not that works, and the stream ends.
    CloseQuietly(DeploymentObservationToken),
    /// The subscription is closed, whether or not that works, and the failure is
    /// reported.
    CloseAndFail(DeploymentObservationToken, Error),
    /// The operations are answered; the stream ends where `ends` says so.
    Answer {
        exchange: ExchangeIdentifier,
        operations: NonEmpty<Operation<Watch, Request>>,
        ends: bool,
    },
    /// The request is rejected, and the stream goes on.
    Reject(ExchangeIdentifier, RequestRejectionReason),
    /// The failure is reported.
    Fail(Error),
}

/// A connection that carries observations of one subscription.
#[derive(Debug, PartialEq, Eq)]
pub struct DeploymentObservationStream {
    pub exchange: ExchangeIdentifier,
    pub token: DeploymentObservationToken,
    pub next_event_sequence: LaneSequence,
}

/// What is done about `event` on the stream of `token`; `identifier` numbers the next
/// event.
pub open spec fn stream_action<Observation, Watch, Request>(
    token: DeploymentObservationToken,
    identifier: StreamEventIdentifier,
    event: StreamEvent<Observation, Watch, Request>,
) -> StreamAction<Observation, Watch, Request> {
    match event {
        StreamEvent::Observed(observation) => StreamAction::WriteEvent {
            identifier,
            token,
            observation,
        },
        StreamEvent::ObservationsEnded => StreamAction::CloseAndEnd(token),
        StreamEvent::WriteFailed(error) => StreamAction::CloseAndFail(token, error),
        StreamEvent::PeerLeft => StreamAction::CloseQuietly(token),
        StreamEvent::ReadFailed(error) => StreamAction::CloseAndFail(token, error),
        StreamEvent::Asked(exchange, request) => {
            if request.head is WatchDeployments && request.tail@.len() == 0 {
                StreamAction::Reject(exchange, RequestRejectionReason::Internal)
            } else {
                StreamAction::Answer { exchange, operations: request, ends: closes(request, token) }
            }
        },
        StreamEvent::OtherFrame => StreamAction::Fail(Error::ExpectedRequestFrame),
    }
}

impl DeploymentObservationStream {
    /// The stream that `exchange` opened for `token`.
    pub fn new(exchange: ExchangeIdentifier, token: DeploymentObservationToken) -> (r: Self)
        ensures
            r.exchange == exchange,
            r.token == token,
            r.next_event_sequence == LaneSequence(1),
    {
        DeploymentObservationStream {
            exchange,
            token,
            next_event_sequence: LaneSequence::first(),
        }
    }

    /// The number of the next event.
    pub open spec fn upcoming(&self) -> StreamEventIdentifier {
        StreamEventIdentifier {
            session_epoch: self.exchange.session_epoch,
            lane: ExchangeLane::Acceptor,
            sequence: self.next_event_sequence,
        }
    }

    /// Numbers an event: in the session of the exchange that opened the stream, in
    /// the lane of the peer that accepted, behind all events before it.
    pub fn next_event_identifier(&mut self) -> (r: StreamEventIdentifier)
        requires
            old(self).next_event_sequence.0 < u64::MAX,
        ensures
            r == old(self).upcoming(),
            final(self).exchange == old(self).exchange,
            final(self).token == old(self).token,
            final(self).next_event_sequence.0 == old(self).next_event_sequence.0 + 1,
    {
        let identifier = StreamEventIdentifier {
            session_epoch: self.exchange.session_epoch,
            lane: ExchangeLane::Acceptor,
            sequence: self.next_event_sequence,
        };
        self.next_event_sequence = self.next_event_sequence.next();
        identifier
    }

    /// What is done about `event`.
    pub fn decide<Observation, Watch, Request>(
        &mut self,
        event: StreamEvent<Observation, Watch, Request>,
    ) -> (r: StreamAction<Observation, Watch, Request>)
        requires
            old(self).next_event_sequence.0 < u64::MAX,
        ensures
            r == stream_action(old(self).token, old(self).upcoming(), event),
            final(self).exchange == old(self).exchange,
            final(self).token == old(self).token,
            final(self).next_event_sequence.0 == old(self).next_event_sequence.0 + (
            if event is Observed {
                1int
            } else {
                0
            }),
    {
        match event {
            StreamEvent::Observed(observation) => StreamAction::WriteEvent {
                token: self.token,
                identifier: self.next_event_identifier(),
                observation,
            },
            StreamEvent::ObservationsEnded => StreamAction::CloseAndEnd(self.token),
            StreamEvent::WriteFailed(error) => StreamAction::CloseAndFail(self.token, error),
            StreamEvent::PeerLeft => StreamAction::CloseQuietly(self.token),
            StreamEvent::ReadFailed(error) => StreamAction::CloseAndFail(self.token, error),
            StreamEvent::Asked(exchange, request) => {
                let ends = request_closes_deployment_observation(&request, &self.token);
                match SocketRequest::from_channel_request(request) {
                    SocketRequest::OneShot(operations) => StreamAction::Answer {
                        exchange,
                        operations,
                        ends,
                    },
                    SocketRequest::DeploymentObservationStream(_) => {
                        StreamAction::Reject(exchange, RequestRejectionReason::Internal)
                    },
                }
            },
            StreamEvent::OtherFrame => StreamAction::Fail(Error::ExpectedRequestFrame),
        }
    }
}

// ---- laws --------------------------------------------------------------------------------

/// Two events of one stream have two numbers, and the later one has the greater.
pub proof fn law_events_are_numbered_apart(
    earlier: DeploymentObservationStream,
    later: DeploymentObservationStream,
)
    requires
        later.exchange == earlier.exchange,
        later.next_event_sequence.0 > earlier.next_event_sequence.0,
    ensures
        later.upcoming() != earlier.upcoming(),
        later.upcoming().sequence.0 > earlier.upcoming().sequence.0,
        later.upcoming().session_epoch == earlier.upcoming().session_epoch,
        later.upcoming().lane == earlier.upcoming().lane,
{
}

/// A stream ends only where it has closed its subscription, or where the peer asked
/// for exactly that, or where the peer sent no request.
pub proof fn law_a_stream_ends_with_its_subscription<Observation, Watch, Request>(
    token: DeploymentObservationToken,
    identifier: StreamEventIdentifier,
    event: StreamEvent<Observation, Watch, Request>,
)
    ensures
        match stream_action(token, identifier, event) {
            StreamAction::CloseAndEnd(closed) => closed == token,
            StreamAction::CloseQuietly(closed) => closed == token && event is PeerLeft,
            StreamAction::CloseAndFail(closed, _) => closed == token,
            StreamAction::Answer { operations, ends, .. } => ends ==> operations.tail@.len() == 0
                && operations.head == Operation::<Watch, Request>::UnwatchDeployments(token),
            StreamAction::Fail(_) => event is OtherFrame,
            _ => true,
        },
{
}

/// Every event of a stream has its own outcome: an observation is written under the
/// stream's token and the next number, the end of the observations and a peer that left
/// close the subscription, a failure is reported once it is closed, a second watch is
/// refused, and anything else that is asked is answered.
pub proof fn law_every_event_has_its_outcome<Observation, Watch, Request>(
    token: DeploymentObservationToken,
    identifier: StreamEventIdentifier,
    event: StreamEvent<Observation, Watch, Request>,
)
    ensures
        ({
            let action = stream_action(token, identifier, event);
            match event {
                StreamEvent::Observed(seen) => action matches StreamAction::WriteEvent {
                    identifier: number,
                    token: named,
                    observation,
                } && number == identifier && named == token && observation == seen,
                StreamEvent::ObservationsEnded => action == StreamAction::<
                    Observation,
                    Watch,
                    Request,
                >::CloseAndEnd(token),
                StreamEvent::WriteFailed(error) | StreamEvent::ReadFailed(error) => action
                    == StreamAction::<Observation, Watch, Request>::CloseAndFail(token, error),
                StreamEvent::PeerLeft => action == StreamAction::<
                    Observation,
                    Watch,
                    Request,
                >::CloseQuietly(token),
                StreamEvent::OtherFrame => action is Fail,
                StreamEvent::Asked(asking, request) => {
                    &&& action is Reject <==> request.items().len() == 1
                        && request.items()[0] is WatchDeployments
                    &&& action matches StreamAction::Reject(exchange, reason) ==> exchange == asking
                        && reason == RequestRejectionReason::Internal
                    &&& !(action is Reject) ==> (action matches StreamAction::Answer {
                        exchange,
                        operations,
                        ends,
                    } && exchange == asking && operations == request && (ends <==> request.items()
                        =~= seq![Operation::<Watch, Request>::UnwatchDeployments(token)]))
                },
            }
        }),
{
    if event is Asked {
        let request = event->Asked_1;
        if request.tail@.len() == 0 {
            assert(request.items() =~= seq![request.head]);
        }
        if request.items() =~= seq![Operation::<Watch, Request>::UnwatchDeployments(token)] {
            assert(request.items()[0] == request.head);
        }
    }
}

/// Every payload is answered as done, each in its place.
pub proof fn law_every_payload_is_answered<Payload>(payloads: Seq<Payload>)
    ensures
        answered(payloads).len() == payloads.len(),
        forall|i: int|
            0 <= i < payloads.len() ==> #[trigger] answered(payloads)[i] == SubReply::Done(
                payloads[i],
            ),
{
}

} // verus!
