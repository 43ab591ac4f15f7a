//! One client session as a state machine. The session never touches a
//! socket: it is told what happened and answers with what to do next.

use vstd::prelude::*;
use crate::address::Address;
use crate::address::AddressModel;
use crate::error::SocksError;
use crate::greeting::chosen_method;
use crate::greeting::decode_greeting;
use crate::greeting::encode_selection;
use crate::greeting::greeting_shortfall;
use crate::greeting::greeting_span;
use crate::greeting::greeting_span_is_exact;
use crate::greeting::parse_greeting;
use crate::greeting::select_method;
use crate::greeting::selection_wire;
use crate::greeting::METHOD_NONE_ACCEPTABLE;
use crate::reply::code_for;
use crate::reply::encode_reply;
use crate::reply::reply_code_for;
use crate::reply::unspecified;
use crate::reply::unspecified_address;
use crate::reply::Reply;
use crate::reply::ReplyCode;
use crate::reply::ReplyModel;
use crate::request::decode_request;
use crate::request::parse_request;
use crate::request::request_shortfall;
use crate::request::request_span;
use crate::request::request_span_is_exact;
use crate::request::Command;
use crate::request::Request;
use crate::request::RequestModel;
use crate::resolver::host_text;
use crate::resolver::resolve;
use crate::resolver::Target;

verus! {

/// Where a session stands.
#[derive(Clone, Copy, Debug, PartialEq, Eq, Structural)]
pub enum Phase {
    /// Waiting for the client's greeting.
    AwaitGreeting,
    /// The method is chosen; waiting for the request.
    AwaitRequest,
    /// The request is decoded and the outbound side is being set up or
    /// relayed to.
    Dispatched,
    /// Over, for whatever reason.
    Terminal,
}

/// What the outside world reports to a session.
#[derive(Debug, PartialEq, Eq)]
pub enum Event {
    /// Bytes that the client sent. An empty chunk asks the session to go on
    /// with what it already holds.
    Input(Vec<u8>),
    /// The client will send no more.
    InputClosed,
    /// The outbound connection is open, or the relay socket is bound. The
    /// local address of either, where it is known.
    Established(Option<Address>),
    /// The outbound side could not be set up.
    Failed(SocksError),
    /// The relay has come to its end, with the first failure it met, if any.
    Finished(Option<SocksError>),
}

/// What a session asks the outside world to do.
#[derive(Debug, PartialEq, Eq)]
pub enum Action {
    /// Read from the client: this many bytes are still missing.
    Read(usize),
    /// Write these bytes to the client, then report an empty input.
    Send(Vec<u8>),
    /// Open a TCP connection to the target and report how it went.
    Connect(Target),
    /// Bind a UDP relay socket and report how it went.
    Bind,
    /// Write this reply to the client, then relay the TCP streams.
    RelayTcp(Vec<u8>),
    /// Write this reply to the client, then relay datagrams.
    RelayUdp(Vec<u8>),
    /// Write these bytes to the client if it still listens, then close.
    Reject(Vec<u8>),
    /// Close the connection.
    Close,
    /// Nothing: the event calls for no action.
    Idle,
}

/// The mathematical value of an [`Event`].
pub enum EventModel {
    Input(Seq<u8>),
    InputClosed,
    Established(Option<AddressModel>),
    Failed(SocksError),
    Finished(Option<SocksError>),
}

/// The mathematical value of an [`Action`].
pub enum ActionModel {
    Read(nat),
    Send(Seq<u8>),
    Connect((Seq<char>, u16)),
    Bind,
    RelayTcp(Seq<u8>),
    RelayUdp(Seq<u8>),
    Reject(Seq<u8>),
    Close,
    Idle,
}

impl View for Event {
    type V = EventModel;

    open spec fn view(&self) -> EventModel {
        match self {
            Event::Input(bytes) => EventModel::Input(bytes@),
            Event::InputClosed => EventModel::InputClosed,
            Event::Established(Some(bound)) => EventModel::Established(Some(bound@)),
            Event::Established(None) => EventModel::Established(None),
            Event::Failed(error) => EventModel::Failed(*error),
            Event::Finished(result) => EventModel::Finished(*result),
        }
    }
}

impl View for Action {
    type V = ActionModel;

    open spec fn view(&self) -> ActionModel {
        match self {
            Action::Read(missing) => ActionModel::Read(*missing as nat),
            Action::Send(bytes) => ActionModel::Send(bytes@),
            Action::Connect(target) => ActionModel::Connect(target@),
            Action::Bind => ActionModel::Bind,
            Action::RelayTcp(reply) => ActionModel::RelayTcp(reply@),
            Action::RelayUdp(reply) => ActionModel::RelayUdp(reply@),
            Action::Reject(bytes) => ActionModel::Reject(bytes@),
            Action::Close => ActionModel::Close,
            Action::Idle => ActionModel::Idle,
        }
    }
}

/// One client session.
#[derive(Debug)]
pub struct Session {
    phase: Phase,
    inbox: Vec<u8>,
    method: Option<u8>,
    request: Option<Request>,
    replied: bool,
    failure: Option<SocksError>,
}

/// The mathematical value of a [`Session`].
pub struct SessionModel {
    /// Where the session stands.
    pub phase: Phase,
    /// Bytes received from the client and not yet consumed.
    pub inbox: Seq<u8>,
    /// The negotiated method, once there is one.
    pub method: Option<u8>,
    /// The decoded request, once there is one.
    pub request: Option<RequestModel>,
    /// Whether the reply to the request has been handed out.
    pub replied: bool,
    /// Why the session ended, if it ended in failure.
    pub failure: Option<SocksError>,
}

impl View for Session {
    type V = SessionModel;

    closed spec fn view(&self) -> SessionModel {
        SessionModel {
            phase: self.phase,
            inbox: self.inbox@,
            method: self.method,
            request: match self.request {
                Some(request) => Some(request@),
                None => None,
            },
            replied: self.replied,
            failure: self.failure,
        }
    }
}

/// The reply that reports a failure: the code for the failure and the
/// placeholder address.
pub open spec fn failure_reply(error: SocksError) -> Seq<u8> {
    (ReplyModel { code: code_for(error), bound: unspecified() }).wire()
}

/// The reply that reports success: the bound address where one is known
/// and fits the wire format, the placeholder otherwise.
pub open spec fn success_reply(bound: Option<AddressModel>) -> Seq<u8> {
    match bound {
        Some(address) if address.representable() => (ReplyModel {
            code: ReplyCode::Succeeded,
            bound: address,
        }).wire(),
        _ => (ReplyModel { code: ReplyCode::Succeeded, bound: unspecified() }).wire(),
    }
}

/// What a decoded request asks the outside world for.
pub open spec fn dispatch(request: RequestModel) -> ActionModel {
    match request.command {
        Command::Connect => ActionModel::Connect(
            (host_text(request.address.host), request.address.port),
        ),
        Command::Associate => ActionModel::Bind,
    }
}

impl SessionModel {
    /// A session that has seen nothing yet.
    pub open spec fn fresh() -> SessionModel {
        SessionModel {
            phase: Phase::AwaitGreeting,
            inbox: Seq::empty(),
            method: None,
            request: None,
            replied: false,
            failure: None,
        }
    }

    /// Ends the session in failure. Before the method is chosen nothing is
    /// said to the client, except that no method was acceptable; from then
    /// on a failure reply goes out unless the reply has gone out already.
    pub open spec fn fail(self, error: SocksError) -> (SessionModel, ActionModel) {
        let ended = SessionModel { phase: Phase::Terminal, failure: Some(error), ..self };
        match self.phase {
            Phase::Terminal => (self, ActionModel::Close),
            Phase::AwaitGreeting => if error == SocksError::NoAcceptableAuthMethod {
                (ended, ActionModel::Reject(selection_wire(METHOD_NONE_ACCEPTABLE)))
            } else {
                (ended, ActionModel::Close)
            },
            _ => if self.replied {
                (ended, ActionModel::Close)
            } else {
                (
                    SessionModel { replied: true, ..ended },
                    ActionModel::Reject(failure_reply(error)),
                )
            },
        }
    }

    /// Takes in bytes from the client and goes on as far as they allow.
    pub open spec fn on_input(self, bytes: Seq<u8>) -> (SessionModel, ActionModel) {
        let inbox = self.inbox + bytes;
        let fed = SessionModel { inbox, ..self };
        match self.phase {
            Phase::AwaitGreeting => match parse_greeting(inbox) {
                Ok((methods, used)) => {
                    let rest = SessionModel { inbox: inbox.skip(used as int), ..self };
                    match chosen_method(methods) {
                        Ok(method) => (
                            SessionModel {
                                phase: Phase::AwaitRequest,
                                method: Some(method),
                                ..rest
                            },
                            ActionModel::Send(selection_wire(method)),
                        ),
                        Err(error) => rest.fail(error),
                    }
                },
                Err(SocksError::FramingError) => (
                    fed,
                    ActionModel::Read((greeting_span(inbox) - inbox.len()) as nat),
                ),
                Err(error) => fed.fail(error),
            },
            Phase::AwaitRequest => match parse_request(inbox) {
                Ok((request, used)) => (
                    SessionModel {
                        phase: Phase::Dispatched,
                        inbox: inbox.skip(used as int),
                        request: Some(request),
                        ..self
                    },
                    dispatch(request),
                ),
                Err(SocksError::FramingError) => (
                    fed,
                    ActionModel::Read((request_span(inbox) - inbox.len()) as nat),
                ),
                Err(error) => fed.fail(error),
            },
            Phase::Dispatched => (fed, ActionModel::Idle),
            Phase::Terminal => (self, ActionModel::Close),
        }
    }

    /// Whether the session waits for the outcome of the outbound set-up.
    pub open spec fn pending(self) -> bool {
        self.phase == Phase::Dispatched && !self.replied && self.request is Some
    }

    /// Whether the session is relaying.
    pub open spec fn relaying(self) -> bool {
        self.phase == Phase::Dispatched && self.replied
    }

    /// The next state and the action for an event.
    pub open spec fn step(self, event: EventModel) -> (SessionModel, ActionModel) {
        if self.phase == Phase::Terminal {
            (self, ActionModel::Close)
        } else {
            match event {
                EventModel::Input(bytes) => self.on_input(bytes),
                EventModel::InputClosed => if self.phase == Phase::Dispatched {
                    (self, ActionModel::Idle)
                } else {
                    self.fail(SocksError::FramingError)
                },
                EventModel::Established(bound) => if self.pending() {
                    let reply = success_reply(bound);
                    (
                        SessionModel { replied: true, ..self },
                        match self.request.unwrap().command {
                            Command::Connect => ActionModel::RelayTcp(reply),
                            Command::Associate => ActionModel::RelayUdp(reply),
                        },
                    )
                } else {
                    (self, ActionModel::Idle)
                },
                EventModel::Failed(error) => if self.pending() {
                    self.fail(error)
                } else {
                    (self, ActionModel::Idle)
                },
                EventModel::Finished(result) => if self.relaying() {
                    (
                        SessionModel { phase: Phase::Terminal, failure: result, ..self },
                        ActionModel::Close,
                    )
                } else {
                    (self, ActionModel::Idle)
                },
            }
        }
    }
}

/// Encodes the reply that reports a failure.
pub fn encode_failure_reply(error: SocksError) -> (bytes: Vec<u8>)
    ensures
        bytes@ == failure_reply(error),
{
    let reply = Reply { code: reply_code_for(error), bound: unspecified_address() };
    match encode_reply(&reply) {
        Ok(bytes) => bytes,
        Err(_) => Vec::new(),
    }
}

/// Encodes the reply that reports success, with the bound address where one
/// is known and fits the wire format, the placeholder 0.0.0.0:0 otherwise.
pub fn encode_success_reply(bound: Option<Address>) -> (bytes: Vec<u8>)
    ensures
        bytes@ == success_reply(
            match bound {
                Some(address) => Some(address@),
                None => None,
            },
        ),
{
    if let Some(address) = bound {
        let reply = Reply { code: ReplyCode::Succeeded, bound: address };
        if let Ok(bytes) = encode_reply(&reply) {
            return bytes;
        }
    }
    let reply = Reply { code: ReplyCode::Succeeded, bound: unspecified_address() };
    match encode_reply(&reply) {
        Ok(bytes) => bytes,
        Err(_) => Vec::new(),
    }
}

impl Session {
    /// A session that has seen nothing yet.
    pub fn new() -> (session: Session)
        ensures
            session@ == SessionModel::fresh(),
    {
        Session {
            phase: Phase::AwaitGreeting,
            inbox: Vec::new(),
            method: None,
            request: None,
            replied: false,
            failure: None,
        }
    }

    /// Where the session stands.
    pub fn phase(&self) -> (phase: Phase)
        ensures
            phase == self@.phase,
    {
        self.phase
    }

    /// The negotiated method, once there is one.
    pub fn method(&self) -> (method: Option<u8>)
        ensures
            method == self@.method,
    {
        self.method
    }

    /// The decoded request, once there is one.
    pub fn request(&self) -> (request: Option<&Request>)
        ensures
            match request {
                Some(r) => self@.request == Some(r@),
                None => self@.request is None,
            },
    {
        self.request.as_ref()
    }

    /// Whether the reply to the request has been handed out.
    pub fn replied(&self) -> (replied: bool)
        ensures
            replied == self@.replied,
    {
        self.replied
    }

    /// Why the session ended, if it ended in failure.
    pub fn failure(&self) -> (failure: Option<SocksError>)
        ensures
            failure == self@.failure,
    {
        self.failure
    }

    /// Bytes received from the client and not yet consumed. Once the request
    /// is dispatched these are the first bytes to relay.
    pub fn buffered(&self) -> (bytes: &[u8])
        ensures
            bytes@ == self@.inbox,
    {
        self.inbox.as_slice()
    }

    /// Drops the first `used` bytes of the inbox.
    fn consume(&mut self, used: usize)
        requires
            used <= old(self).inbox@.len(),
        ensures
            final(self).inbox@ == old(self).inbox@.skip(used as int),
            final(self).phase == old(self).phase,
            final(self).method == old(self).method,
            final(self).request == old(self).request,
            final(self).replied == old(self).replied,
            final(self).failure == old(self).failure,
    {
        let rest = self.inbox.split_off(used);
        self.inbox = rest;
        assert(self.inbox@ =~= old(self).inbox@.skip(used as int));
    }

    /// Ends the session in failure.
    fn fail(&mut self, error: SocksError) -> (action: Action)
        ensures
            (final(self)@, action@) == old(self)@.fail(error),
    {
        match self.phase {
            Phase::Terminal => Action::Close,
            Phase::AwaitGreeting => {
                self.phase = Phase::Terminal;
                self.failure = Some(error);
                if error == SocksError::NoAcceptableAuthMethod {
                    Action::Reject(encode_selection(METHOD_NONE_ACCEPTABLE))
                } else {
                    Action::Close
                }
            },
            _ => {
                self.phase = Phase::Terminal;
                self.failure = Some(error);
                if self.replied {
                    Action::Close
                } else {
                    self.replied = true;
                    Action::Reject(encode_failure_reply(error))
                }
            },
        }
    }

    /// Takes in bytes from the client and goes on as far as they allow.
    fn on_input(&mut self, bytes: &[u8]) -> (action: Action)
        ensures
            (final(self)@, action@) == old(self)@.on_input(bytes@),
    {
        if self.phase == Phase::Terminal {
            return Action::Close;
        }
        self.inbox.extend_from_slice(bytes);
        let ghost inbox = self.inbox@;
        assert(inbox == old(self)@.inbox + bytes@);
        match self.phase {
            Phase::AwaitGreeting => {
                proof {
                    greeting_span_is_exact(inbox);
                }
                match decode_greeting(self.inbox.as_slice()) {
                    Ok((greeting, used)) => {
                        self.consume(used);
                        match select_method(&greeting) {
                            Ok(method) => {
                                self.phase = Phase::AwaitRequest;
                                self.method = Some(method);
                                Action::Send(encode_selection(method))
                            },
                            Err(error) => self.fail(error),
                        }
                    },
                    Err(SocksError::FramingError) => Action::Read(
                        greeting_shortfall(self.inbox.as_slice()),
                    ),
                    Err(error) => self.fail(error),
                }
            },
            Phase::AwaitRequest => {
                proof {
                    request_span_is_exact(inbox);
                }
                match decode_request(self.inbox.as_slice()) {
                    Ok((request, used)) => {
                        self.consume(used);
                        let action = match request.command {
                            Command::Connect => Action::Connect(resolve(&request.address)),
                            Command::Associate => Action::Bind,
                        };
                        self.phase = Phase::Dispatched;
                        self.request = Some(request);
                        action
                    },
                    Err(SocksError::FramingError) => Action::Read(
                        request_shortfall(self.inbox.as_slice()),
                    ),
                    Err(error) => self.fail(error),
                }
            },
            _ => Action::Idle,
        }
    }

    /// Tells the session what happened and learns what to do next.
    pub fn step(&mut self, event: Event) -> (action: Action)
        ensures
            (final(self)@, action@) == old(self)@.step(event@),
    {
        if self.phase == Phase::Terminal {
            return Action::Close;
        }
        let pending = self.phase == Phase::Dispatched && !self.replied && self.request.is_some();
        let relaying = self.phase == Phase::Dispatched && self.replied;
        match event {
            Event::Input(bytes) => self.on_input(bytes.as_slice()),
            Event::InputClosed => {
                if self.phase == Phase::Dispatched {
                    Action::Idle
                } else {
                    self.fail(SocksError::FramingError)
                }
            },
            Event::Established(bound) => {
                if pending {
                    let reply = encode_success_reply(bound);
                    self.replied = true;
                    match &self.request {
                        Some(request) => match request.command {
                            Command::Connect => Action::RelayTcp(reply),
                            Command::Associate => Action::RelayUdp(reply),
                        },
                        None => Action::Idle,
                    }
                } else {
                    Action::Idle
                }
            },
            Event::Failed(error) => {
                if pending {
                    self.fail(error)
                } else {
                    Action::Idle
                }
            },
            Event::Finished(result) => {
                if relaying {
                    self.phase = Phase::Terminal;
                    self.failure = result;
                    Action::Close
                } else {
                    Action::Idle
                }
            },
        }
    }
}

impl Phase {
    /// The place of a phase in the order of a session's life.
    pub open spec fn rank(self) -> nat {
        match self {
            Phase::AwaitGreeting => 0,
            Phase::AwaitRequest => 1,
            Phase::Dispatched => 2,
            Phase::Terminal => 3,
        }
    }
}

impl ActionModel {
    /// Whether the action hands the client the reply to its request. A
    /// rejection during the greeting carries a method selection, which is no
    /// reply.
    pub open spec fn carries_reply(self, during: Phase) -> bool {
        self is RelayTcp || self is RelayUdp || (self is Reject && during != Phase::AwaitGreeting)
    }

    /// Whether the action starts a relay.
    pub open spec fn starts_relay(self) -> bool {
        self is RelayTcp || self is RelayUdp
    }
}

impl SessionModel {
    /// What holds of every session that events can lead to: a method is
    /// chosen before a request is awaited, a request is held while it is
    /// served, and no reply goes out before there is a request.
    pub open spec fn well_formed(self) -> bool {
        match self.phase {
            Phase::AwaitGreeting => self.method is None && self.request is None && !self.replied
                && self.failure is None,
            Phase::AwaitRequest => self.method == Some(0u8) && self.request is None
                && !self.replied && self.failure is None,
            Phase::Dispatched => self.method == Some(0u8) && self.request is Some
                && self.request.unwrap().address.representable() && self.failure is None,
            Phase::Terminal => true,
        }
    }
}

/// A fresh session is well formed, and no event leads out of the
/// well-formed sessions.
pub proof fn step_keeps_well_formed(session: SessionModel, event: EventModel)
    requires
        session.well_formed(),
    ensures
        SessionModel::fresh().well_formed(),
        session.step(event).0.well_formed(),
{
    if let EventModel::Input(bytes) = event {
        if session.phase == Phase::AwaitRequest {
            let inbox = session.inbox + bytes;
            if parse_request(inbox) is Ok {
                crate::address::address_encode_inverts_decode(inbox.skip(3));
            }
        }
    }
}

/// A session that has ended stays as it is and answers every event with
/// `Close`.
pub proof fn terminal_is_final(session: SessionModel, event: EventModel)
    requires
        session.phase == Phase::Terminal,
    ensures
        session.step(event) == (session, ActionModel::Close),
{
}

/// The phases follow each other in their order: an event leaves the phase
/// as it is, moves it on by one, or ends the session.
pub proof fn phases_advance_in_order(session: SessionModel, event: EventModel)
    ensures
        ({
            let next = session.step(event).0.phase;
            next == session.phase || next.rank() == session.phase.rank() + 1 || next
                == Phase::Terminal
        }),
{
}

/// A request is answered once: the reply goes out only while none has gone
/// out, the session remembers that it did, and nothing else makes it
/// forget or pretend.
pub proof fn one_reply_per_request(session: SessionModel, event: EventModel)
    requires
        session.well_formed(),
    ensures
        ({
            let (next, action) = session.step(event);
            &&& action.carries_reply(session.phase) ==> !session.replied && next.replied
            &&& session.replied ==> next.replied
            &&& next.replied != session.replied ==> action.carries_reply(session.phase)
        }),
{
}

/// A relay starts only for a session that negotiated "no authentication",
/// holds a request and waits for its outbound side, and only when that side
/// reports success. The reply then reports success, and the relay is the
/// one the command asks for.
pub proof fn relay_follows_success(session: SessionModel, event: EventModel)
    requires
        session.well_formed(),
        session.step(event).1.starts_relay(),
    ensures
        session.method == Some(0u8),
        session.pending(),
        event is Established,
        session.step(event).0.phase == Phase::Dispatched,
        session.request.unwrap().command == Command::Connect ==> session.step(event).1
            == ActionModel::RelayTcp(success_reply(event->Established_0)),
        session.request.unwrap().command == Command::Associate ==> session.step(event).1
            == ActionModel::RelayUdp(success_reply(event->Established_0)),
{
}

/// A greeting that offers "no authentication" gets that method chosen and
/// announced; any other greeting gets the answer that no method is
/// acceptable, and ends the session. This holds however the greeting
/// arrived, in one piece or in many, and whatever follows it stays in the
/// inbox.
pub proof fn greeting_decides_method(session: SessionModel, bytes: Seq<u8>)
    requires
        session.phase == Phase::AwaitGreeting,
        parse_greeting(session.inbox + bytes) is Ok,
    ensures
        ({
            let (methods, used) = parse_greeting(session.inbox + bytes).unwrap();
            let (next, action) = session.step(EventModel::Input(bytes));
            &&& next.inbox == (session.inbox + bytes).skip(used as int)
            &&& methods.contains(0u8) ==> next.phase == Phase::AwaitRequest && next.method == Some(
                0u8,
            ) && action == ActionModel::Send(seq![5u8, 0u8])
            &&& !methods.contains(0u8) ==> next.phase == Phase::Terminal && next.method
                == session.method && next.failure == Some(SocksError::NoAcceptableAuthMethod)
                && action == ActionModel::Reject(seq![5u8, 255u8])
        }),
{
    assert(selection_wire(0u8) =~= seq![5u8, 0u8]);
    assert(selection_wire(METHOD_NONE_ACCEPTABLE) =~= seq![5u8, 255u8]);
}

/// A complete request moves the session on to its dispatch: the session
/// holds the request, keeps what followed it, and asks for a connection to
/// the resolved destination or for a relay socket, as the command says.
pub proof fn request_is_dispatched(session: SessionModel, bytes: Seq<u8>)
    requires
        session.phase == Phase::AwaitRequest,
        parse_request(session.inbox + bytes) is Ok,
    ensures
        ({
            let (request, used) = parse_request(session.inbox + bytes).unwrap();
            let (next, action) = session.step(EventModel::Input(bytes));
            &&& next.phase == Phase::Dispatched
            &&& next.request == Some(request)
            &&& next.inbox == (session.inbox + bytes).skip(used as int)
            &&& next.replied == session.replied
            &&& request.command == Command::Connect ==> action == ActionModel::Connect(
                (host_text(request.address.host), request.address.port),
            )
            &&& request.command == Command::Associate ==> action == ActionModel::Bind
        }),
{
}

/// A request that cannot be served is refused with the reply for its
/// fault: another version, an unknown address type, or a command other than
/// CONNECT and ASSOCIATE. The session ends there.
pub proof fn bad_request_is_refused(session: SessionModel, bytes: Seq<u8>)
    requires
        session.phase == Phase::AwaitRequest,
        !session.replied,
        parse_request(session.inbox + bytes) is Err,
        parse_request(session.inbox + bytes)->Err_0 != SocksError::FramingError,
    ensures
        ({
            let error = parse_request(session.inbox + bytes)->Err_0;
            let (next, action) = session.step(EventModel::Input(bytes));
            &&& next.phase == Phase::Terminal
            &&& next.failure == Some(error)
            &&& next.replied
            &&& next.request == session.request
            &&& action == ActionModel::Reject(failure_reply(error))
        }),
{
}

/// A failed outbound set-up ends the session with the reply for its cause.
pub proof fn failure_is_reported(session: SessionModel, error: SocksError)
    requires
        session.pending(),
    ensures
        session.step(EventModel::Failed(error)) == (
            SessionModel {
                phase: Phase::Terminal,
                failure: Some(error),
                replied: true,
                ..session
            },
            ActionModel::Reject(failure_reply(error)),
        ),
{
}

/// From the moment the method is chosen, a session that has not replied
/// yet does not end without a reply: whatever ends it, the client is told
/// the failure, with the code for its cause. And a session that waits for
/// its outbound side answers the outcome, success or failure, with the
/// reply.
pub proof fn request_is_answered(session: SessionModel, event: EventModel)
    requires
        session.well_formed(),
        session.phase == Phase::AwaitRequest || session.phase == Phase::Dispatched,
        !session.replied,
    ensures
        ({
            let (next, action) = session.step(event);
            &&& next.phase == Phase::Terminal ==> next.replied && next.failure is Some && action
                == ActionModel::Reject(failure_reply(next.failure.unwrap()))
            &&& session.phase == Phase::Dispatched && (event is Established || event is Failed)
                ==> action.carries_reply(session.phase)
        }),
{
}

/// The bytes of a failure reply: version, the code for the failure, a zero,
/// and the placeholder address 0.0.0.0:0.
pub proof fn failure_reply_bytes(error: SocksError)
    ensures
        failure_reply(error) == seq![
            5u8,
            crate::reply::code_byte(code_for(error)),
            0u8,
            1u8,
            0u8,
            0u8,
            0u8,
            0u8,
            0u8,
            0u8,
        ],
{
    assert(failure_reply(error) =~= seq![
        5u8,
        crate::reply::code_byte(code_for(error)),
        0u8,
        1u8,
        0u8,
        0u8,
        0u8,
        0u8,
        0u8,
        0u8,
    ]);
}

/// Whenever a session asks for more input, at least one byte is missing.
pub proof fn read_asks_for_something(session: SessionModel, event: EventModel)
    ensures
        session.step(event).1 matches ActionModel::Read(missing) ==> missing > 0,
{
    if let EventModel::Input(bytes) = event {
        greeting_span_is_exact(session.inbox + bytes);
        request_span_is_exact(session.inbox + bytes);
    }
}

impl ActionModel {
    /// Whether the action asks for an outbound connection or a relay socket.
    pub open spec fn opens_outbound(self) -> bool {
        self is Connect || self is Bind
    }
}

impl SessionModel {
    /// The session after a sequence of events.
    pub open spec fn run(self, events: Seq<EventModel>) -> SessionModel
        decreases events.len(),
    {
        if events.len() == 0 {
            self
        } else {
            self.step(events[0]).0.run(events.skip(1))
        }
    }

    /// How many replies go out in answer to a sequence of events.
    pub open spec fn replies(self, events: Seq<EventModel>) -> nat
        decreases events.len(),
    {
        if events.len() == 0 {
            0
        } else {
            let (next, action) = self.step(events[0]);
            let here: nat = if action.carries_reply(self.phase) {
                1
            } else {
                0
            };
            here + next.replies(events.skip(1))
        }
    }

    /// How many outbound connections or relay sockets are asked for in
    /// answer to a sequence of events.
    pub open spec fn openings(self, events: Seq<EventModel>) -> nat
        decreases events.len(),
    {
        if events.len() == 0 {
            0
        } else {
            let (next, action) = self.step(events[0]);
            let here: nat = if action.opens_outbound() {
                1
            } else {
                0
            };
            here + next.openings(events.skip(1))
        }
    }

    /// How many relays start in answer to a sequence of events.
    pub open spec fn relays(self, events: Seq<EventModel>) -> nat
        decreases events.len(),
    {
        if events.len() == 0 {
            0
        } else {
            let (next, action) = self.step(events[0]);
            let here: nat = if action.starts_relay() {
                1
            } else {
                0
            };
            here + next.relays(events.skip(1))
        }
    }
}

/// Whatever the events, a session stays well formed and its phase never
/// goes back.
pub proof fn run_keeps_order(session: SessionModel, events: Seq<EventModel>)
    requires
        session.well_formed(),
    ensures
        session.run(events).well_formed(),
        session.run(events).phase.rank() >= session.phase.rank(),
    decreases events.len(),
{
    if events.len() > 0 {
        step_keeps_well_formed(session, events[0]);
        phases_advance_in_order(session, events[0]);
        run_keeps_order(session.step(events[0]).0, events.skip(1));
    }
}

/// Whatever the events, a session sends at most one reply, and none once
/// one has gone out.
pub proof fn at_most_one_reply(session: SessionModel, events: Seq<EventModel>)
    requires
        session.well_formed(),
    ensures
        session.replies(events) <= 1,
        session.replied ==> session.replies(events) == 0,
        session.replies(events) == 1 ==> session.run(events).replied,
    decreases events.len(),
{
    if events.len() > 0 {
        step_keeps_well_formed(session, events[0]);
        one_reply_per_request(session, events[0]);
        at_most_one_reply(session.step(events[0]).0, events.skip(1));
        if session.step(events[0]).0.replied {
            replied_is_kept(session.step(events[0]).0, events.skip(1));
        }
    }
}

/// A session that has handed out its reply remembers it.
pub proof fn replied_is_kept(session: SessionModel, events: Seq<EventModel>)
    requires
        session.well_formed(),
        session.replied,
    ensures
        session.run(events).replied,
    decreases events.len(),
{
    if events.len() > 0 {
        step_keeps_well_formed(session, events[0]);
        one_reply_per_request(session, events[0]);
        replied_is_kept(session.step(events[0]).0, events.skip(1));
    }
}

/// Whatever the events, a session asks for at most one outbound connection
/// or relay socket, and starts at most one relay.
pub proof fn at_most_one_outbound(session: SessionModel, events: Seq<EventModel>)
    requires
        session.well_formed(),
    ensures
        session.openings(events) <= 1,
        session.phase.rank() >= 2 ==> session.openings(events) == 0,
        session.relays(events) <= 1,
        session.replied || session.phase == Phase::Terminal ==> session.relays(events) == 0,
    decreases events.len(),
{
    if events.len() > 0 {
        step_keeps_well_formed(session, events[0]);
        phases_advance_in_order(session, events[0]);
        one_reply_per_request(session, events[0]);
        at_most_one_outbound(session.step(events[0]).0, events.skip(1));
    }
}

/// Once a session has ended, nothing more happens: no reply, no outbound
/// connection, no relay, whatever is reported to it.
pub proof fn ended_session_stays_quiet(session: SessionModel, events: Seq<EventModel>)
    requires
        session.phase == Phase::Terminal,
    ensures
        session.run(events) == session,
        session.replies(events) == 0,
        session.openings(events) == 0,
        session.relays(events) == 0,
    decreases events.len(),
{
    if events.len() > 0 {
        ended_session_stays_quiet(session, events.skip(1));
    }
}

/// A client that does not offer "no authentication" never gets a relay:
/// after its greeting the session has ended, whatever follows.
pub proof fn no_relay_without_method(
    session: SessionModel,
    bytes: Seq<u8>,
    events: Seq<EventModel>,
)
    requires
        session.phase == Phase::AwaitGreeting,
        parse_greeting(session.inbox + bytes) is Ok,
        !parse_greeting(session.inbox + bytes).unwrap().0.contains(0u8),
    ensures
        ({
            let (next, action) = session.step(EventModel::Input(bytes));
            &&& next.phase == Phase::Terminal
            &&& !action.starts_relay()
            &&& !action.opens_outbound()
            &&& next.relays(events) == 0
            &&& next.openings(events) == 0
            &&& next.run(events) == next
        }),
{
    greeting_decides_method(session, bytes);
    ended_session_stays_quiet(session.step(EventModel::Input(bytes)).0, events);
}

} // verus!
