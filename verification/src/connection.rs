//! The life of one connection.
//!
//! A connection is a value that its supervisor owns alone. The supervisor
//! does the waiting (peeks, the lookup, the connect, the relay) and reports
//! what came of it as an [`Event`]; the connection answers with the next
//! thing to do, an [`Action`]. Nothing here is shared between connections.

use crate::failure::Failure;
use crate::handshake::{
    as_str, decoded_host, frames_handshake, host_in_handshake, host_view, read_host, record_body,
};
use crate::peek::{check_peek, peek_outcome};
use crate::record::{
    read_record_header, record_header, RecordHeader, HANDSHAKE_MAX_LENGTH, RECORD_HEADER_LENGTH,
};
use crate::relay::RelayStatus;
use crate::resolve::{first_address, lookup_key, lookup_key_of, select_address, SocketAddress};
use vstd::prelude::*;
use vstd::slice::slice_subrange;

verus! {

/// Where a connection stands in its life.
#[derive(Clone, Copy, Debug, PartialEq, Eq, Structural)]
pub enum Lifecycle {
    /// Taken from the listener; nothing asked of it yet.
    Accepted,
    /// Waiting for the record header to be peeked.
    Sniffing,
    /// Waiting for the whole handshake to be peeked and read.
    Parsing,
    /// Waiting for the host name to resolve.
    Resolving,
    /// Waiting for the backend to accept.
    Connecting,
    /// Relaying bytes both ways.
    Splicing,
    /// Relayed to the end and torn down.
    Closed,
    /// Dropped on a failure.
    Failed,
}

impl Lifecycle {
    /// The place of a state in the order in which states are passed through.
    pub open spec fn rank(self) -> nat {
        match self {
            Lifecycle::Accepted => 0,
            Lifecycle::Sniffing => 1,
            Lifecycle::Parsing => 2,
            Lifecycle::Resolving => 3,
            Lifecycle::Connecting => 4,
            Lifecycle::Splicing => 5,
            Lifecycle::Closed => 6,
            Lifecycle::Failed => 7,
        }
    }

    /// True for the two states that nothing leads out of.
    pub open spec fn is_terminal(self) -> bool {
        self == Lifecycle::Closed || self == Lifecycle::Failed
    }

    /// True where a connection in this state can be dropped for `reason`.
    /// Each state has its own failures, and a closed or failed connection
    /// has none left.
    pub open spec fn raises(self, reason: Failure) -> bool {
        match self {
            Lifecycle::Accepted => reason == (Failure::ShortPeek {
                wanted: RECORD_HEADER_LENGTH,
                got: 0,
            }),
            Lifecycle::Sniffing => match reason {
                Failure::ShortPeek { wanted, .. } => wanted == RECORD_HEADER_LENGTH,
                Failure::NotAHandshake => true,
                Failure::HandshakeTooLarge { declared } => HANDSHAKE_MAX_LENGTH < declared
                    <= u16::MAX,
                _ => false,
            },
            Lifecycle::Parsing => match reason {
                Failure::ShortPeek { wanted, .. } => RECORD_HEADER_LENGTH <= wanted
                    <= RECORD_HEADER_LENGTH + HANDSHAKE_MAX_LENGTH,
                Failure::NotClientHello => true,
                Failure::MissingSNI => true,
                Failure::UnsupportedSNIType => true,
                _ => false,
            },
            Lifecycle::Resolving => reason == Failure::ResolutionFailed,
            Lifecycle::Connecting => reason == Failure::ConnectFailed,
            Lifecycle::Splicing => reason == Failure::RelayFailed,
            Lifecycle::Closed => false,
            Lifecycle::Failed => false,
        }
    }
}

/// What the supervisor reports to a connection.
#[derive(Debug, PartialEq, Eq)]
pub enum Event {
    /// The supervisor is ready to drive the connection.
    Start,
    /// A peek handed back these bytes.
    Peeked(Vec<u8>),
    /// The inbound stream could not be peeked at.
    PeekFailed,
    /// The lookup returned these addresses, in the resolver's order.
    Resolved(Vec<SocketAddress>),
    /// The lookup failed.
    ResolveFailed,
    /// The backend accepted the outbound connection.
    Connected,
    /// The outbound connection could not be opened.
    ConnectFailed,
    /// Both directions of the relay ended cleanly.
    RelayFinished,
    /// The relay broke down.
    RelayFailed,
}

/// An event as contracts see it.
pub enum EventView {
    Start,
    Peeked(Seq<u8>),
    PeekFailed,
    Resolved(Seq<SocketAddress>),
    ResolveFailed,
    Connected,
    ConnectFailed,
    RelayFinished,
    RelayFailed,
}

impl View for Event {
    type V = EventView;

    open spec fn view(&self) -> EventView {
        match self {
            Event::Start => EventView::Start,
            Event::Peeked(bytes) => EventView::Peeked(bytes@),
            Event::PeekFailed => EventView::PeekFailed,
            Event::Resolved(addresses) => EventView::Resolved(addresses@),
            Event::ResolveFailed => EventView::ResolveFailed,
            Event::Connected => EventView::Connected,
            Event::ConnectFailed => EventView::ConnectFailed,
            Event::RelayFinished => EventView::RelayFinished,
            Event::RelayFailed => EventView::RelayFailed,
        }
    }
}

/// The event that reports how a relay stood when it stopped: finished where
/// it had completed, failed otherwise.
pub open spec fn relay_outcome(status: RelayStatus) -> EventView {
    if status == RelayStatus::Completed {
        EventView::RelayFinished
    } else {
        EventView::RelayFailed
    }
}

/// Makes the event that reports a stopped relay. A relay that stopped before
/// both directions had ended counts as failed.
pub fn relay_event(status: RelayStatus) -> (event: Event)
    ensures
        event@ == relay_outcome(status),
{
    if status == RelayStatus::Completed {
        Event::RelayFinished
    } else {
        Event::RelayFailed
    }
}

/// What a connection asks of its supervisor.
#[derive(Debug, PartialEq, Eq)]
pub enum Action {
    /// Peek exactly this many bytes at the front of the inbound stream.
    Peek(usize),
    /// Look this key up.
    Resolve(String),
    /// Open the outbound connection to this address.
    Connect(SocketAddress),
    /// Relay bytes between the two connections until both directions end.
    Relay,
    /// Tear the connection down; it ran to its end.
    Close,
    /// Close whatever is open, without a word to the peer, and report the
    /// failure.
    Abort(Failure),
}

/// An action as contracts see it.
pub enum ActionView {
    Peek(usize),
    Resolve(Seq<char>),
    Connect(SocketAddress),
    Relay,
    Close,
    Abort(Failure),
}

impl View for Action {
    type V = ActionView;

    open spec fn view(&self) -> ActionView {
        match self {
            Action::Peek(size) => ActionView::Peek(*size),
            Action::Resolve(key) => ActionView::Resolve(key@),
            Action::Connect(address) => ActionView::Connect(*address),
            Action::Relay => ActionView::Relay,
            Action::Close => ActionView::Close,
            Action::Abort(failure) => ActionView::Abort(*failure),
        }
    }
}

/// A lifecycle state together with what the connection has learnt by then.
enum Stage {
    Accepted,
    Sniffing,
    Parsing { header: RecordHeader },
    Resolving { host: String },
    Connecting { host: String, outbound: SocketAddress },
    Splicing { host: String, outbound: SocketAddress },
    Closed { host: String, outbound: SocketAddress },
    Failed {
        reason: Failure,
        during: Lifecycle,
        known_host: Option<String>,
        known_outbound: Option<SocketAddress>,
    },
}

/// A stage as contracts see it.
pub enum StageView {
    Accepted,
    Sniffing,
    /// The record header is known.
    Parsing { header: RecordHeader },
    /// The host name is known.
    Resolving { host: Seq<char> },
    /// The backend's address is known.
    Connecting { host: Seq<char>, outbound: SocketAddress },
    Splicing { host: Seq<char>, outbound: SocketAddress },
    Closed { host: Seq<char>, outbound: SocketAddress },
    /// The failure, the state in which it struck, and what was known of the
    /// backend by then.
    Failed {
        reason: Failure,
        during: Lifecycle,
        known_host: Option<Seq<char>>,
        known_outbound: Option<SocketAddress>,
    },
}

impl StageView {
    /// The lifecycle state of a stage.
    pub open spec fn lifecycle(self) -> Lifecycle {
        match self {
            StageView::Accepted => Lifecycle::Accepted,
            StageView::Sniffing => Lifecycle::Sniffing,
            StageView::Parsing { .. } => Lifecycle::Parsing,
            StageView::Resolving { .. } => Lifecycle::Resolving,
            StageView::Connecting { .. } => Lifecycle::Connecting,
            StageView::Splicing { .. } => Lifecycle::Splicing,
            StageView::Closed { .. } => Lifecycle::Closed,
            StageView::Failed { .. } => Lifecycle::Failed,
        }
    }

    /// The record header, while the handshake it announces is awaited.
    pub open spec fn header(self) -> Option<RecordHeader> {
        match self {
            StageView::Parsing { header } => Some(header),
            _ => None,
        }
    }

    /// The host name, from the moment it is known.
    pub open spec fn host(self) -> Option<Seq<char>> {
        match self {
            StageView::Resolving { host } => Some(host),
            StageView::Connecting { host, .. } => Some(host),
            StageView::Splicing { host, .. } => Some(host),
            StageView::Closed { host, .. } => Some(host),
            StageView::Failed { known_host, .. } => known_host,
            _ => None,
        }
    }

    /// The backend's address, from the moment it is known.
    pub open spec fn outbound(self) -> Option<SocketAddress> {
        match self {
            StageView::Connecting { outbound, .. } => Some(outbound),
            StageView::Splicing { outbound, .. } => Some(outbound),
            StageView::Closed { outbound, .. } => Some(outbound),
            StageView::Failed { known_outbound, .. } => known_outbound,
            _ => None,
        }
    }

    /// Why the connection was dropped, once it was.
    pub open spec fn failure(self) -> Option<Failure> {
        match self {
            StageView::Failed { reason, .. } => Some(reason),
            _ => None,
        }
    }

    /// The state in which the connection was dropped, once it was.
    pub open spec fn failed_during(self) -> Option<Lifecycle> {
        match self {
            StageView::Failed { during, .. } => Some(during),
            _ => None,
        }
    }

    /// What holds of every stage a connection can be in. A header that is
    /// kept announces a handshake within the maximum size. A failure struck
    /// in a state that raises it, and the connection still knows the host
    /// and the backend's address if it knew them then.
    pub open spec fn well_formed(self) -> bool {
        match self {
            StageView::Parsing { header } => header.admitted_length() is Ok,
            StageView::Failed { reason, during, known_host, known_outbound } => {
                &&& during.raises(reason)
                &&& known_host is Some <==> during.rank() >= Lifecycle::Resolving.rank()
                &&& known_outbound is Some <==> during.rank() >= Lifecycle::Connecting.rank()
            },
            _ => true,
        }
    }
}

/// The characters of a string that may be missing.
pub open spec fn text_view(text: Option<String>) -> Option<Seq<char>> {
    match text {
        Some(text) => Some(text@),
        None => None,
    }
}

impl View for Stage {
    type V = StageView;

    closed spec fn view(&self) -> StageView {
        match self {
            Stage::Accepted => StageView::Accepted,
            Stage::Sniffing => StageView::Sniffing,
            Stage::Parsing { header } => StageView::Parsing { header: *header },
            Stage::Resolving { host } => StageView::Resolving { host: host@ },
            Stage::Connecting { host, outbound } => StageView::Connecting {
                host: host@,
                outbound: *outbound,
            },
            Stage::Splicing { host, outbound } => StageView::Splicing {
                host: host@,
                outbound: *outbound,
            },
            Stage::Closed { host, outbound } => StageView::Closed {
                host: host@,
                outbound: *outbound,
            },
            Stage::Failed { reason, during, known_host, known_outbound } => StageView::Failed {
                reason: *reason,
                during: *during,
                known_host: text_view(*known_host),
                known_outbound: *known_outbound,
            },
        }
    }
}

/// What the first peek comes to: the record header, where exactly five bytes
/// came back and they announce a handshake of acceptable size.
pub open spec fn sniffed(bytes: Seq<u8>) -> Result<RecordHeader, Failure> {
    match peek_outcome(bytes.len(), RECORD_HEADER_LENGTH) {
        Err(failure) => Err(failure),
        Ok(_) => match record_header(bytes).admitted_length() {
            Err(failure) => Err(failure),
            Ok(_) => Ok(record_header(bytes)),
        },
    }
}

/// The number of bytes the second peek asks for: the header and the body it
/// announces.
pub open spec fn record_length(header: RecordHeader) -> usize {
    (RECORD_HEADER_LENGTH + header.length) as usize
}

/// What the second peek comes to: the host name, where the whole record came
/// back and its body is a ClientHello that names a host. The header's bytes
/// are not judged again.
pub open spec fn parsed(header: RecordHeader, bytes: Seq<u8>) -> Result<Seq<char>, Failure> {
    match peek_outcome(bytes.len(), record_length(header)) {
        Err(failure) => Err(failure),
        Ok(_) => host_in_handshake(record_body(bytes, header.length as usize), header.version),
    }
}

/// Judges the bytes of the first peek.
pub fn sniff(bytes: &[u8]) -> (result: Result<RecordHeader, Failure>)
    ensures
        result == sniffed(bytes@),
{
    match check_peek(bytes, RECORD_HEADER_LENGTH) {
        Err(failure) => Err(failure),
        Ok(_) => match read_record_header(bytes) {
            Err(failure) => Err(failure),
            Ok(header) => match header.handshake_length() {
                Err(failure) => Err(failure),
                Ok(_) => Ok(header),
            },
        },
    }
}

/// Judges the bytes of the second peek, for the header the first one gave.
pub fn parse(header: RecordHeader, bytes: &[u8]) -> (result: Result<String, Failure>)
    ensures
        host_view(result) == parsed(header, bytes@),
{
    let wanted: usize = RECORD_HEADER_LENGTH + header.length as usize;
    match check_peek(bytes, wanted) {
        Err(failure) => Err(failure),
        Ok(_) => {
            let body = slice_subrange(bytes, RECORD_HEADER_LENGTH, wanted);
            read_host(body, header.version)
        },
    }
}

/// A connection as contracts see it.
pub struct ConnectionView {
    /// The peer's address.
    pub inbound: SocketAddress,
    /// The identifier that tags the connection's diagnostics, if it has one.
    pub correlation_id: Option<u128>,
    pub stage: StageView,
}

impl ConnectionView {
    /// The connection moved on to `stage`, with `action` to be done next.
    pub open spec fn proceed(self, stage: StageView, action: ActionView) -> (
        ConnectionView,
        ActionView,
    ) {
        (ConnectionView { stage, ..self }, action)
    }

    /// The connection dropped for `reason`, keeping what it knew.
    pub open spec fn fail(self, reason: Failure) -> (ConnectionView, ActionView) {
        (
            ConnectionView {
                stage: StageView::Failed {
                    reason,
                    during: self.stage.lifecycle(),
                    known_host: self.stage.host(),
                    known_outbound: self.stage.outbound(),
                },
                ..self
            },
            ActionView::Abort(reason),
        )
    }

    /// The connection after `event`, and what it asks for next.
    ///
    /// Each state waits for one event. When that event brings what the state
    /// needs, the connection moves on to the next state. When it does not, or
    /// when any other event arrives, the connection fails with the failure
    /// of the step that was pending. A closed or failed connection stays as
    /// it is.
    pub open spec fn step(self, event: EventView) -> (ConnectionView, ActionView) {
        match self.stage {
            StageView::Accepted => match event {
                EventView::Start => self.proceed(
                    StageView::Sniffing,
                    ActionView::Peek(RECORD_HEADER_LENGTH),
                ),
                _ => self.fail(Failure::ShortPeek { wanted: RECORD_HEADER_LENGTH, got: 0 }),
            },
            StageView::Sniffing => match event {
                EventView::Peeked(bytes) => match sniffed(bytes) {
                    Ok(header) => self.proceed(
                        StageView::Parsing { header },
                        ActionView::Peek(record_length(header)),
                    ),
                    Err(failure) => self.fail(failure),
                },
                _ => self.fail(Failure::ShortPeek { wanted: RECORD_HEADER_LENGTH, got: 0 }),
            },
            StageView::Parsing { header } => match event {
                EventView::Peeked(bytes) => match parsed(header, bytes) {
                    Ok(host) => self.proceed(
                        StageView::Resolving { host },
                        ActionView::Resolve(lookup_key_of(host)),
                    ),
                    Err(failure) => self.fail(failure),
                },
                _ => self.fail(Failure::ShortPeek { wanted: record_length(header), got: 0 }),
            },
            StageView::Resolving { host } => match event {
                EventView::Resolved(addresses) => match first_address(addresses) {
                    Ok(outbound) => self.proceed(
                        StageView::Connecting { host, outbound },
                        ActionView::Connect(outbound),
                    ),
                    Err(failure) => self.fail(failure),
                },
                _ => self.fail(Failure::ResolutionFailed),
            },
            StageView::Connecting { host, outbound } => match event {
                EventView::Connected => self.proceed(
                    StageView::Splicing { host, outbound },
                    ActionView::Relay,
                ),
                _ => self.fail(Failure::ConnectFailed),
            },
            StageView::Splicing { host, outbound } => match event {
                EventView::RelayFinished => self.proceed(
                    StageView::Closed { host, outbound },
                    ActionView::Close,
                ),
                _ => self.fail(Failure::RelayFailed),
            },
            StageView::Closed { .. } => (self, ActionView::Close),
            StageView::Failed { reason, .. } => (self, ActionView::Abort(reason)),
        }
    }

    /// The connection after a whole run of events, taken in order.
    pub open spec fn after(self, events: Seq<EventView>) -> ConnectionView
        decreases events.len(),
    {
        if events.len() == 0 {
            self
        } else {
            self.after(events.drop_last()).step(events.last()).0
        }
    }
}

/// True of the numbers that stand for a random (version 4) UUID: the version
/// field holds 4 and the variant field starts with the bits 1 0.
pub open spec fn is_random_uuid(id: u128) -> bool {
    id & 0x0000_0000_0000_f000_c000_0000_0000_0000 == 0x0000_0000_0000_4000_8000_0000_0000_0000
}

/// uuid's `Uuid::new_v4`, as the number that `Uuid::as_u128` gives for it.
/// The value is drawn at random, so two calls differ; the contract states
/// only the version and variant bits that every such UUID carries.
#[verifier::external_body]
fn random_uuid() -> (id: u128)
    ensures
        is_random_uuid(id),
{
    uuid::Uuid::new_v4().as_u128()
}

/// One inbound connection on its way to a backend.
pub struct Connection {
    inbound: SocketAddress,
    correlation_id: Option<u128>,
    stage: Stage,
}

impl View for Connection {
    type V = ConnectionView;

    closed spec fn view(&self) -> ConnectionView {
        ConnectionView {
            inbound: self.inbound,
            correlation_id: self.correlation_id,
            stage: self.stage@,
        }
    }
}

impl Connection {
    #[verifier::type_invariant]
    spec fn well_formed(self) -> bool {
        self.stage@.well_formed()
    }

    /// A connection from `inbound` that was just accepted, tagged with
    /// `correlation_id` or with nothing.
    pub fn tagged(inbound: SocketAddress, correlation_id: Option<u128>) -> (connection: Connection)
        ensures
            connection@ == (ConnectionView {
                inbound,
                correlation_id,
                stage: StageView::Accepted,
            }),
    {
        Connection { inbound, correlation_id, stage: Stage::Accepted }
    }

    /// A connection from `inbound` that was just accepted. It is given a
    /// fresh random identifier where `diagnostics` says that its diagnostics
    /// will be written at all, and none otherwise.
    pub fn accept(inbound: SocketAddress, diagnostics: bool) -> (connection: Connection)
        ensures
            connection@.inbound == inbound,
            connection@.stage == StageView::Accepted,
            connection@.correlation_id is Some <==> diagnostics,
            connection@.correlation_id matches Some(id) ==> is_random_uuid(id),
    {
        if diagnostics {
            Connection::tagged(inbound, Some(random_uuid()))
        } else {
            Connection::tagged(inbound, None)
        }
    }

    fn moved(
        inbound: SocketAddress,
        correlation_id: Option<u128>,
        stage: Stage,
        action: Action,
    ) -> (next: (Connection, Action))
        requires
            stage@.well_formed(),
        ensures
            next.0@ == (ConnectionView { inbound, correlation_id, stage: stage@ }),
            next.1@ == action@,
    {
        (Connection { inbound, correlation_id, stage }, action)
    }

    fn dropped(
        inbound: SocketAddress,
        correlation_id: Option<u128>,
        reason: Failure,
        during: Lifecycle,
        known_host: Option<String>,
        known_outbound: Option<SocketAddress>,
    ) -> (next: (Connection, Action))
        requires
            (StageView::Failed {
                reason,
                during,
                known_host: text_view(known_host),
                known_outbound,
            }).well_formed(),
        ensures
            next.0@ == (ConnectionView {
                inbound,
                correlation_id,
                stage: StageView::Failed {
                    reason,
                    during,
                    known_host: text_view(known_host),
                    known_outbound,
                },
            }),
            next.1@ == ActionView::Abort(reason),
    {
        let stage = Stage::Failed { reason, during, known_host, known_outbound };
        (Connection { inbound, correlation_id, stage }, Action::Abort(reason))
    }

    /// Takes `event` in and says what to do next.
    pub fn step(self, event: Event) -> (next: (Connection, Action))
        ensures
            (next.0@, next.1@) == self@.step(event@),
            next.0@.stage.well_formed(),
    {
        proof {
            use_type_invariant(&self);
            lemma_step_keeps_well_formed(self@, event@);
        }
        let Connection { inbound, correlation_id, stage } = self;
        match stage {
            Stage::Accepted => match event {
                Event::Start => Self::moved(
                    inbound,
                    correlation_id,
                    Stage::Sniffing,
                    Action::Peek(RECORD_HEADER_LENGTH),
                ),
                _ => Self::dropped(
                    inbound,
                    correlation_id,
                    Failure::ShortPeek { wanted: RECORD_HEADER_LENGTH, got: 0 },
                    Lifecycle::Accepted,
                    None,
                    None,
                ),
            },
            Stage::Sniffing => {
                let outcome = match event {
                    Event::Peeked(bytes) => sniff(bytes.as_slice()),
                    _ => Err(Failure::ShortPeek { wanted: RECORD_HEADER_LENGTH, got: 0 }),
                };
                match outcome {
                    Ok(header) => {
                        let size: usize = RECORD_HEADER_LENGTH + header.length as usize;
                        Self::moved(
                            inbound,
                            correlation_id,
                            Stage::Parsing { header },
                            Action::Peek(size),
                        )
                    },
                    Err(reason) => Self::dropped(
                        inbound,
                        correlation_id,
                        reason,
                        Lifecycle::Sniffing,
                        None,
                        None,
                    ),
                }
            },
            Stage::Parsing { header } => {
                let outcome = match event {
                    Event::Peeked(bytes) => parse(header, bytes.as_slice()),
                    _ => {
                        let wanted: usize = RECORD_HEADER_LENGTH + header.length as usize;
                        Err(Failure::ShortPeek { wanted, got: 0 })
                    },
                };
                match outcome {
                    Ok(host) => {
                        let key = lookup_key(host.as_str());
                        Self::moved(
                            inbound,
                            correlation_id,
                            Stage::Resolving { host },
                            Action::Resolve(key),
                        )
                    },
                    Err(reason) => Self::dropped(
                        inbound,
                        correlation_id,
                        reason,
                        Lifecycle::Parsing,
                        None,
                        None,
                    ),
                }
            },
            Stage::Resolving { host } => {
                let outcome = match event {
                    Event::Resolved(addresses) => select_address(&addresses),
                    _ => Err(Failure::ResolutionFailed),
                };
                match outcome {
                    Ok(outbound) => Self::moved(
                        inbound,
                        correlation_id,
                        Stage::Connecting { host, outbound },
                        Action::Connect(outbound),
                    ),
                    Err(reason) => Self::dropped(
                        inbound,
                        correlation_id,
                        reason,
                        Lifecycle::Resolving,
                        Some(host),
                        None,
                    ),
                }
            },
            Stage::Connecting { host, outbound } => match event {
                Event::Connected => Self::moved(
                    inbound,
                    correlation_id,
                    Stage::Splicing { host, outbound },
                    Action::Relay,
                ),
                _ => Self::dropped(
                    inbound,
                    correlation_id,
                    Failure::ConnectFailed,
                    Lifecycle::Connecting,
                    Some(host),
                    Some(outbound),
                ),
            },
            Stage::Splicing { host, outbound } => match event {
                Event::RelayFinished => Self::moved(
                    inbound,
                    correlation_id,
                    Stage::Closed { host, outbound },
                    Action::Close,
                ),
                _ => Self::dropped(
                    inbound,
                    correlation_id,
                    Failure::RelayFailed,
                    Lifecycle::Splicing,
                    Some(host),
                    Some(outbound),
                ),
            },
            Stage::Closed { host, outbound } => Self::moved(
                inbound,
                correlation_id,
                Stage::Closed { host, outbound },
                Action::Close,
            ),
            Stage::Failed { reason, during, known_host, known_outbound } => Self::dropped(
                inbound,
                correlation_id,
                reason,
                during,
                known_host,
                known_outbound,
            ),
        }
    }

    /// The lifecycle state.
    pub fn state(&self) -> (state: Lifecycle)
        ensures
            state == self@.stage.lifecycle(),
            self@.stage.well_formed(),
    {
        proof {
            use_type_invariant(self);
        }
        match &self.stage {
            Stage::Accepted => Lifecycle::Accepted,
            Stage::Sniffing => Lifecycle::Sniffing,
            Stage::Parsing { .. } => Lifecycle::Parsing,
            Stage::Resolving { .. } => Lifecycle::Resolving,
            Stage::Connecting { .. } => Lifecycle::Connecting,
            Stage::Splicing { .. } => Lifecycle::Splicing,
            Stage::Closed { .. } => Lifecycle::Closed,
            Stage::Failed { .. } => Lifecycle::Failed,
        }
    }

    /// The peer's address.
    pub fn inbound(&self) -> (inbound: SocketAddress)
        ensures
            inbound == self@.inbound,
    {
        self.inbound
    }

    /// The identifier that tags this connection's diagnostics, if it was
    /// given one.
    pub fn correlation_id(&self) -> (id: Option<u128>)
        ensures
            id == self@.correlation_id,
    {
        self.correlation_id
    }

    /// The record header, while the handshake it announces is awaited.
    pub fn header(&self) -> (header: Option<RecordHeader>)
        ensures
            header == self@.stage.header(),
    {
        match &self.stage {
            Stage::Parsing { header } => Some(*header),
            _ => None,
        }
    }

    /// The host name the client asked for, once it is known.
    pub fn host(&self) -> (host: Option<String>)
        ensures
            text_view(host) == self@.stage.host(),
    {
        match &self.stage {
            Stage::Resolving { host } => Some(as_str(host.as_str())),
            Stage::Connecting { host, .. } => Some(as_str(host.as_str())),
            Stage::Splicing { host, .. } => Some(as_str(host.as_str())),
            Stage::Closed { host, .. } => Some(as_str(host.as_str())),
            Stage::Failed { known_host: Some(host), .. } => Some(as_str(host.as_str())),
            _ => None,
        }
    }

    /// The backend's address, once it is known.
    pub fn outbound(&self) -> (outbound: Option<SocketAddress>)
        ensures
            outbound == self@.stage.outbound(),
    {
        match &self.stage {
            Stage::Connecting { outbound, .. } => Some(*outbound),
            Stage::Splicing { outbound, .. } => Some(*outbound),
            Stage::Closed { outbound, .. } => Some(*outbound),
            Stage::Failed { known_outbound, .. } => *known_outbound,
            _ => None,
        }
    }

    /// Why the connection was dropped, if it was.
    pub fn failure(&self) -> (failure: Option<Failure>)
        ensures
            failure == self@.stage.failure(),
    {
        match &self.stage {
            Stage::Failed { reason, .. } => Some(*reason),
            _ => None,
        }
    }

    /// The state in which the connection was dropped, if it was.
    pub fn failed_during(&self) -> (during: Option<Lifecycle>)
        ensures
            during == self@.stage.failed_during(),
    {
        match &self.stage {
            Stage::Failed { during, .. } => Some(*during),
            _ => None,
        }
    }
}

/// One step takes a connection that is neither closed nor failed to a state
/// further on in the lifecycle, and leaves a closed or failed one as it is.
pub proof fn lemma_step_moves_forward(connection: ConnectionView, event: EventView)
    ensures
        !connection.stage.lifecycle().is_terminal() ==> connection.step(
            event,
        ).0.stage.lifecycle().rank() > connection.stage.lifecycle().rank(),
        connection.stage.lifecycle().is_terminal() ==> connection.step(event).0 == connection,
{
}

/// No state is revisited: of two moments in a run of events, the later finds
/// the connection further on in the lifecycle, unless the earlier found it
/// closed or failed already, and then it has not changed at all.
pub proof fn lemma_no_state_is_revisited(
    connection: ConnectionView,
    events: Seq<EventView>,
    earlier: int,
    later: int,
)
    requires
        0 <= earlier < later <= events.len(),
    ensures
        ({
            let before = connection.after(events.take(earlier));
            let after = connection.after(events.take(later));
            if before.stage.lifecycle().is_terminal() {
                after == before
            } else {
                after.stage.lifecycle().rank() > before.stage.lifecycle().rank()
            }
        }),
    decreases later,
{
    let previous = connection.after(events.take(later - 1));
    assert(events.take(later).drop_last() =~= events.take(later - 1));
    lemma_step_moves_forward(previous, events[later - 1]);
    if earlier < later - 1 {
        lemma_no_state_is_revisited(connection, events, earlier, later - 1);
    }
}

/// A step keeps a connection well formed: a header it keeps is one it
/// admitted, and a failure it records is one of the state it struck in.
pub proof fn lemma_step_keeps_well_formed(connection: ConnectionView, event: EventView)
    requires
        connection.stage.well_formed(),
    ensures
        connection.step(event).0.stage.well_formed(),
{
}

/// A step leaves the peer's address and the correlation identifier alone.
pub proof fn lemma_step_keeps_identity(connection: ConnectionView, event: EventView)
    ensures
        connection.step(event).0.inbound == connection.inbound,
        connection.step(event).0.correlation_id == connection.correlation_id,
{
}

/// A step asks to abort exactly when it leaves the connection failed, and
/// then for the reason the connection records.
pub proof fn lemma_abort_means_failed(connection: ConnectionView, event: EventView)
    ensures
        connection.step(event).1 is Abort <==> connection.step(event).0.stage is Failed,
        connection.step(event).1 matches ActionView::Abort(reason) ==> connection.step(
            event,
        ).0.stage.failure() == Some(reason),
{
}

/// No peek is ever asked for more than a record header and the largest
/// handshake, whatever the peer sent.
pub proof fn lemma_peeks_are_bounded(connection: ConnectionView, event: EventView)
    ensures
        connection.step(event).1 matches ActionView::Peek(size) ==> size <= RECORD_HEADER_LENGTH
            + HANDSHAKE_MAX_LENGTH,
{
}

/// A header that announces too large a handshake fails the connection at
/// once: the step asks for an abort, not for a peek of the announced size.
pub proof fn lemma_oversized_handshake_is_never_peeked(
    connection: ConnectionView,
    header: Seq<u8>,
)
    requires
        connection.stage is Sniffing,
        header.len() == RECORD_HEADER_LENGTH,
        header[0] == 0x16,
        header[3] * 256 + header[4] > HANDSHAKE_MAX_LENGTH,
    ensures
        connection.step(EventView::Peeked(header)).1 == ActionView::Abort(
            Failure::HandshakeTooLarge { declared: (header[3] * 256 + header[4]) as usize },
        ),
{
}

/// Routing: an accepted connection whose peer sends exactly one framed
/// ClientHello is asked to peek the header, then the whole record, then to
/// look up the name the ClientHello decodes to, and it connects to the first
/// address the lookup returns and to no other.
pub proof fn lemma_connection_follows_its_server_name(
    connection: ConnectionView,
    record: Seq<u8>,
    host: Seq<char>,
    addresses: Seq<SocketAddress>,
)
    requires
        connection.stage is Accepted,
        frames_handshake(record),
        record.len() == RECORD_HEADER_LENGTH + record_header(record).length,
        decoded_host(record) == Ok::<Seq<char>, Failure>(host),
        addresses.len() > 0,
    ensures
        ({
            let started = connection.step(EventView::Start);
            let sniffed = started.0.step(
                EventView::Peeked(record.take(RECORD_HEADER_LENGTH as int)),
            );
            let parsed = sniffed.0.step(EventView::Peeked(record));
            let resolved = parsed.0.step(EventView::Resolved(addresses));
            &&& started.1 == ActionView::Peek(RECORD_HEADER_LENGTH)
            &&& sniffed.1 == ActionView::Peek(record.len() as usize)
            &&& parsed.1 == ActionView::Resolve(lookup_key_of(host))
            &&& resolved.1 == ActionView::Connect(addresses[0])
            &&& resolved.0.stage == (StageView::Connecting { host, outbound: addresses[0] })
        }),
{
}

} // verus!
