//! The life of one connection: what happens to it, and what is done about it.
//!
//! A connection serves one batch of subscriptions. The code that owns the transport tells
//! [`Connection::step`] what happened, and does what the step answers; the decisions are
//! all taken here.

use crate::error::SocketError;
use vstd::prelude::*;

verus! {

/// Where the life of a connection stands.
#[derive(Copy, Clone, Eq, PartialEq, Debug, Structural)]
pub enum ConnectionState {
    /// The batch is being checked and spelled; no transport is open.
    Building,
    /// The transport is being opened and the requests are being sent. `retry` is 0 for
    /// the first try and counts the tries after a disconnect.
    Connecting { retry: u32 },
    /// Messages are received, transformed and handed on.
    Streaming,
    /// The transport is gone and try number `retry` waits for its time.
    Reconnecting { retry: u32 },
    /// The connection has ended and holds no transport.
    Closed,
}

/// What happened to a connection.
#[derive(Copy, Clone, Eq, PartialEq, Debug, Structural)]
pub enum ConnectionEvent {
    /// Every subscription of the batch was accepted.
    Validated,
    /// The batch was refused.
    Refused,
    /// The transport is open and the requests are sent.
    Connected,
    /// The transport could not be opened, or the requests could not be sent.
    ConnectFailed,
    /// A message arrived and was transformed.
    Message,
    /// A message arrived that could not be decoded, or that nothing subscribed to.
    MessageFailed,
    /// The transport failed or was closed by the other side. `recoverable` tells whether
    /// connecting again can help.
    Disconnected { recoverable: bool },
    /// The time to wait before the next try has passed.
    BackoffElapsed,
    /// The consumer has let go of the connection's events.
    ConsumerGone,
}

impl ConnectionEvent {
    /// What the arrival of a message that gave `events` is to its connection: a message
    /// that was transformed if every one of them is an event, and a message that failed
    /// if one of them is an error.
    pub fn of_message<T>(events: &Vec<Result<T, SocketError>>) -> (event: ConnectionEvent)
        ensures
            event == if forall|i: int| 0 <= i < events@.len() ==> (#[trigger] events@[i]) is Ok {
                ConnectionEvent::Message
            } else {
                ConnectionEvent::MessageFailed
            },
    {
        let mut i: usize = 0;
        while i < events.len()
            invariant
                i <= events.len(),
                forall|j: int| 0 <= j < i ==> (#[trigger] events@[j]) is Ok,
            decreases events.len() - i,
        {
            if events[i].is_err() {
                return ConnectionEvent::MessageFailed;
            }
            i += 1;
        }
        ConnectionEvent::Message
    }
}

/// What is to be done about what happened.
#[derive(Copy, Clone, Eq, PartialEq, Debug, Structural)]
pub enum ConnectionAction {
    /// Open the transport and send the requests; then report `Connected` or
    /// `ConnectFailed`.
    Connect,
    /// Receive the first message.
    Receive,
    /// Hand the message's events on and receive the next message.
    Forward,
    /// Report the message's error and receive the next message.
    Skip,
    /// Let go of the transport if one is held, wait `millis` milliseconds, then report
    /// `BackoffElapsed`.
    Backoff { millis: u64 },
    /// Let go of the transport if one is held, and end the events with an error.
    Fail,
    /// Let go of the transport if one is held, and end without a word.
    Release,
    /// Nothing: what happened does not concern a connection in this state.
    Ignore,
}

/// How often and how patiently a lost connection is tried again.
#[derive(Copy, Clone, Eq, PartialEq, Debug, Structural)]
pub struct ReconnectPolicy {
    /// The number of tries after a disconnect; 0 never tries again.
    pub max_retries: u32,
    /// The milliseconds to wait before the first of these tries; doubled for each further
    /// one.
    pub initial_backoff_ms: u64,
    /// The longest wait before a try, in milliseconds.
    pub max_backoff_ms: u64,
}

impl ReconnectPolicy {
    /// The milliseconds to wait before try number `retry`: `initial_backoff_ms` before the
    /// first, twice the last wait before each further one, and never more than
    /// `max_backoff_ms`.
    pub open spec fn spec_backoff(self, retry: nat) -> nat
        decreases retry,
    {
        if retry <= 1 {
            if self.initial_backoff_ms <= self.max_backoff_ms {
                self.initial_backoff_ms as nat
            } else {
                self.max_backoff_ms as nat
            }
        } else {
            let doubled = 2 * self.spec_backoff((retry - 1) as nat);
            if doubled <= self.max_backoff_ms {
                doubled
            } else {
                self.max_backoff_ms as nat
            }
        }
    }

    /// The milliseconds to wait before try number `retry`.
    pub fn backoff(&self, retry: u32) -> (millis: u64)
        ensures
            millis == self.spec_backoff(retry as nat),
            millis <= self.max_backoff_ms,
    {
        let mut millis: u64 = if self.initial_backoff_ms <= self.max_backoff_ms {
            self.initial_backoff_ms
        } else {
            self.max_backoff_ms
        };
        let mut done: u32 = 1;
        while done < retry
            invariant
                1 <= done,
                done <= retry || (retry == 0 && done == 1),
                millis == self.spec_backoff(done as nat),
                millis <= self.max_backoff_ms,
            decreases retry - done,
        {
            millis = if millis <= self.max_backoff_ms / 2 {
                2 * millis
            } else {
                self.max_backoff_ms
            };
            done += 1;
        }
        assert(self.spec_backoff(0) == self.spec_backoff(1));
        millis
    }
}

/// The state that follows `state` when `event` happens, and what is to be done.
pub open spec fn transition(
    policy: ReconnectPolicy,
    state: ConnectionState,
    event: ConnectionEvent,
) -> (ConnectionState, ConnectionAction) {
    match (state, event) {
        (ConnectionState::Closed, _) => (ConnectionState::Closed, ConnectionAction::Ignore),
        (_, ConnectionEvent::ConsumerGone) => (ConnectionState::Closed, ConnectionAction::Release),
        (ConnectionState::Building, ConnectionEvent::Validated) => (
            ConnectionState::Connecting { retry: 0 },
            ConnectionAction::Connect,
        ),
        (ConnectionState::Building, ConnectionEvent::Refused) => (
            ConnectionState::Closed,
            ConnectionAction::Fail,
        ),
        (ConnectionState::Connecting { retry }, ConnectionEvent::Connected) => (
            ConnectionState::Streaming,
            ConnectionAction::Receive,
        ),
        (ConnectionState::Connecting { retry }, ConnectionEvent::ConnectFailed) => if retry
            < policy.max_retries {
            (
                ConnectionState::Reconnecting { retry: (retry + 1) as u32 },
                ConnectionAction::Backoff {
                    millis: policy.spec_backoff((retry + 1) as nat) as u64,
                },
            )
        } else {
            (ConnectionState::Closed, ConnectionAction::Fail)
        },
        (ConnectionState::Streaming, ConnectionEvent::Message) => (
            ConnectionState::Streaming,
            ConnectionAction::Forward,
        ),
        (ConnectionState::Streaming, ConnectionEvent::MessageFailed) => (
            ConnectionState::Streaming,
            ConnectionAction::Skip,
        ),
        (ConnectionState::Streaming, ConnectionEvent::Disconnected { recoverable }) => if
            recoverable && policy.max_retries > 0 {
            (
                ConnectionState::Reconnecting { retry: 1 },
                ConnectionAction::Backoff { millis: policy.spec_backoff(1) as u64 },
            )
        } else {
            (ConnectionState::Closed, ConnectionAction::Fail)
        },
        (ConnectionState::Reconnecting { retry }, ConnectionEvent::BackoffElapsed) => (
            ConnectionState::Connecting { retry },
            ConnectionAction::Connect,
        ),
        _ => (state, ConnectionAction::Ignore),
    }
}

/// Whether `state` counts no more tries than `policy` allows.
pub open spec fn within_policy(policy: ReconnectPolicy, state: ConnectionState) -> bool {
    match state {
        ConnectionState::Connecting { retry } => retry <= policy.max_retries,
        ConnectionState::Reconnecting { retry } => 1 <= retry <= policy.max_retries,
        _ => true,
    }
}

/// Whether a connection in `state` holds a transport or is about to be given one.
pub open spec fn uses_transport(state: ConnectionState) -> bool {
    state is Connecting || state is Streaming
}

/// A wait is never longer than the policy's longest, and no try waits less than the one
/// before it.
pub proof fn lemma_backoff_grows_to_its_bound(policy: ReconnectPolicy, earlier: nat, later: nat)
    requires
        earlier <= later,
    ensures
        policy.spec_backoff(earlier) <= policy.spec_backoff(later) <= policy.max_backoff_ms,
    decreases later,
{
    if later > 1 {
        lemma_backoff_grows_to_its_bound(policy, (later - 1) as nat, (later - 1) as nat);
        if earlier < later {
            lemma_backoff_grows_to_its_bound(policy, earlier, (later - 1) as nat);
        }
    }
}

/// Whatever happens, a connection never counts more tries than its policy allows.
pub proof fn lemma_retries_stay_within_policy(
    policy: ReconnectPolicy,
    state: ConnectionState,
    event: ConnectionEvent,
)
    requires
        within_policy(policy, state),
    ensures
        within_policy(policy, transition(policy, state, event).0),
{
}

/// A closed connection stays closed and asks for nothing.
pub proof fn lemma_closed_is_final(policy: ReconnectPolicy, event: ConnectionEvent)
    ensures
        transition(policy, ConnectionState::Closed, event) == (
            ConnectionState::Closed,
            ConnectionAction::Ignore,
        ),
{
}

/// A message never changes the state of a connection, whether it could be transformed or
/// not: a message that fails is skipped, and the next one is received.
pub proof fn lemma_messages_leave_the_state(
    policy: ReconnectPolicy,
    state: ConnectionState,
    event: ConnectionEvent,
)
    requires
        event == ConnectionEvent::Message || event == ConnectionEvent::MessageFailed,
    ensures
        transition(policy, state, event).0 == state,
        state == ConnectionState::Streaming && event == ConnectionEvent::MessageFailed
            ==> transition(policy, state, event).1 == ConnectionAction::Skip,
{
}

/// No transport is opened for a batch that was not accepted: a connection that is being
/// built is asked to connect when its batch is validated and at no other time, and a
/// refused batch closes it.
pub proof fn lemma_connects_only_once_validated(policy: ReconnectPolicy, event: ConnectionEvent)
    ensures
        transition(policy, ConnectionState::Building, event).1 == ConnectionAction::Connect
            <==> event == ConnectionEvent::Validated,
        uses_transport(transition(policy, ConnectionState::Building, event).0) <==> event
            == ConnectionEvent::Validated,
        event == ConnectionEvent::Refused ==> transition(
            policy,
            ConnectionState::Building,
            event,
        ) == (ConnectionState::Closed, ConnectionAction::Fail),
{
}

/// When the consumer goes, the connection closes and lets go of its transport, whatever
/// state it was in.
pub proof fn lemma_consumer_gone_closes(policy: ReconnectPolicy, state: ConnectionState)
    ensures
        transition(policy, state, ConnectionEvent::ConsumerGone).0 == ConnectionState::Closed,
        state != ConnectionState::Closed ==> transition(
            policy,
            state,
            ConnectionEvent::ConsumerGone,
        ).1 == ConnectionAction::Release,
{
}

/// What a connection is asked to do fits the state it is then in: it ends, with an error
/// or without a word, only by closing; it waits only to be tried again; it connects only
/// while connecting, and receives only while streaming.
pub proof fn lemma_actions_fit_the_state(
    policy: ReconnectPolicy,
    state: ConnectionState,
    event: ConnectionEvent,
)
    ensures
        ({
            let (next, action) = transition(policy, state, event);
            &&& action == ConnectionAction::Fail || action == ConnectionAction::Release ==> next
                == ConnectionState::Closed
            &&& action is Backoff ==> next is Reconnecting
            &&& action == ConnectionAction::Connect ==> next is Connecting
            &&& action == ConnectionAction::Receive || action == ConnectionAction::Forward
                || action == ConnectionAction::Skip ==> next == ConnectionState::Streaming
            &&& action == ConnectionAction::Ignore ==> next == state
        }),
{
}

/// One connection: its state, and the policy by which it is tried again.
#[derive(Copy, Clone, Eq, PartialEq, Debug)]
pub struct Connection {
    state: ConnectionState,
    policy: ReconnectPolicy,
}

impl Connection {
    /// The connection's state.
    pub closed spec fn spec_state(self) -> ConnectionState {
        self.state
    }

    /// The connection's policy.
    pub closed spec fn spec_policy(self) -> ReconnectPolicy {
        self.policy
    }

    /// A connection whose batch is still to be checked.
    pub fn new(policy: ReconnectPolicy) -> (connection: Connection)
        ensures
            connection.spec_state() == ConnectionState::Building,
            connection.spec_policy() == policy,
    {
        Connection { state: ConnectionState::Building, policy }
    }

    /// The connection's state.
    pub fn state(&self) -> (state: ConnectionState)
        ensures
            state == self.spec_state(),
    {
        self.state
    }

    /// The connection's policy.
    pub fn policy(&self) -> (policy: ReconnectPolicy)
        ensures
            policy == self.spec_policy(),
    {
        self.policy
    }

    /// Takes note of `event` and answers what is to be done.
    pub fn step(&mut self, event: ConnectionEvent) -> (action: ConnectionAction)
        ensures
            final(self).spec_policy() == old(self).spec_policy(),
            (final(self).spec_state(), action) == transition(
                old(self).spec_policy(),
                old(self).spec_state(),
                event,
            ),
    {
        let (state, action) = match (self.state, event) {
            (ConnectionState::Closed, _) => (ConnectionState::Closed, ConnectionAction::Ignore),
            (_, ConnectionEvent::ConsumerGone) => (
                ConnectionState::Closed,
                ConnectionAction::Release,
            ),
            (ConnectionState::Building, ConnectionEvent::Validated) => (
                ConnectionState::Connecting { retry: 0 },
                ConnectionAction::Connect,
            ),
            (ConnectionState::Building, ConnectionEvent::Refused) => (
                ConnectionState::Closed,
                ConnectionAction::Fail,
            ),
            (ConnectionState::Connecting { retry }, ConnectionEvent::Connected) => (
                ConnectionState::Streaming,
                ConnectionAction::Receive,
            ),
            (ConnectionState::Connecting { retry }, ConnectionEvent::ConnectFailed) => {
                if retry < self.policy.max_retries {
                    (
                        ConnectionState::Reconnecting { retry: retry + 1 },
                        ConnectionAction::Backoff { millis: self.policy.backoff(retry + 1) },
                    )
                } else {
                    (ConnectionState::Closed, ConnectionAction::Fail)
                }
            },
            (ConnectionState::Streaming, ConnectionEvent::Message) => (
                ConnectionState::Streaming,
                ConnectionAction::Forward,
            ),
            (ConnectionState::Streaming, ConnectionEvent::MessageFailed) => (
                ConnectionState::Streaming,
                ConnectionAction::Skip,
            ),
            (ConnectionState::Streaming, ConnectionEvent::Disconnected { recoverable }) => {
                if recoverable && self.policy.max_retries > 0 {
                    (
                        ConnectionState::Reconnecting { retry: 1 },
                        ConnectionAction::Backoff { millis: self.policy.backoff(1) },
                    )
                } else {
                    (ConnectionState::Closed, ConnectionAction::Fail)
                }
            },
            (ConnectionState::Reconnecting { retry }, ConnectionEvent::BackoffElapsed) => (
                ConnectionState::Connecting { retry },
                ConnectionAction::Connect,
            ),
            (state, _) => (state, ConnectionAction::Ignore),
        };
        self.state = state;
        action
    }
}

} // verus!
