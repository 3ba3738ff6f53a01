//! The decisions of the network tasks: the HTTP task's handling of its
//! socket (accept, read, answer, close), the steps that bring the WiFi
//! station up, and the wait for a DHCP address. The tasks themselves perform
//! the socket, radio and stack operations.
use vstd::prelude::*;

verus! {

/// Size of the buffer that incoming requests are read into.
pub const READ_BUFFER_SIZE: usize = 1024;

/// Port the HTTP task listens on.
pub const HTTP_PORT: u16 = 80;

/// What the HTTP task does after reading from its socket.
#[derive(Debug, Clone, Copy, PartialEq, Eq, Structural)]
pub enum ReadDecision {
    /// The peer closed its side: close the socket and wait for the next connection.
    Close,
    /// Answer the request held in the first bytes of the buffer, this many of them.
    Handle(usize),
    /// Give up on this connection and wait for the next one.
    Stop,
}

/// The decision after a read that returned `read` (`None` when the read failed) into a buffer
/// of `capacity` bytes.
pub open spec fn read_decision(read: Option<usize>, capacity: usize) -> ReadDecision {
    match read {
        None => ReadDecision::Stop,
        Some(n) => if n == 0 {
            ReadDecision::Close
        } else if n <= capacity {
            ReadDecision::Handle(n)
        } else {
            ReadDecision::Stop
        },
    }
}

/// What to do after a read from the socket: close on end of stream, answer the bytes read when
/// they lie within the buffer, give up otherwise.
pub fn after_read(read: Option<usize>, capacity: usize) -> (r: ReadDecision)
    ensures
        r == read_decision(read, capacity),
{
    match read {
        None => ReadDecision::Stop,
        Some(0) => ReadDecision::Close,
        Some(n) => if n <= capacity {
            ReadDecision::Handle(n)
        } else {
            ReadDecision::Stop
        },
    }
}

/// Pause before the station configures itself after it was found connected, in milliseconds.
pub const RECONNECT_DELAY_MS: u64 = 5000;

/// Pause between two attempts to connect, in milliseconds.
pub const CONNECT_RETRY_DELAY_MS: u64 = 1000;

/// Where bringing the WiFi station up stands.
#[derive(Debug, Clone, Copy, PartialEq, Eq, Structural)]
pub enum LinkStep {
    /// Ask whether the station is connected already.
    CheckConnected,
    /// Wait until the station is disconnected.
    AwaitDisconnect,
    /// Pause after the disconnection.
    Settle,
    /// Ask whether the controller is started.
    CheckStarted,
    /// Give the controller the station configuration.
    Configure,
    /// Start the controller.
    Start,
    /// Connect to the access point.
    Connect,
    /// Pause before trying to connect again.
    RetryDelay,
    /// The station is connected.
    Connected,
    /// The controller could not be configured or started.
    Aborted,
}

/// The operation to perform at a step.
#[derive(Debug, Clone, Copy, PartialEq, Eq, Structural)]
pub enum LinkAction {
    QueryConnected,
    WaitForDisconnect,
    Sleep(u64),
    QueryStarted,
    SetConfiguration,
    StartController,
    Connect,
    Finish,
    Abort,
}

/// The operation performed at step `s`.
pub open spec fn link_action_spec(s: LinkStep) -> LinkAction {
    match s {
        LinkStep::CheckConnected => LinkAction::QueryConnected,
        LinkStep::AwaitDisconnect => LinkAction::WaitForDisconnect,
        LinkStep::Settle => LinkAction::Sleep(RECONNECT_DELAY_MS),
        LinkStep::CheckStarted => LinkAction::QueryStarted,
        LinkStep::Configure => LinkAction::SetConfiguration,
        LinkStep::Start => LinkAction::StartController,
        LinkStep::Connect => LinkAction::Connect,
        LinkStep::RetryDelay => LinkAction::Sleep(CONNECT_RETRY_DELAY_MS),
        LinkStep::Connected => LinkAction::Finish,
        LinkStep::Aborted => LinkAction::Abort,
    }
}

/// The step after `s` whose operation answered `ok`: for a query, whether the station is
/// connected or the controller started (an error counts as not started); for an operation,
/// whether it succeeded. Waits and pauses ignore `ok`.
pub open spec fn link_next_spec(s: LinkStep, ok: bool) -> LinkStep {
    match s {
        LinkStep::CheckConnected => if ok {
            LinkStep::AwaitDisconnect
        } else {
            LinkStep::CheckStarted
        },
        LinkStep::AwaitDisconnect => LinkStep::Settle,
        LinkStep::Settle => LinkStep::CheckStarted,
        LinkStep::CheckStarted => if ok {
            LinkStep::Connect
        } else {
            LinkStep::Configure
        },
        LinkStep::Configure => if ok {
            LinkStep::Start
        } else {
            LinkStep::Aborted
        },
        LinkStep::Start => if ok {
            LinkStep::Connect
        } else {
            LinkStep::Aborted
        },
        LinkStep::Connect => if ok {
            LinkStep::Connected
        } else {
            LinkStep::RetryDelay
        },
        LinkStep::RetryDelay => LinkStep::Connect,
        LinkStep::Connected => LinkStep::Connected,
        LinkStep::Aborted => LinkStep::Aborted,
    }
}

/// The operation to perform at step `s`.
pub fn link_action(s: LinkStep) -> (r: LinkAction)
    ensures
        r == link_action_spec(s),
{
    match s {
        LinkStep::CheckConnected => LinkAction::QueryConnected,
        LinkStep::AwaitDisconnect => LinkAction::WaitForDisconnect,
        LinkStep::Settle => LinkAction::Sleep(RECONNECT_DELAY_MS),
        LinkStep::CheckStarted => LinkAction::QueryStarted,
        LinkStep::Configure => LinkAction::SetConfiguration,
        LinkStep::Start => LinkAction::StartController,
        LinkStep::Connect => LinkAction::Connect,
        LinkStep::RetryDelay => LinkAction::Sleep(CONNECT_RETRY_DELAY_MS),
        LinkStep::Connected => LinkAction::Finish,
        LinkStep::Aborted => LinkAction::Abort,
    }
}

/// The step after `s`, whose operation answered `ok`.
pub fn link_next(s: LinkStep, ok: bool) -> (r: LinkStep)
    ensures
        r == link_next_spec(s, ok),
{
    match s {
        LinkStep::CheckConnected => if ok {
            LinkStep::AwaitDisconnect
        } else {
            LinkStep::CheckStarted
        },
        LinkStep::AwaitDisconnect => LinkStep::Settle,
        LinkStep::Settle => LinkStep::CheckStarted,
        LinkStep::CheckStarted => if ok {
            LinkStep::Connect
        } else {
            LinkStep::Configure
        },
        LinkStep::Configure => if ok {
            LinkStep::Start
        } else {
            LinkStep::Aborted
        },
        LinkStep::Start => if ok {
            LinkStep::Connect
        } else {
            LinkStep::Aborted
        },
        LinkStep::Connect => if ok {
            LinkStep::Connected
        } else {
            LinkStep::RetryDelay
        },
        LinkStep::RetryDelay => LinkStep::Connect,
        LinkStep::Connected => LinkStep::Connected,
        LinkStep::Aborted => LinkStep::Aborted,
    }
}

/// Link law: once the station starts connecting it never gives up: from `Connect` or
/// `RetryDelay` every step leads to `Connect`, `RetryDelay` or `Connected`, and only a failure to
/// configure or start the controller aborts.
pub proof fn lemma_link_never_aborts_while_connecting(s: LinkStep, ok: bool)
    ensures
        (s == LinkStep::Connect || s == LinkStep::RetryDelay) ==> {
            let n = link_next_spec(s, ok);
            n == LinkStep::Connect || n == LinkStep::RetryDelay || n == LinkStep::Connected
        },
        link_next_spec(s, ok) == LinkStep::Aborted ==> (s == LinkStep::Configure || s
            == LinkStep::Start || s == LinkStep::Aborted),
{
}


/// Where the HTTP task stands with its socket.
#[derive(Debug, Clone, Copy, PartialEq, Eq, Structural)]
pub enum HttpTaskState {
    /// Waiting for a connection.
    Listening,
    /// Connected: waiting for request bytes.
    Reading,
    /// Answering the request held in this many bytes of the buffer.
    Answering(usize),
    /// The peer closed its side: closing the socket.
    Closing,
    /// Accepting failed: the task is over.
    Ended,
}

/// The operation the HTTP task performs in a state.
#[derive(Debug, Clone, Copy, PartialEq, Eq, Structural)]
pub enum HttpTaskAction {
    Accept,
    Read,
    Answer(usize),
    Close,
    Finish,
}

/// What the operation of the HTTP task gave.
#[derive(Debug, Clone, Copy, PartialEq, Eq, Structural)]
pub enum HttpTaskEvent {
    /// Accepting a connection succeeded or failed.
    Accepted(bool),
    /// A read returned this many bytes, or failed (`None`).
    ReadDone(Option<usize>),
    /// Answering succeeded or failed.
    Answered(bool),
    /// The socket was closed.
    Closed,
}

/// A state holds only request lengths that fit the buffer of `capacity` bytes.
pub open spec fn http_task_wf(s: HttpTaskState, capacity: usize) -> bool {
    s matches HttpTaskState::Answering(n) ==> n <= capacity
}

/// The operation performed in state `s`.
pub open spec fn http_task_action_spec(s: HttpTaskState) -> HttpTaskAction {
    match s {
        HttpTaskState::Listening => HttpTaskAction::Accept,
        HttpTaskState::Reading => HttpTaskAction::Read,
        HttpTaskState::Answering(n) => HttpTaskAction::Answer(n),
        HttpTaskState::Closing => HttpTaskAction::Close,
        HttpTaskState::Ended => HttpTaskAction::Finish,
    }
}

/// The state after `s` when its operation gave `e`, with a read buffer of `capacity` bytes. An
/// accept that fails ends the task; a read goes as [`read_decision`] says; an answer, whether it
/// succeeded or not, goes back to reading; a closed socket goes back to listening. An event that
/// does not belong to the state's operation leaves the state as it is.
pub open spec fn http_task_next_spec(s: HttpTaskState, e: HttpTaskEvent, capacity: usize) -> HttpTaskState {
    match (s, e) {
        (HttpTaskState::Listening, HttpTaskEvent::Accepted(ok)) => if ok {
            HttpTaskState::Reading
        } else {
            HttpTaskState::Ended
        },
        (HttpTaskState::Reading, HttpTaskEvent::ReadDone(r)) => match read_decision(r, capacity) {
            ReadDecision::Close => HttpTaskState::Closing,
            ReadDecision::Handle(n) => HttpTaskState::Answering(n),
            ReadDecision::Stop => HttpTaskState::Listening,
        },
        (HttpTaskState::Answering(_), HttpTaskEvent::Answered(_)) => HttpTaskState::Reading,
        (HttpTaskState::Closing, HttpTaskEvent::Closed) => HttpTaskState::Listening,
        _ => s,
    }
}

/// The operation the HTTP task performs in state `s`.
pub fn http_task_action(s: HttpTaskState) -> (r: HttpTaskAction)
    ensures
        r == http_task_action_spec(s),
{
    match s {
        HttpTaskState::Listening => HttpTaskAction::Accept,
        HttpTaskState::Reading => HttpTaskAction::Read,
        HttpTaskState::Answering(n) => HttpTaskAction::Answer(n),
        HttpTaskState::Closing => HttpTaskAction::Close,
        HttpTaskState::Ended => HttpTaskAction::Finish,
    }
}

/// The state of the HTTP task after state `s` whose operation gave `e`, with a read buffer of
/// `capacity` bytes.
pub fn http_task_next(s: HttpTaskState, e: HttpTaskEvent, capacity: usize) -> (r: HttpTaskState)
    ensures
        r == http_task_next_spec(s, e, capacity),
        http_task_wf(s, capacity) ==> http_task_wf(r, capacity),
{
    match (s, e) {
        (HttpTaskState::Listening, HttpTaskEvent::Accepted(ok)) => if ok {
            HttpTaskState::Reading
        } else {
            HttpTaskState::Ended
        },
        (HttpTaskState::Reading, HttpTaskEvent::ReadDone(r)) => match after_read(r, capacity) {
            ReadDecision::Close => HttpTaskState::Closing,
            ReadDecision::Handle(n) => HttpTaskState::Answering(n),
            ReadDecision::Stop => HttpTaskState::Listening,
        },
        (HttpTaskState::Answering(_), HttpTaskEvent::Answered(_)) => HttpTaskState::Reading,
        (HttpTaskState::Closing, HttpTaskEvent::Closed) => HttpTaskState::Listening,
        _ => s,
    }
}

/// HTTP task law: a failed accept ends the task for good and a successful one starts reading; a
/// failed read gives the connection up, an empty read closes it, a read of `n` bytes within the
/// buffer is answered and a longer one gives the connection up; after an answer, whether it
/// succeeded or failed, the task goes on reading the same connection; a closed socket goes back to
/// accepting; and the task only ever answers bytes that lie within its buffer.
pub proof fn lemma_http_task(s: HttpTaskState, e: HttpTaskEvent, capacity: usize, ok: bool, n: usize)
    ensures
        http_task_next_spec(HttpTaskState::Listening, HttpTaskEvent::Accepted(ok), capacity) == (if ok {
            HttpTaskState::Reading
        } else {
            HttpTaskState::Ended
        }),
        http_task_next_spec(HttpTaskState::Ended, e, capacity) == HttpTaskState::Ended,
        http_task_next_spec(HttpTaskState::Reading, HttpTaskEvent::ReadDone(None), capacity)
            == HttpTaskState::Listening,
        http_task_next_spec(HttpTaskState::Reading, HttpTaskEvent::ReadDone(Some(0)), capacity)
            == HttpTaskState::Closing,
        0 < n <= capacity ==> http_task_next_spec(
            HttpTaskState::Reading,
            HttpTaskEvent::ReadDone(Some(n)),
            capacity,
        ) == HttpTaskState::Answering(n),
        n > capacity ==> http_task_next_spec(
            HttpTaskState::Reading,
            HttpTaskEvent::ReadDone(Some(n)),
            capacity,
        ) == HttpTaskState::Listening,
        http_task_next_spec(HttpTaskState::Answering(n), HttpTaskEvent::Answered(ok), capacity)
            == HttpTaskState::Reading,
        http_task_next_spec(HttpTaskState::Closing, HttpTaskEvent::Closed, capacity)
            == HttpTaskState::Listening,
        http_task_next_spec(s, e, capacity) == HttpTaskState::Ended ==> (s == HttpTaskState::Ended
            || e == HttpTaskEvent::Accepted(false)),
        http_task_wf(s, capacity) ==> http_task_wf(http_task_next_spec(s, e, capacity), capacity),
{
}

/// Pause between two looks at the network link, in milliseconds.
pub const LINK_POLL_DELAY_MS: u64 = 2000;

/// Pause between two looks for an IPv4 address, in milliseconds.
pub const ADDRESS_POLL_DELAY_MS: u64 = 1000;

/// Where waiting for the DHCP configuration stands.
#[derive(Debug, Clone, Copy, PartialEq, Eq, Structural)]
pub enum DhcpStep {
    /// Ask whether the link is up.
    CheckLink,
    /// Say that the stack is awaited, and pause.
    LinkPause,
    /// Ask whether an IPv4 configuration is there.
    CheckAddress,
    /// Pause before asking again.
    AddressPause,
    /// The configuration is there.
    Configured,
}

/// The operation performed at a DHCP step.
#[derive(Debug, Clone, Copy, PartialEq, Eq, Structural)]
pub enum DhcpAction {
    QueryLink,
    Sleep(u64),
    QueryAddress,
    Finish,
}

/// The operation performed at step `s`.
pub open spec fn dhcp_action_spec(s: DhcpStep) -> DhcpAction {
    match s {
        DhcpStep::CheckLink => DhcpAction::QueryLink,
        DhcpStep::LinkPause => DhcpAction::Sleep(LINK_POLL_DELAY_MS),
        DhcpStep::CheckAddress => DhcpAction::QueryAddress,
        DhcpStep::AddressPause => DhcpAction::Sleep(ADDRESS_POLL_DELAY_MS),
        DhcpStep::Configured => DhcpAction::Finish,
    }
}

/// The step after `s`, whose query answered `yes` (pauses ignore it): the link is polled until it
/// is up, then the address until it is there.
pub open spec fn dhcp_next_spec(s: DhcpStep, yes: bool) -> DhcpStep {
    match s {
        DhcpStep::CheckLink => if yes {
            DhcpStep::CheckAddress
        } else {
            DhcpStep::LinkPause
        },
        DhcpStep::LinkPause => DhcpStep::CheckLink,
        DhcpStep::CheckAddress => if yes {
            DhcpStep::Configured
        } else {
            DhcpStep::AddressPause
        },
        DhcpStep::AddressPause => DhcpStep::CheckAddress,
        DhcpStep::Configured => DhcpStep::Configured,
    }
}

/// The operation to perform at DHCP step `s`.
pub fn dhcp_action(s: DhcpStep) -> (r: DhcpAction)
    ensures
        r == dhcp_action_spec(s),
{
    match s {
        DhcpStep::CheckLink => DhcpAction::QueryLink,
        DhcpStep::LinkPause => DhcpAction::Sleep(LINK_POLL_DELAY_MS),
        DhcpStep::CheckAddress => DhcpAction::QueryAddress,
        DhcpStep::AddressPause => DhcpAction::Sleep(ADDRESS_POLL_DELAY_MS),
        DhcpStep::Configured => DhcpAction::Finish,
    }
}

/// The DHCP step after `s`, whose query answered `yes`.
pub fn dhcp_next(s: DhcpStep, yes: bool) -> (r: DhcpStep)
    ensures
        r == dhcp_next_spec(s, yes),
{
    match s {
        DhcpStep::CheckLink => if yes {
            DhcpStep::CheckAddress
        } else {
            DhcpStep::LinkPause
        },
        DhcpStep::LinkPause => DhcpStep::CheckLink,
        DhcpStep::CheckAddress => if yes {
            DhcpStep::Configured
        } else {
            DhcpStep::AddressPause
        },
        DhcpStep::AddressPause => DhcpStep::CheckAddress,
        DhcpStep::Configured => DhcpStep::Configured,
    }
}

/// DHCP law: the address is only looked for once the link was seen up, and the wait ends only
/// when an address was seen; until then every failed look is followed by a pause and a new look.
pub proof fn lemma_dhcp_order(s: DhcpStep, yes: bool)
    ensures
        dhcp_next_spec(s, yes) == DhcpStep::CheckAddress ==> (s == DhcpStep::AddressPause || (s
            == DhcpStep::CheckLink && yes)),
        dhcp_next_spec(s, yes) == DhcpStep::Configured ==> (s == DhcpStep::Configured || (s
            == DhcpStep::CheckAddress && yes)),
        dhcp_next_spec(dhcp_next_spec(DhcpStep::CheckLink, false), yes) == DhcpStep::CheckLink,
        dhcp_next_spec(dhcp_next_spec(DhcpStep::CheckAddress, false), yes) == DhcpStep::CheckAddress,
{
}


/// Read law: after a read the task stops when the read failed, closes on end of stream, answers
/// exactly the bytes read when they fit the buffer, and stops when they do not.
pub proof fn lemma_read_decision(n: usize, capacity: usize)
    ensures
        read_decision(None, capacity) == ReadDecision::Stop,
        read_decision(Some(0), capacity) == ReadDecision::Close,
        0 < n <= capacity ==> read_decision(Some(n), capacity) == ReadDecision::Handle(n),
        n > capacity ==> read_decision(Some(n), capacity) == ReadDecision::Stop,
{
}

/// Link steps law: a connected station is first waited on to disconnect and given 5 s; a started
/// controller goes straight to connecting, a stopped one is configured then started; a failed
/// connection is retried after 1 s; the station is connected only after a successful connect.
pub proof fn lemma_link_steps(ok: bool)
    ensures
        link_next_spec(LinkStep::CheckConnected, ok) == (if ok {
            LinkStep::AwaitDisconnect
        } else {
            LinkStep::CheckStarted
        }),
        link_next_spec(LinkStep::AwaitDisconnect, ok) == LinkStep::Settle,
        link_action_spec(LinkStep::Settle) == LinkAction::Sleep(5000),
        link_next_spec(LinkStep::Settle, ok) == LinkStep::CheckStarted,
        link_next_spec(LinkStep::CheckStarted, ok) == (if ok {
            LinkStep::Connect
        } else {
            LinkStep::Configure
        }),
        link_next_spec(LinkStep::Configure, ok) == (if ok {
            LinkStep::Start
        } else {
            LinkStep::Aborted
        }),
        link_next_spec(LinkStep::Start, ok) == (if ok {
            LinkStep::Connect
        } else {
            LinkStep::Aborted
        }),
        link_next_spec(LinkStep::Connect, ok) == (if ok {
            LinkStep::Connected
        } else {
            LinkStep::RetryDelay
        }),
        link_action_spec(LinkStep::RetryDelay) == LinkAction::Sleep(1000),
        link_next_spec(LinkStep::RetryDelay, ok) == LinkStep::Connect,
        link_action_spec(LinkStep::Connected) == LinkAction::Finish,
        link_action_spec(LinkStep::Aborted) == LinkAction::Abort,
{
}

/// DHCP steps law: the link is polled every 2 s until it is up, then the address every 1 s until
/// it is there, and the wait then finishes.
pub proof fn lemma_dhcp_steps(yes: bool)
    ensures
        dhcp_action_spec(DhcpStep::CheckLink) == DhcpAction::QueryLink,
        dhcp_next_spec(DhcpStep::CheckLink, yes) == (if yes {
            DhcpStep::CheckAddress
        } else {
            DhcpStep::LinkPause
        }),
        dhcp_action_spec(DhcpStep::LinkPause) == DhcpAction::Sleep(2000),
        dhcp_action_spec(DhcpStep::CheckAddress) == DhcpAction::QueryAddress,
        dhcp_next_spec(DhcpStep::CheckAddress, yes) == (if yes {
            DhcpStep::Configured
        } else {
            DhcpStep::AddressPause
        }),
        dhcp_action_spec(DhcpStep::AddressPause) == DhcpAction::Sleep(1000),
        dhcp_action_spec(DhcpStep::Configured) == DhcpAction::Finish,
{
}

} // verus!
