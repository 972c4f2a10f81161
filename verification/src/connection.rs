//! The decisions of the task that keeps the Wi-Fi connection up.
use vstd::prelude::*;

verus! {

/// How long to wait after the connection was lost or could not be made, in
/// milliseconds.
pub const RETRY_MILLIS: u64 = 5000;

/// How many access points a scan lists at most.
pub const SCAN_MAX: usize = 10;

/// What the radio is to do next.
#[derive(Clone, Copy, Debug, PartialEq, Eq, Structural)]
pub enum Request {
    /// Tell whether the station is connected.
    StationState,
    /// Wait until the station is no longer connected.
    AwaitDisconnect,
    /// Let this much time pass.
    Pause { millis: u64 },
    /// Tell whether the controller is started.
    IsStarted,
    /// Set the configuration of the client: the network's name and password.
    Configure,
    /// Start the controller.
    Start,
    /// List the access points, at most so many.
    Scan { max: usize },
    /// Connect to the network.
    Connect,
    /// Give up: the controller has failed in a way that has no remedy.
    GiveUp,
}

/// What came of a request.
#[derive(Clone, Copy, Debug, PartialEq, Eq, Structural)]
pub enum Reply {
    StationState { connected: bool },
    Disconnected,
    Paused,
    /// Whether the controller is started, or `None` where it could not tell.
    IsStarted { started: Option<bool> },
    Configured { ok: bool },
    Started { ok: bool },
    Scanned { ok: bool },
    ConnectEnded { ok: bool },
}

/// How far the task has got.
#[derive(Clone, Copy, Debug, PartialEq, Eq, Structural)]
pub enum Phase {
    /// The round begins: is the station connected?
    Checking,
    /// The station is connected, and nothing is to be done until it is not.
    Connected,
    /// The connection was lost a moment ago.
    Lost,
    /// There is no connection: is the controller started?
    Unconnected,
    Configuring,
    Starting,
    Scanning,
    Connecting,
    /// The network could not be joined a moment ago.
    Refused,
    /// The controller has failed.
    Failed,
}

impl Reply {
    /// The reply is one to what is asked for in `phase`.
    pub open spec fn answers(self, phase: Phase) -> bool {
        match phase {
            Phase::Checking => self is StationState,
            Phase::Connected => self is Disconnected,
            Phase::Lost => self is Paused,
            Phase::Unconnected => self is IsStarted,
            Phase::Configuring => self is Configured,
            Phase::Starting => self is Started,
            Phase::Scanning => self is Scanned,
            Phase::Connecting => self is ConnectEnded,
            Phase::Refused => self is Paused,
            Phase::Failed => false,
        }
    }
}

/// What is asked for in each phase.
pub open spec fn request_in(phase: Phase) -> Request {
    match phase {
        Phase::Checking => Request::StationState,
        Phase::Connected => Request::AwaitDisconnect,
        Phase::Lost => Request::Pause { millis: RETRY_MILLIS },
        Phase::Unconnected => Request::IsStarted,
        Phase::Configuring => Request::Configure,
        Phase::Starting => Request::Start,
        Phase::Scanning => Request::Scan { max: SCAN_MAX },
        Phase::Connecting => Request::Connect,
        Phase::Refused => Request::Pause { millis: RETRY_MILLIS },
        Phase::Failed => Request::GiveUp,
    }
}

/// The phase that a reply leads to.
pub open spec fn phase_after(phase: Phase, reply: Reply) -> Phase {
    match (phase, reply) {
        (Phase::Checking, Reply::StationState { connected: true }) => Phase::Connected,
        (Phase::Checking, _) => Phase::Unconnected,
        (Phase::Connected, _) => Phase::Lost,
        (Phase::Lost, _) => Phase::Unconnected,
        (Phase::Unconnected, Reply::IsStarted { started: Some(true) }) => Phase::Connecting,
        (Phase::Unconnected, _) => Phase::Configuring,
        (Phase::Configuring, Reply::Configured { ok: true }) => Phase::Starting,
        (Phase::Starting, Reply::Started { ok: true }) => Phase::Scanning,
        (Phase::Scanning, Reply::Scanned { ok: true }) => Phase::Connecting,
        (Phase::Connecting, Reply::ConnectEnded { ok: true }) => Phase::Checking,
        (Phase::Connecting, _) => Phase::Refused,
        (Phase::Refused, _) => Phase::Checking,
        _ => Phase::Failed,
    }
}

impl Phase {
    /// What is asked for in this phase.
    pub fn request(self) -> (request: Request)
        ensures
            request == request_in(self),
    {
        match self {
            Phase::Checking => Request::StationState,
            Phase::Connected => Request::AwaitDisconnect,
            Phase::Lost => Request::Pause { millis: RETRY_MILLIS },
            Phase::Unconnected => Request::IsStarted,
            Phase::Configuring => Request::Configure,
            Phase::Starting => Request::Start,
            Phase::Scanning => Request::Scan { max: SCAN_MAX },
            Phase::Connecting => Request::Connect,
            Phase::Refused => Request::Pause { millis: RETRY_MILLIS },
            Phase::Failed => Request::GiveUp,
        }
    }

    /// Takes in the reply to this phase's request.
    pub fn next(self, reply: Reply) -> (phase: Phase)
        requires
            reply.answers(self),
        ensures
            phase == phase_after(self, reply),
    {
        match reply {
            Reply::StationState { connected } => {
                if connected {
                    Phase::Connected
                } else {
                    Phase::Unconnected
                }
            },
            Reply::Disconnected => Phase::Lost,
            Reply::Paused => match self {
                Phase::Lost => Phase::Unconnected,
                _ => Phase::Checking,
            },
            Reply::IsStarted { started } => match started {
                Some(true) => Phase::Connecting,
                _ => Phase::Configuring,
            },
            Reply::Configured { ok } => {
                if ok {
                    Phase::Starting
                } else {
                    Phase::Failed
                }
            },
            Reply::Started { ok } => {
                if ok {
                    Phase::Scanning
                } else {
                    Phase::Failed
                }
            },
            Reply::Scanned { ok } => {
                if ok {
                    Phase::Connecting
                } else {
                    Phase::Failed
                }
            },
            Reply::ConnectEnded { ok } => {
                if ok {
                    Phase::Checking
                } else {
                    Phase::Refused
                }
            },
        }
    }
}

/// A course of the task from its start: the phases it goes through, and the reply
/// that ends each of them but the last.
pub open spec fn course(phases: Seq<Phase>, replies: Seq<Reply>) -> bool {
    &&& phases.len() == replies.len() + 1
    &&& phases[0] == Phase::Checking
    &&& forall|k: int|
        0 <= k < replies.len() ==> (#[trigger] replies[k]).answers(phases[k]) && phases[k + 1]
            == phase_after(phases[k], replies[k])
}

/// The network is joined only with the controller started: it has just said so,
/// or it has just been configured, started and used for a scan, each of which
/// went well.
pub proof fn connects_only_when_started(phases: Seq<Phase>, replies: Seq<Reply>, k: int)
    requires
        course(phases, replies),
        0 <= k < phases.len(),
        request_in(phases[k]) == Request::Connect,
    ensures
        k >= 1,
        replies[k - 1] == (Reply::IsStarted { started: Some(true) }) || {
            &&& k >= 3
            &&& replies[k - 1] == (Reply::Scanned { ok: true })
            &&& replies[k - 2] == (Reply::Started { ok: true })
            &&& replies[k - 3] == (Reply::Configured { ok: true })
        },
{
    assert(phases[k] == phase_after(phases[k - 1], replies[k - 1]));
    if phases[k - 1] == Phase::Scanning {
        assert(phases[k - 1] == phase_after(phases[k - 2], replies[k - 2]));
        assert(phases[k - 2] == phase_after(phases[k - 3], replies[k - 3]));
        assert(replies[k - 1].answers(phases[k - 1]));
    }
}

/// The network is joined only while the station is not connected: of the
/// replies about the station, the last one before said that it is not, or that it
/// no longer is.
pub proof fn connects_only_when_unconnected(phases: Seq<Phase>, replies: Seq<Reply>, k: int)
    requires
        course(phases, replies),
        0 <= k < phases.len(),
        request_in(phases[k]) == Request::Connect,
    ensures
        exists|i: int|
            0 <= i < k && (#[trigger] replies[i] == (Reply::StationState { connected: false })
                || replies[i] == Reply::Disconnected) && (forall|j: int|
                i < j < k ==> !(#[trigger] replies[j] is StationState) && !(
                replies[j] is Disconnected) && !(replies[j] is ConnectEnded)),
{
    lemma_unconnected_since(phases, replies, k);
}

/// A phase on the way to a connection.
spec fn on_the_way(phase: Phase) -> bool {
    phase == Phase::Lost || phase == Phase::Unconnected || phase == Phase::Configuring || phase
        == Phase::Starting || phase == Phase::Scanning || phase == Phase::Connecting
}

proof fn lemma_unconnected_since(phases: Seq<Phase>, replies: Seq<Reply>, k: int)
    requires
        course(phases, replies),
        0 <= k < phases.len(),
        on_the_way(phases[k]),
    ensures
        exists|i: int|
            0 <= i < k && (#[trigger] replies[i] == (Reply::StationState { connected: false })
                || replies[i] == Reply::Disconnected) && (forall|j: int|
                i < j < k ==> !(#[trigger] replies[j] is StationState) && !(
                replies[j] is Disconnected) && !(replies[j] is ConnectEnded)),
    decreases k,
{
    let before = phases[k - 1];
    let reply = replies[k - 1];
    assert(reply.answers(before) && phases[k] == phase_after(before, reply));
    if on_the_way(before) {
        lemma_unconnected_since(phases, replies, k - 1);
        let i = choose|i: int|
            0 <= i < k - 1 && (#[trigger] replies[i] == (Reply::StationState { connected: false })
                || replies[i] == Reply::Disconnected) && (forall|j: int|
                i < j < k - 1 ==> !(#[trigger] replies[j] is StationState) && !(
                replies[j] is Disconnected) && !(replies[j] is ConnectEnded));
        assert(replies[i] == (Reply::StationState { connected: false }) || replies[i]
            == Reply::Disconnected);
    } else {
        assert(replies[k - 1] == (Reply::StationState { connected: false }) || replies[k - 1]
            == Reply::Disconnected);
    }
}

/// After a lost connection, and after one that could not be made, the task pauses
/// before it does anything else.
pub proof fn pauses_after_setback(phase: Phase, reply: Reply)
    requires
        reply.answers(phase),
        reply == Reply::Disconnected || reply == (Reply::ConnectEnded { ok: false }),
    ensures
        request_in(phase_after(phase, reply)) == (Request::Pause { millis: 5000 }),
{
}

/// The task gives up exactly where the controller could not be configured, could
/// not be started or could not scan.
pub proof fn gives_up_only_on_controller_failure(phase: Phase, reply: Reply)
    requires
        reply.answers(phase),
    ensures
        request_in(phase_after(phase, reply)) == Request::GiveUp <==> (reply == (
        Reply::Configured { ok: false }) || reply == (Reply::Started { ok: false }) || reply == (
        Reply::Scanned { ok: false })),
{
}

} // verus!
