//! Which connection the worker opens, and what it does with each step of it.

use crate::config::{is_socket_directory, socket_path, Endpoint, SslMode};
use crate::error::{with_error_view, ErrorView, IoError, IoErrorKind, PgWireError};
use crate::text::join3;
use std::io;
use std::sync::Arc;
use vstd::prelude::*;
use vstd::string::*;

verus! {

/// What the program was built with.
#[derive(Debug, Clone, Copy, PartialEq, Eq, Structural)]
pub struct Platform {
    /// Unix domain sockets.
    pub unix_sockets: bool,
    /// An implementation of TLS.
    pub tls: bool,
}

/// What a connection is after its server was asked for TLS.
#[derive(Debug, Clone, Copy, PartialEq, Eq, Structural)]
pub enum Upgrade {
    Plain,
    Tls,
}

/// What just happened to the worker.
#[derive(Debug)]
pub enum WorkerEvent {
    /// It was started.
    Begin,
    /// The Unix domain socket is connected, or could not be.
    UnixConnected,
    UnixConnectFailed { kind: IoErrorKind, message: String },
    /// The TCP connection is open, or could not be opened.
    TcpConnected,
    TcpConnectFailed(Arc<io::Error>),
    /// TCP sends without delay now, or could not be told to.
    NodelaySet,
    NodelayFailed(Arc<io::Error>),
    /// The server was asked for TLS as the mode says, or that went wrong.
    Upgraded(Upgrade),
    UpgradeFailed(PgWireError),
    /// Replication on the stream has ended.
    StreamEnded(Result<(), PgWireError>),
}

/// What the worker does next.
#[derive(Debug)]
pub enum WorkerAction {
    /// Connect to the Unix domain socket with this path.
    ConnectUnix(String),
    /// Open a TCP connection.
    ConnectTcp { host: String, port: u16 },
    /// Make TCP send without delay.
    SetNodelay,
    /// Ask the server for TLS as the mode says.
    UpgradeToTls,
    /// Replicate on the Unix domain socket.
    RunOnUnix,
    /// Replicate on the TCP connection as it is.
    RunOnTcp,
    /// Replicate on the connection inside TLS.
    RunOnTls,
    /// End, with this result.
    Finish(Result<(), PgWireError>),
}

/// A [`WorkerAction`] with its texts as character sequences.
pub ghost enum ActionView {
    ConnectUnix(Seq<char>),
    ConnectTcp(Seq<char>, u16),
    SetNodelay,
    UpgradeToTls,
    RunOnUnix,
    RunOnTcp,
    RunOnTls,
    Finish(Result<(), ErrorView>),
}

impl View for WorkerAction {
    type V = ActionView;

    open spec fn view(&self) -> ActionView {
        match *self {
            WorkerAction::ConnectUnix(path) => ActionView::ConnectUnix(path@),
            WorkerAction::ConnectTcp { host, port } => ActionView::ConnectTcp(host@, port),
            WorkerAction::SetNodelay => ActionView::SetNodelay,
            WorkerAction::UpgradeToTls => ActionView::UpgradeToTls,
            WorkerAction::RunOnUnix => ActionView::RunOnUnix,
            WorkerAction::RunOnTcp => ActionView::RunOnTcp,
            WorkerAction::RunOnTls => ActionView::RunOnTls,
            WorkerAction::Finish(result) => ActionView::Finish(with_error_view(result)),
        }
    }
}

/// The run ends because of `error`.
pub open spec fn fail(error: ErrorView) -> ActionView {
    ActionView::Finish(Err(error))
}

/// What the worker does after `event`.
pub open spec fn next_action(
    endpoint: Endpoint,
    platform: Platform,
    event: WorkerEvent,
) -> ActionView {
    match event {
        WorkerEvent::Begin => if platform.unix_sockets && is_socket_directory(endpoint.host@) {
            if endpoint.ssl_mode.insists_on_tls() {
                fail(ErrorView::Tls("TLS is not supported over Unix domain sockets"@))
            } else {
                ActionView::ConnectUnix(socket_path(endpoint.host@, endpoint.port))
            }
        } else {
            ActionView::ConnectTcp(endpoint.host@, endpoint.port)
        },
        WorkerEvent::UnixConnected => ActionView::RunOnUnix,
        WorkerEvent::UnixConnectFailed { kind, message } => fail(
            ErrorView::Io(
                kind,
                "failed to connect to Unix socket "@ + socket_path(endpoint.host@, endpoint.port)
                    + ": "@ + message@,
            ),
        ),
        WorkerEvent::TcpConnected => ActionView::SetNodelay,
        WorkerEvent::TcpConnectFailed(e) => fail(ErrorView::Reported(e)),
        WorkerEvent::NodelaySet => if platform.tls {
            ActionView::UpgradeToTls
        } else if endpoint.ssl_mode is Disable {
            ActionView::RunOnTcp
        } else {
            fail(ErrorView::Tls("tls-rustls feature not enabled"@))
        },
        WorkerEvent::NodelayFailed(e) => fail(ErrorView::Reported(e)),
        WorkerEvent::Upgraded(Upgrade::Plain) => ActionView::RunOnTcp,
        WorkerEvent::Upgraded(Upgrade::Tls) => ActionView::RunOnTls,
        WorkerEvent::UpgradeFailed(e) => fail(e@),
        WorkerEvent::StreamEnded(result) => ActionView::Finish(with_error_view(result)),
    }
}

/// Decides what the worker does next. A run starts with [`WorkerEvent::Begin`];
/// each later event says how the action before it went.
pub fn worker_step(endpoint: &Endpoint, platform: Platform, event: WorkerEvent) -> (action:
    WorkerAction)
    ensures
        action@ == next_action(*endpoint, platform, event),
        event matches WorkerEvent::UpgradeFailed(e) ==> action == WorkerAction::Finish(Err(e)),
        event matches WorkerEvent::StreamEnded(result) ==> action == WorkerAction::Finish(result),
{
    match event {
        WorkerEvent::Begin => {
            if platform.unix_sockets && endpoint.is_unix_socket() {
                if endpoint.ssl_mode.requires_tls() {
                    return WorkerAction::Finish(
                        Err(
                            PgWireError::Tls(
                                "TLS is not supported over Unix domain sockets".to_owned(),
                            ),
                        ),
                    );
                }
                return WorkerAction::ConnectUnix(endpoint.unix_socket_path());
            }
            WorkerAction::ConnectTcp { host: endpoint.host.clone(), port: endpoint.port }
        },
        WorkerEvent::UnixConnected => WorkerAction::RunOnUnix,
        WorkerEvent::UnixConnectFailed { kind, message } => {
            let path = endpoint.unix_socket_path();
            let message = join3("failed to connect to Unix socket ", path.as_str(), ": ").concat(
                message.as_str(),
            );
            WorkerAction::Finish(Err(PgWireError::Io(IoError::Described { kind, message })))
        },
        WorkerEvent::TcpConnected => WorkerAction::SetNodelay,
        WorkerEvent::TcpConnectFailed(e) => WorkerAction::Finish(
            Err(PgWireError::Io(IoError::Reported(e))),
        ),
        WorkerEvent::NodelaySet => {
            if platform.tls {
                WorkerAction::UpgradeToTls
            } else {
                match endpoint.ssl_mode {
                    SslMode::Disable => WorkerAction::RunOnTcp,
                    _ => WorkerAction::Finish(
                        Err(PgWireError::Tls("tls-rustls feature not enabled".to_owned())),
                    ),
                }
            }
        },
        WorkerEvent::NodelayFailed(e) => WorkerAction::Finish(
            Err(PgWireError::Io(IoError::Reported(e))),
        ),
        WorkerEvent::Upgraded(Upgrade::Plain) => WorkerAction::RunOnTcp,
        WorkerEvent::Upgraded(Upgrade::Tls) => WorkerAction::RunOnTls,
        WorkerEvent::UpgradeFailed(e) => WorkerAction::Finish(Err(e)),
        WorkerEvent::StreamEnded(result) => WorkerAction::Finish(result),
    }
}

/// `event` says how `action` went.
pub open spec fn answers(event: WorkerEvent, action: ActionView) -> bool {
    match action {
        ActionView::ConnectUnix(_) => event is UnixConnected || event is UnixConnectFailed,
        ActionView::ConnectTcp(_, _) => event is TcpConnected || event is TcpConnectFailed,
        ActionView::SetNodelay => event is NodelaySet || event is NodelayFailed,
        ActionView::UpgradeToTls => event is Upgraded || event is UpgradeFailed,
        ActionView::RunOnUnix | ActionView::RunOnTcp | ActionView::RunOnTls => event
            is StreamEnded,
        ActionView::Finish(_) => false,
    }
}

/// `events` are those of a run: the first is its begin, and each later one says
/// how the action before it went.
pub open spec fn is_run(endpoint: Endpoint, platform: Platform, events: Seq<WorkerEvent>) -> bool {
    &&& events.len() > 0
    &&& events[0] is Begin
    &&& forall|i: int|
        0 < i < events.len() ==> answers(
            #[trigger] events[i],
            next_action(endpoint, platform, events[i - 1]),
        )
}

/// How many more actions can follow `action` in a run.
pub open spec fn actions_left(action: ActionView) -> int {
    match action {
        ActionView::Finish(_) => 0,
        ActionView::RunOnUnix | ActionView::RunOnTcp | ActionView::RunOnTls => 1,
        ActionView::ConnectUnix(_) | ActionView::UpgradeToTls => 2,
        ActionView::SetNodelay => 3,
        ActionView::ConnectTcp(_, _) => 4,
    }
}

/// Replication runs on some stream.
pub open spec fn is_streaming(action: ActionView) -> bool {
    action is RunOnUnix || action is RunOnTcp || action is RunOnTls
}

/// Every run ends: whatever happens, it takes at most five actions.
pub proof fn law_run_ends(endpoint: Endpoint, platform: Platform, events: Seq<WorkerEvent>)
    requires
        is_run(endpoint, platform, events),
    ensures
        events.len() + actions_left(next_action(endpoint, platform, events.last())) <= 5,
    decreases events.len(),
{
    if events.len() > 1 {
        let earlier = events.drop_last();
        assert(forall|i: int| 0 < i < earlier.len() ==> answers(
            #[trigger] earlier[i],
            next_action(endpoint, platform, earlier[i - 1]),
        )) by {
            assert(forall|i: int| 0 < i < earlier.len() ==> #[trigger] earlier[i] == events[i]
                && earlier[i - 1] == events[i - 1]);
        }
        law_run_ends(endpoint, platform, earlier);
        let last = events.len() - 1;
        assert(answers(events[last], next_action(endpoint, platform, events[last - 1])));
    }
}

/// A run streams once at most: after the stream has ended, the run ends with its
/// result.
pub proof fn law_stream_is_last(
    endpoint: Endpoint,
    platform: Platform,
    events: Seq<WorkerEvent>,
    i: int,
)
    requires
        is_run(endpoint, platform, events),
        0 <= i < events.len(),
        is_streaming(next_action(endpoint, platform, events[i])),
    ensures
        events.len() <= i + 2,
        events.len() == i + 2 ==> (events[i + 1] matches WorkerEvent::StreamEnded(result)
            && next_action(endpoint, platform, events[i + 1]) == ActionView::Finish(
            with_error_view(result),
        )),
{
    if events.len() > i + 1 {
        assert(answers(events[i + 1], next_action(endpoint, platform, events[i])));
    }
    if events.len() > i + 2 {
        assert(answers(events[i + 2], next_action(endpoint, platform, events[i + 1])));
    }
}

/// A Unix domain socket with a mode that insists on TLS is refused before
/// anything is connected.
pub proof fn law_no_tls_over_unix(
    endpoint: Endpoint,
    platform: Platform,
    events: Seq<WorkerEvent>,
)
    requires
        is_run(endpoint, platform, events),
        platform.unix_sockets,
        is_socket_directory(endpoint.host@),
        endpoint.ssl_mode.insists_on_tls(),
    ensures
        events.len() == 1,
        next_action(endpoint, platform, events[0]) == fail(
            ErrorView::Tls("TLS is not supported over Unix domain sockets"@),
        ),
{
    if events.len() > 1 {
        assert(answers(events[1], next_action(endpoint, platform, events[0])));
    }
}

/// TCP carries replication without TLS only where the mode is `Disable`, or where
/// the upgrade itself settled on a plain connection.
pub proof fn law_plain_tcp_is_agreed(
    endpoint: Endpoint,
    platform: Platform,
    events: Seq<WorkerEvent>,
    i: int,
)
    requires
        is_run(endpoint, platform, events),
        0 <= i < events.len(),
        next_action(endpoint, platform, events[i]) is RunOnTcp,
    ensures
        if platform.tls {
            events[i] == WorkerEvent::Upgraded(Upgrade::Plain)
        } else {
            endpoint.ssl_mode is Disable
        },
{
    if i > 0 {
        assert(answers(events[i], next_action(endpoint, platform, events[i - 1])));
    }
}

} // verus!
