//! The decisions of the secure transport connector.
//!
//! To reach a target the connector checks it, opens a plain connection, and
//! then runs a TLS handshake against the host that the target names. The
//! sockets belong to the caller. What is decided here is which step comes
//! next and how a failure is reported: the caller performs each step and
//! reports back how it went. Nothing is retried.

use vstd::prelude::*;
use crate::errors::TransportError;
use crate::path_utils::{UriParts, UriPartsView};

verus! {

/// The only scheme the connector serves.
pub open spec fn secure_scheme() -> Seq<char> {
    "https"@
}

/// How far a connection attempt has come.
#[derive(Debug, Clone, PartialEq, Eq)]
pub enum ConnectStage {
    /// The plain connection is being opened; the handshake will be run
    /// against `host`.
    Connecting { host: String },
    /// The plain connection is open and the handshake against `host` runs.
    Handshaking { host: String },
    /// The encrypted stream is ready.
    Established,
    /// The attempt is over and has failed.
    Failed,
}

/// What the caller reports back after a step.
#[derive(Debug, Clone, PartialEq, Eq)]
pub enum ConnectEvent {
    /// The plain connection is open.
    Connected,
    /// The plain connection could not be opened; the text is the cause.
    ConnectFailed(String),
    /// The handshake succeeded.
    HandshakeDone,
    /// The handshake failed; the text is the cause.
    HandshakeFailed(String),
}

/// What the caller is to do next.
#[derive(Debug, Clone, PartialEq, Eq)]
pub enum ConnectAction {
    /// Open a plain connection to `authority`, the authority of the target.
    OpenConnection { authority: String },
    /// Run the TLS handshake on the open connection, checking the peer's
    /// certificate against `host`.
    StartHandshake { host: String },
    /// Hand the encrypted stream to whoever asked for it.
    Deliver,
    /// Give up and report the failure.
    Fail(TransportError),
}

/// The mathematical value of a [`ConnectStage`].
pub enum StageView {
    Connecting { host: Seq<char> },
    Handshaking { host: Seq<char> },
    Established,
    Failed,
}

/// The mathematical value of a [`TransportError`].
pub enum FailureView {
    UnsupportedScheme,
    MissingHost,
    ConnectionFailed(Seq<char>),
    HandshakeFailed(Seq<char>),
}

/// The mathematical value of a [`ConnectEvent`].
pub enum EventView {
    Connected,
    ConnectFailed(Seq<char>),
    HandshakeDone,
    HandshakeFailed(Seq<char>),
}

/// The mathematical value of a [`ConnectAction`].
pub enum ActionView {
    OpenConnection { authority: Seq<char> },
    StartHandshake { host: Seq<char> },
    Deliver,
    Fail(FailureView),
}

impl View for ConnectStage {
    type V = StageView;

    open spec fn view(&self) -> StageView {
        match self {
            ConnectStage::Connecting { host } => StageView::Connecting { host: host@ },
            ConnectStage::Handshaking { host } => StageView::Handshaking { host: host@ },
            ConnectStage::Established => StageView::Established,
            ConnectStage::Failed => StageView::Failed,
        }
    }
}

impl View for TransportError {
    type V = FailureView;

    open spec fn view(&self) -> FailureView {
        match self {
            TransportError::UnsupportedScheme => FailureView::UnsupportedScheme,
            TransportError::MissingHost => FailureView::MissingHost,
            TransportError::ConnectionFailed(cause) => FailureView::ConnectionFailed(cause@),
            TransportError::HandshakeFailed(cause) => FailureView::HandshakeFailed(cause@),
        }
    }
}

impl View for ConnectEvent {
    type V = EventView;

    open spec fn view(&self) -> EventView {
        match self {
            ConnectEvent::Connected => EventView::Connected,
            ConnectEvent::ConnectFailed(cause) => EventView::ConnectFailed(cause@),
            ConnectEvent::HandshakeDone => EventView::HandshakeDone,
            ConnectEvent::HandshakeFailed(cause) => EventView::HandshakeFailed(cause@),
        }
    }
}

impl View for ConnectAction {
    type V = ActionView;

    open spec fn view(&self) -> ActionView {
        match self {
            ConnectAction::OpenConnection { authority } => ActionView::OpenConnection {
                authority: authority@,
            },
            ConnectAction::StartHandshake { host } => ActionView::StartHandshake { host: host@ },
            ConnectAction::Deliver => ActionView::Deliver,
            ConnectAction::Fail(failure) => ActionView::Fail(failure@),
        }
    }
}

/// Whether a target can be connected to, and against which host the
/// handshake is to be run. A target whose scheme is not the secure one is
/// refused as `UnsupportedScheme`; one that names no host, as `MissingHost`.
pub open spec fn checked_target(target: UriPartsView) -> Result<Seq<char>, FailureView> {
    if target.scheme != Some(secure_scheme()) {
        Err(FailureView::UnsupportedScheme)
    } else {
        match target.host() {
            Some(host) => Ok(host),
            None => Err(FailureView::MissingHost),
        }
    }
}

/// The first step towards a target: to open the plain connection to its
/// authority where the target passes the checks, to give up where it does
/// not.
pub open spec fn first_step(target: UriPartsView) -> (StageView, ActionView) {
    match checked_target(target) {
        Ok(host) => (
            StageView::Connecting { host },
            ActionView::OpenConnection { authority: target.authority->0 },
        ),
        Err(failure) => (StageView::Failed, ActionView::Fail(failure)),
    }
}

/// The step that follows a report. An open connection is followed by the
/// handshake, a finished handshake by the delivery of the stream; a failure
/// of either ends the attempt. A report that does not belong to the stage
/// has no next step.
pub open spec fn next_step(stage: StageView, event: EventView) -> Option<(StageView, ActionView)> {
    match (stage, event) {
        (StageView::Connecting { host }, EventView::Connected) => Some(
            (StageView::Handshaking { host }, ActionView::StartHandshake { host }),
        ),
        (StageView::Connecting { host }, EventView::ConnectFailed(cause)) => Some(
            (StageView::Failed, ActionView::Fail(FailureView::ConnectionFailed(cause))),
        ),
        (StageView::Handshaking { host }, EventView::HandshakeDone) => Some(
            (StageView::Established, ActionView::Deliver),
        ),
        (StageView::Handshaking { host }, EventView::HandshakeFailed(cause)) => Some(
            (StageView::Failed, ActionView::Fail(FailureView::HandshakeFailed(cause))),
        ),
        _ => None,
    }
}

/// Whether a scheme is the secure one.
fn is_secure(scheme: Option<&str>) -> (yes: bool)
    ensures
        yes == match scheme {
            Some(s) => s@ == secure_scheme(),
            None => false,
        },
{
    match scheme {
        Some(s) => {
            let given = String::from_str(s);
            let secure = String::from_str("https");
            given == secure
        },
        None => false,
    }
}

/// The host that a target names, with the authority that names it.
fn named_host(target: &UriParts) -> (named: Option<(String, String)>)
    ensures
        match target@.host() {
            Some(host) => named matches Some(pair) && pair.0@ == host && Some(pair.1@)
                == target@.authority,
            None => named is None,
        },
{
    match target.authority() {
        Some(authority) => match target.host() {
            Some(host) => Some((host.to_owned(), authority.to_owned())),
            None => None,
        },
        None => None,
    }
}

/// Checks a target before anything is opened: its scheme must be the secure
/// one, and it must name a host. Gives the host to run the handshake
/// against.
pub fn check_target(target: &UriParts) -> (checked: Result<String, TransportError>)
    ensures
        match checked_target(target@) {
            Ok(host) => checked matches Ok(h) && h@ == host,
            Err(failure) => checked matches Err(e) && e@ == failure,
        },
        target@.scheme != Some(secure_scheme()) ==> checked == Err::<String, TransportError>(
            TransportError::UnsupportedScheme,
        ),
{
    if !is_secure(target.scheme()) {
        return Err(TransportError::UnsupportedScheme);
    }
    match named_host(target) {
        Some((host, _)) => Ok(host),
        None => Err(TransportError::MissingHost),
    }
}

/// Begins a connection attempt. A target that fails the checks is given up
/// on at once: the action is `Fail` and nothing is to be opened.
pub fn begin_connect(target: &UriParts) -> (step: (ConnectStage, ConnectAction))
    ensures
        (step.0@, step.1@) == first_step(target@),
        target@.scheme != Some(secure_scheme()) ==> step.0 == ConnectStage::Failed && step.1
            == ConnectAction::Fail(TransportError::UnsupportedScheme),
{
    if !is_secure(target.scheme()) {
        return (ConnectStage::Failed, ConnectAction::Fail(TransportError::UnsupportedScheme));
    }
    match named_host(target) {
        Some((host, authority)) => (
            ConnectStage::Connecting { host },
            ConnectAction::OpenConnection { authority },
        ),
        None => (ConnectStage::Failed, ConnectAction::Fail(TransportError::MissingHost)),
    }
}

/// Continues a connection attempt with what the caller reports. Gives the
/// next stage and what to do, or nothing where the report does not belong to
/// the stage: an attempt that is established or has failed goes no further.
pub fn advance_connect(stage: ConnectStage, event: ConnectEvent) -> (step: Option<
    (ConnectStage, ConnectAction),
>)
    ensures
        match next_step(stage@, event@) {
            Some(next) => step matches Some(s) && (s.0@, s.1@) == next,
            None => step is None,
        },
{
    match stage {
        ConnectStage::Connecting { host } => match event {
            ConnectEvent::Connected => {
                let against = host.clone();
                Some((ConnectStage::Handshaking { host }, ConnectAction::StartHandshake { host: against }))
            },
            ConnectEvent::ConnectFailed(cause) => Some(
                (ConnectStage::Failed, ConnectAction::Fail(TransportError::ConnectionFailed(cause))),
            ),
            _ => None,
        },
        ConnectStage::Handshaking { host } => match event {
            ConnectEvent::HandshakeDone => Some((ConnectStage::Established, ConnectAction::Deliver)),
            ConnectEvent::HandshakeFailed(cause) => Some(
                (ConnectStage::Failed, ConnectAction::Fail(TransportError::HandshakeFailed(cause))),
            ),
            _ => None,
        },
        _ => None,
    }
}

/// A target whose scheme is not the secure one is given up on as
/// `UnsupportedScheme` before anything is opened: the first action is to
/// fail, and from the failed stage no report leads to another action.
pub proof fn lemma_insecure_target_opens_nothing(target: UriPartsView, event: EventView)
    requires
        target.scheme != Some(secure_scheme()),
    ensures
        first_step(target) == (
            StageView::Failed,
            ActionView::Fail(FailureView::UnsupportedScheme),
        ),
        next_step(first_step(target).0, event) is None,
{
}

/// No action follows the end of an attempt: from `Established` and from
/// `Failed` there is no next step, so nothing is retried.
pub proof fn lemma_attempt_ends(event: EventView)
    ensures
        next_step(StageView::Established, event) is None,
        next_step(StageView::Failed, event) is None,
{
}

} // verus!
