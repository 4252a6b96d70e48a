//! The connection state a WebSocket delegate keeps as the session reports
//! the socket opening, closing and failing.

use vstd::prelude::*;
use vstd::string::*;
use crate::cookies::opt_view;

verus! {

/// WebSocket connection state.
pub enum ConnectionState {
    /// Currently trying to connect
    Connecting,
    /// Connection opened, with the negotiated protocol
    Open(Option<String>),
    /// Connection closed, with the close code and reason
    Closed(Option<i64>, Option<String>),
    /// Connection failed, with the error's description
    Error(String),
}

/// The abstract value of a connection state.
pub enum StateView {
    /// Connecting
    Connecting,
    /// Open, with the protocol
    Open(Option<Seq<char>>),
    /// Closed, with code and reason
    Closed(Option<i64>, Option<Seq<char>>),
    /// Failed, with the description
    Error(Seq<char>),
}

impl View for ConnectionState {
    type V = StateView;

    open spec fn view(&self) -> StateView {
        match self {
            ConnectionState::Connecting => StateView::Connecting,
            ConnectionState::Open(p) => StateView::Open(opt_view(*p)),
            ConnectionState::Closed(c, r) => StateView::Closed(*c, opt_view(*r)),
            ConnectionState::Error(e) => StateView::Error(e@),
        }
    }
}

fn copy_opt(o: &Option<String>) -> (c: Option<String>)
    ensures
        opt_view(c) == opt_view(*o),
{
    match o {
        Some(s) => Some(s.clone()),
        None => None,
    }
}

impl ConnectionState {
    /// A copy of the state.
    pub fn duplicate(&self) -> (s: Self)
        ensures
            s@ == self@,
    {
        match self {
            ConnectionState::Connecting => ConnectionState::Connecting,
            ConnectionState::Open(p) => ConnectionState::Open(copy_opt(p)),
            ConnectionState::Closed(c, r) => ConnectionState::Closed(*c, copy_opt(r)),
            ConnectionState::Error(e) => ConnectionState::Error(e.clone()),
        }
    }
}

/// The abstract value of a delegate.
pub struct DelegateView {
    /// The connection state
    pub state: StateView,
    /// Whether the socket is connected
    pub connected: bool,
    /// Whether the opening (or failure) is still to be announced to the
    /// party waiting for the connection
    pub pending: bool,
}

/// A callback the session makes on a WebSocket delegate.
pub enum DelegateEvent {
    /// The socket opened, with the negotiated protocol
    Opened(Option<Seq<char>>),
    /// The socket closed, with the close code and reason
    Closed(i64, Option<Seq<char>>),
    /// The task completed, with an error's description or none
    Completed(Option<Seq<char>>),
}

/// What one callback does to the delegate.
pub open spec fn spec_step(d: DelegateView, e: DelegateEvent) -> DelegateView {
    match e {
        DelegateEvent::Opened(p) => DelegateView { state: StateView::Open(p), connected: true, pending: false },
        DelegateEvent::Closed(c, r) => DelegateView { state: StateView::Closed(Some(c), r), connected: false, pending: d.pending },
        DelegateEvent::Completed(None) => d,
        DelegateEvent::Completed(Some(m)) => DelegateView { state: StateView::Error(m), connected: false, pending: false },
    }
}

/// The delegate after a sequence of callbacks, in order.
pub open spec fn spec_run(d: DelegateView, events: Seq<DelegateEvent>) -> DelegateView
    decreases events.len(),
{
    if events.len() == 0 {
        d
    } else {
        spec_step(spec_run(d, events.drop_last()), events.last())
    }
}

/// A delegate is connected exactly when its state is `Open`.
pub open spec fn connection_consistent(d: DelegateView) -> bool {
    d.connected <==> d.state is Open
}

/// Whatever callbacks follow the creation of a delegate (with or without
/// a waiting party), it reports itself connected exactly when its state is
/// `Open`.
pub proof fn law_connected_iff_open(pending: bool, events: Seq<DelegateEvent>)
    ensures
        connection_consistent(spec_run(DelegateView { state: StateView::Connecting, connected: false, pending }, events)),
    decreases events.len(),
{
    if events.len() > 0 {
        law_connected_iff_open(pending, events.drop_last());
    }
}

/// What a WebSocket delegate knows of its connection.
pub struct WebSocketDelegate {
    connection_state: ConnectionState,
    is_connected: bool,
    sender_pending: bool,
}

impl View for WebSocketDelegate {
    type V = DelegateView;

    closed spec fn view(&self) -> DelegateView {
        DelegateView { state: self.connection_state@, connected: self.is_connected, pending: self.sender_pending }
    }
}

impl WebSocketDelegate {
    /// A delegate of a connection being set up, with nobody waiting for
    /// it.
    pub fn new() -> (d: Self)
        ensures
            d@ == (DelegateView { state: StateView::Connecting, connected: false, pending: false }),
    {
        WebSocketDelegate { connection_state: ConnectionState::Connecting, is_connected: false, sender_pending: false }
    }

    /// A delegate of a connection being set up, with a party waiting for
    /// the outcome.
    pub fn new_with_channel() -> (d: Self)
        ensures
            d@ == (DelegateView { state: StateView::Connecting, connected: false, pending: true }),
    {
        WebSocketDelegate { connection_state: ConnectionState::Connecting, is_connected: false, sender_pending: true }
    }

    /// The task completed. With an error, the connection fails with its
    /// description and is no longer connected; returns whether the waiting
    /// party must be told of the error (only the first time). Without an
    /// error nothing changes.
    pub fn did_complete_with_error(&mut self, error: Option<&str>) -> (notify: bool)
        ensures
            error is None ==> final(self)@ == old(self)@ && !notify,
            error matches Some(e) ==> final(self)@ == (DelegateView { state: StateView::Error(e@), connected: false, pending: false })
                && notify == old(self)@.pending,
            final(self)@ == spec_step(old(self)@, DelegateEvent::Completed(match error {
                Some(e) => Some(e@),
                None => None,
            })),
    {
        match error {
            Some(e) => {
                self.connection_state = ConnectionState::Error(String::from_str(e));
                let notify = self.sender_pending;
                self.sender_pending = false;
                self.is_connected = false;
                notify
            },
            None => false,
        }
    }

    /// The socket opened with the protocol: it is connected; returns the
    /// protocol name (empty when none) to hand to the waiting party, if one
    /// is waiting.
    pub fn did_open(&mut self, protocol: Option<String>) -> (announce: Option<String>)
        ensures
            final(self)@ == (DelegateView { state: StateView::Open(opt_view(protocol)), connected: true, pending: false }),
            old(self)@.pending ==> (announce matches Some(p) && p@ == match protocol {
                Some(q) => q@,
                None => Seq::empty(),
            }),
            !old(self)@.pending ==> announce is None,
            final(self)@ == spec_step(old(self)@, DelegateEvent::Opened(opt_view(protocol))),
    {
        let announce = if self.sender_pending {
            match &protocol {
                Some(p) => Some(p.clone()),
                None => Some(String::new()),
            }
        } else {
            None
        };
        self.sender_pending = false;
        self.connection_state = ConnectionState::Open(protocol);
        self.is_connected = true;
        announce
    }

    /// The socket closed with the code and reason: it is no longer
    /// connected.
    pub fn did_close(&mut self, close_code: isize, reason: Option<String>)
        ensures
            final(self)@ == (DelegateView {
                state: StateView::Closed(Some(close_code as i64), opt_view(reason)),
                connected: false,
                pending: old(self)@.pending,
            }),
            final(self)@ == spec_step(old(self)@, DelegateEvent::Closed(close_code as i64, opt_view(reason))),
    {
        self.connection_state = ConnectionState::Closed(Some(close_code as i64), reason);
        self.is_connected = false;
    }

    /// Whether the WebSocket is connected.
    pub fn is_connected(&self) -> (c: bool)
        ensures
            c == self@.connected,
    {
        self.is_connected
    }

    /// The current connection state.
    pub fn connection_state(&self) -> (s: ConnectionState)
        ensures
            s@ == self@.state,
    {
        self.connection_state.duplicate()
    }
}

} // verus!
