//! The connection to the stream's event service: what a request to manage
//! it leads to, and what the relay does with each answer of the service.

use vstd::prelude::*;

verus! {

/// A request to manage the connection.
#[derive(Clone, Debug, PartialEq, Eq)]
pub enum ManageTwitch {
    /// Connect to the service.
    Connect,
    /// Leave the service, with a last chat message if one is given.
    Disconnect(Option<String>),
    /// Write a message to the chat.
    SendChatMsg(String),
}

/// A request to manage the connection, as mathematical values.
pub enum ManageTwitchView {
    Connect,
    Disconnect(Option<Seq<char>>),
    SendChatMsg(Seq<char>),
}

impl View for ManageTwitch {
    type V = ManageTwitchView;

    open spec fn view(&self) -> ManageTwitchView {
        match self {
            ManageTwitch::Connect => ManageTwitchView::Connect,
            ManageTwitch::Disconnect(None) => ManageTwitchView::Disconnect(None),
            ManageTwitch::Disconnect(Some(msg)) => ManageTwitchView::Disconnect(Some(msg@)),
            ManageTwitch::SendChatMsg(msg) => ManageTwitchView::SendChatMsg(msg@),
        }
    }
}

impl ManageTwitch {
    /// A request that says the same.
    pub fn duplicate(&self) -> (r: ManageTwitch)
        ensures
            r@ == self@,
    {
        match self {
            ManageTwitch::Connect => ManageTwitch::Connect,
            ManageTwitch::Disconnect(None) => ManageTwitch::Disconnect(None),
            ManageTwitch::Disconnect(Some(msg)) => ManageTwitch::Disconnect(Some(msg.clone())),
            ManageTwitch::SendChatMsg(msg) => ManageTwitch::SendChatMsg(msg.clone()),
        }
    }
}

/// What is done about the connection for one request.
#[derive(Debug, PartialEq, Eq)]
pub enum ConnectionStep {
    /// A connection is opened and kept, in place of one that may be there,
    /// and a relay is started for it.
    Open,
    /// The connection is given up. Where a request stands here, it is sent
    /// to the relay first.
    Close(Option<ManageTwitch>),
    /// The request is sent to the relay.
    Send(ManageTwitch),
    /// Nothing is done.
    Nothing,
}

/// What is done about the connection, as mathematical values.
pub enum ConnectionStepView {
    Open,
    Close(Option<ManageTwitchView>),
    Send(ManageTwitchView),
    Nothing,
}

impl View for ConnectionStep {
    type V = ConnectionStepView;

    open spec fn view(&self) -> ConnectionStepView {
        match self {
            ConnectionStep::Open => ConnectionStepView::Open,
            ConnectionStep::Close(None) => ConnectionStepView::Close(None),
            ConnectionStep::Close(Some(request)) => ConnectionStepView::Close(Some(request@)),
            ConnectionStep::Send(request) => ConnectionStepView::Send(request@),
            ConnectionStep::Nothing => ConnectionStepView::Nothing,
        }
    }
}

/// The step for a request, with or without a connection. To connect
/// always opens one. To disconnect always gives the connection up, and
/// tells the relay where there was one. Any other request goes to the relay
/// where there is a connection, and is dropped where there is none.
pub open spec fn connection_step(request: ManageTwitchView, connected: bool) -> ConnectionStepView {
    match request {
        ManageTwitchView::Connect => ConnectionStepView::Open,
        ManageTwitchView::Disconnect(_) => ConnectionStepView::Close(
            if connected {
                Some(request)
            } else {
                None
            },
        ),
        ManageTwitchView::SendChatMsg(_) => if connected {
            ConnectionStepView::Send(request)
        } else {
            ConnectionStepView::Nothing
        },
    }
}

/// Decides what one request does about the connection. `connected` says
/// whether a connection was there when the frame began.
pub fn manage_twitch_connection(request: &ManageTwitch, connected: bool) -> (step: ConnectionStep)
    ensures
        step@ == connection_step(request@, connected),
{
    match request {
        ManageTwitch::Connect => ConnectionStep::Open,
        ManageTwitch::Disconnect(_) => {
            if connected {
                ConnectionStep::Close(Some(request.duplicate()))
            } else {
                ConnectionStep::Close(None)
            }
        },
        ManageTwitch::SendChatMsg(_) => {
            if connected {
                ConnectionStep::Send(request.duplicate())
            } else {
                ConnectionStep::Nothing
            }
        },
    }
}

/// An answer of the event service to the relay.
#[derive(Debug, PartialEq, Eq)]
pub enum Response<E> {
    /// An event of the stream.
    Event(E),
    /// The service is connected and ready.
    Ready,
    /// Anything else.
    Other,
}

/// What the relay does with one answer.
#[derive(Debug, PartialEq, Eq)]
pub enum RelayStep<E> {
    /// Nothing is passed on.
    Wait,
    /// The event is passed on to the overlay.
    Pass(E),
    /// The overlay is told that the service is ready, and the chat is
    /// greeted. The relay goes on.
    Announce,
}

/// The step for what the relay received, if anything: an event is passed
/// on as it came, readiness is announced, and all else is waited out.
pub open spec fn relay_step<E>(received: Option<Response<E>>) -> RelayStep<E> {
    match received {
        Some(Response::Event(event)) => RelayStep::Pass(event),
        Some(Response::Ready) => RelayStep::Announce,
        _ => RelayStep::Wait,
    }
}

/// Decides what the relay does with what it received, if anything.
pub fn relay<E>(received: Option<Response<E>>) -> (step: RelayStep<E>)
    ensures
        step == relay_step(received),
{
    match received {
        Some(Response::Event(event)) => RelayStep::Pass(event),
        Some(Response::Ready) => RelayStep::Announce,
        _ => RelayStep::Wait,
    }
}

impl<E> RelayStep<E> {
    /// Whether the relay goes on after this step: always, but after an
    /// event that the overlay did not take. `delivered` says whether it
    /// took what was passed on.
    pub open spec fn continues(self, delivered: bool) -> bool {
        match self {
            RelayStep::Pass(_) => delivered,
            _ => true,
        }
    }

    /// Whether the relay goes on after this step. It does after waiting,
    /// after announcing, and after passing an event on that the overlay
    /// took (`delivered`); it ends when an event finds the overlay gone.
    pub fn goes_on(&self, delivered: bool) -> (r: bool)
        ensures
            r == self.continues(delivered),
    {
        match self {
            RelayStep::Pass(_) => delivered,
            _ => true,
        }
    }
}

/// While the overlay takes what is passed on, the relay goes on after
/// every answer of the service, before and after the sign of readiness.
pub proof fn lemma_relay_goes_on_while_taken<E>(received: Option<Response<E>>)
    ensures
        relay_step(received).continues(true),
{
}

/// The relay ends for one reason only: an event was passed on and the
/// overlay did not take it.
pub proof fn lemma_relay_ends_on_lost_event<E>(received: Option<Response<E>>, delivered: bool)
    ensures
        !relay_step(received).continues(delivered) <==> (received matches Some(
            Response::Event(_),
        ) && !delivered),
{
}

} // verus!
