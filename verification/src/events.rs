//! What the overlay does about the events that reach it: those of the
//! stream, those of the donation tunnel, and the keys.

use crate::clock::AddTime;
use crate::countdown::NANOS_PER_SECOND;
use crate::particles::fireworks::CreateFireworks;
use vstd::prelude::*;

verus! {

/// How long the fireworks for a new follower last, in nanoseconds.
pub const FOLLOW_FIREWORKS: i128 = 5_000_000_000;

/// How long the fireworks for a subscription last, in nanoseconds.
pub const SUBSCRIPTION_FIREWORKS: i128 = 30_000_000_000;

/// How long the fireworks for a donation last, in nanoseconds.
pub const DONATION_FIREWORKS: i128 = 60_000_000_000;

/// The time that the key for more time adds to the clocks, in nanoseconds.
pub const KEY_TIME: i128 = 10_000_000_000;

/// An event of the stream, with what the overlay reads of it.
#[derive(Clone, Debug, PartialEq, Eq)]
pub enum StreamEvent {
    /// Somebody wrote in the chat.
    ChatMessage,
    /// The event service is ready.
    Ready,
    /// The event service has ended.
    Finished,
    /// Somebody follows the channel.
    Follow,
    /// Somebody subscribed for the first time.
    NewSubscription,
    /// Somebody subscribed again.
    Resubscription,
    /// Somebody gave subscriptions away.
    GiftSubscription,
    /// An ad break of this many seconds began.
    AdBreakBegin(u32),
    /// Somebody redeemed the reward with this title for channel points.
    PointsCustomRewardRedeem(String),
    /// Any other event.
    Other,
}

/// More time for the clocks when an ad break begins: as long as the break.
/// No other event changes the clocks.
pub fn handle_ad_break(event: &StreamEvent) -> (r: Option<AddTime>)
    ensures
        match *event {
            StreamEvent::AdBreakBegin(seconds) => r matches Some(more) && more.nanos() == seconds
                * NANOS_PER_SECOND,
            _ => r is None,
        },
{
    match event {
        StreamEvent::AdBreakBegin(seconds) => {
            let nanos: i128 = (*seconds as i128) * 1_000_000_000;
            Some(AddTime::new(nanos))
        },
        _ => None,
    }
}

/// What an event of the stream leads to besides the clocks.
#[derive(Debug, PartialEq, Eq)]
pub enum FireworksReaction {
    /// Nothing.
    Nothing,
    /// A line is printed.
    Say(String),
    /// Fireworks are asked for.
    Launch(CreateFireworks),
}

/// Fireworks for followers and subscribers, and a line for a redeemed
/// reward. A follower gets `FOLLOW_FIREWORKS`, a subscription of any kind
/// `SUBSCRIPTION_FIREWORKS`; the line names the reward.
pub fn spawn_fireworks(event: &StreamEvent) -> (r: FireworksReaction)
    ensures
        match *event {
            StreamEvent::PointsCustomRewardRedeem(title) => r matches FireworksReaction::Say(line)
                && line@ == "Redeem redeemed: "@ + title@,
            StreamEvent::Follow => r matches FireworksReaction::Launch(fireworks) && fireworks.0
                == FOLLOW_FIREWORKS,
            StreamEvent::NewSubscription
            | StreamEvent::Resubscription
            | StreamEvent::GiftSubscription => r matches FireworksReaction::Launch(fireworks)
                && fireworks.0 == SUBSCRIPTION_FIREWORKS,
            _ => r is Nothing,
        },
{
    match event {
        StreamEvent::PointsCustomRewardRedeem(title) => {
            let mut line = String::new();
            line.append("Redeem redeemed: ");
            line.append(title.as_str());
            assert(line@ =~= "Redeem redeemed: "@ + title@);
            FireworksReaction::Say(line)
        },
        StreamEvent::Follow => FireworksReaction::Launch(CreateFireworks::new(FOLLOW_FIREWORKS)),
        StreamEvent::NewSubscription
        | StreamEvent::Resubscription
        | StreamEvent::GiftSubscription => FireworksReaction::Launch(
            CreateFireworks::new(SUBSCRIPTION_FIREWORKS),
        ),
        _ => FireworksReaction::Nothing,
    }
}

/// The lines printed for an event of the stream, with a line feed between
/// them: one for every event, and a second one for the end of the service.
pub fn handle_twitch(event: &StreamEvent) -> (lines: String)
    ensures
        lines@ == if *event is Finished {
            "Got twitch event\nReiceved twitch finished event."@
        } else {
            "Got twitch event"@
        },
{
    let text = match event {
        StreamEvent::Finished => "Got twitch event\nReiceved twitch finished event.",
        _ => "Got twitch event",
    };
    let mut lines = String::new();
    lines.append(text);
    assert(lines@ =~= text@);
    lines
}

/// An event of the donation tunnel. `E` is the stream event that the tunnel
/// hands through.
#[derive(Debug, PartialEq, Eq)]
pub enum TunnelEvent<E> {
    /// The donation service is alive.
    KofiPing,
    /// The stream's service is alive.
    TwitchPing,
    /// A donation, with the name of the giver and the amount as written.
    Kofi { from_name: String, amount: String },
    /// An event of the stream.
    Twitch(E),
}

/// What an event of the tunnel leads to.
#[derive(Debug, PartialEq, Eq)]
pub enum TunnelReaction<E> {
    /// A line is printed.
    Say(String),
    /// A line is printed and fireworks are asked for.
    Celebrate { line: String, fireworks: CreateFireworks },
    /// The event is handed on as an event of the stream.
    Forward(E),
}

/// The line printed for a donation.
pub open spec fn donation_line(from_name: Seq<char>, amount: Seq<char>) -> Seq<char> {
    from_name + " donated \u{20ac}"@ + amount + "!\n"@
}

/// Decides what an event of the tunnel leads to: a line for a sign of life,
/// a line and `DONATION_FIREWORKS` for a donation, and the event itself for
/// an event of the stream.
pub fn handle_kofi<E>(event: TunnelEvent<E>) -> (r: TunnelReaction<E>)
    ensures
        match event {
            TunnelEvent::KofiPing => r matches TunnelReaction::Say(line) && line@ == "kofi ping"@,
            TunnelEvent::TwitchPing => r matches TunnelReaction::Say(line) && line@
                == "twitch ping"@,
            TunnelEvent::Kofi { from_name, amount } => r matches TunnelReaction::Celebrate {
                line,
                fireworks,
            } && line@ == donation_line(from_name@, amount@) && fireworks.0 == DONATION_FIREWORKS,
            TunnelEvent::Twitch(inner) => r == TunnelReaction::Forward(inner),
        },
{
    match event {
        TunnelEvent::KofiPing => {
            let mut line = String::new();
            line.append("kofi ping");
            assert(line@ =~= "kofi ping"@);
            TunnelReaction::Say(line)
        },
        TunnelEvent::TwitchPing => {
            let mut line = String::new();
            line.append("twitch ping");
            assert(line@ =~= "twitch ping"@);
            TunnelReaction::Say(line)
        },
        TunnelEvent::Kofi { from_name, amount } => {
            let mut line = String::new();
            line.append(from_name.as_str());
            line.append(" donated \u{20ac}");
            line.append(amount.as_str());
            line.append("!\n");
            assert(line@ =~= donation_line(from_name@, amount@));
            TunnelReaction::Celebrate { line, fireworks: CreateFireworks::new(DONATION_FIREWORKS) }
        },
        TunnelEvent::Twitch(inner) => TunnelReaction::Forward(inner),
    }
}

/// Whether a layer of the interface is shown.
#[derive(Clone, Copy, Debug, PartialEq, Eq, Structural)]
pub enum Visibility {
    /// As the layer above it.
    Inherited,
    /// Not shown.
    Hidden,
    /// Shown.
    Visible,
}

/// The visibility after the key that shows and hides the buttons: a layer
/// that is visible gets hidden, and any other becomes visible.
pub fn toggle_visibility(visibility: Visibility) -> (r: Visibility)
    ensures
        r == if visibility == Visibility::Visible {
            Visibility::Hidden
        } else {
            Visibility::Visible
        },
{
    match visibility {
        Visibility::Visible => Visibility::Hidden,
        _ => Visibility::Visible,
    }
}

/// What the keys of one frame ask for.
#[derive(Clone, Copy, Debug, PartialEq, Eq)]
pub struct KeyReaction {
    /// More time for the clocks.
    pub add_time: Option<AddTime>,
    /// The buttons are shown if they were not, and hidden if they were.
    pub toggle_buttons: bool,
}

/// Decides what the keys of one frame ask for: the key for more time, just
/// pressed, adds `KEY_TIME` to the clocks, and the key for the buttons,
/// just pressed, shows or hides them.
pub fn input(more_time_pressed: bool, buttons_pressed: bool) -> (r: KeyReaction)
    ensures
        r.toggle_buttons == buttons_pressed,
        if more_time_pressed {
            r.add_time matches Some(more) && more.nanos() == KEY_TIME
        } else {
            r.add_time is None
        },
{
    let add_time = if more_time_pressed {
        Some(AddTime::new(KEY_TIME))
    } else {
        None
    };
    KeyReaction { add_time, toggle_buttons: buttons_pressed }
}

} // verus!
