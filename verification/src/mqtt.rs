//! What the strip says over MQTT, and what it makes of the messages it gets.
use vstd::prelude::*;

use crate::color::{AtomicColor, RGB8};
#[allow(unused_imports)]
use crate::color::packed;
use crate::light::{requested_color, LightRequest};
#[allow(unused_imports)]
use crate::light::requested;

verus! {

/// A message from the broker.
#[derive(Clone, Copy, Debug, PartialEq, Eq, Structural)]
pub enum Message {
    Connected,
    Disconnected,
    /// A light state on the topic that the strip listens to.
    Light(LightRequest),
    /// A payload on that topic that is no light state.
    Unreadable,
    /// Something on another topic.
    OtherTopic,
}

/// What follows from a message.
#[derive(Clone, Copy, Debug, PartialEq, Eq, Structural)]
pub enum Reaction {
    /// Nothing.
    Ignore,
    /// The colour of new stars changes.
    Show(RGB8),
    /// The strip cannot go on.
    Fail,
}

/// What follows from each message: the loss of the connection is fatal, a light
/// state that asks for a colour sets it, and nothing else has an effect.
pub open spec fn reaction(message: Message) -> Reaction {
    match message {
        Message::Disconnected => Reaction::Fail,
        Message::Light(request) => match requested(request) {
            Some(color) => Reaction::Show(color),
            None => Reaction::Ignore,
        },
        _ => Reaction::Ignore,
    }
}

/// Only the loss of the connection is fatal, and only a light state changes the
/// colour.
pub proof fn messages_have_no_other_effect(message: Message)
    ensures
        reaction(message) == Reaction::Fail <==> message == Message::Disconnected,
        reaction(message) is Show ==> message is Light,
{
}

/// Every light state in a form that the strip takes is shown, black included, and
/// no other changes anything.
pub proof fn every_requested_color_is_shown(request: LightRequest, color: RGB8)
    ensures
        reaction(Message::Light(request)) == Reaction::Show(color) <==> requested(request) == Some(
            color,
        ),
        reaction(Message::Light(request)) == Reaction::Ignore <==> request
            == LightRequest::Unsupported,
        reaction(Message::Light(request)) != Reaction::Fail,
{
}

/// A light state without a colour shows the grey of its brightness, down to black
/// at no brightness.
pub proof fn white_light_is_shown_at_its_brightness(brightness: u8, outcome: Reaction)
    requires
        call_ensures(
            react,
            (Message::Light(LightRequest::White { brightness: Some(brightness) }),),
            outcome,
        ),
    ensures
        outcome == Reaction::Show(RGB8 { r: brightness, g: brightness, b: brightness }),
{
}

/// Taking in a message goes on but for a lost connection, and a light state that
/// asks for a colour has that colour written, black included.
pub proof fn handling_writes_every_requested_color(
    message: Message,
    cell: AtomicColor,
    goes_on: bool,
    request: LightRequest,
    color: RGB8,
)
    requires
        call_ensures(handle, (message, &cell), goes_on),
    ensures
        goes_on <==> message != Message::Disconnected,
        message == Message::Light(request) && requested(request) == Some(color) ==> exists|
            word: u32,
        | #[trigger]
            cell.writes(word) && word == color.r * 0x1_0000 + color.g * 0x100 + color.b,
{
    if message == Message::Light(request) && requested(request) == Some(color) {
        assert(cell.writes(packed(color)));
    }
}

/// Decides what follows from a message.
pub fn react(message: Message) -> (outcome: Reaction)
    ensures
        outcome == reaction(message),
{
    match message {
        Message::Connected => Reaction::Ignore,
        Message::Disconnected => Reaction::Fail,
        Message::Light(request) => match requested_color(request) {
            Some(color) => Reaction::Show(color),
            None => Reaction::Ignore,
        },
        Message::Unreadable => Reaction::Ignore,
        Message::OtherTopic => Reaction::Ignore,
    }
}

/// Takes in a message, and sets the shared colour where the message asks for one.
/// Returns whether the strip can go on. That no other colour is set, and none for
/// a message that asks for none, is left unsaid: it is a write through a shared
/// reference.
pub fn handle(message: Message, color: &AtomicColor) -> (goes_on: bool)
    ensures
        goes_on == (reaction(message) != Reaction::Fail),
        reaction(message) matches Reaction::Show(shown) ==> color.writes(packed(shown)),
{
    match react(message) {
        Reaction::Ignore => true,
        Reaction::Show(shown) => {
            color.set(shown);
            true
        },
        Reaction::Fail => false,
    }
}

/// What the broker publishes for the strip once the strip is gone.
pub struct LastWill;

impl LastWill {
    /// The topic of the strip's status.
    pub fn topic(&self) -> (topic: &'static str)
        ensures
            topic@ == "tanuki/entities/starleds/$meta/status"@,
    {
        "tanuki/entities/starleds/$meta/status"
    }

    /// The status of a strip that is gone.
    pub fn payload(&self) -> (payload: &'static str)
        ensures
            payload@ == "offline"@,
    {
        "offline"
    }
}

/// The topic on which the strip listens for light states.
pub fn light_state_topic() -> (topic: &'static str)
    ensures
        topic@ == "tanuki/entities/south_lamp/tanuki.light/state"@,
{
    "tanuki/entities/south_lamp/tanuki.light/state"
}

} // verus!
