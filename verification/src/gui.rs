//! The root controller: the state at the top of the panel and the routing of
//! every message that reaches it.
//!
//! The hosting runtime delivers one message at a time to [`MyTools::update`].
//! The controller changes its own state and answers with an [`Effect`]. Where
//! a message belongs to the bar or to the left view, the effect hands it on,
//! and the runtime lets that view process it and wraps what follows back into
//! a [`Message`].

use crate::clock::Timestamp;
use crate::theme::Theme;
use vstd::prelude::*;
use vstd::string::StringExecFns;

verus! {

/// A font could not be loaded.
#[derive(Clone, Copy, Debug, PartialEq, Eq, Structural)]
pub struct FontError;

/// One event delivered to the root controller. `B` is the message type of
/// the bar, `L` that of the left view; the controller never looks inside
/// either.
#[derive(Debug, PartialEq, Eq)]
pub enum Message<B, L> {
    /// A message for the bar.
    BarMessage(B),
    /// The theme switch was set: `true` for dark.
    SwitchChanged(bool),
    /// The clock ticked; this is the new time.
    Datetime(Timestamp),
    /// The font requested at start has been loaded, or could not be.
    FontLoaded(Result<(), FontError>),
    /// A message for the left view.
    LeftMessage(L),
}

/// What the hosting runtime is to do once a message has been handled.
#[derive(Debug, PartialEq, Eq)]
pub enum Effect<B, L> {
    /// Nothing follows.
    Nothing,
    /// Load the panel's font, then deliver [`Message::FontLoaded`].
    LoadFont,
    /// Let the bar process this message and deliver what follows from it as
    /// [`Message::BarMessage`].
    UpdateBar(B),
    /// Let the left view process this message and deliver what follows from
    /// it as [`Message::LeftMessage`].
    UpdateLeft(L),
}

/// A standing request for clock ticks, one every `every_millis` milliseconds.
#[derive(Clone, Copy, Debug, PartialEq, Eq, Structural)]
pub struct Subscription {
    pub every_millis: u64,
}

/// The container that the root puts around what the left view renders.
#[derive(Clone, Copy, Debug, PartialEq, Eq, Structural)]
pub struct Frame {
    /// Space between the container's edge and its content, on every side.
    pub padding: u16,
    /// Whether the container takes all the height it is offered.
    pub fill_height: bool,
}

impl<B: Clone, L: Clone> Clone for Message<B, L> {
    fn clone(&self) -> Self {
        match self {
            Message::BarMessage(inner) => Message::BarMessage(inner.clone()),
            Message::SwitchChanged(switch) => Message::SwitchChanged(*switch),
            Message::Datetime(tick) => Message::Datetime(*tick),
            Message::FontLoaded(outcome) => Message::FontLoaded(*outcome),
            Message::LeftMessage(inner) => Message::LeftMessage(inner.clone()),
        }
    }
}

impl<B: Clone, L: Clone> Clone for Effect<B, L> {
    fn clone(&self) -> Self {
        match self {
            Effect::Nothing => Effect::Nothing,
            Effect::LoadFont => Effect::LoadFont,
            Effect::UpdateBar(inner) => Effect::UpdateBar(inner.clone()),
            Effect::UpdateLeft(inner) => Effect::UpdateLeft(inner.clone()),
        }
    }
}

impl<B, L> Message<B, L> {
    /// What follows from this message: a message for the bar or for the left
    /// view is handed on to it, and nothing follows from any other.
    pub open spec fn effect(self) -> Effect<B, L> {
        match self {
            Message::BarMessage(inner) => Effect::UpdateBar(inner),
            Message::LeftMessage(inner) => Effect::UpdateLeft(inner),
            _ => Effect::Nothing,
        }
    }
}

/// The state of the root controller.
#[derive(Clone, Copy, Debug, PartialEq, Eq, Structural)]
pub struct MyTools {
    /// The theme flag: set for dark, clear for light.
    pub theme: bool,
    /// The time of the last tick that named a new instant.
    pub now: Timestamp,
    /// The runtime counter, as the bits of an IEEE 754 single-precision
    /// number.
    pub runtime_bits: u32,
}

impl MyTools {
    /// The state at start when the clock reads `now`: light theme and a
    /// runtime counter of zero.
    pub open spec fn initial(now: Timestamp) -> MyTools {
        MyTools { theme: false, now, runtime_bits: 0 }
    }

    /// The state that `message` leaves behind, where `left_theme` is the
    /// theme that the left view reported when the message arrived.
    ///
    /// The switch overwrites the theme flag. A tick replaces the stored time
    /// unless it names the instant already stored. A message for the left
    /// view copies the reported theme into the flag. Messages for the bar and
    /// the outcome of the font load change nothing.
    pub open spec fn after<B, L>(self, message: Message<B, L>, left_theme: bool) -> MyTools {
        match message {
            Message::SwitchChanged(switch) => MyTools { theme: switch, ..self },
            Message::Datetime(tick) => if tick.same_instant(self.now) {
                self
            } else {
                MyTools { now: tick, ..self }
            },
            Message::LeftMessage(_) => MyTools { theme: left_theme, ..self },
            Message::BarMessage(_) | Message::FontLoaded(_) => self,
        }
    }

    /// The look that the theme flag selects.
    pub open spec fn look(self) -> Theme {
        Theme::of(self.theme)
    }

    /// The state at start, with the clock read now, and the request to load
    /// the font.
    pub fn new<B, L>() -> (started: (MyTools, Effect<B, L>))
        ensures
            started.0 == MyTools::initial(started.0.now),
            started.1 == Effect::<B, L>::LoadFont,
    {
        MyTools::starting_at(Timestamp::now())
    }

    /// The state at start when the clock reads `now`, and the request to
    /// load the font.
    pub fn starting_at<B, L>(now: Timestamp) -> (started: (MyTools, Effect<B, L>))
        ensures
            started.0 == MyTools::initial(now),
            started.1 == Effect::<B, L>::LoadFont,
    {
        (MyTools { theme: false, now, runtime_bits: 0 }, Effect::LoadFont)
    }

    /// The window title: the package name, then `" - V "`, then the package
    /// version.
    pub fn title(&self, package: &str, version: &str) -> (title: String)
        ensures
            title@ == package@ + " - V "@ + version@,
    {
        let mut title = String::from_str(package);
        title.append(" - V ");
        title.append(version);
        title
    }

    /// Handles one message.
    ///
    /// `left_theme` is the theme that the left view reports at the moment
    /// the message arrives. A message for the left view copies it into the
    /// theme flag and only then goes on to the left view, inside the effect.
    /// So where that very message changes the left view's theme, the flag
    /// still shows the theme from before it, and catches up on the next
    /// message for the left view.
    pub fn update<B, L>(&mut self, message: Message<B, L>, left_theme: bool) -> (effect: Effect<
        B,
        L,
    >)
        ensures
            *final(self) == old(self).after(message, left_theme),
            effect == message.effect(),
    {
        match message {
            Message::BarMessage(inner) => Effect::UpdateBar(inner),
            Message::SwitchChanged(switch) => {
                self.theme = switch;
                Effect::Nothing
            },
            Message::Datetime(tick) => {
                if !tick.is_same_instant(&self.now) {
                    self.now = tick;
                }
                Effect::Nothing
            },
            Message::FontLoaded(_) => Effect::Nothing,
            Message::LeftMessage(inner) => {
                self.theme = left_theme;
                Effect::UpdateLeft(inner)
            },
        }
    }

    /// The one standing subscription: a clock tick every 1000 milliseconds.
    pub fn subscription(&self) -> (ticks: Subscription)
        ensures
            ticks.every_millis == 1000,
    {
        Subscription { every_millis: 1000 }
    }

    /// The message that a clock tick delivers: the current time.
    pub fn tick<B, L>() -> (message: Message<B, L>)
        ensures
            message is Datetime,
    {
        Message::Datetime(Timestamp::now())
    }

    /// The container around the rendered left view: 5 units of padding, all
    /// the height there is.
    pub fn view(&self) -> (frame: Frame)
        ensures
            frame == (Frame { padding: 5, fill_height: true }),
    {
        Frame { padding: 5, fill_height: true }
    }

    /// The look to render with.
    pub fn theme(&self) -> (theme: Theme)
        ensures
            theme == self.look(),
    {
        Theme::from_flag(self.theme)
    }
}

} // verus!
