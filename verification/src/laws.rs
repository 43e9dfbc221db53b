//! What holds of the root controller whatever the messages are.
//!
//! Each statement here is about [`MyTools::after`] and [`Message::effect`],
//! the two functions in which [`MyTools::update`] states what it does.

use crate::clock::Timestamp;
use crate::gui::{Effect, FontError, Message, MyTools};
use crate::theme::Theme;
use vstd::prelude::*;

verus! {

/// The theme switch sets the theme flag to exactly the value it carries,
/// whatever the flag was and whatever the left view reports. It leaves the
/// stored time and the runtime counter alone, and nothing follows from it.
pub proof fn switch_sets_the_theme<B, L>(state: MyTools, switch: bool, left_theme: bool)
    ensures
        state.after(Message::<B, L>::SwitchChanged(switch), left_theme) == (MyTools {
            theme: switch,
            ..state
        }),
        Message::<B, L>::SwitchChanged(switch).effect() == Effect::<B, L>::Nothing,
{
}

/// A tick that names the instant already stored leaves the whole state as it
/// was, and nothing follows from it.
pub proof fn tick_on_the_stored_instant_changes_nothing<B, L>(
    state: MyTools,
    tick: Timestamp,
    left_theme: bool,
)
    requires
        tick.same_instant(state.now),
    ensures
        state.after(Message::<B, L>::Datetime(tick), left_theme) == state,
        Message::<B, L>::Datetime(tick).effect() == Effect::<B, L>::Nothing,
{
}

/// A tick that names another instant than the stored one replaces the stored
/// time with exactly the time it carries, and changes nothing else.
pub proof fn tick_on_a_new_instant_is_stored<B, L>(
    state: MyTools,
    tick: Timestamp,
    left_theme: bool,
)
    requires
        !tick.same_instant(state.now),
    ensures
        state.after(Message::<B, L>::Datetime(tick), left_theme) == (MyTools {
            now: tick,
            ..state
        }),
        Message::<B, L>::Datetime(tick).effect() == Effect::<B, L>::Nothing,
{
}

/// The outcome of the font load, success or failure, changes neither the
/// theme flag nor the stored time nor the runtime counter, and nothing
/// follows from it.
pub proof fn font_outcome_changes_nothing<B, L>(
    state: MyTools,
    outcome: Result<(), FontError>,
    left_theme: bool,
)
    ensures
        state.after(Message::<B, L>::FontLoaded(outcome), left_theme) == state,
        Message::<B, L>::FontLoaded(outcome).effect() == Effect::<B, L>::Nothing,
{
}

/// A message for the bar changes nothing in the root's own state and is
/// handed on to the bar as it came.
pub proof fn bar_message_passes_through<B, L>(state: MyTools, inner: B, left_theme: bool)
    ensures
        state.after(Message::<B, L>::BarMessage(inner), left_theme) == state,
        Message::<B, L>::BarMessage(inner).effect() == Effect::<B, L>::UpdateBar(inner),
{
}

/// A message for the left view sets the theme flag to the theme that the
/// left view had before it processed that message, and is handed on to the
/// left view as it came.
///
/// So the flag runs one message behind. Let the left view report `reported`
/// when `first` arrives, and let `turn` give the left view's theme after a
/// message from its theme before it. Once `first` is handled the flag is
/// `reported`, also where `first` turns the left view's theme. No message
/// for the bar, tick or font outcome moves the flag from there. It shows the
/// turned theme only once `second`, the next message for the left view, is
/// handled.
pub proof fn theme_lags_the_left_view<B, L>(
    state: MyTools,
    reported: bool,
    turn: spec_fn(bool, L) -> bool,
    first: L,
    between: Message<B, L>,
    second: L,
)
    requires
        between is BarMessage || between is Datetime || between is FontLoaded,
    ensures
        Message::<B, L>::LeftMessage(first).effect() == Effect::<B, L>::UpdateLeft(first),
        ({
            let turned = turn(reported, first);
            let after_first = state.after(Message::<B, L>::LeftMessage(first), reported);
            let after_between = after_first.after(between, turned);
            let after_second = after_between.after(Message::<B, L>::LeftMessage(second), turned);
            &&& after_first == MyTools { theme: reported, ..state }
            &&& after_between.theme == reported
            &&& after_second.theme == turned
        }),
{
}

/// The look is a function of the theme flag alone: light where the flag is
/// clear, dark where it is set, and the same for any two states whose flags
/// agree.
pub proof fn look_follows_the_flag(one: MyTools, other: MyTools)
    ensures
        !one.theme ==> one.look() == Theme::Light,
        one.theme ==> one.look() == Theme::Dark,
        one.theme == other.theme ==> one.look() == other.look(),
{
}

} // verus!
