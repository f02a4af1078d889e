use crate::button::{emitted, stepped, Button, ButtonPressType, ButtonState};
use vstd::prelude::*;

verus! {

/// Milliseconds the driving loop stalls after reporting a simultaneous hold,
/// so that the hold is re-reported at a fixed cadence while it lasts.
pub const BOTH_HELD_DELAY_MS: u64 = 100;

/// The events a poll delivers for one pair of independent update outcomes:
/// the first button's event, if any, always precedes the second's.
pub open spec fn event_seq(
    first: Option<ButtonPressType>,
    second: Option<ButtonPressType>,
) -> Seq<Button> {
    (match first {
        Some(kind) => seq![Button::Button1(kind)],
        None => Seq::<Button>::empty(),
    }) + (match second {
        Some(kind) => seq![Button::Button2(kind)],
        None => Seq::<Button>::empty(),
    })
}

/// Per-iteration decision core of the input loop. It owns the two per-button
/// classifiers; the loop around it samples the raw levels and the clock,
/// delivers the returned events to the application, and then draws one frame,
/// so every frame reflects the events of its own iteration.
pub struct InputPoller {
    pub button1: ButtonState,
    pub button2: ButtonState,
}

impl InputPoller {
    /// A poller with both buttons idle.
    pub fn new() -> (poller: Self)
        ensures
            !poller.button1.is_held(),
            !poller.button2.is_held(),
    {
        InputPoller { button1: ButtonState::default(), button2: ButtonState::default() }
    }

    /// Decide one loop iteration from the raw levels of the two buttons,
    /// sampled at `now_ms` on a monotonic millisecond clock.
    ///
    /// Returns the events to deliver, in order, and whether the loop must
    /// stall for `BOTH_HELD_DELAY_MS` before the next sample. While both
    /// buttons are held at once, every poll reports `Button::Both` and leaves
    /// the two classifiers untouched, so no single-button press is in
    /// progress once the simultaneous hold ends.
    pub fn poll(&mut self, button1_pressed: bool, button2_pressed: bool, now_ms: u64) -> (r: (
        Vec<Button>,
        bool,
    ))
        ensures
            r.1 == (button1_pressed && button2_pressed),
            (button1_pressed && button2_pressed) ==> r.0@ =~= seq![Button::Both] && *final(self)
                == *old(self),
            !(button1_pressed && button2_pressed) ==> {
                &&& final(self).button1.recorded_start() == stepped(
                    old(self).button1.recorded_start(),
                    button1_pressed,
                    now_ms,
                )
                &&& final(self).button2.recorded_start() == stepped(
                    old(self).button2.recorded_start(),
                    button2_pressed,
                    now_ms,
                )
                &&& r.0@ =~= event_seq(
                    emitted(old(self).button1.recorded_start(), button1_pressed, now_ms),
                    emitted(old(self).button2.recorded_start(), button2_pressed, now_ms),
                )
            },
    {
        let mut events: Vec<Button> = Vec::new();
        if button1_pressed && button2_pressed {
            events.push(Button::Both);
            (events, true)
        } else {
            if let Some(kind) = self.button1.update(button1_pressed, now_ms) {
                events.push(Button::Button1(kind));
            }
            if let Some(kind) = self.button2.update(button2_pressed, now_ms) {
                events.push(Button::Button2(kind));
            }
            (events, false)
        }
    }
}

/// Law: when both buttons complete a press in the same poll, each produces
/// its own event and the first button's event comes before the second's.
pub proof fn lemma_same_poll_release_order(kind1: ButtonPressType, kind2: ButtonPressType)
    ensures
        event_seq(Some(kind1), Some(kind2)) =~= seq![
            Button::Button1(kind1),
            Button::Button2(kind2),
        ],
{
}

/// Law: independent updates never deliver the simultaneous-hold event; that
/// event comes only from a poll that saw both buttons down.
pub proof fn lemma_event_seq_never_both(
    first: Option<ButtonPressType>,
    second: Option<ButtonPressType>,
)
    ensures
        forall|i: int|
            0 <= i < event_seq(first, second).len() ==> event_seq(first, second)[i]
                != Button::Both,
{
}

} // verus!
