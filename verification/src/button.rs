use vstd::prelude::*;

verus! {

/// Kind of a completed button press: short or long.
#[derive(Debug, Clone, Copy, PartialEq, Eq)]
pub enum ButtonPressType {
    Short,
    Long,
}

impl ButtonPressType {
    /// Human-readable name of the press kind, for a front end to display.
    pub fn label(&self) -> (text: &'static str)
        ensures
            *self == ButtonPressType::Short ==> text@ == "Short Press"@,
            *self == ButtonPressType::Long ==> text@ == "Long Press"@,
    {
        match self {
            ButtonPressType::Short => "Short Press",
            ButtonPressType::Long => "Long Press",
        }
    }
}

/// A classified button event, as delivered to the application: a completed
/// press of one of the two buttons, or both buttons held at once.
#[derive(Debug, Clone, Copy, PartialEq, Eq)]
pub enum Button {
    Button1(ButtonPressType),
    Button2(ButtonPressType),
    Both,
}

impl Button {
    /// Check if the event came from the first button alone.
    pub fn is_button1(&self) -> (r: bool)
        ensures
            r == (*self matches Button::Button1(_)),
    {
        matches!(self, Button::Button1(_))
    }

    /// Check if the event came from the second button alone.
    pub fn is_button2(&self) -> (r: bool)
        ensures
            r == (*self matches Button::Button2(_)),
    {
        matches!(self, Button::Button2(_))
    }

    /// Check if a short press was detected.
    pub fn is_short_press(&self) -> (r: bool)
        ensures
            r == (*self == Button::Button1(ButtonPressType::Short) || *self == Button::Button2(
                ButtonPressType::Short,
            )),
    {
        matches!(
            self,
            Button::Button1(ButtonPressType::Short) | Button::Button2(ButtonPressType::Short)
        )
    }

    /// Check if a long press was detected.
    pub fn is_long_press(&self) -> (r: bool)
        ensures
            r == (*self == Button::Button1(ButtonPressType::Long) || *self == Button::Button2(
                ButtonPressType::Long,
            )),
    {
        matches!(
            self,
            Button::Button1(ButtonPressType::Long) | Button::Button2(ButtonPressType::Long)
        )
    }

    /// Human-readable name of the event, for a front end to display.
    pub fn label(&self) -> (text: &'static str)
        ensures
            *self == Button::Button1(ButtonPressType::Short) ==> text@ == "Button 1 (Short Press)"@,
            *self == Button::Button1(ButtonPressType::Long) ==> text@ == "Button 1 (Long Press)"@,
            *self == Button::Button2(ButtonPressType::Short) ==> text@ == "Button 2 (Short Press)"@,
            *self == Button::Button2(ButtonPressType::Long) ==> text@ == "Button 2 (Long Press)"@,
            *self == Button::Both ==> text@ == "Both Buttons"@,
    {
        match self {
            Button::Button1(ButtonPressType::Short) => "Button 1 (Short Press)",
            Button::Button1(ButtonPressType::Long) => "Button 1 (Long Press)",
            Button::Button2(ButtonPressType::Short) => "Button 2 (Short Press)",
            Button::Button2(ButtonPressType::Long) => "Button 2 (Long Press)",
            Button::Both => "Both Buttons",
        }
    }
}

/// Holds shorter than this many milliseconds classify as a short press.
pub const SHORT_PRESS_LIMIT_MS: u64 = 500;

/// Holds of at least `SHORT_PRESS_LIMIT_MS` but shorter than this many
/// milliseconds classify as a long press; anything at or above it is
/// discarded and yields no event.
pub const LONG_PRESS_LIMIT_MS: u64 = 2000;

/// The press kind a hold of `duration_ms` milliseconds classifies as, or
/// `None` for a hold too long to count as a deliberate press.
pub open spec fn classify_spec(duration_ms: u64) -> Option<ButtonPressType> {
    if duration_ms < SHORT_PRESS_LIMIT_MS {
        Some(ButtonPressType::Short)
    } else if duration_ms < LONG_PRESS_LIMIT_MS {
        Some(ButtonPressType::Long)
    } else {
        None
    }
}

/// Classify the duration of a completed hold.
pub fn classify(duration_ms: u64) -> (kind: Option<ButtonPressType>)
    ensures
        kind == classify_spec(duration_ms),
        (kind == Some(ButtonPressType::Short)) <==> duration_ms < SHORT_PRESS_LIMIT_MS,
        (kind == Some(ButtonPressType::Long)) <==> (SHORT_PRESS_LIMIT_MS <= duration_ms
            < LONG_PRESS_LIMIT_MS),
        (kind is None) <==> duration_ms >= LONG_PRESS_LIMIT_MS,
{
    if duration_ms < SHORT_PRESS_LIMIT_MS {
        Some(ButtonPressType::Short)
    } else if duration_ms < LONG_PRESS_LIMIT_MS {
        Some(ButtonPressType::Long)
    } else {
        None
    }
}

/// Milliseconds elapsed from `start` to `now_ms`, clamped at zero so that a
/// clock reading earlier than the recorded start counts as no elapsed time.
pub open spec fn elapsed_ms(start: u64, now_ms: u64) -> u64 {
    if now_ms >= start {
        (now_ms - start) as u64
    } else {
        0
    }
}

/// The recorded press start after feeding one sample: a fresh press records
/// the sample time, a continuing hold keeps the old start, and an idle or
/// released button has none.
pub open spec fn stepped(start: Option<u64>, is_pressed: bool, now_ms: u64) -> Option<u64> {
    if is_pressed {
        match start {
            Some(s) => Some(s),
            None => Some(now_ms),
        }
    } else {
        None
    }
}

/// The event emitted by feeding one sample: only a release of a recorded
/// press emits anything, and then exactly the classification of the hold.
pub open spec fn emitted(start: Option<u64>, is_pressed: bool, now_ms: u64) -> Option<
    ButtonPressType,
> {
    if is_pressed {
        None
    } else {
        match start {
            Some(s) => classify_spec(elapsed_ms(s, now_ms)),
            None => None,
        }
    }
}

/// State of one physical button, tracking when the current press began.
pub struct ButtonState {
    pressed_at: Option<u64>,
}

impl ButtonState {
    /// The recorded press start, present exactly while the button is held.
    pub closed spec fn recorded_start(self) -> Option<u64> {
        self.pressed_at
    }

    /// Whether a press is currently in progress.
    pub open spec fn is_held(self) -> bool {
        self.recorded_start() is Some
    }

    /// Feed one sample of the button's raw level, taken at `now_ms` on a
    /// monotonic millisecond clock, and get the event the sample completes,
    /// if any.
    ///
    /// Readings are assumed never to decrease between calls; a reading
    /// earlier than the recorded start is treated as zero elapsed time.
    pub fn update(&mut self, is_pressed: bool, now_ms: u64) -> (event: Option<ButtonPressType>)
        ensures
            final(self).recorded_start() == stepped(
                old(self).recorded_start(),
                is_pressed,
                now_ms,
            ),
            event == emitted(old(self).recorded_start(), is_pressed, now_ms),
    {
        if is_pressed {
            if self.pressed_at.is_none() {
                self.pressed_at = Some(now_ms);
            }
            None
        } else {
            match self.pressed_at {
                Some(start) => {
                    self.pressed_at = None;
                    let duration: u64 = if now_ms >= start {
                        now_ms - start
                    } else {
                        0
                    };
                    classify(duration)
                },
                None => None,
            }
        }
    }
}

impl Default for ButtonState {
    /// A fresh state with no press in progress.
    fn default() -> (state: Self)
        ensures
            !state.is_held(),
    {
        ButtonState { pressed_at: None }
    }
}

/// Law: while the button stays held, an update neither emits an event nor
/// moves the recorded start, so any run of held samples leaves the state as
/// the first press left it.
pub proof fn lemma_hold_is_idempotent(start: u64, now_ms: u64)
    ensures
        stepped(Some(start), true, now_ms) == Some(start),
        emitted(Some(start), true, now_ms) is None,
{
}

/// Law: a release clears the recorded start whatever the classification
/// outcome, so the next press measures its duration from a fresh start.
pub proof fn lemma_release_always_resets(start: Option<u64>, now_ms: u64)
    ensures
        stepped(start, false, now_ms) is None,
{
}

} // verus!
