use crate::button::{Button, ButtonPressType};
use vstd::prelude::*;

verus! {

/// Number of tabs the application cycles through.
pub const TAB_COUNT: usize = 3;

/// The stats gauge shows a percentage, so its counter stays below this.
pub const STATS_COUNTER_MODULUS: u16 = 100;

/// How much each refresh advances the stats gauge.
pub const STATS_COUNTER_STEP: u16 = 5;

/// Status shown in the footer; the front end renders it as text.
#[derive(Debug, Clone, Copy, PartialEq, Eq)]
pub enum StatusMessage {
    /// Initial state, nothing happened yet.
    Ready,
    /// The given tab (counted from zero) was selected.
    SwitchedTo(usize),
    /// The main list was scrolled to the given offset.
    ScrolledTo(usize),
    /// The stats tab refreshed its data.
    StatsRefreshed,
    /// The settings tab applied its action.
    SettingsUpdated,
}

/// Application state with multi-tab navigation. The front end draws it; all
/// changes to it go through `handle_press`.
pub struct AppState {
    /// Currently selected tab (0 = main, 1 = stats, 2 = settings).
    pub selected_tab: usize,
    /// Scroll offset for list navigation on the main tab.
    pub scroll_offset: usize,
    /// Status shown in the footer.
    pub status: StatusMessage,
    /// The last button event received.
    pub last_button: Option<Button>,
    /// Percentage shown by the stats gauge.
    pub stats_tab_counter: u16,
}

/// The state after moving to the next tab, wrapping after the last.
pub open spec fn after_next_tab(pre: AppState) -> AppState {
    AppState {
        selected_tab: ((pre.selected_tab + 1) % (TAB_COUNT as int)) as usize,
        status: StatusMessage::SwitchedTo(((pre.selected_tab + 1) % (TAB_COUNT as int)) as usize),
        ..pre
    }
}

/// The state after the current tab's action: the main tab scrolls down
/// (saturating), the stats tab advances its gauge modulo one hundred, and
/// the settings tab only updates the status.
pub open spec fn after_action(pre: AppState) -> AppState {
    if pre.selected_tab == 0 {
        let offset: usize = if pre.scroll_offset == usize::MAX {
            pre.scroll_offset
        } else {
            (pre.scroll_offset + 1) as usize
        };
        AppState { scroll_offset: offset, status: StatusMessage::ScrolledTo(offset), ..pre }
    } else if pre.selected_tab == 1 {
        AppState {
            stats_tab_counter: ((pre.stats_tab_counter + STATS_COUNTER_STEP) % (
            STATS_COUNTER_MODULUS as int)) as u16,
            status: StatusMessage::StatsRefreshed,
            ..pre
        }
    } else if pre.selected_tab == 2 {
        AppState { status: StatusMessage::SettingsUpdated, ..pre }
    } else {
        pre
    }
}

/// The state after one button event: the event is remembered, a short press
/// of the first button moves to the next tab, a short press of the second
/// button performs the current tab's action, and anything else changes
/// nothing more.
pub open spec fn after_press(pre: AppState, button: Button) -> AppState {
    let remembered = AppState { last_button: Some(button), ..pre };
    match button {
        Button::Button1(ButtonPressType::Short) => after_next_tab(remembered),
        Button::Button2(ButtonPressType::Short) => after_action(remembered),
        _ => remembered,
    }
}

impl AppState {
    /// Well-formedness: the selected tab exists and the gauge shows a
    /// percentage.
    pub open spec fn wf(self) -> bool {
        self.selected_tab < TAB_COUNT && self.stats_tab_counter < STATS_COUNTER_MODULUS
    }

    /// Create a new app state with default values.
    pub fn new() -> (state: Self)
        ensures
            state.wf(),
            state.selected_tab == 0,
            state.scroll_offset == 0,
            state.status == StatusMessage::Ready,
            state.last_button is None,
            state.stats_tab_counter == 0,
    {
        AppState {
            selected_tab: 0,
            scroll_offset: 0,
            status: StatusMessage::Ready,
            last_button: None,
            stats_tab_counter: 0,
        }
    }

    /// Move to the next tab, wrapping after the last.
    pub fn next_tab(&mut self)
        requires
            old(self).wf(),
        ensures
            final(self).wf(),
            *final(self) == after_next_tab(*old(self)),
    {
        self.selected_tab = (self.selected_tab + 1) % TAB_COUNT;
        self.status = StatusMessage::SwitchedTo(self.selected_tab);
    }

    /// Perform the action of the currently selected tab.
    pub fn perform_action(&mut self)
        requires
            old(self).wf(),
        ensures
            final(self).wf(),
            *final(self) == after_action(*old(self)),
    {
        match self.selected_tab {
            0 => {
                if self.scroll_offset < usize::MAX {
                    self.scroll_offset = self.scroll_offset + 1;
                }
                self.status = StatusMessage::ScrolledTo(self.scroll_offset);
            },
            1 => {
                self.stats_tab_counter = (self.stats_tab_counter + STATS_COUNTER_STEP)
                    % STATS_COUNTER_MODULUS;
                self.status = StatusMessage::StatsRefreshed;
            },
            2 => {
                self.status = StatusMessage::SettingsUpdated;
            },
            _ => {
            },
        }
    }

    /// Handle one button event.
    pub fn handle_press(&mut self, button: Button)
        requires
            old(self).wf(),
        ensures
            final(self).wf(),
            *final(self) == after_press(*old(self), button),
            final(self).last_button == Some(button),
    {
        self.last_button = Some(button);
        match button {
            Button::Button1(ButtonPressType::Short) => self.next_tab(),
            Button::Button2(ButtonPressType::Short) => self.perform_action(),
            _ => {
            },
        }
    }
}

} // verus!
