use vstd::prelude::*;
use crate::log_feed::{after_frame, LogFeed};
use crate::settings::{Indicator, IndicatorType};
use crate::ui_state::{next_state, UiState};

verus! {

/// What the overlay does in one frame.
#[derive(Clone, Copy, Debug, PartialEq, Eq, Structural)]
pub struct FramePlan {
    /// Draw the full interactive panel.
    pub draw_panel: bool,
    /// Draw the compact banner, the enabled indicators and each widget's
    /// collapsed row.
    pub draw_closed: bool,
    /// Run every widget's `interact`.
    pub interact: bool,
}

/// The per-frame driver: visibility state, the frame counter, the indicator
/// list and the log feed.
pub struct FrameDriver {
    pub state: UiState,
    /// The operator asked the overlay to stay hidden when the menu closes.
    pub stay_hidden: bool,
    pub framecount: u32,
    pub indicators: Vec<Indicator>,
    pub log: LogFeed,
    /// Whether the host's cursor is to be shown; the caller applies it to the
    /// host after each call.
    pub cursor_shown: bool,
}

/// The indicator list and the log feed are the same in `a` and `b`.
pub open spec fn keeps_data(a: FrameDriver, b: FrameDriver) -> bool {
    &&& a.indicators@ == b.indicators@
    &&& a.log.entries@ == b.log.entries@
}

/// The state after the keys of one frame: the keys count only while the host
/// UI is not capturing the keyboard.
pub open spec fn state_after_keys(d: FrameDriver, toggle: bool, hide: bool, captured: bool) -> UiState {
    if !captured && (toggle || hide) {
        next_state(d.state, toggle, hide, d.stay_hidden)
    } else {
        d.state
    }
}

/// The plan of a frame in state `s`; `typing` is true while a text field of
/// the panel has the keyboard.
pub open spec fn plan_for(s: UiState, typing: bool) -> FramePlan {
    match s {
        UiState::MenuOpen => FramePlan { draw_panel: true, draw_closed: false, interact: !typing },
        UiState::Closed => FramePlan { draw_panel: false, draw_closed: true, interact: true },
        UiState::Hidden => FramePlan { draw_panel: false, draw_closed: false, interact: true },
    }
}

/// The cursor after the keys of a frame: shown while the menu is open, hidden
/// when a key closed or hid it, else as it was.
pub open spec fn cursor_after_keys(d: FrameDriver, toggle: bool, hide: bool, captured: bool) -> bool {
    if state_after_keys(d, toggle, hide, captured) == UiState::MenuOpen {
        true
    } else if !captured && (toggle || hide) {
        false
    } else {
        d.cursor_shown
    }
}

impl FrameDriver {
    /// A driver for the given indicators, starting closed.
    pub fn new(indicators: Vec<Indicator>) -> (r: FrameDriver)
        ensures
            r.state == UiState::Closed,
            !r.stay_hidden,
            r.framecount == 0,
            r.indicators@ == indicators@,
            r.log.entries@.len() == 0,
            !r.cursor_shown,
    {
        FrameDriver {
            state: UiState::Closed,
            stay_hidden: false,
            framecount: 0,
            indicators,
            log: LogFeed::new(),
            cursor_shown: false,
        }
    }

    /// Starts a frame: counts it, applies the toggle and force-hide keys (unless
    /// the host UI captures the keyboard) and says what to draw and run.
    pub fn begin_frame(&mut self, toggle: bool, hide: bool, captured: bool, typing: bool) -> (r: FramePlan)
        ensures
            final(self).state == state_after_keys(*old(self), toggle, hide, captured),
            final(self).framecount == (if old(self).framecount == u32::MAX { 0 } else { (old(self).framecount + 1) as u32 }),
            final(self).stay_hidden == old(self).stay_hidden,
            keeps_data(*final(self), *old(self)),
            final(self).cursor_shown == cursor_after_keys(*old(self), toggle, hide, captured),
            r == plan_for(final(self).state, typing),
    {
        self.framecount = self.framecount.wrapping_add(1);
        let changed = !captured && (toggle || hide);
        if changed {
            self.state = self.state.next(toggle, hide, self.stay_hidden);
            self.cursor_shown = false;
        }
        match self.state {
            UiState::MenuOpen => {
                self.cursor_shown = true;
                FramePlan { draw_panel: true, draw_closed: false, interact: !typing }
            },
            UiState::Closed => FramePlan { draw_panel: false, draw_closed: true, interact: true },
            UiState::Hidden => FramePlan { draw_panel: false, draw_closed: false, interact: true },
        }
    }

    /// The panel's close button (and its eject button): back to the banner,
    /// with the host's cursor hidden.
    pub fn close_menu(&mut self)
        ensures
            final(self).state == UiState::Closed,
            !final(self).cursor_shown,
            final(self).stay_hidden == old(self).stay_hidden,
            final(self).framecount == old(self).framecount,
            keeps_data(*final(self), *old(self)),
    {
        self.state = UiState::Closed;
        self.cursor_shown = false;
    }

    /// The panel's unhide button: the overlay no longer stays hidden; back to
    /// the banner with the cursor hidden.
    pub fn unhide(&mut self)
        ensures
            final(self).state == UiState::Closed,
            !final(self).stay_hidden,
            !final(self).cursor_shown,
            final(self).framecount == old(self).framecount,
            keeps_data(*final(self), *old(self)),
    {
        self.stay_hidden = false;
        self.state = UiState::Closed;
        self.cursor_shown = false;
    }

    /// The banner's open button; the next frame shows the cursor.
    pub fn open_menu(&mut self)
        ensures
            final(self).state == UiState::MenuOpen,
            final(self).stay_hidden == old(self).stay_hidden,
            final(self).framecount == old(self).framecount,
            final(self).cursor_shown == old(self).cursor_shown,
            keeps_data(*final(self), *old(self)),
    {
        self.state = UiState::MenuOpen;
    }

    /// The banner's hide button: hidden now, and after each later close, with
    /// the cursor hidden.
    pub fn hide_overlay(&mut self)
        ensures
            final(self).state == UiState::Hidden,
            final(self).stay_hidden,
            !final(self).cursor_shown,
            final(self).framecount == old(self).framecount,
            keeps_data(*final(self), *old(self)),
    {
        self.stay_hidden = true;
        self.state = UiState::Hidden;
        self.cursor_shown = false;
    }

    /// A popup of the banner (indicators, help, update) is showing: the cursor
    /// is shown while it is.
    pub fn popup_shown(&mut self)
        ensures
            final(self).cursor_shown,
            final(self).state == old(self).state,
            final(self).stay_hidden == old(self).stay_hidden,
            final(self).framecount == old(self).framecount,
            keeps_data(*final(self), *old(self)),
    {
        self.cursor_shown = true;
    }

    /// A popup's close button: the cursor is hidden again.
    pub fn popup_closed(&mut self)
        ensures
            !final(self).cursor_shown,
            final(self).state == old(self).state,
            final(self).stay_hidden == old(self).stay_hidden,
            final(self).framecount == old(self).framecount,
            keeps_data(*final(self), *old(self)),
    {
        self.cursor_shown = false;
    }

    /// The frame counter's reset button.
    pub fn reset_framecount(&mut self)
        ensures
            final(self).framecount == 0,
            final(self).state == old(self).state,
            final(self).stay_hidden == old(self).stay_hidden,
            final(self).cursor_shown == old(self).cursor_shown,
            keeps_data(*final(self), *old(self)),
    {
        self.framecount = 0;
    }

    /// Turns one indicator on or off; the list's order and kinds stay.
    pub fn set_indicator(&mut self, i: usize, enabled: bool)
        requires
            i < old(self).indicators@.len(),
        ensures
            final(self).indicators@ == old(self).indicators@.update(
                i as int,
                Indicator { indicator: old(self).indicators@[i as int].indicator, enabled },
            ),
            final(self).log.entries@ == old(self).log.entries@,
            final(self).state == old(self).state,
            final(self).stay_hidden == old(self).stay_hidden,
            final(self).framecount == old(self).framecount,
            final(self).cursor_shown == old(self).cursor_shown,
    {
        let k = self.indicators[i].indicator;
        self.indicators.set(i, Indicator { indicator: k, enabled });
    }

    /// The indicators to draw while the menu is closed: the enabled ones, in
    /// the configured order.
    pub fn shown_indicators(&self) -> (r: Vec<IndicatorType>)
        ensures
            r@ == shown_kinds(self.indicators@),
    {
        let mut r: Vec<IndicatorType> = Vec::new();
        let mut i: usize = 0;
        while i < self.indicators.len()
            invariant
                i <= self.indicators@.len(),
                r@ == shown_kinds(self.indicators@.subrange(0, i as int)),
            decreases self.indicators@.len() - i,
        {
            let ind = self.indicators[i];
            proof {
                let s = self.indicators@.subrange(0, i + 1);
                assert(s.drop_last() == self.indicators@.subrange(0, i as int));
                assert(s.last() == ind);
            }
            if ind.enabled {
                r.push(ind.indicator);
            }
            i = i + 1;
        }
        assert(self.indicators@.subrange(0, i as int) == self.indicators@);
        r
    }

    /// Ends a frame: drains the widgets' messages into the log feed, stamped
    /// with the frame time, and drops what has expired.
    pub fn end_frame(&mut self, now_ms: u64, messages: Vec<String>)
        ensures
            final(self).log.entries@ == after_frame(old(self).log.entries@, now_ms, messages@),
            final(self).indicators@ == old(self).indicators@,
            final(self).state == old(self).state,
            final(self).stay_hidden == old(self).stay_hidden,
            final(self).framecount == old(self).framecount,
            final(self).cursor_shown == old(self).cursor_shown,
    {
        self.log.end_frame(now_ms, messages);
    }
}

/// The kinds of the enabled indicators, in order.
pub open spec fn shown_kinds(s: Seq<Indicator>) -> Seq<IndicatorType>
    decreases s.len(),
{
    if s.len() == 0 {
        seq![]
    } else if s.last().enabled {
        shown_kinds(s.drop_last()).push(s.last().indicator)
    } else {
        shown_kinds(s.drop_last())
    }
}

/// While the menu is open, widgets react to hotkeys unless the operator is
/// typing; while it is closed or hidden, hotkeys always stay live.
pub proof fn lemma_hotkeys_live(s: UiState, typing: bool)
    ensures
        s != UiState::MenuOpen ==> plan_for(s, typing).interact,
        s == UiState::MenuOpen ==> plan_for(s, typing).interact == !typing,
        plan_for(s, typing).draw_panel <==> s == UiState::MenuOpen,
        plan_for(s, typing).draw_closed <==> s == UiState::Closed,
{
}

} // verus!
