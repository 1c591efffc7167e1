//! State of the history graph view: zoom level and scroll position, and the
//! query step used for a time span.
use vstd::prelude::*;

verus! {

/// Number of zoom levels.
pub const ZOOM_LEVEL_COUNT: usize = 8;

/// The window of zoom level `i`, in seconds.
pub open spec fn zoom_secs(i: int) -> u64 {
    if i == 0 {
        60
    } else if i == 1 {
        300
    } else if i == 2 {
        900
    } else if i == 3 {
        3600
    } else if i == 4 {
        14400
    } else if i == 5 {
        43200
    } else if i == 6 {
        86400
    } else {
        172800
    }
}

/// The tab shown.
#[derive(Debug, Default, Clone, Copy, PartialEq, Eq, Structural)]
pub enum Tab {
    #[default]
    Overview,
    Graphs,
}

impl Tab {
    /// The other tab.
    pub fn next(self) -> (r: Tab)
        ensures
            r != self,
    {
        match self {
            Tab::Overview => Tab::Graphs,
            Tab::Graphs => Tab::Overview,
        }
    }
}

/// Zoom level and how far back from the newest sample the view is scrolled.
#[derive(Debug, Clone, Copy, PartialEq, Eq, Structural)]
pub struct GraphViewState {
    pub zoom_level_idx: usize,
    pub scroll_offset_secs: u64,
}

impl Default for GraphViewState {
    fn default() -> (r: GraphViewState)
        ensures
            r.zoom_level_idx == 2,
            r.scroll_offset_secs == 0,
    {
        GraphViewState { zoom_level_idx: 2, scroll_offset_secs: 0 }
    }
}

impl GraphViewState {
    pub open spec fn wf(&self) -> bool {
        self.zoom_level_idx < ZOOM_LEVEL_COUNT
    }

    pub fn zoom_window_secs(&self) -> (r: u64)
        requires
            self.wf(),
        ensures
            r == zoom_secs(self.zoom_level_idx as int),
    {
        match self.zoom_level_idx {
            0 => 60,
            1 => 300,
            2 => 900,
            3 => 3600,
            4 => 14400,
            5 => 43200,
            6 => 86400,
            _ => 172800,
        }
    }

    pub fn zoom_label(&self) -> (r: &'static str)
        requires
            self.wf(),
    {
        match self.zoom_level_idx {
            0 => "1 min",
            1 => "5 min",
            2 => "15 min",
            3 => "1 hour",
            4 => "4 hours",
            5 => "12 hours",
            6 => "24 hours",
            _ => "48 hours",
        }
    }

    /// One level narrower, if there is one.
    pub fn zoom_in(&mut self)
        requires
            old(self).wf(),
        ensures
            final(self).wf(),
            final(self).scroll_offset_secs == old(self).scroll_offset_secs,
            final(self).zoom_level_idx == if old(self).zoom_level_idx > 0 {
                (old(self).zoom_level_idx - 1) as usize
            } else {
                0
            },
    {
        if self.zoom_level_idx > 0 {
            self.zoom_level_idx = self.zoom_level_idx - 1;
        }
    }

    /// One level wider, if there is one.
    pub fn zoom_out(&mut self)
        requires
            old(self).wf(),
        ensures
            final(self).wf(),
            final(self).scroll_offset_secs == old(self).scroll_offset_secs,
            final(self).zoom_level_idx == if old(self).zoom_level_idx < ZOOM_LEVEL_COUNT - 1 {
                (old(self).zoom_level_idx + 1) as usize
            } else {
                old(self).zoom_level_idx
            },
    {
        if self.zoom_level_idx < ZOOM_LEVEL_COUNT - 1 {
            self.zoom_level_idx = self.zoom_level_idx + 1;
        }
    }

    /// Scrolls `secs` further back, but not past `max_offset`.
    pub fn scroll_back(&mut self, secs: u64, max_offset: u64)
        ensures
            final(self).zoom_level_idx == old(self).zoom_level_idx,
            final(self).scroll_offset_secs == if old(self).scroll_offset_secs + secs < max_offset {
                (old(self).scroll_offset_secs + secs) as u64
            } else {
                max_offset
            },
    {
        if self.scroll_offset_secs >= max_offset || secs >= max_offset - self.scroll_offset_secs {
            self.scroll_offset_secs = max_offset;
        } else {
            self.scroll_offset_secs = self.scroll_offset_secs + secs;
        }
    }

    /// Scrolls `secs` toward the newest sample, stopping there.
    pub fn scroll_forward(&mut self, secs: u64)
        ensures
            final(self).zoom_level_idx == old(self).zoom_level_idx,
            final(self).scroll_offset_secs == if old(self).scroll_offset_secs > secs {
                (old(self).scroll_offset_secs - secs) as u64
            } else {
                0
            },
    {
        self.scroll_offset_secs = if self.scroll_offset_secs > secs { self.scroll_offset_secs - secs } else { 0 };
    }

    pub fn jump_to_newest(&mut self)
        ensures
            final(self).zoom_level_idx == old(self).zoom_level_idx,
            final(self).scroll_offset_secs == 0,
    {
        self.scroll_offset_secs = 0;
    }

    /// Scrolls so that the window ends at the oldest sample of a history
    /// spanning `history_duration` seconds.
    pub fn jump_to_oldest(&mut self, history_duration: u64)
        requires
            old(self).wf(),
        ensures
            final(self).zoom_level_idx == old(self).zoom_level_idx,
            final(self).scroll_offset_secs == if history_duration > zoom_secs(old(self).zoom_level_idx as int) {
                (history_duration - zoom_secs(old(self).zoom_level_idx as int)) as u64
            } else {
                0
            },
    {
        let window = self.zoom_window_secs();
        self.scroll_offset_secs = if history_duration > window { history_duration - window } else { 0 };
    }
}

/// The query step for a span: 15 s up to an hour, a minute up to six hours,
/// five minutes up to a day, half an hour beyond.
pub open spec fn step_for(duration_secs: u64) -> u64 {
    if duration_secs <= 3600 {
        15
    } else if duration_secs <= 21600 {
        60
    } else if duration_secs <= 86400 {
        300
    } else {
        1800
    }
}

pub fn calculate_step_for_duration(duration_secs: u64) -> (r: u64)
    ensures
        r == step_for(duration_secs),
{
    if duration_secs <= 3600 {
        15
    } else if duration_secs <= 21600 {
        60
    } else if duration_secs <= 86400 {
        300
    } else {
        1800
    }
}

} // verus!
