use vstd::prelude::*;

use crate::timeline::Granularity;

verus! {

/// A list of display lines with a selection cursor.
pub struct StatefulList {
    /// The lines, oldest first.
    pub items: Vec<String>,
    /// Index of the selected line, when one is selected.
    pub selected: Option<usize>,
}

/// The selection after a bracketed move: forward or back without wrapping
/// at the ends; with nothing selected, the cursor lands at the start.
pub open spec fn bracketed_moved(sel: Option<usize>, len: int, next: bool) -> Option<usize> {
    match sel {
        Some(i) => if next {
            if i + 1 < len {
                Some((i + 1) as usize)
            } else {
                Some(i)
            }
        } else {
            if i > 0 {
                Some((i - 1) as usize)
            } else {
                Some(i)
            }
        },
        None => if len > 0 {
            Some(0usize)
        } else {
            None
        },
    }
}

impl StatefulList {
    /// The selection, if any, points into the list.
    pub open spec fn wf(&self) -> bool {
        match self.selected {
            Some(i) => i < self.items@.len(),
            None => true,
        }
    }

    pub fn new() -> (r: StatefulList)
        ensures
            r.wf(),
            r.items@.len() == 0,
            r.selected is None,
    {
        StatefulList { items: Vec::new(), selected: None }
    }

    pub fn with_items(items: Vec<String>) -> (r: StatefulList)
        ensures
            r.wf(),
            r.items@ == items@,
            r.selected is None,
    {
        StatefulList { items, selected: None }
    }

    /// Move the selection one line forward, wrapping to the start; with
    /// nothing selected, select the start.  An empty list keeps no
    /// selection.
    pub fn next(&mut self)
        requires
            old(self).wf(),
        ensures
            final(self).wf(),
            final(self).items@ == old(self).items@,
            final(self).selected == if old(self).items@.len() == 0 {
                Option::<usize>::None
            } else {
                match old(self).selected {
                    Some(i) => if i + 1 < old(self).items@.len() {
                        Some((i + 1) as usize)
                    } else {
                        Some(0usize)
                    },
                    None => Some(0usize),
                }
            },
    {
        if self.items.len() == 0 {
            self.selected = None;
            return ;
        }
        self.selected = match self.selected {
            Some(i) => if i + 1 < self.items.len() {
                Some(i + 1)
            } else {
                Some(0)
            },
            None => Some(0),
        };
    }

    /// Move the selection one line back, wrapping to the end; with nothing
    /// selected, select the start.  An empty list keeps no selection.
    pub fn previous(&mut self)
        requires
            old(self).wf(),
        ensures
            final(self).wf(),
            final(self).items@ == old(self).items@,
            final(self).selected == if old(self).items@.len() == 0 {
                Option::<usize>::None
            } else {
                match old(self).selected {
                    Some(i) => if i > 0 {
                        Some((i - 1) as usize)
                    } else {
                        Some((old(self).items@.len() - 1) as usize)
                    },
                    None => Some(0usize),
                }
            },
    {
        if self.items.len() == 0 {
            self.selected = None;
            return ;
        }
        self.selected = match self.selected {
            Some(i) => if i > 0 {
                Some(i - 1)
            } else {
                Some(self.items.len() - 1)
            },
            None => Some(0),
        };
    }

    /// Append one line, dropping the oldest lines beyond `max` and
    /// selecting the appended line when the list stayed within its bound.
    pub fn push_bounded(&mut self, text: &str, max: usize)
        requires
            old(self).wf(),
            max >= 1,
            old(self).items@.len() <= max,
        ensures
            final(self).wf(),
            final(self).items@.len() <= max,
            final(self).items@.last()@ == text@,
            final(self).items@.len() as int == if old(self).items@.len() < max {
                old(self).items@.len() as int + 1
            } else {
                old(self).items@.len() as int
            },
            final(self).items@.drop_last() == if old(self).items@.len() < max {
                old(self).items@
            } else {
                old(self).items@.drop_first()
            },
            final(self).selected == if old(self).items@.len() < max {
                Some((final(self).items@.len() - 1) as usize)
            } else {
                old(self).selected
            },
    {
        self.items.push(text.to_owned());
        if self.items.len() > max {
            self.items.remove(0);
            proof {
                assert(self.items@.drop_last() =~= old(self).items@.drop_first());
            }
        } else {
            self.selected = Some(self.items.len() - 1);
            proof {
                assert(self.items@.drop_last() =~= old(self).items@);
            }
        }
    }
}

/// Move a list's selection forward or back without wrapping at the start
/// or the end.
pub fn do_bracketed_next_previous(list: &mut StatefulList, next: bool)
    requires
        old(list).wf(),
    ensures
        final(list).wf(),
        final(list).items@ == old(list).items@,
        final(list).selected == bracketed_moved(
            old(list).selected,
            old(list).items@.len() as int,
            next,
        ),
{
    if next {
        match list.selected {
            Some(selected) => {
                if list.items.len() >= 1 && selected != list.items.len() - 1 {
                    list.next();
                }
            },
            None => {
                list.previous();
            },
        }
    } else {
        match list.selected {
            Some(selected) => {
                if selected != 0 {
                    list.previous();
                }
            },
            None => {
                list.previous();
            },
        }
    }
}

/// Active top-level view of the dashboard.
#[derive(Clone, Copy, PartialEq, Eq, Structural, Debug)]
pub enum DashViewMain {
    DashSummary,
    DashVault,
    DashDebug,
}

/// State of the dashboard that is not tied to one monitored source.
pub struct DashState {
    /// Which top-level view is active.
    pub main_view: DashViewMain,
    /// Which granularity's timeline is displayed.
    pub active_timeline: Granularity,
    /// Lines shown in the debug window.
    pub debug_window_list: StatefulList,
    /// Whether the debug window is enabled.
    pub debug_window: bool,
    /// Whether the debug window has keyboard focus.
    pub debug_window_has_focus: bool,
    /// Whether the parser-debug dashboard is active.
    pub debug_dashboard: bool,
    /// Bound on the number of retained debug lines.
    pub max_debug_window: usize,
}

impl DashState {
    /// Internal consistency: the debug list respects its bound and its
    /// selection.
    pub open spec fn wf(&self) -> bool {
        &&& self.debug_window_list.wf()
        &&& self.max_debug_window >= 1
        &&& self.debug_window_list.items@.len() <= self.max_debug_window
    }

    pub fn new() -> (r: DashState)
        ensures
            r.wf(),
            r.main_view == DashViewMain::DashVault,
            r.active_timeline == Granularity::Minute,
            r.debug_window_list.items@.len() == 0,
            r.debug_window_list.selected is None,
            !r.debug_window,
            !r.debug_window_has_focus,
            !r.debug_dashboard,
            r.max_debug_window == 100,
    {
        DashState {
            main_view: DashViewMain::DashVault,
            active_timeline: Granularity::Minute,
            debug_window_list: StatefulList::new(),
            debug_window: false,
            debug_window_has_focus: false,
            debug_dashboard: false,
            max_debug_window: 100,
        }
    }

    /// Append one line to the debug window, within its bound.
    pub fn _debug_window(&mut self, text: &str)
        requires
            old(self).wf(),
        ensures
            final(self).wf(),
            final(self).main_view == old(self).main_view,
            final(self).active_timeline == old(self).active_timeline,
            final(self).debug_window == old(self).debug_window,
            final(self).debug_window_has_focus == old(self).debug_window_has_focus,
            final(self).debug_dashboard == old(self).debug_dashboard,
            final(self).max_debug_window == old(self).max_debug_window,
            final(self).debug_window_list.items@.last()@ == text@,
            final(self).debug_window_list.items@.len() <= old(self).max_debug_window,
    {
        let max = self.max_debug_window;
        self.debug_window_list.push_bounded(text, max);
    }
}

/// Vertical split state of the dashboard.
pub struct DashVertical {
    /// Index of the active vertical view.
    pub active_view: usize,
}

impl DashVertical {
    pub fn new() -> (r: DashVertical)
        ensures
            r.active_view == 0,
    {
        DashVertical { active_view: 0 }
    }
}

} // verus!
