use vstd::prelude::*;

use crate::dash::StatefulList;
use crate::metrics::{ingested_rel, VaultMetrics};

verus! {

/// One monitored log source: its metrics store and the lines retained for
/// display.
pub struct LogMonitor {
    /// Position of this monitor among all monitors.
    pub index: usize,
    /// Lines retained for display, oldest first.
    pub content: StatefulList,
    /// Bound on the number of retained display lines.
    pub max_content: usize,
    /// Whether this monitor has keyboard focus.
    pub has_focus: bool,
    /// Path of the monitored logfile.
    pub logfile: String,
    /// The metrics store fed by this source.
    pub metrics: VaultMetrics,
    /// Status lines of the store, for display.
    pub metrics_status: StatefulList,
}

impl LogMonitor {
    /// Internal consistency: the metrics store and both display lists are
    /// well formed, within their bounds.
    pub open spec fn wf(&self) -> bool {
        &&& self.metrics.wf()
        &&& self.content.wf()
        &&& self.metrics_status.wf()
        &&& self.max_content >= 1
        &&& self.content.items@.len() <= self.max_content
    }

    pub fn new(f: String, max_lines: usize, timeline_steps: usize, index: usize) -> (r: LogMonitor)
        requires
            max_lines >= 1,
            timeline_steps >= 1,
        ensures
            r.wf(),
            r.index == index,
            r.logfile == f,
            r.max_content == max_lines,
            !r.has_focus,
            r.content.items@.len() == 0,
            r.metrics_status.items@.len() == 0,
            r.metrics.log_history@.len() == 0,
            r.metrics.activity_history@.len() == 0,
    {
        LogMonitor {
            index,
            content: StatefulList::new(),
            max_content: max_lines,
            has_focus: false,
            logfile: f,
            metrics: VaultMetrics::new(timeline_steps),
            metrics_status: StatefulList::new(),
        }
    }

    /// Feed one line to the metrics store and retain it for display.
    pub fn append_to_content(&mut self, text: &str)
        requires
            old(self).wf(),
        ensures
            final(self).wf(),
            ingested_rel(old(self).metrics, final(self).metrics, text@),
            final(self).content.items@.last()@ == text@,
            final(self).content.items@.len() <= old(self).max_content,
            final(self).index == old(self).index,
            final(self).logfile == old(self).logfile,
            final(self).max_content == old(self).max_content,
            final(self).has_focus == old(self).has_focus,
            final(self).metrics_status == old(self).metrics_status,
    {
        if self.line_filter(text) {
            self.metrics.gather_metrics(text);
            self._append_to_content(text);
        }
    }

    /// Retain one line for display, within the bound.
    pub fn _append_to_content(&mut self, text: &str)
        requires
            old(self).wf(),
        ensures
            final(self).wf(),
            final(self).metrics == old(self).metrics,
            final(self).content.items@.last()@ == text@,
            final(self).content.items@.len() <= old(self).max_content,
            final(self).index == old(self).index,
            final(self).logfile == old(self).logfile,
            final(self).max_content == old(self).max_content,
            final(self).has_focus == old(self).has_focus,
            final(self).metrics_status == old(self).metrics_status,
    {
        let max = self.max_content;
        self.content.push_bounded(text, max);
    }

    /// Whether the line takes part in metrics and display; lines too
    /// numerous to show could be dropped here.
    fn line_filter(&mut self, line: &str) -> (r: bool)
        ensures
            *final(self) == *old(self),
            r,
    {
        true
    }
}

} // verus!
