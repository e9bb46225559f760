//! A line-parsing and time-windowed metrics engine for live log
//! visualization: raw log lines are decoded into structured records,
//! classified as domain activity or lifecycle-state announcements, and
//! accumulated into sliding-window histograms at several time
//! granularities, one metrics store per monitored source.

pub mod bucket;
pub mod dash;
pub mod entry;
pub mod metrics;
pub mod monitor;
pub mod strutil;
pub mod timeline;
pub mod timeparse;
