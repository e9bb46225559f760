use vstd::prelude::*;

use crate::bucket::inc_sat;
use crate::entry::LogEntry;
use crate::strutil::{first_space_from, first_match, matches_at, u64_after};
use crate::timeline::{
    advanced_all_rel, incremented_all_rel, is_fresh_bucket_set, Granularity, TimelineSet,
    NANOS_PER_DAY, NANOS_PER_HOUR, NANOS_PER_MINUTE, NANOS_PER_TWELFTH_YEAR, NANOS_PER_YEAR,
};

verus! {

/// Bound on the activity history buffer: the oldest record leaves when a
/// new one would grow the buffer past this many records.
pub const ACTIVITY_HISTORY_LIMIT: usize = 1024;

/// Lifecycle stage of the monitored process instance, derived from log
/// text.
#[derive(Clone, Copy, PartialEq, Eq, Structural, Debug)]
pub enum VaultAgebracket {
    Unknown,
    Infant,
    Adult,
    Elder,
}

/// A classified unit of observed behavior extracted from a log line.
pub struct ActivityEntry {
    /// The extracted activity label, e.g. a response kind.
    pub activity: String,
    /// The raw line the activity was seen on.
    pub logstring: String,
    /// Category of the underlying record.
    pub category: String,
    /// Instant of the underlying record, nanoseconds since the Unix epoch.
    pub time: Option<i64>,
    /// Source tag of the underlying record.
    pub source: String,
    /// Diagnostic text; empty on construction.
    pub parser_output: String,
}

impl ActivityEntry {
    pub fn new(entry: &LogEntry, activity: &str) -> (r: ActivityEntry)
        ensures
            r.activity@ == activity@,
            r.logstring@ == entry.logstring@,
            r.category@ == entry.category@,
            r.time == entry.time,
            r.source@ == entry.source@,
            r.parser_output@ == Seq::<char>::empty(),
    {
        let r = ActivityEntry {
            activity: activity.to_owned(),
            logstring: entry.logstring.clone(),
            category: entry.category.clone(),
            time: entry.time,
            source: entry.source.clone(),
            parser_output: String::new(),
        };
        proof {
            assert(r.parser_output@ =~= Seq::<char>::empty());
        }
        r
    }
}

/// The marker that introduces an activity response in a log line.
pub open spec fn response_marker() -> Seq<char> {
    "Responded to our data handlers with: Response { response: Response::"@
}

/// Prefix announcing the cluster's elder count.
pub open spec fn elders_prefix() -> Seq<char> {
    "No. of Elders:"@
}

/// Prefix announcing the cluster's adult count.
pub open spec fn adults_prefix() -> Seq<char> {
    "No. of Adults:"@
}

/// Prefix announcing a lifecycle promotion.
pub open spec fn promoted_prefix() -> Seq<char> {
    "Vault promoted to "@
}

/// Prefix announcing the initial lifecycle stage.
pub open spec fn initializing_prefix() -> Seq<char> {
    "Initializing new Vault as "@
}

/// Prefix of the process-start marker line.
pub open spec fn start_prefix() -> Seq<char> {
    "Running safe-vault "@
}

/// The word starting at position `i`: the characters up to the next space
/// or the end of the text.
pub open spec fn word_of(s: Seq<char>, i: int) -> Seq<char> {
    s.subrange(i, first_space_from(s, i))
}

/// The activity label of a line: the text between the response marker and
/// the next comma, when the marker is present, a comma follows it, and the
/// text between them is non-empty.
pub open spec fn activity_label(s: Seq<char>) -> Option<Seq<char>> {
    match first_match(s, response_marker()) {
        None => None,
        Some(p) => {
            let rest = s.subrange(p + response_marker().len() as int, s.len() as int);
            match first_match(rest, ","@) {
                None => None,
                Some(e) => if e > 0 {
                    Some(rest.subrange(0, e))
                } else {
                    None
                },
            }
        },
    }
}

/// The age bracket named by a lifecycle word; any unrecognized word names
/// `Unknown`.
pub open spec fn bracket_of_word(w: Seq<char>) -> VaultAgebracket {
    if w == "Infant"@ {
        VaultAgebracket::Infant
    } else if w == "Adult"@ {
        VaultAgebracket::Adult
    } else if w == "Elder"@ {
        VaultAgebracket::Elder
    } else {
        VaultAgebracket::Unknown
    }
}

/// What a log line asks of the metrics store.  The patterns are tried in a
/// fixed priority order — activity extraction first, then elder count,
/// adult count, and lifecycle promotion — and the first match decides.
pub ghost enum LineEffect {
    /// Activity label starting with "Get".
    ActivityGet(Seq<char>),
    /// Activity label starting with "Mut".
    ActivityPut(Seq<char>),
    /// Any other non-empty activity label.
    ActivityOther(Seq<char>),
    /// The marker is present but the label is missing or empty.
    ActivityFailed,
    /// Elder count announcement; `None` when the payload is malformed.
    Elders(Option<int>),
    /// Adult count announcement; `None` when the payload is malformed.
    Adults(Option<int>),
    /// Lifecycle stage announcement.
    Bracket(VaultAgebracket),
    /// No recognized pattern.
    Nothing,
}

/// Classify one line per the fixed priority order.
pub open spec fn classify_line(s: Seq<char>) -> LineEffect {
    if first_match(s, response_marker()) is Some {
        match activity_label(s) {
            Some(l) => if matches_at(l, "Get"@, 0) {
                LineEffect::ActivityGet(l)
            } else if matches_at(l, "Mut"@, 0) {
                LineEffect::ActivityPut(l)
            } else {
                LineEffect::ActivityOther(l)
            },
            None => LineEffect::ActivityFailed,
        }
    } else {
        match first_match(s, elders_prefix()) {
            Some(p) => LineEffect::Elders(u64_after(s, p + elders_prefix().len() as int)),
            None => match first_match(s, adults_prefix()) {
                Some(p) => LineEffect::Adults(u64_after(s, p + adults_prefix().len() as int)),
                None => match first_match(s, promoted_prefix()) {
                    Some(p) => LineEffect::Bracket(
                        bracket_of_word(word_of(s, p + promoted_prefix().len() as int)),
                    ),
                    None => match first_match(s, initializing_prefix()) {
                        Some(p) => LineEffect::Bracket(
                            bracket_of_word(word_of(s, p + initializing_prefix().len() as int)),
                        ),
                        None => LineEffect::Nothing,
                    },
                },
            },
        }
    }
}

/// Aggregate root: per-source metrics derived from a log stream.
pub struct VaultMetrics {
    /// Instant the monitored process last announced a start.
    pub vault_started: Option<i64>,
    /// The raw process-start marker line, when one was seen.
    pub running_message: Option<String>,
    /// The version text after the process-start prefix.
    pub running_version: Option<String>,
    /// Occurrences of each category, keyed uniquely.
    pub category_count: Vec<(String, u64)>,
    /// Bounded history of classified activity.
    pub activity_history: Vec<ActivityEntry>,
    /// History of decoded records.
    pub log_history: Vec<LogEntry>,
    /// Timeline of put activity.
    pub puts_timeline: TimelineSet,
    /// Timeline of get activity.
    pub gets_timeline: TimelineSet,
    /// Timeline of error activity.
    pub errors_timeline: TimelineSet,
    /// Most recent timestamp seen on any decoded line.
    pub most_recent: Option<i64>,
    /// Lifecycle stage of the monitored process.
    pub agebracket: VaultAgebracket,
    /// Cluster adult count, as last announced.
    pub adults: u64,
    /// Cluster elder count, as last announced.
    pub elders: u64,
    /// Running count of get activity.
    pub activity_gets: u64,
    /// Running count of put activity.
    pub activity_puts: u64,
    /// Running count of error activity.
    pub activity_errors: u64,
    /// Running count of unclassified activity.
    pub activity_other: u64,
    /// Diagnostic text for the line processed last.
    pub parser_output: String,
}

/// A timeline holding the five standard granularities, each fresh with the
/// given number of retained steps.
pub open spec fn standard_timeline(tl: TimelineSet, steps: usize) -> bool {
    &&& tl.bucket_sets@.len() == 5
    &&& tl.bucket_sets@[0].0 == Granularity::Minute
    &&& is_fresh_bucket_set(tl.bucket_sets@[0].1, NANOS_PER_MINUTE, steps)
    &&& tl.bucket_sets@[1].0 == Granularity::Hour
    &&& is_fresh_bucket_set(tl.bucket_sets@[1].1, NANOS_PER_HOUR, steps)
    &&& tl.bucket_sets@[2].0 == Granularity::Day
    &&& is_fresh_bucket_set(tl.bucket_sets@[2].1, NANOS_PER_DAY, steps)
    &&& tl.bucket_sets@[3].0 == Granularity::TwelfthYear
    &&& is_fresh_bucket_set(tl.bucket_sets@[3].1, NANOS_PER_TWELFTH_YEAR, steps)
    &&& tl.bucket_sets@[4].0 == Granularity::Year
    &&& is_fresh_bucket_set(tl.bucket_sets@[4].1, NANOS_PER_YEAR, steps)
}

/// Fields that the per-line classification never touches.
pub open spec fn meta_same(a: VaultMetrics, b: VaultMetrics) -> bool {
    &&& b.vault_started == a.vault_started
    &&& b.running_message == a.running_message
    &&& b.running_version == a.running_version
    &&& b.category_count@ == a.category_count@
    &&& b.log_history@ == a.log_history@
    &&& b.most_recent == a.most_recent
}

/// Age bracket and cluster counts unchanged.
pub open spec fn lifecycle_same(a: VaultMetrics, b: VaultMetrics) -> bool {
    &&& b.agebracket == a.agebracket
    &&& b.adults == a.adults
    &&& b.elders == a.elders
}

/// The four running counters unchanged.
pub open spec fn counters_same(a: VaultMetrics, b: VaultMetrics) -> bool {
    &&& b.activity_gets == a.activity_gets
    &&& b.activity_puts == a.activity_puts
    &&& b.activity_errors == a.activity_errors
    &&& b.activity_other == a.activity_other
}

/// The three timelines unchanged.
pub open spec fn timelines_same(a: VaultMetrics, b: VaultMetrics) -> bool {
    &&& b.puts_timeline == a.puts_timeline
    &&& b.gets_timeline == a.gets_timeline
    &&& b.errors_timeline == a.errors_timeline
}

/// The activity history unchanged.
pub open spec fn activity_same(a: VaultMetrics, b: VaultMetrics) -> bool {
    b.activity_history@ == a.activity_history@
}

/// One activity record was appended to the bounded history: the record's
/// fields are those of the log record plus the label `l`, and when the
/// buffer was full the oldest record left.
pub open spec fn activity_appended(
    pre: Seq<ActivityEntry>,
    post: Seq<ActivityEntry>,
    s: Seq<char>,
    cat: Seq<char>,
    t: Option<i64>,
    src: Seq<char>,
    l: Seq<char>,
) -> bool {
    &&& post.len() as int == if pre.len() < ACTIVITY_HISTORY_LIMIT {
        pre.len() as int + 1
    } else {
        pre.len() as int
    }
    &&& post.drop_last() == if pre.len() < ACTIVITY_HISTORY_LIMIT {
        pre
    } else {
        pre.drop_first()
    }
    &&& post.last().activity@ == l
    &&& post.last().logstring@ == s
    &&& post.last().category@ == cat
    &&& post.last().time == t
    &&& post.last().source@ == src
}

/// How one classified line changes the store: exactly one of the
/// recognized patterns takes effect, and everything the pattern does not
/// name stays as it was.  `pre` is the store just before classification,
/// with the timelines already advanced.
pub open spec fn applied_entry_effect(pre: VaultMetrics, post: VaultMetrics, entry: LogEntry) -> bool {
    &&& meta_same(pre, post)
    &&& match classify_line(entry.logstring@) {
        LineEffect::ActivityGet(l) => {
            &&& activity_appended(
                pre.activity_history@,
                post.activity_history@,
                entry.logstring@,
                entry.category@,
                entry.time,
                entry.source@,
                l,
            )
            &&& post.activity_gets == inc_sat(pre.activity_gets)
            &&& post.activity_puts == pre.activity_puts
            &&& post.activity_errors == pre.activity_errors
            &&& post.activity_other == pre.activity_other
            &&& incremented_all_rel(pre.gets_timeline, post.gets_timeline)
            &&& post.puts_timeline == pre.puts_timeline
            &&& post.errors_timeline == pre.errors_timeline
            &&& lifecycle_same(pre, post)
            &&& post.parser_output@ == "vault activity: "@ + l
        },
        LineEffect::ActivityPut(l) => {
            &&& activity_appended(
                pre.activity_history@,
                post.activity_history@,
                entry.logstring@,
                entry.category@,
                entry.time,
                entry.source@,
                l,
            )
            &&& post.activity_puts == inc_sat(pre.activity_puts)
            &&& post.activity_gets == pre.activity_gets
            &&& post.activity_errors == pre.activity_errors
            &&& post.activity_other == pre.activity_other
            &&& incremented_all_rel(pre.puts_timeline, post.puts_timeline)
            &&& post.gets_timeline == pre.gets_timeline
            &&& post.errors_timeline == pre.errors_timeline
            &&& lifecycle_same(pre, post)
            &&& post.parser_output@ == "vault activity: "@ + l
        },
        LineEffect::ActivityOther(l) => {
            &&& activity_appended(
                pre.activity_history@,
                post.activity_history@,
                entry.logstring@,
                entry.category@,
                entry.time,
                entry.source@,
                l,
            )
            &&& post.activity_other == inc_sat(pre.activity_other)
            &&& post.activity_gets == pre.activity_gets
            &&& post.activity_puts == pre.activity_puts
            &&& post.activity_errors == pre.activity_errors
            &&& timelines_same(pre, post)
            &&& lifecycle_same(pre, post)
            &&& post.parser_output@ == "vault activity: "@ + l
        },
        LineEffect::ActivityFailed => {
            &&& activity_same(pre, post)
            &&& counters_same(pre, post)
            &&& timelines_same(pre, post)
            &&& lifecycle_same(pre, post)
            &&& post.parser_output@ == "failed to parse_data_response: "@ + entry.logstring@
        },
        LineEffect::Elders(v) => {
            &&& activity_same(pre, post)
            &&& counters_same(pre, post)
            &&& timelines_same(pre, post)
            &&& post.agebracket == pre.agebracket
            &&& post.adults == pre.adults
            &&& match v {
                Some(x) => post.elders == x,
                None => post.elders == pre.elders,
            }
        },
        LineEffect::Adults(v) => {
            &&& activity_same(pre, post)
            &&& counters_same(pre, post)
            &&& timelines_same(pre, post)
            &&& post.agebracket == pre.agebracket
            &&& post.elders == pre.elders
            &&& match v {
                Some(x) => post.adults == x,
                None => post.adults == pre.adults,
            }
        },
        LineEffect::Bracket(b) => {
            &&& activity_same(pre, post)
            &&& counters_same(pre, post)
            &&& timelines_same(pre, post)
            &&& post.agebracket == b
            &&& post.adults == pre.adults
            &&& post.elders == pre.elders
        },
        LineEffect::Nothing => {
            &&& activity_same(pre, post)
            &&& counters_same(pre, post)
            &&& timelines_same(pre, post)
            &&& lifecycle_same(pre, post)
            &&& post.parser_output == pre.parser_output
        },
    }
}

/// One log record was appended to the history, carrying these fields.
pub open spec fn log_appended(
    pre: Seq<LogEntry>,
    post: Seq<LogEntry>,
    s: Seq<char>,
    cat: Seq<char>,
    t: Option<i64>,
    src: Seq<char>,
    msg: Seq<char>,
) -> bool {
    &&& post.len() == pre.len() + 1
    &&& post.drop_last() == pre
    &&& post.last().logstring@ == s
    &&& post.last().category@ == cat
    &&& post.last().time == t
    &&& post.last().source@ == src
    &&& post.last().message@ == msg
}

/// The timeline advanced to the time, when one is known; `None` leaves it
/// unchanged.
pub open spec fn advanced_opt_rel(pre: TimelineSet, post: TimelineSet, t: Option<i64>) -> bool {
    match t {
        None => post == pre,
        Some(tt) => advanced_all_rel(pre, post, tt),
    }
}

/// The timeline advanced to the time and, when `inc` holds, had its
/// current buckets incremented.
pub open spec fn advanced_then_incremented(
    pre: TimelineSet,
    post: TimelineSet,
    t: Option<i64>,
    inc: bool,
) -> bool {
    exists|mid: TimelineSet|
        #[trigger] advanced_opt_rel(pre, mid, t) && if inc {
            incremented_all_rel(mid, post)
        } else {
            post == mid
        }
}

/// How one ingested line moves the three timelines: all advance to the new
/// current time, and the one timeline the line's activity belongs to is
/// incremented.
pub open spec fn ingest_timeline_effects(
    pre: VaultMetrics,
    post: VaultMetrics,
    s: Seq<char>,
    t: Option<i64>,
) -> bool {
    &&& advanced_then_incremented(
        pre.gets_timeline,
        post.gets_timeline,
        t,
        classify_line(s) matches LineEffect::ActivityGet(_),
    )
    &&& advanced_then_incremented(
        pre.puts_timeline,
        post.puts_timeline,
        t,
        classify_line(s) matches LineEffect::ActivityPut(_),
    )
    &&& advanced_then_incremented(pre.errors_timeline, post.errors_timeline, t, false)
}

/// How one ingested line moves the counters and lifecycle state.
pub open spec fn ingest_scalar_effects(pre: VaultMetrics, post: VaultMetrics, s: Seq<char>) -> bool {
    match classify_line(s) {
        LineEffect::ActivityGet(_) => {
            &&& post.activity_gets == inc_sat(pre.activity_gets)
            &&& post.activity_puts == pre.activity_puts
            &&& post.activity_errors == pre.activity_errors
            &&& post.activity_other == pre.activity_other
            &&& lifecycle_same(pre, post)
        },
        LineEffect::ActivityPut(_) => {
            &&& post.activity_puts == inc_sat(pre.activity_puts)
            &&& post.activity_gets == pre.activity_gets
            &&& post.activity_errors == pre.activity_errors
            &&& post.activity_other == pre.activity_other
            &&& lifecycle_same(pre, post)
        },
        LineEffect::ActivityOther(_) => {
            &&& post.activity_other == inc_sat(pre.activity_other)
            &&& post.activity_gets == pre.activity_gets
            &&& post.activity_puts == pre.activity_puts
            &&& post.activity_errors == pre.activity_errors
            &&& lifecycle_same(pre, post)
        },
        LineEffect::ActivityFailed => counters_same(pre, post) && lifecycle_same(pre, post),
        LineEffect::Elders(v) => {
            &&& counters_same(pre, post)
            &&& post.agebracket == pre.agebracket
            &&& post.adults == pre.adults
            &&& match v {
                Some(x) => post.elders == x,
                None => post.elders == pre.elders,
            }
        },
        LineEffect::Adults(v) => {
            &&& counters_same(pre, post)
            &&& post.agebracket == pre.agebracket
            &&& post.elders == pre.elders
            &&& match v {
                Some(x) => post.adults == x,
                None => post.adults == pre.adults,
            }
        },
        LineEffect::Bracket(b) => {
            &&& counters_same(pre, post)
            &&& post.agebracket == b
            &&& post.adults == pre.adults
            &&& post.elders == pre.elders
        },
        LineEffect::Nothing => counters_same(pre, post) && lifecycle_same(pre, post),
    }
}

/// How one ingested line moves the activity history: a record is appended
/// exactly when the line carries a non-empty activity label.
pub open spec fn ingest_activity_effects(
    pre: VaultMetrics,
    post: VaultMetrics,
    s: Seq<char>,
    cat: Seq<char>,
    t: Option<i64>,
    src: Seq<char>,
) -> bool {
    match classify_line(s) {
        LineEffect::ActivityGet(l) => activity_appended(
            pre.activity_history@,
            post.activity_history@,
            s,
            cat,
            t,
            src,
            l,
        ),
        LineEffect::ActivityPut(l) => activity_appended(
            pre.activity_history@,
            post.activity_history@,
            s,
            cat,
            t,
            src,
            l,
        ),
        LineEffect::ActivityOther(l) => activity_appended(
            pre.activity_history@,
            post.activity_history@,
            s,
            cat,
            t,
            src,
            l,
        ),
        _ => post.activity_history@ == pre.activity_history@,
    }
}

/// First position whose key holds the category text, scanning from `i`.
pub open spec fn cat_index_from(s: Seq<(String, u64)>, key: Seq<char>, i: int) -> Option<int>
    decreases s.len() - i,
{
    if i < 0 || i >= s.len() {
        None
    } else if s[i].0@ == key {
        Some(i)
    } else {
        cat_index_from(s, key, i + 1)
    }
}

/// First position whose key holds the category text, if any.
pub open spec fn cat_index(s: Seq<(String, u64)>, key: Seq<char>) -> Option<int> {
    cat_index_from(s, key, 0)
}

/// No key at or after `i` holds `g`, so the scan finds nothing.
proof fn lemma_index_of_none_from(
    s: Seq<(Granularity, crate::bucket::BucketSet)>,
    g: Granularity,
    i: int,
)
    requires
        0 <= i,
        forall|k: int| i <= k < s.len() ==> (#[trigger] s[k]).0 != g,
    ensures
        crate::timeline::index_of_from(s, g, i) is None,
    decreases s.len() - i + 1,
{
    if i < s.len() {
        lemma_index_of_none_from(s, g, i + 1);
    }
}

/// A timeline with the five standard granularities, each retaining
/// `steps` buckets.
fn standard_timeline_new(name: String, steps: usize) -> (r: TimelineSet)
    requires
        steps >= 1,
    ensures
        r.wf(),
        r.name == name,
        standard_timeline(r, steps),
{
    let mut tl = TimelineSet::new(name);
    proof {
        lemma_index_of_none_from(tl.bucket_sets@, Granularity::Minute, 0);
    }
    tl.add_bucket_set(Granularity::Minute, NANOS_PER_MINUTE, steps);
    proof {
        lemma_index_of_none_from(tl.bucket_sets@, Granularity::Hour, 0);
    }
    tl.add_bucket_set(Granularity::Hour, NANOS_PER_HOUR, steps);
    proof {
        lemma_index_of_none_from(tl.bucket_sets@, Granularity::Day, 0);
    }
    tl.add_bucket_set(Granularity::Day, NANOS_PER_DAY, steps);
    proof {
        lemma_index_of_none_from(tl.bucket_sets@, Granularity::TwelfthYear, 0);
    }
    tl.add_bucket_set(Granularity::TwelfthYear, NANOS_PER_TWELFTH_YEAR, steps);
    proof {
        lemma_index_of_none_from(tl.bucket_sets@, Granularity::Year, 0);
    }
    tl.add_bucket_set(Granularity::Year, NANOS_PER_YEAR, steps);
    tl
}

impl VaultMetrics {
    /// Internal consistency: the timelines are well formed, the activity
    /// history respects its bound, and category keys are unique.
    pub open spec fn wf(&self) -> bool {
        &&& self.puts_timeline.wf()
        &&& self.gets_timeline.wf()
        &&& self.errors_timeline.wf()
        &&& self.activity_history@.len() <= ACTIVITY_HISTORY_LIMIT
        &&& forall|i: int, j: int|
            0 <= i < j < self.category_count@.len() ==> (#[trigger] self.category_count@[i]).0@ != (
            #[trigger] self.category_count@[j]).0@
    }

    /// A fresh store: empty histories, zeroed counters, `Infant` bracket,
    /// and the three timelines at the five standard granularities.
    pub fn new(timeline_steps: usize) -> (r: VaultMetrics)
        requires
            timeline_steps >= 1,
        ensures
            r.wf(),
            standard_timeline(r.puts_timeline, timeline_steps),
            r.puts_timeline.name@ == "PUTS"@,
            standard_timeline(r.gets_timeline, timeline_steps),
            r.gets_timeline.name@ == "GETS"@,
            standard_timeline(r.errors_timeline, timeline_steps),
            r.errors_timeline.name@ == "ERRORS"@,
            r.vault_started is None,
            r.running_message is None,
            r.running_version is None,
            r.category_count@.len() == 0,
            r.activity_history@.len() == 0,
            r.log_history@.len() == 0,
            r.most_recent is None,
            r.agebracket == VaultAgebracket::Infant,
            r.adults == 0,
            r.elders == 0,
            r.activity_gets == 0,
            r.activity_puts == 0,
            r.activity_errors == 0,
            r.activity_other == 0,
            r.parser_output@ == "-"@,
    {
        VaultMetrics {
            vault_started: None,
            running_message: None,
            running_version: None,
            category_count: Vec::new(),
            activity_history: Vec::new(),
            log_history: Vec::new(),
            puts_timeline: standard_timeline_new(String::from_str("PUTS"), timeline_steps),
            gets_timeline: standard_timeline_new(String::from_str("GETS"), timeline_steps),
            errors_timeline: standard_timeline_new(String::from_str("ERRORS"), timeline_steps),
            most_recent: None,
            agebracket: VaultAgebracket::Infant,
            adults: 0,
            elders: 0,
            activity_gets: 0,
            activity_puts: 0,
            activity_errors: 0,
            activity_other: 0,
            parser_output: String::from_str("-"),
        }
    }

    /// The current age bracket as display text.
    pub fn agebracket_string(&self) -> (r: String)
        ensures
            r@ == match self.agebracket {
                VaultAgebracket::Infant => "Infant"@,
                VaultAgebracket::Adult => "Adult"@,
                VaultAgebracket::Elder => "Elder"@,
                VaultAgebracket::Unknown => "Unknown"@,
            },
    {
        match self.agebracket {
            VaultAgebracket::Infant => String::from_str("Infant"),
            VaultAgebracket::Adult => String::from_str("Adult"),
            VaultAgebracket::Elder => String::from_str("Elder"),
            VaultAgebracket::Unknown => String::from_str("Unknown"),
        }
    }

    /// Clear the counters and lifecycle state after a process restart; the
    /// timelines and histories persist by design.
    fn reset_metrics(&mut self)
        requires
            old(self).wf(),
        ensures
            final(self).wf(),
            final(self).agebracket == VaultAgebracket::Infant,
            final(self).adults == 0,
            final(self).elders == 0,
            final(self).activity_gets == 0,
            final(self).activity_puts == 0,
            final(self).activity_errors == 0,
            final(self).activity_other == 0,
            meta_same(*old(self), *final(self)),
            activity_same(*old(self), *final(self)),
            timelines_same(*old(self), *final(self)),
            final(self).parser_output == old(self).parser_output,
    {
        self.agebracket = VaultAgebracket::Infant;
        self.adults = 0;
        self.elders = 0;
        self.activity_gets = 0;
        self.activity_puts = 0;
        self.activity_errors = 0;
        self.activity_other = 0;
    }

    /// Count one get: the running counter and every granularity of the
    /// gets timeline.
    fn count_get(&mut self)
        requires
            old(self).wf(),
        ensures
            final(self).wf(),
            meta_same(*old(self), *final(self)),
            activity_same(*old(self), *final(self)),
            lifecycle_same(*old(self), *final(self)),
            final(self).parser_output == old(self).parser_output,
            final(self).activity_gets == inc_sat(old(self).activity_gets),
            final(self).activity_puts == old(self).activity_puts,
            final(self).activity_errors == old(self).activity_errors,
            final(self).activity_other == old(self).activity_other,
            incremented_all_rel(old(self).gets_timeline, final(self).gets_timeline),
            final(self).puts_timeline == old(self).puts_timeline,
            final(self).errors_timeline == old(self).errors_timeline,
    {
        if self.activity_gets < u64::MAX {
            self.activity_gets = self.activity_gets + 1;
        }
        self.gets_timeline.increment_value();
    }

    /// Count one put: the running counter and every granularity of the
    /// puts timeline.
    fn count_put(&mut self)
        requires
            old(self).wf(),
        ensures
            final(self).wf(),
            meta_same(*old(self), *final(self)),
            activity_same(*old(self), *final(self)),
            lifecycle_same(*old(self), *final(self)),
            final(self).parser_output == old(self).parser_output,
            final(self).activity_puts == inc_sat(old(self).activity_puts),
            final(self).activity_gets == old(self).activity_gets,
            final(self).activity_errors == old(self).activity_errors,
            final(self).activity_other == old(self).activity_other,
            incremented_all_rel(old(self).puts_timeline, final(self).puts_timeline),
            final(self).gets_timeline == old(self).gets_timeline,
            final(self).errors_timeline == old(self).errors_timeline,
    {
        if self.activity_puts < u64::MAX {
            self.activity_puts = self.activity_puts + 1;
        }
        self.puts_timeline.increment_value();
    }

    /// Count one error: the running counter and every granularity of the
    /// errors timeline.
    fn count_error(&mut self)
        requires
            old(self).wf(),
        ensures
            final(self).wf(),
            meta_same(*old(self), *final(self)),
            activity_same(*old(self), *final(self)),
            lifecycle_same(*old(self), *final(self)),
            final(self).parser_output == old(self).parser_output,
            final(self).activity_errors == inc_sat(old(self).activity_errors),
            final(self).activity_gets == old(self).activity_gets,
            final(self).activity_puts == old(self).activity_puts,
            final(self).activity_other == old(self).activity_other,
            incremented_all_rel(old(self).errors_timeline, final(self).errors_timeline),
            final(self).gets_timeline == old(self).gets_timeline,
            final(self).puts_timeline == old(self).puts_timeline,
    {
        if self.activity_errors < u64::MAX {
            self.activity_errors = self.activity_errors + 1;
        }
        self.errors_timeline.increment_value();
    }

    /// Route one activity record by its label: a label starting "Get"
    /// counts as a get, one starting "Mut" as a put, anything else only
    /// bumps the unclassified counter.
    pub fn parse_activity_counts(&mut self, entry: &ActivityEntry)
        requires
            old(self).wf(),
        ensures
            final(self).wf(),
            meta_same(*old(self), *final(self)),
            activity_same(*old(self), *final(self)),
            lifecycle_same(*old(self), *final(self)),
            final(self).parser_output == old(self).parser_output,
            if matches_at(entry.activity@, "Get"@, 0) {
                &&& final(self).activity_gets == inc_sat(old(self).activity_gets)
                &&& final(self).activity_puts == old(self).activity_puts
                &&& final(self).activity_errors == old(self).activity_errors
                &&& final(self).activity_other == old(self).activity_other
                &&& incremented_all_rel(old(self).gets_timeline, final(self).gets_timeline)
                &&& final(self).puts_timeline == old(self).puts_timeline
                &&& final(self).errors_timeline == old(self).errors_timeline
            } else if matches_at(entry.activity@, "Mut"@, 0) {
                &&& final(self).activity_puts == inc_sat(old(self).activity_puts)
                &&& final(self).activity_gets == old(self).activity_gets
                &&& final(self).activity_errors == old(self).activity_errors
                &&& final(self).activity_other == old(self).activity_other
                &&& incremented_all_rel(old(self).puts_timeline, final(self).puts_timeline)
                &&& final(self).gets_timeline == old(self).gets_timeline
                &&& final(self).errors_timeline == old(self).errors_timeline
            } else {
                &&& final(self).activity_other == inc_sat(old(self).activity_other)
                &&& final(self).activity_gets == old(self).activity_gets
                &&& final(self).activity_puts == old(self).activity_puts
                &&& final(self).activity_errors == old(self).activity_errors
                &&& timelines_same(*old(self), *final(self))
            },
    {
        if crate::strutil::has_prefix(entry.activity.as_str(), "Get") {
            self.count_get();
        } else if crate::strutil::has_prefix(entry.activity.as_str(), "Mut") {
            self.count_put();
        } else {
            if self.activity_other < u64::MAX {
                self.activity_other = self.activity_other + 1;
            }
        }
    }

    /// Count one occurrence of the record's category, keeping one entry per
    /// category; an empty category counts nothing.
    pub fn parse_logentry_counts(&mut self, entry: &LogEntry)
        requires
            old(self).wf(),
        ensures
            final(self).wf(),
            lifecycle_same(*old(self), *final(self)),
            counters_same(*old(self), *final(self)),
            timelines_same(*old(self), *final(self)),
            activity_same(*old(self), *final(self)),
            final(self).vault_started == old(self).vault_started,
            final(self).running_message == old(self).running_message,
            final(self).running_version == old(self).running_version,
            final(self).log_history@ == old(self).log_history@,
            final(self).most_recent == old(self).most_recent,
            final(self).parser_output == old(self).parser_output,
            ({
                let oc = old(self).category_count@;
                let nc = final(self).category_count@;
                if entry.category@.len() == 0 {
                    nc == oc
                } else {
                    match cat_index(oc, entry.category@) {
                        Some(i) => {
                            &&& nc.len() == oc.len()
                            &&& forall|j: int| 0 <= j < oc.len() && j != i ==> nc[j] == oc[j]
                            &&& nc[i].0 == oc[i].0
                            &&& nc[i].1 == inc_sat(oc[i].1)
                        },
                        None => {
                            &&& nc.len() == oc.len() + 1
                            &&& nc.subrange(0, oc.len() as int) == oc
                            &&& nc.last().0@ == entry.category@
                            &&& nc.last().1 == 1u64
                        },
                    }
                }
            }),
    {
        if entry.category.as_str().unicode_len() == 0 {
            return ;
        }
        let n = self.category_count.len();
        let mut idx: usize = 0;
        while idx < n
            invariant
                old(self).wf(),
                *self == *old(self),
                entry.category@.len() != 0,
                n == self.category_count@.len(),
                0 <= idx <= n,
                cat_index(self.category_count@, entry.category@) == cat_index_from(
                    self.category_count@,
                    entry.category@,
                    idx as int,
                ),
                forall|j: int|
                    0 <= j < idx ==> (#[trigger] self.category_count@[j]).0@ != entry.category@,
            decreases n - idx,
        {
            if crate::strutil::str_eq(self.category_count[idx].0.as_str(), entry.category.as_str())
             {
                let v = self.category_count[idx].1;
                if v < u64::MAX {
                    self.category_count[idx].1 = v + 1;
                }
                return ;
            }
            idx += 1;
        }
        self.category_count.push((entry.category.clone(), 1));
        proof {
            assert(self.category_count@.subrange(0, old(self).category_count@.len() as int)
                =~= old(self).category_count@);
        }
    }

    /// Extract an activity response from the line, when the marker is
    /// present: the label up to the next comma is classified and recorded;
    /// a missing or empty label is a local parse failure recorded in the
    /// diagnostic text.  Returns whether the marker was present.
    fn parse_data_response(&mut self, entry: &LogEntry, pattern: &str) -> (ret: bool)
        requires
            old(self).wf(),
            pattern@ == response_marker(),
        ensures
            final(self).wf(),
            ret == (first_match(entry.logstring@, response_marker()) is Some),
            if ret {
                applied_entry_effect(*old(self), *final(self), *entry)
            } else {
                *final(self) == *old(self)
            },
    {
        let s = entry.logstring.as_str();
        let n = s.unicode_len();
        let p = match crate::strutil::find_pattern(s, pattern) {
            None => { return false; },
            Some(p) => p,
        };
        let mlen = pattern.unicode_len();
        let rest = crate::strutil::substring(s, p + mlen, n);
        let label_opt = match crate::strutil::find_pattern(rest.as_str(), ",") {
            None => None,
            Some(e) => if e > 0 {
                Some(crate::strutil::substring(rest.as_str(), 0, e))
            } else {
                None
            },
        };
        match label_opt {
            None => {
                let mut po = String::from_str("failed to parse_data_response: ");
                po.append(s);
                self.parser_output = po;
                true
            },
            Some(label) => {
                let activity = ActivityEntry::new(entry, label.as_str());
                self.parse_activity_counts(&activity);
                self.activity_history.push(activity);
                if self.activity_history.len() > ACTIVITY_HISTORY_LIMIT {
                    self.activity_history.remove(0);
                    proof {
                        assert(self.activity_history@.drop_last() =~= old(
                            self,
                        ).activity_history@.drop_first());
                    }
                } else {
                    proof {
                        assert(self.activity_history@.drop_last() =~= old(
                            self,
                        ).activity_history@);
                    }
                }
                let mut po = String::from_str("vault activity: ");
                po.append(label.as_str());
                self.parser_output = po;
                true
            },
        }
    }

    /// Check the line against the lifecycle-state patterns, in the fixed
    /// priority order, the first match deciding: elder count, adult count,
    /// then a lifecycle promotion word.  Returns whether any matched.
    fn parse_states(&mut self, entry: &LogEntry) -> (ret: bool)
        requires
            old(self).wf(),
            first_match(entry.logstring@, response_marker()) is None,
        ensures
            final(self).wf(),
            ret == !(classify_line(entry.logstring@) is Nothing),
            if ret {
                applied_entry_effect(*old(self), *final(self), *entry)
            } else {
                *final(self) == *old(self)
            },
    {
        let s = entry.logstring.as_str();
        let n = s.unicode_len();
        match crate::strutil::find_pattern(s, "No. of Elders:") {
            Some(p) => {
                let plen = "No. of Elders:".unicode_len();
                match crate::strutil::parse_u64_after(s, p + plen) {
                    Some(v) => {
                        self.elders = v;
                        let mut po = String::from_str("ELDERS: ");
                        po.append(v.to_string().as_str());
                        self.parser_output = po;
                    },
                    None => {
                        let mut po = String::from_str("failed to parse usize from: '");
                        po.append(s);
                        po.append("'");
                        self.parser_output = po;
                    },
                }
                return true;
            },
            None => {},
        }
        match crate::strutil::find_pattern(s, "No. of Adults:") {
            Some(p) => {
                let plen = "No. of Adults:".unicode_len();
                match crate::strutil::parse_u64_after(s, p + plen) {
                    Some(v) => {
                        self.adults = v;
                        let mut po = String::from_str("ADULTS: ");
                        po.append(v.to_string().as_str());
                        self.parser_output = po;
                    },
                    None => {
                        let mut po = String::from_str("failed to parse usize from: '");
                        po.append(s);
                        po.append("'");
                        self.parser_output = po;
                    },
                }
                return true;
            },
            None => {},
        }
        let found: Option<(usize, usize)> = match crate::strutil::find_pattern(
            s,
            "Vault promoted to ",
        ) {
            Some(p) => Some((p, "Vault promoted to ".unicode_len())),
            None => match crate::strutil::find_pattern(s, "Initializing new Vault as ") {
                Some(p) => Some((p, "Initializing new Vault as ".unicode_len())),
                None => None,
            },
        };
        match found {
            None => false,
            Some((p, plen)) => {
                let word = crate::strutil::word_after(s, p + plen);
                let bracket = if crate::strutil::str_eq(word.as_str(), "Infant") {
                    VaultAgebracket::Infant
                } else if crate::strutil::str_eq(word.as_str(), "Adult") {
                    VaultAgebracket::Adult
                } else if crate::strutil::str_eq(word.as_str(), "Elder") {
                    VaultAgebracket::Elder
                } else {
                    VaultAgebracket::Unknown
                };
                self.agebracket = bracket;
                let mut po = String::from_str("Vault agebracket: ");
                po.append(word.as_str());
                self.parser_output = po;
                true
            },
        }
    }

    /// Run the per-line extraction: an activity response first, then the
    /// lifecycle-state patterns; the first success stops further attempts.
    /// Returns whether the line was recognized.
    pub fn process_logfile_entry(&mut self, entry: &LogEntry) -> (ret: bool)
        requires
            old(self).wf(),
        ensures
            final(self).wf(),
            ret == !(classify_line(entry.logstring@) is Nothing),
            applied_entry_effect(*old(self), *final(self), *entry),
    {
        if self.parse_data_response(
            entry,
            "Responded to our data handlers with: Response { response: Response::",
        ) {
            return true;
        }
        self.parse_states(entry)
    }

    /// Recognize the process-start marker line, the fallback grammar.  On
    /// a match, capture the raw line and the version text after the
    /// prefix, remember the start instant, and hand back a record with the
    /// synthetic start category and the most recent known time.
    pub fn parse_start(&mut self, line: &str) -> (r: Option<LogEntry>)
        requires
            old(self).wf(),
        ensures
            final(self).wf(),
            if matches_at(line@, start_prefix(), 0) {
                &&& r matches Some(e) && e.logstring@ == line@ && e.category@ == "START"@
                    && e.time == old(self).most_recent && e.source@ == Seq::<char>::empty()
                    && e.message@ == line@
                &&& final(self).running_message matches Some(m) && m@ == line@
                &&& final(self).running_version matches Some(v) && v@ == line@.subrange(
                    start_prefix().len() as int,
                    line@.len() as int,
                )
                &&& final(self).vault_started == old(self).most_recent
                &&& final(self).most_recent == old(self).most_recent
                &&& final(self).log_history@ == old(self).log_history@
                &&& final(self).category_count@ == old(self).category_count@
                &&& activity_same(*old(self), *final(self))
                &&& timelines_same(*old(self), *final(self))
                &&& counters_same(*old(self), *final(self))
                &&& lifecycle_same(*old(self), *final(self))
                &&& final(self).parser_output == old(self).parser_output
            } else {
                r is None && *final(self) == *old(self)
            },
    {
        if !crate::strutil::has_prefix(line, "Running safe-vault ") {
            return None;
        }
        let n = line.unicode_len();
        let plen = "Running safe-vault ".unicode_len();
        self.running_message = Some(line.to_owned());
        self.running_version = Some(crate::strutil::substring(line, plen, n));
        self.vault_started = self.most_recent;
        let po = match self.most_recent {
            Some(t) => {
                let mut q = String::from_str("START at ");
                q.append(t.to_string().as_str());
                q
            },
            None => String::from_str("START at None"),
        };
        let r = LogEntry {
            logstring: line.to_owned(),
            category: String::from_str("START"),
            time: self.most_recent,
            source: String::new(),
            message: line.to_owned(),
            parser_output: po,
        };
        proof {
            assert(r.source@ =~= Seq::<char>::empty());
        }
        Some(r)
    }
}

/// The whole effect of ingesting one raw line into the store: the primary
/// grammar case, the start-marker fallback case, and the unrecognizable
/// case.
pub open spec fn ingested_rel(pre: VaultMetrics, post: VaultMetrics, s: Seq<char>) -> bool {
    if crate::entry::primary_ok(s) {
                    let t = crate::timeparse::rfc3339_instant(crate::entry::time_field_of(s));
                    &&& post.most_recent == t
                    &&& post.vault_started == pre.vault_started
                    &&& post.running_message == pre.running_message
                    &&& post.running_version == pre.running_version
                    &&& post.category_count@ == pre.category_count@
                    &&& log_appended(
                        pre.log_history@,
                        post.log_history@,
                        s,
                        crate::entry::category_of(s),
                        t,
                        crate::entry::source_of(s),
                        crate::entry::message_of(s),
                    )
                    &&& ingest_timeline_effects(pre, post, s, t)
                    &&& ingest_activity_effects(
                        pre,
                        post,
                        s,
                        crate::entry::category_of(s),
                        t,
                        crate::entry::source_of(s),
                    )
                    &&& ingest_scalar_effects(pre, post, s)
                } else if matches_at(s, start_prefix(), 0) {
                    &&& post.most_recent == pre.most_recent
                    &&& post.vault_started == pre.most_recent
                    &&& post.running_message matches Some(m) && m@ == s
                    &&& post.running_version matches Some(v) && v@ == s.subrange(
                        start_prefix().len() as int,
                        s.len() as int,
                    )
                    &&& post.category_count@ == pre.category_count@
                    &&& log_appended(
                        pre.log_history@,
                        post.log_history@,
                        s,
                        "START"@,
                        pre.most_recent,
                        Seq::empty(),
                        s,
                    )
                    &&& ingest_timeline_effects(pre, post, s, pre.most_recent)
                    &&& ingest_activity_effects(
                        pre,
                        post,
                        s,
                        "START"@,
                        pre.most_recent,
                        Seq::empty(),
                    )
                    &&& post.agebracket == VaultAgebracket::Infant
                    &&& post.adults == 0
                    &&& post.elders == 0
                    &&& post.activity_gets == 0
                    &&& post.activity_puts == 0
                    &&& post.activity_errors == 0
                    &&& post.activity_other == 0
    } else {
        &&& post.vault_started == pre.vault_started
        &&& post.running_message == pre.running_message
        &&& post.running_version == pre.running_version
        &&& post.category_count@ == pre.category_count@
        &&& post.log_history@ == pre.log_history@
        &&& post.most_recent == pre.most_recent
        &&& activity_same(pre, post)
        &&& counters_same(pre, post)
        &&& timelines_same(pre, post)
        &&& lifecycle_same(pre, post)
        &&& post.parser_output@ == "LogEntry::decode() failed on: "@ + s
    }
}

impl VaultMetrics {
    /// Ingest one raw line: decode it (primary grammar, then the start
    /// fallback), backfill or update the most recent time, advance all
    /// timelines to it, run the per-line extraction, append the record to
    /// the history, and, on a start marker, reset the counters and
    /// lifecycle state last, so the reset affects subsequent lines only.
    /// An unrecognizable line only records a diagnostic.
    pub fn gather_metrics(&mut self, line: &str)
        requires
            old(self).wf(),
        ensures
            final(self).wf(),
            ingested_rel(*old(self), *final(self), line@),
    {
        let entry_opt = match LogEntry::decode(line) {
            Some(e) => Some(e),
            None => self.parse_start(line),
        };
        match entry_opt {
            None => {
                let mut po = String::from_str("LogEntry::decode() failed on: ");
                po.append(line);
                self.parser_output = po;
            },
            Some(mut e) => {
                if e.time.is_none() {
                    e.time = self.most_recent;
                } else {
                    self.most_recent = e.time;
                }
                let ghost t = self.most_recent;
                self.puts_timeline.update_current_time(self.most_recent);
                self.gets_timeline.update_current_time(self.most_recent);
                self.errors_timeline.update_current_time(self.most_recent);
                let ghost mid = *self;
                self.parser_output = e.parser_output.clone();
                self.process_logfile_entry(&e);
                let is_start = crate::strutil::str_eq(e.category.as_str(), "START");
                proof {
                    reveal_strlit("START");
                    if crate::entry::primary_ok(line@) {
                        assert(e.category@.len() == 4);
                        assert(!is_start);
                    } else {
                        assert(is_start);
                    }
                }
                self.log_history.push(e);
                proof {
                    assert(self.log_history@.drop_last() =~= old(self).log_history@);
                }
                if is_start {
                    self.reset_metrics();
                }
                proof {
                    assert(advanced_opt_rel(old(self).gets_timeline, mid.gets_timeline, t));
                    assert(advanced_opt_rel(old(self).puts_timeline, mid.puts_timeline, t));
                    assert(advanced_opt_rel(old(self).errors_timeline, mid.errors_timeline, t));
                }
            },
        }
    }
}

} // verus!
