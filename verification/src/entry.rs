use vstd::prelude::*;

use crate::strutil::substring;
use crate::timeparse::{parse_rfc3339_nanos, rfc3339_instant};

verus! {

/// The character is an uppercase ASCII letter.
pub open spec fn is_upper(c: char) -> bool {
    65 <= c as u32 <= 90
}

/// Largest position `j` at or below `i`, but at least 42, where a closing
/// bracket is immediately followed by a space.  The source tag opens at
/// position 41, so its closing bracket can stand no earlier than 42; the
/// latest such bracket closes the tag, matching a longest-first reading of
/// the bracketed field.
pub open spec fn last_close_from(s: Seq<char>, i: int) -> Option<int>
    decreases i - 41,
{
    if i < 42 {
        None
    } else if i + 1 < s.len() && s[i] == ']' && s[i + 1] == ' ' {
        Some(i)
    } else {
        last_close_from(s, i - 1)
    }
}

/// Position of the source tag's closing bracket, if the line has one.
pub open spec fn source_close(s: Seq<char>) -> Option<int> {
    last_close_from(s, s.len() - 2)
}

/// The line fits the primary grammar's shape: a category of exactly four
/// uppercase letters, a space, a 35-character timestamp field free of
/// spaces, a space, a bracketed source tag, a space, and the message (which
/// may be empty).
pub open spec fn primary_shape(s: Seq<char>) -> bool {
    &&& s.len() >= 44
    &&& (forall|k: int| 0 <= k < 4 ==> is_upper(#[trigger] s[k]))
    &&& s[4] == ' '
    &&& (forall|k: int| 5 <= k < 40 ==> #[trigger] s[k] != ' ')
    &&& s[40] == ' '
    &&& s[41] == '['
    &&& source_close(s) is Some
}

/// The category field of a primary-grammar line.
pub open spec fn category_of(s: Seq<char>) -> Seq<char> {
    s.subrange(0, 4)
}

/// The timestamp field of a primary-grammar line.
pub open spec fn time_field_of(s: Seq<char>) -> Seq<char> {
    s.subrange(5, 40)
}

/// The bracketed source tag of a primary-grammar line, brackets included.
pub open spec fn source_of(s: Seq<char>) -> Seq<char> {
    match source_close(s) {
        Some(j) => s.subrange(41, j + 1),
        None => Seq::empty(),
    }
}

/// The free-text message of a primary-grammar line.
pub open spec fn message_of(s: Seq<char>) -> Seq<char> {
    match source_close(s) {
        Some(j) => s.subrange(j + 2, s.len() as int),
        None => Seq::empty(),
    }
}

/// The line decodes under the primary grammar: it has the grammar's shape
/// and its timestamp field names an instant.
pub open spec fn primary_ok(s: Seq<char>) -> bool {
    &&& primary_shape(s)
    &&& rfc3339_instant(time_field_of(s)) is Some
}

/// A closing position returned by `last_close_from` has the shape the scan
/// looked for.
pub proof fn lemma_last_close_props(s: Seq<char>, i: int, j: int)
    requires
        last_close_from(s, i) == Some(j),
    ensures
        42 <= j <= i,
        j + 1 < s.len(),
        s[j] == ']',
        s[j + 1] == ' ',
    decreases i - 41,
{
    if i < 42 {
    } else if i + 1 < s.len() && s[i] == ']' && s[i + 1] == ' ' {
    } else {
        lemma_last_close_props(s, i - 1, j);
    }
}

/// Law: the key fields decoded from a line in the primary grammar
/// reconstruct the line verbatim — category, space, timestamp field, space,
/// source tag, space, message.
pub proof fn lemma_fields_reconstruct(s: Seq<char>)
    requires
        primary_shape(s),
    ensures
        category_of(s) + seq![' '] + time_field_of(s) + seq![' '] + source_of(s) + seq![' ']
            + message_of(s) == s,
{
    let j = choose|j: int| source_close(s) == Some(j);
    lemma_last_close_props(s, s.len() - 2, j);
    assert(category_of(s) + seq![' '] + time_field_of(s) + seq![' '] + source_of(s) + seq![' ']
        + message_of(s) =~= s);
}

/// One decoded log line.
pub struct LogEntry {
    /// The raw line as it was read.
    pub logstring: String,
    /// First field of a recognized line, or the synthetic start label.
    pub category: String,
    /// Instant of the line, nanoseconds since the Unix epoch; `None` when
    /// the line carried no parseable time.
    pub time: Option<i64>,
    /// The bracketed source tag, brackets included; empty on fallback lines.
    pub source: String,
    /// The free text after the source tag.
    pub message: String,
    /// Human-readable account of what the decoder did, for debugging.
    pub parser_output: String,
}

impl LogEntry {
    /// Decode one line under the primary grammar.  Returns a record exactly
    /// when the line has the grammar's shape and its timestamp field names
    /// an instant; any deviation rejects the whole line.
    pub fn decode(line: &str) -> (r: Option<LogEntry>)
        ensures
            match r {
                Some(e) => {
                    &&& primary_ok(line@)
                    &&& e.logstring@ == line@
                    &&& e.category@ == category_of(line@)
                    &&& e.time == rfc3339_instant(time_field_of(line@))
                    &&& e.time is Some
                    &&& e.source@ == source_of(line@)
                    &&& e.message@ == message_of(line@)
                },
                None => !primary_ok(line@),
            },
    {
        let n = line.unicode_len();
        if n < 44 {
            return None;
        }
        // Category: four uppercase letters.
        let mut k: usize = 0;
        while k < 4
            invariant
                n == line@.len(),
                n >= 44,
                0 <= k <= 4,
                forall|q: int| 0 <= q < k ==> is_upper(#[trigger] line@[q]),
            decreases 4 - k,
        {
            let cu = line.get_char(k) as u32;
            if !(65 <= cu && cu <= 90) {
                return None;
            }
            k += 1;
        }
        // Separators and the opening bracket.
        if line.get_char(4) != ' ' {
            return None;
        }
        if line.get_char(40) != ' ' {
            return None;
        }
        if line.get_char(41) != '[' {
            return None;
        }
        // Timestamp field: 35 characters without a space.
        let mut k: usize = 5;
        while k < 40
            invariant
                n == line@.len(),
                n >= 44,
                5 <= k <= 40,
                forall|q: int| 5 <= q < k ==> #[trigger] line@[q] != ' ',
            decreases 40 - k,
        {
            if line.get_char(k) == ' ' {
                return None;
            }
            k += 1;
        }
        // The source tag's closing bracket: the latest `]` followed by a
        // space.
        let mut i: usize = n - 2;
        let mut close: Option<usize> = None;
        while i >= 42
            invariant_except_break
                close is None,
                n == line@.len(),
                n >= 44,
                41 <= i <= n - 2,
                last_close_from(line@, n as int - 2) == last_close_from(line@, i as int),
            ensures
                match close {
                    Some(j) => last_close_from(line@, n as int - 2) == Some(j as int) && 42 <= j
                        as int && j as int + 1 < n,
                    None => last_close_from(line@, n as int - 2) is None,
                },
            decreases i,
        {
            if line.get_char(i) == ']' && line.get_char(i + 1) == ' ' {
                close = Some(i);
                break ;
            }
            i -= 1;
        }
        let j = match close {
            None => { return None; },
            Some(j) => j,
        };
        // Timestamp field must name an instant.
        let time_text = substring(line, 5, 40);
        let time = match parse_rfc3339_nanos(time_text.as_str()) {
            None => { return None; },
            Some(t) => t,
        };
        let category = substring(line, 0, 4);
        let source = substring(line, 41, j + 1);
        let message = substring(line, j + 2, n);
        let mut parser_output = String::from_str("c: ");
        parser_output.append(category.as_str());
        parser_output.append(", t: ");
        parser_output.append(time_text.as_str());
        parser_output.append(", s: ");
        parser_output.append(source.as_str());
        parser_output.append(", m: ");
        parser_output.append(message.as_str());
        Some(
            LogEntry {
                logstring: line.to_owned(),
                category,
                time: Some(time),
                source,
                message,
                parser_output,
            },
        )
    }
}

} // verus!
