//! Reading a Callgrind report: its `events:` and `summary:` lines, the counters they give, and
//! the cycle estimate derived from them.
use vstd::prelude::*;

use crate::text::{
    chars_of, find_marked_line, last_marked, lines, parse_unsigned, parse_unsigned_spec,
    span_equals, spans_view, token_spans, tokens, unsigned_value,
};

verus! {

/// Counters read from one Callgrind report. A counter is `None` when the report does not list
/// its event (cache counters, for instance, exist only when cache simulation was on).
#[derive(Clone, Debug, Hash, PartialEq, Eq, PartialOrd)]
pub struct ParsedCallgrindOutput {
    /// Name of the scenario that the report belongs to.
    pub name: String,
    /// Instructions executed (`Ir`).
    pub instruction_reads: Option<u64>,
    /// First-level instruction cache misses (`I1mr`).
    pub instruction_l1_misses: Option<u64>,
    /// Last-level instruction cache misses (`ILmr`).
    pub instruction_cache_misses: Option<u64>,
    /// Memory reads (`Dr`).
    pub data_reads: Option<u64>,
    /// First-level data cache read misses (`D1mr`).
    pub data_l1_read_misses: Option<u64>,
    /// Last-level data cache read misses (`DLmr`).
    pub data_cache_read_misses: Option<u64>,
    /// Memory writes (`Dw`).
    pub data_writes: Option<u64>,
    /// First-level data cache write misses (`D1mw`).
    pub data_l1_write_misses: Option<u64>,
    /// Last-level data cache write misses (`DLmw`).
    pub data_cache_write_misses: Option<u64>,
}

/// Why a report could not be read.
#[derive(Clone, Copy, Debug, PartialEq, Eq, Structural)]
pub enum ReportError {
    /// The report has no `events:` line or no `summary:` line.
    MissingMarker,
    /// A summary value is not an unsigned 64-bit integer.
    InvalidNumber,
}

/// The smaller of two lengths.
pub open spec fn min_len(a: nat, b: nat) -> nat {
    if a < b {
        a
    } else {
        b
    }
}

/// The value of the event `name` among the first `n` pairs of event names `evs` and summary
/// values `sums`; where a name occurs twice, the later pair counts.
pub open spec fn event_value(
    evs: Seq<Seq<char>>,
    sums: Seq<Seq<char>>,
    name: Seq<char>,
    n: nat,
) -> Option<u64>
    decreases n,
{
    if n == 0 {
        None
    } else if evs[n - 1] == name {
        Some(unsigned_value(sums[n - 1]) as u64)
    } else {
        event_value(evs, sums, name, (n - 1) as nat)
    }
}

/// The first `n` summary values are unsigned 64-bit integers.
pub open spec fn summary_valid(sums: Seq<Seq<char>>, n: nat) -> bool {
    forall|j: int| 0 <= j < n ==> #[trigger] parse_unsigned_spec(sums[j], u64::MAX as nat) is Some
}

/// The values `vals` are the first `n` summary values read as integers.
pub open spec fn values_of(sums: Seq<Seq<char>>, vals: Seq<u64>, n: nat) -> bool {
    forall|j: int| 0 <= j < n ==> #[trigger] vals[j] == unsigned_value(sums[j]) as u64
}

/// The nine counters of `p` are those of the first `n` pairs of `evs` and `sums`.
pub open spec fn counters_are(
    p: ParsedCallgrindOutput,
    evs: Seq<Seq<char>>,
    sums: Seq<Seq<char>>,
    n: nat,
) -> bool {
    &&& p.instruction_reads == event_value(evs, sums, "Ir"@, n)
    &&& p.instruction_l1_misses == event_value(evs, sums, "I1mr"@, n)
    &&& p.instruction_cache_misses == event_value(evs, sums, "ILmr"@, n)
    &&& p.data_reads == event_value(evs, sums, "Dr"@, n)
    &&& p.data_l1_read_misses == event_value(evs, sums, "D1mr"@, n)
    &&& p.data_cache_read_misses == event_value(evs, sums, "DLmr"@, n)
    &&& p.data_writes == event_value(evs, sums, "Dw"@, n)
    &&& p.data_l1_write_misses == event_value(evs, sums, "D1mw"@, n)
    &&& p.data_cache_write_misses == event_value(evs, sums, "DLmw"@, n)
}

/// The event names and summary values of the report `text`, or why it cannot be read: the
/// tokens of the last `events: ` line and of the last `summary: ` line; every summary value
/// must be an unsigned 64-bit integer.
pub open spec fn report_tokens(text: Seq<char>) -> Result<
    (Seq<Seq<char>>, Seq<Seq<char>>),
    ReportError,
> {
    match (last_marked(lines(text), "events: "@), last_marked(lines(text), "summary: "@)) {
        (Some(e), Some(s)) => {
            let evs = tokens(e);
            let sums = tokens(s);
            if summary_valid(sums, sums.len()) {
                Ok((evs, sums))
            } else {
                Err(ReportError::InvalidNumber)
            }
        },
        _ => Err(ReportError::MissingMarker),
    }
}

/// Reads the counters of the Callgrind report `text` for the scenario `name`.
///
/// The `events:` line names the events in order and the `summary:` line gives their totals in
/// the same order; each counter is the value paired with its event name.
pub fn parse_callgrind_output(text: &str, name: String) -> (r: Result<
    ParsedCallgrindOutput,
    ReportError,
>)
    ensures
        match report_tokens(text@) {
            Ok((evs, sums)) => r matches Ok(p) && p.name@ == name@ && counters_are(
                p,
                evs,
                sums,
                min_len(evs.len(), sums.len()),
            ),
            Err(e) => r == Err::<ParsedCallgrindOutput, ReportError>(e),
        },
{
    let cs = chars_of(text);
    let events = find_marked_line(&cs, "events: ");
    let summary = find_marked_line(&cs, "summary: ");
    let (e, s) = match (events, summary) {
        (Some(e), Some(s)) => (e, s),
        _ => {
            return Err(ReportError::MissingMarker);
        },
    };
    let et = token_spans(&cs, e.0, e.1);
    let st = token_spans(&cs, s.0, s.1);
    let ghost evs = tokens(cs@.subrange(e.0 as int, e.1 as int));
    let ghost sums = tokens(cs@.subrange(s.0 as int, s.1 as int));
    let n = if et.len() < st.len() {
        et.len()
    } else {
        st.len()
    };
    let mut vals: Vec<u64> = Vec::new();
    let mut j: usize = 0;
    while j < st.len()
        invariant
            cs@ == text@,
            last_marked(lines(text@), "events: "@) == Some(cs@.subrange(e.0 as int, e.1 as int)),
            last_marked(lines(text@), "summary: "@) == Some(cs@.subrange(s.0 as int, s.1 as int)),
            evs == tokens(cs@.subrange(e.0 as int, e.1 as int)),
            sums == tokens(cs@.subrange(s.0 as int, s.1 as int)),
            j <= st.len(),
            vals.len() == j,
            s.0 <= s.1 <= cs.len(),
            spans_view(cs@, st@) == sums,
            crate::text::spans_within(st@, s.0 as int, s.1 as int),
            summary_valid(sums, j as nat),
            values_of(sums, vals@, j as nat),
        decreases st.len() - j,
    {
        let (c, d) = st[j];
        assert(sums[j as int] == cs@.subrange(c as int, d as int));
        match parse_unsigned(&cs, c, d, u64::MAX) {
            Some(v) => {
                vals.push(v);
            },
            None => {
                assert(!summary_valid(sums, sums.len()));
                return Err(ReportError::InvalidNumber);
            },
        }
        j += 1;
    }
    let mut out = ParsedCallgrindOutput {
        name,
        instruction_reads: None,
        instruction_l1_misses: None,
        instruction_cache_misses: None,
        data_reads: None,
        data_l1_read_misses: None,
        data_cache_read_misses: None,
        data_writes: None,
        data_l1_write_misses: None,
        data_cache_write_misses: None,
    };
    let mut j: usize = 0;
    while j < n
        invariant
            n == min_len(evs.len(), sums.len()),
            n <= et.len(),
            n <= vals.len(),
            j <= n,
            e.0 <= e.1 <= cs.len(),
            spans_view(cs@, et@) == evs,
            crate::text::spans_within(et@, e.0 as int, e.1 as int),
            values_of(sums, vals@, sums.len()),
            vals.len() == sums.len(),
            out.name@ == name@,
            counters_are(out, evs, sums, j as nat),
        decreases n - j,
    {
        let (a, b) = et[j];
        assert(evs[j as int] == cs@.subrange(a as int, b as int));
        let v = vals[j];
        if span_equals(&cs, a, b, "Ir") {
            out.instruction_reads = Some(v);
        }
        if span_equals(&cs, a, b, "I1mr") {
            out.instruction_l1_misses = Some(v);
        }
        if span_equals(&cs, a, b, "ILmr") {
            out.instruction_cache_misses = Some(v);
        }
        if span_equals(&cs, a, b, "Dr") {
            out.data_reads = Some(v);
        }
        if span_equals(&cs, a, b, "D1mr") {
            out.data_l1_read_misses = Some(v);
        }
        if span_equals(&cs, a, b, "DLmr") {
            out.data_cache_read_misses = Some(v);
        }
        if span_equals(&cs, a, b, "Dw") {
            out.data_writes = Some(v);
        }
        if span_equals(&cs, a, b, "D1mw") {
            out.data_l1_write_misses = Some(v);
        }
        if span_equals(&cs, a, b, "DLmw") {
            out.data_cache_write_misses = Some(v);
        }
        j += 1;
    }
    Ok(out)
}

/// With distinct event names, each name that occurs among the first `n` events reads the
/// summary value at its own position, and a name that does not occur reads nothing: the
/// parsed counters tell the pairs of the report apart.
pub proof fn lemma_event_value_exact(
    evs: Seq<Seq<char>>,
    sums: Seq<Seq<char>>,
    name: Seq<char>,
    n: nat,
)
    requires
        n <= evs.len(),
        forall|a: int, b: int| 0 <= a < b < evs.len() ==> evs[a] != evs[b],
    ensures
        forall|j: int|
            0 <= j < n && #[trigger] evs[j] == name ==> event_value(evs, sums, name, n) == Some(
                unsigned_value(sums[j]) as u64,
            ),
        (forall|j: int| 0 <= j < n ==> #[trigger] evs[j] != name) ==> event_value(
            evs,
            sums,
            name,
            n,
        ) is None,
    decreases n,
{
    if n > 0 {
        lemma_event_value_exact(evs, sums, name, (n - 1) as nat);
    }
}

/// A report without an `events:` line or without a `summary:` line gives no counters.
pub proof fn lemma_missing_marker_fails(text: Seq<char>)
    requires
        last_marked(lines(text), "events: "@) is None || last_marked(lines(text), "summary: "@) is None,
    ensures
        report_tokens(text) == Err::<(Seq<Seq<char>>, Seq<Seq<char>>), ReportError>(
            ReportError::MissingMarker,
        ),
{
}

/// Accesses that went to memory: the last-level misses of instruction fetches, data reads and
/// data writes added up, when all three are known.
pub open spec fn spec_ram_accesses(p: ParsedCallgrindOutput) -> Option<int> {
    match (p.instruction_cache_misses, p.data_cache_read_misses, p.data_cache_write_misses) {
        (Some(i), Some(r), Some(w)) => Some(i + r + w),
        _ => None,
    }
}

/// The estimated cycle count when all nine counters are known and consistent:
/// `l1_hits + 5 * l3_hits + 35 * ram_accesses`, where `l3_hits` are the first-level misses
/// that hit the last level and `l1_hits` the accesses that hit the first level.
pub open spec fn spec_cycles(p: ParsedCallgrindOutput) -> Option<int> {
    match (
        spec_ram_accesses(p),
        p.instruction_l1_misses,
        p.data_l1_read_misses,
        p.data_l1_write_misses,
        p.instruction_reads,
        p.data_reads,
        p.data_writes,
    ) {
        (Some(ram), Some(i1), Some(d1r), Some(d1w), Some(ir), Some(dr), Some(dw)) => {
            let l3_accesses = i1 + d1r + d1w;
            let l3_hits = l3_accesses - ram;
            let memory_accesses = ir + dr + dw;
            let l1_hits = memory_accesses - ram - l3_hits;
            if l3_hits >= 0 && l1_hits >= 0 {
                Some(l1_hits + 5 * l3_hits + 35 * ram)
            } else {
                None
            }
        },
        _ => None,
    }
}

/// `v` as a `u64`, when it is one.
pub open spec fn fit_u64(v: Option<int>) -> Option<u64> {
    match v {
        Some(x) => if 0 <= x <= u64::MAX {
            Some(x as u64)
        } else {
            None
        },
        None => None,
    }
}

impl ParsedCallgrindOutput {
    /// Estimates the number of accesses that reached memory. A second-level cache is not
    /// modelled, so this is an approximation.
    ///
    /// `None` when a last-level miss counter is absent, or when the sum exceeds `u64`.
    pub fn ram_accesses(&self) -> (r: Option<u64>)
        ensures
            r == fit_u64(spec_ram_accesses(*self)),
    {
        match (
            self.instruction_cache_misses,
            self.data_cache_read_misses,
            self.data_cache_write_misses,
        ) {
            (Some(i), Some(r), Some(w)) => {
                let sum: u128 = i as u128 + r as u128 + w as u128;
                if sum <= u64::MAX as u128 {
                    Some(sum as u64)
                } else {
                    None
                }
            },
            _ => None,
        }
    }

    /// Estimates the cycles spent, from the counters of cache simulation: one cycle per
    /// first-level hit, five per last-level hit and thirty-five per memory access.
    ///
    /// `None` when a counter is absent, when the counters contradict each other (more
    /// last-level misses than first-level misses, or more first-level misses than accesses),
    /// or when the estimate exceeds `u64`.
    pub fn cycles(&self) -> (r: Option<u64>)
        ensures
            r == fit_u64(spec_cycles(*self)),
    {
        match (
            self.instruction_cache_misses,
            self.data_cache_read_misses,
            self.data_cache_write_misses,
            self.instruction_l1_misses,
            self.data_l1_read_misses,
            self.data_l1_write_misses,
            self.instruction_reads,
            self.data_reads,
            self.data_writes,
        ) {
            (
                Some(ic),
                Some(dcr),
                Some(dcw),
                Some(i1),
                Some(d1r),
                Some(d1w),
                Some(ir),
                Some(dr),
                Some(dw),
            ) => {
                let ram: u128 = ic as u128 + dcr as u128 + dcw as u128;
                let l3_accesses: u128 = i1 as u128 + d1r as u128 + d1w as u128;
                let memory_accesses: u128 = ir as u128 + dr as u128 + dw as u128;
                if l3_accesses < ram {
                    return None;
                }
                let l3_hits = l3_accesses - ram;
                if memory_accesses < ram + l3_hits {
                    return None;
                }
                let l1_hits = memory_accesses - ram - l3_hits;
                let total = l1_hits + 5 * l3_hits + 35 * ram;
                if total <= u64::MAX as u128 {
                    Some(total as u64)
                } else {
                    None
                }
            },
            _ => None,
        }
    }
}

} // verus!
