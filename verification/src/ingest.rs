//! Decisions of the ingestion step: the optional date window, which tick rows
//! are kept and on which UTC day, and how many rows each day received.

use vstd::prelude::*;
use vstd::string::StringExecFns;
use crate::calendar::{
    epoch_day_in_range, epoch_day_of_millis, format_ymd, parse_ymd_date, utc_epoch_day,
    utc_millis_in_range, ymd_epoch_day, ymd_text,
};

verus! {

/// Why a date window could not be built.
#[derive(Debug)]
pub enum FilterError {
    /// The start date is not in the `YYYY-MM-DD` form that `chrono` reads.
    InvalidStartDate { value: String, cause: chrono::ParseError },
    /// The end date is not in the `YYYY-MM-DD` form that `chrono` reads.
    InvalidEndDate { value: String, cause: chrono::ParseError },
    /// Both dates are given and the start lies after the end.
    StartAfterEnd,
}

/// An optional inclusive window of UTC days, each bound an epoch day
/// (1970-01-01 is day 0).
#[derive(Debug, Clone, Copy, PartialEq, Eq)]
pub struct DateFilters {
    pub start: Option<i32>,
    pub end: Option<i32>,
}

/// An optional day as a mathematical integer.
pub open spec fn opt_day(d: Option<i32>) -> Option<int> {
    match d {
        Some(x) => Some(x as int),
        None => None,
    }
}

/// The day that an optional date string names, when it is given.
pub open spec fn bound_day(s: Option<&str>) -> Option<int> {
    match s {
        Some(v) => ymd_epoch_day(v@),
        None => None,
    }
}

/// Whether an optional date string is absent or readable as a date.
pub open spec fn bound_readable(s: Option<&str>) -> bool {
    match s {
        Some(v) => ymd_epoch_day(v@) is Some,
        None => true,
    }
}

/// Whether two optional bounds are in order (a missing bound is always in order).
pub open spec fn bounds_ordered(start: Option<int>, end: Option<int>) -> bool {
    match (start, end) {
        (Some(s), Some(e)) => s <= e,
        _ => true,
    }
}

impl DateFilters {
    /// Whether `day` lies inside the window: on or after the start, and on or
    /// before the end, each where given.
    pub open spec fn spec_includes(self, day: int) -> bool {
        &&& (self.start matches Some(s) ==> s <= day)
        &&& (self.end matches Some(e) ==> day <= e)
    }

    /// A window whose bounds are in order.
    pub open spec fn wf(self) -> bool {
        bounds_ordered(opt_day(self.start), opt_day(self.end))
    }

    /// Builds the window from bounds already read as days.
    pub fn from_days(start: Option<i32>, end: Option<i32>) -> (r: Result<DateFilters, FilterError>)
        ensures
            match r {
                Ok(f) => f.start == start && f.end == end && f.wf(),
                Err(e) => e is StartAfterEnd && !bounds_ordered(opt_day(start), opt_day(end)),
            },
    {
        match (start, end) {
            (Some(s), Some(e)) => {
                if s > e {
                    return Err(FilterError::StartAfterEnd);
                }
            },
            _ => {},
        }
        Ok(DateFilters { start, end })
    }

    /// Reads each given bound as `YYYY-MM-DD` (start first) and builds the
    /// window; a start after the end is refused.
    pub fn new(start: Option<&str>, end: Option<&str>) -> (r: Result<DateFilters, FilterError>)
        ensures
            !bound_readable(start) ==> (r matches Err(FilterError::InvalidStartDate { value, .. })
                && value@ == start.unwrap()@),
            bound_readable(start) && !bound_readable(end) ==> (r matches Err(
                FilterError::InvalidEndDate { value, .. },
            ) && value@ == end.unwrap()@),
            bound_readable(start) && bound_readable(end) ==> match r {
                Ok(f) => opt_day(f.start) == bound_day(start) && opt_day(f.end) == bound_day(end)
                    && f.wf(),
                Err(e) => e is StartAfterEnd && !bounds_ordered(bound_day(start), bound_day(end)),
            },
    {
        let start_day: Option<i32> = match start {
            Some(value) => match parse_ymd_date(value) {
                Ok(d) => Some(d),
                Err(cause) => {
                    return Err(FilterError::InvalidStartDate { value: value.to_owned(), cause });
                },
            },
            None => None,
        };
        let end_day: Option<i32> = match end {
            Some(value) => match parse_ymd_date(value) {
                Ok(d) => Some(d),
                Err(cause) => {
                    return Err(FilterError::InvalidEndDate { value: value.to_owned(), cause });
                },
            },
            None => None,
        };
        DateFilters::from_days(start_day, end_day)
    }

    /// Whether the UTC epoch day `day` lies inside the window.
    pub fn includes(&self, day: i32) -> (r: bool)
        ensures
            r == self.spec_includes(day as int),
    {
        if let Some(start) = self.start {
            if day < start {
                return false;
            }
        }
        if let Some(end) = self.end {
            if day > end {
                return false;
            }
        }
        true
    }
}

/// Why a tick row stops the ingestion.
#[derive(Debug, Clone, Copy, PartialEq, Eq)]
pub enum RowError {
    /// The row's timestamp is outside the range of UTC date-times.
    TimestampOutOfRange { timestamp_ms: i64 },
}

/// Where a tick row goes: the UTC epoch day whose file receives it, or
/// `None` when it is skipped (a price not positive, or a day outside the
/// window).  Rows with positive prices whose timestamp has no UTC date are
/// an error.
pub fn day_for_row(timestamp_ms: i64, prices_positive: bool, filters: &DateFilters) -> (r: Result<
    Option<i32>,
    RowError,
>)
    ensures
        !prices_positive ==> r matches Ok(None),
        prices_positive && !utc_millis_in_range(timestamp_ms as int) ==> (r matches Err(
            RowError::TimestampOutOfRange { timestamp_ms: t },
        ) && t == timestamp_ms),
        prices_positive && utc_millis_in_range(timestamp_ms as int) ==> (r matches Ok(d) && d
            == (if filters.spec_includes(epoch_day_of_millis(timestamp_ms as int)) {
            Some(epoch_day_of_millis(timestamp_ms as int) as i32)
        } else {
            None
        })),
{
    if !prices_positive {
        return Ok(None);
    }
    match utc_epoch_day(timestamp_ms) {
        None => Err(RowError::TimestampOutOfRange { timestamp_ms }),
        Some(day) => {
            if filters.includes(day) {
                Ok(Some(day))
            } else {
                Ok(None)
            }
        },
    }
}

/// The key of a UTC epoch day, `YYYY-MM-DD`, or `None` for a day that has
/// no date.
pub fn day_key(day: i32) -> (r: Option<String>)
    ensures
        match r {
            Some(key) => epoch_day_in_range(day as int) && key@ == ymd_text(day as int),
            None => !epoch_day_in_range(day as int),
        },
{
    format_ymd(day)
}

/// The name of the output file that receives the rows of a UTC epoch day:
/// `xauusd_` and the day's key, then `.csv`; `None` for a day that has no date.
pub fn day_file_name(day: i32) -> (r: Option<String>)
    ensures
        match r {
            Some(name) => epoch_day_in_range(day as int) && name@ == "xauusd_"@ + ymd_text(day as int)
                + ".csv"@,
            None => !epoch_day_in_range(day as int),
        },
{
    match format_ymd(day) {
        Some(key) => {
            let mut name = String::from_str("xauusd_");
            name.append(key.as_str());
            name.append(".csv");
            Some(name)
        },
        None => None,
    }
}

/// The number of rows that `entries` records for `day`.
pub open spec fn tally_count(entries: Seq<(i32, usize)>, day: int) -> nat
    decreases entries.len(),
{
    if entries.len() == 0 {
        0
    } else {
        tally_count(entries.drop_last(), day) + (if entries.last().0 == day {
            entries.last().1 as nat
        } else {
            0
        })
    }
}

/// The number of rows that `entries` records over all days.
pub open spec fn tally_sum(entries: Seq<(i32, usize)>) -> nat
    decreases entries.len(),
{
    if entries.len() == 0 {
        0
    } else {
        tally_sum(entries.drop_last()) + entries.last().1 as nat
    }
}

proof fn lemma_tally_concat(a: Seq<(i32, usize)>, b: Seq<(i32, usize)>)
    ensures
        tally_sum(a + b) == tally_sum(a) + tally_sum(b),
        forall|d: int| #[trigger] tally_count(a + b, d) == tally_count(a, d) + tally_count(b, d),
    decreases b.len(),
{
    if b.len() == 0 {
        assert(a + b =~= a);
    } else {
        lemma_tally_concat(a, b.drop_last());
        assert((a + b).drop_last() =~= a + b.drop_last());
        assert((a + b).last() == b.last());
        assert forall|d: int| #[trigger] tally_count(a + b, d) == tally_count(a, d) + tally_count(b, d) by {
            assert(tally_count(a + b.drop_last(), d) == tally_count(a, d) + tally_count(b.drop_last(), d));
        }
    }
}

proof fn lemma_tally_single(x: (i32, usize))
    ensures
        tally_sum(seq![x]) == x.1,
        forall|d: int| #[trigger] tally_count(seq![x], d) == (if x.0 == d { x.1 as nat } else { 0 }),
{
    let e = Seq::<(i32, usize)>::empty();
    assert(seq![x].drop_last() =~= e);
    assert(tally_sum(e) == 0);
    assert forall|d: int| #[trigger] tally_count(seq![x], d) == (if x.0 == d { x.1 as nat } else { 0 }) by {
        assert(tally_count(e, d) == 0);
    }
}

/// The tally of a sequence split around one entry.
proof fn lemma_tally_split(pre: Seq<(i32, usize)>, x: (i32, usize), post: Seq<(i32, usize)>)
    ensures
        tally_sum(pre + seq![x] + post) == tally_sum(pre) + x.1 + tally_sum(post),
        forall|d: int|
            #[trigger] tally_count(pre + seq![x] + post, d) == tally_count(pre, d) + (if x.0 == d {
                x.1 as nat
            } else {
                0
            }) + tally_count(post, d),
{
    lemma_tally_concat(pre + seq![x], post);
    lemma_tally_concat(pre, seq![x]);
    lemma_tally_single(x);
    assert forall|d: int|
        #[trigger] tally_count(pre + seq![x] + post, d) == tally_count(pre, d) + (if x.0 == d {
            x.1 as nat
        } else {
            0
        }) + tally_count(post, d) by {
        assert(tally_count(pre + seq![x] + post, d) == tally_count(pre + seq![x], d) + tally_count(post, d));
        assert(tally_count(pre + seq![x], d) == tally_count(pre, d) + tally_count(seq![x], d));
    }
}

/// Inserting a day just before the first larger day keeps days increasing.
proof fn lemma_insert_keeps_order(entries: Seq<(i32, usize)>, i: int, day: i32)
    requires
        0 <= i <= entries.len(),
        forall|a: int, b: int| 0 <= a < b < entries.len() ==> entries[a].0 < entries[b].0,
        forall|k: int| 0 <= k < i ==> entries[k].0 < day,
        i < entries.len() ==> entries[i].0 > day,
    ensures
        forall|a: int, b: int|
            0 <= a < b < entries.len() + 1 ==> entries.insert(i, (day, 1usize))[a].0 < entries.insert(
                i,
                (day, 1usize),
            )[b].0,
{
    let s = entries.insert(i, (day, 1usize));
    assert forall|a: int, b: int| 0 <= a < b < entries.len() + 1 implies s[a].0 < s[b].0 by {
        if b < i {
        } else if b == i {
        } else if a < i {
            assert(s[b] == entries[b - 1]);
            assert(s[a] == entries[a]);
            if a < b - 1 {
                assert(entries[a].0 < entries[b - 1].0);
            }
        } else if a == i {
            assert(s[b] == entries[b - 1]);
            if i < b - 1 {
                assert(entries[i].0 < entries[b - 1].0);
            }
        } else {
            assert(s[b] == entries[b - 1]);
            assert(s[a] == entries[a - 1]);
        }
    }
}

/// Rows written per UTC day, kept in increasing order of day.
pub struct DayTally {
    entries: Vec<(i32, usize)>,
    total: usize,
}

impl View for DayTally {
    type V = Seq<(i32, usize)>;

    closed spec fn view(&self) -> Seq<(i32, usize)> {
        self.entries@
    }
}

impl DayTally {
    /// Days strictly increase, every recorded day has a row, and the total is
    /// the number of rows over all days.
    pub closed spec fn wf(self) -> bool {
        &&& forall|i: int, j: int| 0 <= i < j < self.entries@.len() ==> self.entries@[i].0 < self.entries@[j].0
        &&& forall|i: int| 0 <= i < self.entries@.len() ==> self.entries@[i].1 > 0
        &&& tally_sum(self.entries@) == self.total
    }

    /// The number of rows recorded over all days.
    pub closed spec fn spec_total(self) -> nat {
        self.total as nat
    }

    /// Law: the rows of all days add up to the total, the days strictly
    /// increase, and every listed day has at least one row.
    pub proof fn law_tally_shape(self)
        requires
            self.wf(),
        ensures
            tally_sum(self@) == self.spec_total(),
            forall|i: int, j: int| 0 <= i < j < self@.len() ==> self@[i].0 < self@[j].0,
            forall|i: int| 0 <= i < self@.len() ==> #[trigger] self@[i].1 > 0,
    {
    }

    /// A tally with no rows.
    pub fn new() -> (r: DayTally)
        ensures
            r.wf(),
            r@ == Seq::<(i32, usize)>::empty(),
            r.spec_total() == 0,
    {
        DayTally { entries: Vec::new(), total: 0 }
    }

    /// The number of rows recorded over all days.
    pub fn total(&self) -> (r: usize)
        ensures
            r == self.spec_total(),
    {
        self.total
    }

    /// The days and their row counts, in increasing order of day.
    pub fn entries(&self) -> (r: &[(i32, usize)])
        ensures
            r@ == self@,
    {
        self.entries.as_slice()
    }

    /// Counts one more row for `day`.
    pub fn record(&mut self, day: i32)
        requires
            old(self).wf(),
            old(self).spec_total() < usize::MAX,
        ensures
            final(self).wf(),
            final(self).spec_total() == old(self).spec_total() + 1,
            forall|d: int|
                #[trigger] tally_count(final(self)@, d) == tally_count(old(self)@, d) + (if d
                    == day {
                    1nat
                } else {
                    0nat
                }),
    {
        let ghost old_entries = self.entries@;
        let n = self.entries.len();
        let mut i: usize = 0;
        while i < n && self.entries[i].0 < day
            invariant
                n == self.entries@.len(),
                self.entries@ == old_entries,
                i <= n,
                forall|k: int| 0 <= k < i ==> self.entries@[k].0 < day,
            decreases n - i,
        {
            i = i + 1;
        }
        let ghost pre = old_entries.subrange(0, i as int);
        if i < n && self.entries[i].0 == day {
            let (d, c) = self.entries[i];
            let ghost post = old_entries.subrange(i as int + 1, n as int);
            proof {
                assert(old_entries =~= pre + seq![(d, c)] + post);
                lemma_tally_split(pre, (d, c), post);
            }
            self.entries.set(i, (d, c + 1));
            self.total = self.total + 1;
            proof {
                assert(self.entries@ =~= pre + seq![(d, (c + 1) as usize)] + post);
                lemma_tally_split(pre, (d, (c + 1) as usize), post);
            }
        } else {
            let ghost post = old_entries.subrange(i as int, n as int);
            self.entries.insert(i, (day, 1));
            self.total = self.total + 1;
            proof {
                assert(old_entries =~= pre + post);
                assert(self.entries@ =~= pre + seq![(day, 1usize)] + post);
                lemma_tally_concat(pre, post);
                lemma_tally_split(pre, (day, 1usize), post);
                lemma_insert_keeps_order(old_entries, i as int, day);
            }
        }
    }
}

} // verus!
