//! Decisions of the wallpaper library window that do not depend on the
//! drawing toolkit: the date range of a batch download and its progress,
//! the year tree of the archive, the display chosen for wallpapers, the
//! automatic wallpaper pick, and a few texts shown to the user.
use vstd::prelude::*;
use crate::archive::{newest_index, oldest_index, opt_date};
use crate::date::{date_le, date_lt, iso_date_text, Date};
use crate::favorites::{favorite_entries, Favorites};
use crate::model::{MonthGroup, WallpaperEntry};
use crate::schedule::choose_position;
use crate::settings::{AutoWallpaperSource, WallpaperTarget};
use crate::text::{
    decimal, int_text, push_all, push_decimal, push_int, push_padded, string_of, str_eq,
    trim, trim_chars, chars_of, zero_pad,
};

verus! {

broadcast use crate::date::Date::lemma_view_injective;

/// Earliest and latest day of the list, `None` for an empty list.
pub fn date_limits(entries: &Vec<WallpaperEntry>) -> (r: Option<(Date, Date)>)
    ensures
        r is None <==> entries@.len() == 0,
        r matches Some(lim) ==> {
            &&& exists|i: int| 0 <= i < entries@.len() && #[trigger] entries@[i].date == lim.0
            &&& exists|i: int| 0 <= i < entries@.len() && #[trigger] entries@[i].date == lim.1
            &&& forall|i: int|
                0 <= i < entries@.len() ==> date_le(lim.0@, #[trigger] entries@[i].date@) && date_le(
                    entries@[i].date@,
                    lim.1@,
                )
        },
{
    match (oldest_index(entries), newest_index(entries)) {
        (Some(a), Some(b)) => {
            let r = (entries[a].date, entries[b].date);
            proof {
                assert(entries@[a as int].date == r.0);
                assert(entries@[b as int].date == r.1);
            }
            Some(r)
        },
        _ => None,
    }
}

/// Why a date range for a batch download is refused.
#[derive(Clone, Copy, Debug, PartialEq, Eq, Structural)]
pub enum BatchRangeError {
    /// Neither end of the range was chosen.
    NoRange,
    /// The start is later than the end.
    StartAfterEnd,
    /// The range reaches outside the days of the list.
    OutsideList,
}

/// The range check of a batch download: at least one end must be chosen,
/// the start may not be later than the end, and when the list's earliest
/// and latest days are known the range must stay within them.
pub open spec fn batch_range_result(
    start: Option<(int, int, int)>,
    end: Option<(int, int, int)>,
    limits: Option<((int, int, int), (int, int, int))>,
) -> Result<(), BatchRangeError> {
    if start is None && end is None {
        Err(BatchRangeError::NoRange)
    } else if start matches Some(s) && end matches Some(e) && date_lt(e, s) {
        Err(BatchRangeError::StartAfterEnd)
    } else if limits matches Some(l) && ((start matches Some(s) && date_lt(s, l.0)) || (end matches Some(
        e,
    ) && date_lt(l.1, e))) {
        Err(BatchRangeError::OutsideList)
    } else {
        Ok(())
    }
}

pub open spec fn opt_limits(l: Option<(Date, Date)>) -> Option<((int, int, int), (int, int, int))> {
    match l {
        Some(x) => Some((x.0@, x.1@)),
        None => None,
    }
}

/// Checks the chosen date range of a batch download.
pub fn check_batch_range(start: Option<Date>, end: Option<Date>, limits: Option<(Date, Date)>) -> (r:
    Result<(), BatchRangeError>)
    ensures
        r == batch_range_result(opt_date(start), opt_date(end), opt_limits(limits)),
{
    if start.is_none() && end.is_none() {
        return Err(BatchRangeError::NoRange);
    }
    if let (Some(s), Some(e)) = (start, end) {
        if e.is_before(&s) {
            return Err(BatchRangeError::StartAfterEnd);
        }
    }
    if let Some((earliest, latest)) = limits {
        let too_early = match start {
            Some(s) => s.is_before(&earliest),
            None => false,
        };
        let too_late = match end {
            Some(e) => latest.is_before(&e),
            None => false,
        };
        if too_early || too_late {
            return Err(BatchRangeError::OutsideList);
        }
    }
    Ok(())
}

/// Day `d` lies in the range (an absent end leaves that side open).
pub open spec fn in_range(d: (int, int, int), start: Option<(int, int, int)>, end: Option<
    (int, int, int),
>) -> bool {
    (start matches Some(s) ==> date_le(s, d)) && (end matches Some(e) ==> date_le(d, e))
}

/// Selecting a date range keeps exactly the entries whose day lies on or
/// after the chosen start and on or before the chosen end (an end that was
/// not chosen leaves that side open), and nothing else.
pub proof fn lemma_range_selection(entries: Seq<WallpaperEntry>, start: Option<(int, int, int)>, end: Option<
    (int, int, int),
>)
    ensures
        ({
            let r = entries.filter(|e: WallpaperEntry| in_range(e.date@, start, end));
            &&& forall|k: int| 0 <= k < r.len() ==> entries.contains(#[trigger] r[k])
            &&& forall|k: int|
                #![trigger r[k]]
                0 <= k < r.len() ==> (start matches Some(s) ==> date_le(s, r[k].date@))
            &&& forall|k: int|
                #![trigger r[k]]
                0 <= k < r.len() ==> (end matches Some(e) ==> date_le(r[k].date@, e))
            &&& forall|j: int|
                0 <= j < entries.len() && (start matches Some(s) ==> date_le(s, entries[j].date@)) && (
                end matches Some(e) ==> date_le(entries[j].date@, e)) ==> r.contains(#[trigger] entries[j])
        }),
{
    let pred = |e: WallpaperEntry| in_range(e.date@, start, end);
    let r = entries.filter(pred);
    assert forall|k: int| 0 <= k < r.len() implies entries.contains(#[trigger] r[k]) by {
        assert(r.contains(r[k]));
        entries.lemma_filter_contains_rev(pred, r[k]);
    }
    assert forall|k: int| #![trigger r[k]] 0 <= k < r.len() implies (start matches Some(s) ==> date_le(
        s,
        r[k].date@,
    )) && (end matches Some(e) ==> date_le(r[k].date@, e)) by {
        entries.lemma_filter_pred(pred, k);
    }
    assert forall|j: int|
        0 <= j < entries.len() && (start matches Some(s) ==> date_le(s, entries[j].date@)) && (
        end matches Some(e) ==> date_le(entries[j].date@, e)) implies r.contains(#[trigger] entries[j]) by {
        entries.lemma_filter_contains(pred, j);
    }
}

/// The entries whose day lies in the range, in order.
pub fn entries_in_range(entries: &Vec<WallpaperEntry>, start: Option<Date>, end: Option<Date>) -> (r:
    Vec<WallpaperEntry>)
    ensures
        r@ == entries@.filter(|e: WallpaperEntry| in_range(e.date@, opt_date(start), opt_date(end))),
        forall|k: int| 0 <= k < r@.len() ==> entries@.contains(#[trigger] r@[k]),
        forall|k: int|
            #![trigger r@[k]]
            0 <= k < r@.len() ==> (start matches Some(s) ==> date_le(s@, r@[k].date@)),
        forall|k: int|
            #![trigger r@[k]]
            0 <= k < r@.len() ==> (end matches Some(e) ==> date_le(r@[k].date@, e@)),
        forall|j: int|
            0 <= j < entries@.len() && (start matches Some(s) ==> date_le(s@, entries@[j].date@)) && (
            end matches Some(e) ==> date_le(entries@[j].date@, e@)) ==> r@.contains(#[trigger] entries@[j]),
{
    proof {
        lemma_range_selection(entries@, opt_date(start), opt_date(end));
    }
    let ghost pred = |e: WallpaperEntry| in_range(e.date@, opt_date(start), opt_date(end));
    let mut out: Vec<WallpaperEntry> = Vec::new();
    let mut i: usize = 0;
    while i < entries.len()
        invariant
            0 <= i <= entries@.len(),
            pred == (|e: WallpaperEntry| in_range(e.date@, opt_date(start), opt_date(end))),
            out@ == entries@.take(i as int).filter(pred),
        decreases entries@.len() - i,
    {
        proof {
            reveal(Seq::filter);
            assert(entries@.take(i + 1).drop_last() =~= entries@.take(i as int));
            assert(entries@.take(i + 1).last() == entries@[i as int]);
        }
        let d = entries[i].date;
        let after_start = match start {
            Some(s) => !d.is_before(&s),
            None => true,
        };
        let before_end = match end {
            Some(e) => !e.is_before(&d),
            None => true,
        };
        if after_start && before_end {
            out.push(entries[i].clone());
        }
        i = i + 1;
    }
    assert(entries@.take(entries@.len() as int) =~= entries@);
    out
}

/// How a batch download names its range.
pub open spec fn range_label_text(start: Option<(int, int, int)>, end: Option<(int, int, int)>) -> Option<
    Seq<char>,
> {
    match (start, end) {
        (Some(s), Some(e)) => Some("日期范围 "@ + iso_date_text(s) + " 至 "@ + iso_date_text(e)),
        (Some(s), None) => Some("日期范围 "@ + iso_date_text(s) + " 至今"@),
        (None, Some(e)) => Some("日期范围 截止 "@ + iso_date_text(e)),
        (None, None) => None,
    }
}

/// Name of a batch download's date range; `None` when no end was chosen.
pub fn batch_range_label(start: Option<Date>, end: Option<Date>) -> (r: Option<String>)
    ensures
        match r {
            Some(t) => range_label_text(opt_date(start), opt_date(end)) == Some(t@),
            None => range_label_text(opt_date(start), opt_date(end)) is None,
        },
{
    let mut out: Vec<char> = Vec::new();
    match (start, end) {
        (Some(s), Some(e)) => {
            push_all(&mut out, "日期范围 ");
            push_all(&mut out, s.iso_text().as_str());
            push_all(&mut out, " 至 ");
            push_all(&mut out, e.iso_text().as_str());
        },
        (Some(s), None) => {
            push_all(&mut out, "日期范围 ");
            push_all(&mut out, s.iso_text().as_str());
            push_all(&mut out, " 至今");
        },
        (None, Some(e)) => {
            push_all(&mut out, "日期范围 截止 ");
            push_all(&mut out, e.iso_text().as_str());
        },
        (None, None) => {
            return None;
        },
    }
    Some(string_of(out.as_slice()))
}

/// How one wallpaper of a batch download ended.
#[derive(Clone, Copy, Debug, PartialEq, Eq, Structural)]
pub enum TaskOutcome {
    /// The file was already there.
    Skipped,
    /// The download tool refused the task.
    NotSubmitted,
    /// The download completed.
    Done,
    /// The download failed or was removed.
    Failed,
}

pub open spec fn is_failure(o: TaskOutcome) -> bool {
    o == TaskOutcome::NotSubmitted || o == TaskOutcome::Failed
}

/// Counters of a batch download.
#[derive(Clone, Copy, Debug, PartialEq, Eq, Structural)]
pub struct BatchProgress {
    /// Wallpapers handled so far, whatever the outcome.
    pub completed: usize,
    pub total: usize,
    pub skipped: usize,
    pub failed: usize,
}

/// The counters are consistent: skipped and failed ones are among the
/// handled ones, which are no more than the total.
pub open spec fn batch_ok(p: BatchProgress) -> bool {
    p.skipped + p.failed <= p.completed <= p.total
}

/// The counters after `outcomes`, starting from `total` wallpapers.
pub open spec fn batch_after(total: usize, outcomes: Seq<TaskOutcome>) -> BatchProgress
    decreases outcomes.len(),
{
    if outcomes.len() == 0 {
        BatchProgress { completed: 0, total, skipped: 0, failed: 0 }
    } else {
        let p = batch_after(total, outcomes.drop_last());
        let o = outcomes.last();
        BatchProgress {
            completed: (p.completed + 1) as usize,
            total,
            skipped: (p.skipped + if o == TaskOutcome::Skipped {
                1int
            } else {
                0int
            }) as usize,
            failed: (p.failed + if is_failure(o) {
                1int
            } else {
                0int
            }) as usize,
        }
    }
}

/// Number of outcomes of `outcomes` that satisfy `f`.
pub open spec fn count_outcomes(outcomes: Seq<TaskOutcome>, f: spec_fn(TaskOutcome) -> bool) -> nat
    decreases outcomes.len(),
{
    if outcomes.len() == 0 {
        0
    } else {
        count_outcomes(outcomes.drop_last(), f) + if f(outcomes.last()) {
            1nat
        } else {
            0nat
        }
    }
}

/// Every wallpaper of a batch is counted once: after the outcomes of some
/// of them, the handled count is their number, and the skipped and failed
/// counts are the numbers of such outcomes.
pub proof fn lemma_batch_counts(total: usize, outcomes: Seq<TaskOutcome>)
    requires
        outcomes.len() <= total,
    ensures
        batch_after(total, outcomes).completed == outcomes.len(),
        batch_after(total, outcomes).skipped == count_outcomes(
            outcomes,
            |o: TaskOutcome| o == TaskOutcome::Skipped,
        ),
        batch_after(total, outcomes).failed == count_outcomes(outcomes, |o: TaskOutcome| is_failure(o)),
        batch_ok(batch_after(total, outcomes)),
        batch_after(total, outcomes).total == total,
    decreases outcomes.len(),
{
    if outcomes.len() > 0 {
        lemma_batch_counts(total, outcomes.drop_last());
        lemma_count_le(outcomes.drop_last(), |o: TaskOutcome| o == TaskOutcome::Skipped, |o: TaskOutcome| is_failure(o));
    }
}

proof fn lemma_count_le(outcomes: Seq<TaskOutcome>, f: spec_fn(TaskOutcome) -> bool, g: spec_fn(TaskOutcome) -> bool)
    requires
        forall|o: TaskOutcome| !(#[trigger] f(o) && g(o)),
    ensures
        count_outcomes(outcomes, f) + count_outcomes(outcomes, g) <= outcomes.len(),
    decreases outcomes.len(),
{
    if outcomes.len() > 0 {
        lemma_count_le(outcomes.drop_last(), f, g);
    }
}

impl BatchProgress {
    /// A batch of `total` wallpapers, none handled yet.
    pub fn new(total: usize) -> (r: BatchProgress)
        ensures
            r == batch_after(total, Seq::empty()),
            batch_ok(r),
    {
        BatchProgress { completed: 0, total, skipped: 0, failed: 0 }
    }

    /// Counts the outcome of one more wallpaper.
    pub fn record(&mut self, outcome: TaskOutcome)
        requires
            batch_ok(*old(self)),
            old(self).completed < old(self).total,
        ensures
            final(self).completed == old(self).completed + 1,
            final(self).total == old(self).total,
            final(self).skipped == old(self).skipped + if outcome == TaskOutcome::Skipped {
                1int
            } else {
                0int
            },
            final(self).failed == old(self).failed + if is_failure(outcome) {
                1int
            } else {
                0int
            },
            batch_ok(*final(self)),
            forall|outcomes: Seq<TaskOutcome>|
                #[trigger] batch_after(old(self).total, outcomes) == *old(self) ==> batch_after(
                    old(self).total,
                    outcomes.push(outcome),
                ) == *final(self),
    {
        self.completed = self.completed + 1;
        match outcome {
            TaskOutcome::Skipped => {
                self.skipped = self.skipped + 1;
            },
            TaskOutcome::NotSubmitted | TaskOutcome::Failed => {
                self.failed = self.failed + 1;
            },
            TaskOutcome::Done => {},
        }
        proof {
            assert forall|outcomes: Seq<TaskOutcome>|
                #[trigger] batch_after(old(self).total, outcomes) == *old(self) implies batch_after(
                old(self).total,
                outcomes.push(outcome),
            ) == *self by {
                assert(outcomes.push(outcome).drop_last() =~= outcomes);
            }
        }
    }

    /// Every wallpaper of the batch has been handled.
    pub fn is_finished(&self) -> (r: bool)
        ensures
            r == (self.completed == self.total),
    {
        self.completed == self.total
    }

    /// Progress line: `批量下载{label}: {completed}/{total}（跳过 {skipped}，失败 {failed}）`.
    pub fn progress_text(&self, label: &str) -> (r: String)
        ensures
            r@ == "批量下载"@ + label@ + ": "@ + decimal(self.completed as nat) + "/"@ + decimal(
                self.total as nat,
            ) + "（跳过 "@ + decimal(self.skipped as nat) + "，失败 "@ + decimal(
                self.failed as nat,
            ) + "）"@,
    {
        let mut out: Vec<char> = Vec::new();
        push_all(&mut out, "批量下载");
        push_all(&mut out, label);
        push_all(&mut out, ": ");
        push_decimal(&mut out, self.completed as u64);
        push_all(&mut out, "/");
        push_decimal(&mut out, self.total as u64);
        push_all(&mut out, "（跳过 ");
        push_decimal(&mut out, self.skipped as u64);
        push_all(&mut out, "，失败 ");
        push_decimal(&mut out, self.failed as u64);
        push_all(&mut out, "）");
        string_of(out.as_slice())
    }

    /// Closing line: `批量下载{label}完成：共 {total}，跳过 {skipped}，失败 {failed}`.
    pub fn summary_text(&self, label: &str) -> (r: String)
        ensures
            r@ == "批量下载"@ + label@ + "完成：共 "@ + decimal(self.total as nat) + "，跳过 "@
                + decimal(self.skipped as nat) + "，失败 "@ + decimal(self.failed as nat),
    {
        let mut out: Vec<char> = Vec::new();
        push_all(&mut out, "批量下载");
        push_all(&mut out, label);
        push_all(&mut out, "完成：共 ");
        push_decimal(&mut out, self.total as u64);
        push_all(&mut out, "，跳过 ");
        push_decimal(&mut out, self.skipped as u64);
        push_all(&mut out, "，失败 ");
        push_decimal(&mut out, self.failed as u64);
        string_of(out.as_slice())
    }
}

/// State of a download task as the download tool reports it.
#[derive(Clone, Copy, Debug, PartialEq, Eq, Structural)]
pub enum TaskState {
    Complete,
    Error,
    Removed,
    /// Waiting, active or paused.
    Running,
}

pub open spec fn task_state_of(status: Seq<char>) -> TaskState {
    if status == "complete"@ {
        TaskState::Complete
    } else if status == "error"@ {
        TaskState::Error
    } else if status == "removed"@ {
        TaskState::Removed
    } else {
        TaskState::Running
    }
}

/// The state named by the tool's `status` field.
pub fn task_state(status: &str) -> (r: TaskState)
    ensures
        r == task_state_of(status@),
{
    if str_eq(status, "complete") {
        TaskState::Complete
    } else if str_eq(status, "error") {
        TaskState::Error
    } else if str_eq(status, "removed") {
        TaskState::Removed
    } else {
        TaskState::Running
    }
}

/// Rows of the archive tree: years from newest to oldest, each with the
/// positions of its month groups in order.
pub open spec fn year_rows_ok(groups: Seq<MonthGroup>, rows: Seq<(i32, Vec<usize>)>) -> bool {
    &&& rows_descending(rows)
    &&& rows_have_groups(groups, rows)
    &&& rows_list_groups(groups, rows)
    &&& forall|g: int| 0 <= g < groups.len() ==> row_of_year(rows, #[trigger] groups[g].year)
}

/// `positions` lists, in order, the groups of year `year`.
pub open spec fn year_positions(groups: Seq<MonthGroup>, positions: Seq<usize>, year: i32) -> bool {
    &&& forall|k: int| 0 <= k < positions.len() ==> #[trigger] positions[k] < groups.len()
    &&& forall|k: int| 0 <= k < positions.len() ==> groups[#[trigger] positions[k] as int].year == year
    &&& forall|k1: int, k2: int|
        0 <= k1 < k2 < positions.len() ==> #[trigger] positions[k1] < #[trigger] positions[k2]
    &&& forall|g: int|
        0 <= g < groups.len() && #[trigger] groups[g].year == year ==> exists|k: int|
            0 <= k < positions.len() && #[trigger] positions[k] == g
}

fn year_group_positions(groups: &Vec<MonthGroup>, year: i32) -> (r: Vec<usize>)
    ensures
        year_positions(groups@, r@, year),
{
    let mut r: Vec<usize> = Vec::new();
    let mut g: usize = 0;
    while g < groups.len()
        invariant
            0 <= g <= groups@.len(),
            forall|k: int| 0 <= k < r@.len() ==> #[trigger] r@[k] < g,
            forall|k: int| 0 <= k < r@.len() ==> groups@[#[trigger] r@[k] as int].year == year,
            forall|k1: int, k2: int| 0 <= k1 < k2 < r@.len() ==> #[trigger] r@[k1] < #[trigger] r@[k2],
            forall|j: int|
                0 <= j < g && #[trigger] groups@[j].year == year ==> exists|k: int|
                    0 <= k < r@.len() && #[trigger] r@[k] == j,
        decreases groups@.len() - g,
    {
        if groups[g].year == year {
            let ghost before = r@;
            r.push(g);
            proof {
                assert forall|j: int| 0 <= j < g + 1 && #[trigger] groups@[j].year == year implies exists|k: int|
                    0 <= k < r@.len() && #[trigger] r@[k] == j by {
                    if j < g {
                        let k = choose|k: int| 0 <= k < before.len() && #[trigger] before[k] == j;
                        assert(r@[k] == j);
                    } else {
                        assert(r@[before.len() as int] == j);
                    }
                }
            }
        }
        g = g + 1;
    }
    r
}

pub open spec fn below(y: i32, bound: Option<i32>) -> bool {
    bound matches Some(b) ==> y < b
}

pub open spec fn has_year(groups: Seq<MonthGroup>, y: i32) -> bool {
    exists|g: int| 0 <= g < groups.len() && #[trigger] groups[g].year == y
}

pub open spec fn rows_descending(rows: Seq<(i32, Vec<usize>)>) -> bool {
    forall|i: int, j: int| 0 <= i < j < rows.len() ==> #[trigger] rows[j].0 < #[trigger] rows[i].0
}

pub open spec fn rows_have_groups(groups: Seq<MonthGroup>, rows: Seq<(i32, Vec<usize>)>) -> bool {
    forall|i: int| 0 <= i < rows.len() ==> has_year(groups, #[trigger] rows[i].0)
}

pub open spec fn rows_list_groups(groups: Seq<MonthGroup>, rows: Seq<(i32, Vec<usize>)>) -> bool {
    forall|i: int| 0 <= i < rows.len() ==> #[trigger] year_positions(groups, rows[i].1@, rows[i].0)
}

pub open spec fn row_of_year(rows: Seq<(i32, Vec<usize>)>, y: i32) -> bool {
    exists|i: int| 0 <= i < rows.len() && #[trigger] rows[i].0 == y
}

/// Every group not below `bound` has its row.
pub open spec fn rows_cover(groups: Seq<MonthGroup>, rows: Seq<(i32, Vec<usize>)>, bound: Option<i32>) -> bool {
    forall|g: int| 0 <= g < groups.len() && !below(#[trigger] groups[g].year, bound) ==> row_of_year(rows, groups[g].year)
}

/// The latest year of a group below `bound` (any year when `bound` is
/// `None`).
fn latest_year_below(groups: &Vec<MonthGroup>, bound: Option<i32>) -> (r: Option<i32>)
    ensures
        match r {
            Some(y) => below(y, bound) && has_year(groups@, y) && forall|g: int|
                0 <= g < groups@.len() && below(#[trigger] groups@[g].year, bound) ==> groups@[g].year <= y,
            None => forall|g: int| 0 <= g < groups@.len() ==> !below(#[trigger] groups@[g].year, bound),
        },
{
    let mut best: Option<i32> = None;
    let mut g: usize = 0;
    while g < groups.len()
        invariant
            0 <= g <= groups@.len(),
            match best {
                Some(y) => below(y, bound) && has_year(groups@, y) && forall|j: int|
                    0 <= j < g && below(#[trigger] groups@[j].year, bound) ==> groups@[j].year <= y,
                None => forall|j: int| 0 <= j < g ==> !below(#[trigger] groups@[j].year, bound),
            },
        decreases groups@.len() - g,
    {
        let y = groups[g].year;
        let is_below = match bound {
            Some(b) => y < b,
            None => true,
        };
        if is_below {
            match best {
                Some(cur) => {
                    if y > cur {
                        best = Some(y);
                    }
                },
                None => {
                    best = Some(y);
                },
            }
        }
        g = g + 1;
    }
    best
}

proof fn lemma_push_row(
    groups: Seq<MonthGroup>,
    rows: Seq<(i32, Vec<usize>)>,
    bound: Option<i32>,
    y: i32,
    positions: Vec<usize>,
)
    requires
        rows_descending(rows),
        rows_have_groups(groups, rows),
        rows_list_groups(groups, rows),
        bound is None <==> rows.len() == 0,
        bound matches Some(b) ==> rows.last().0 == b,
        rows_cover(groups, rows, bound),
        below(y, bound),
        has_year(groups, y),
        forall|g: int| 0 <= g < groups.len() && below(#[trigger] groups[g].year, bound) ==> groups[g].year <= y,
        year_positions(groups, positions@, y),
    ensures
        rows_descending(rows.push((y, positions))),
        rows_have_groups(groups, rows.push((y, positions))),
        rows_list_groups(groups, rows.push((y, positions))),
        rows_cover(groups, rows.push((y, positions)), Some(y)),
        rows.push((y, positions)).last().0 == y,
{
    let r2 = rows.push((y, positions));
    assert forall|i: int, j: int| 0 <= i < j < r2.len() implies #[trigger] r2[j].0 < #[trigger] r2[i].0 by {
        assert(r2[i] == rows[i]);
        if j == r2.len() - 1 {
            if i < rows.len() - 1 {
                assert(rows[rows.len() - 1].0 < rows[i].0);
            }
        } else {
            assert(r2[j] == rows[j]);
        }
    }
    assert forall|i: int| 0 <= i < r2.len() implies has_year(groups, #[trigger] r2[i].0) by {
        if i < rows.len() {
            assert(r2[i] == rows[i]);
        }
    }
    assert forall|i: int| 0 <= i < r2.len() implies #[trigger] year_positions(groups, r2[i].1@, r2[i].0) by {
        if i < rows.len() {
            assert(r2[i] == rows[i]);
        }
    }
    assert forall|g: int| 0 <= g < groups.len() && !below(#[trigger] groups[g].year, Some(y)) implies row_of_year(
        r2,
        groups[g].year,
    ) by {
        if groups[g].year == y {
            assert(r2[rows.len() as int].0 == y);
        } else {
            assert(!below(groups[g].year, bound));
            let i = choose|i: int| 0 <= i < rows.len() && #[trigger] rows[i].0 == groups[g].year;
            assert(r2[i] == rows[i]);
        }
    }
}

/// `years`: the archive tree's rows, years from newest to oldest, each with
/// the positions of its month groups.
pub fn years(groups: &Vec<MonthGroup>) -> (r: Vec<(i32, Vec<usize>)>)
    ensures
        year_rows_ok(groups@, r@),
{
    let mut rows: Vec<(i32, Vec<usize>)> = Vec::new();
    let mut bound: Option<i32> = None;
    loop
        invariant
            rows_descending(rows@),
            rows_have_groups(groups@, rows@),
            rows_list_groups(groups@, rows@),
            bound is None <==> rows@.len() == 0,
            bound matches Some(b) ==> rows@.last().0 == b,
            rows_cover(groups@, rows@, bound),
        ensures
            rows_descending(rows@),
            rows_have_groups(groups@, rows@),
            rows_list_groups(groups@, rows@),
            forall|g: int| 0 <= g < groups@.len() ==> row_of_year(rows@, #[trigger] groups@[g].year),
        decreases (match bound {
            Some(b) => b as int,
            None => i32::MAX as int + 1,
        }) - i32::MIN as int,
    {
        match latest_year_below(groups, bound) {
            None => {
                assert forall|g: int| 0 <= g < groups@.len() implies row_of_year(
                    rows@,
                    #[trigger] groups@[g].year,
                ) by {
                    assert(!below(groups@[g].year, bound));
                }
                break;
            },
            Some(y) => {
                let positions = year_group_positions(groups, y);
                proof {
                    lemma_push_row(groups@, rows@, bound, y, positions);
                }
                rows.push((y, positions));
                bound = Some(y);
            },
        }
    }
    rows
}

/// A display that can be given its own wallpaper.
#[derive(Debug, PartialEq, Eq)]
pub struct MonitorInfo {
    /// Device path the wallpaper interface names the display by.
    pub id: String,
    /// Short name shown to the user.
    pub label: String,
    pub left: i32,
    pub top: i32,
    pub width: i32,
    pub height: i32,
}

pub open spec fn monitor_label_text(number: int, width: int, height: int) -> Seq<char> {
    "显示器 "@ + decimal(number as nat) + "（"@ + int_text(width) + "×"@ + int_text(height) + "）"@
}

/// Name of the display at position `index`: `显示器 {index + 1}（{width}×{height}）`.
pub fn monitor_label(index: u32, width: i32, height: i32) -> (r: String)
    requires
        index < u32::MAX,
    ensures
        r@ == monitor_label_text(index + 1, width as int, height as int),
{
    let mut out: Vec<char> = Vec::new();
    push_all(&mut out, "显示器 ");
    push_decimal(&mut out, (index + 1) as u64);
    push_all(&mut out, "（");
    push_int(&mut out, width as i64);
    push_all(&mut out, "×");
    push_int(&mut out, height as i64);
    push_all(&mut out, "）");
    string_of(out.as_slice())
}

/// The record of a display from its position and its rectangle.
pub fn monitor_info(index: u32, id: String, left: i32, top: i32, right: i32, bottom: i32) -> (r:
    MonitorInfo)
    requires
        index < u32::MAX,
        i32::MIN <= right - left <= i32::MAX,
        i32::MIN <= bottom - top <= i32::MAX,
    ensures
        r.id == id,
        r.left == left && r.top == top,
        r.width == right - left && r.height == bottom - top,
        r.label@ == monitor_label_text(index + 1, right - left, bottom - top),
{
    let width = right - left;
    let height = bottom - top;
    MonitorInfo { id, label: monitor_label(index, width, height), left, top, width, height }
}

/// Position of the first display with device path `id`.
pub open spec fn monitor_position(monitors: Seq<MonitorInfo>, id: Seq<char>) -> Option<int>
    decreases monitors.len(),
{
    if monitors.len() == 0 {
        None
    } else {
        match monitor_position(monitors.drop_last(), id) {
            Some(k) => Some(k),
            None => if monitors.last().id@ == id {
                Some(monitors.len() - 1)
            } else {
                None
            },
        }
    }
}

fn find_monitor(monitors: &Vec<MonitorInfo>, id: &str) -> (r: Option<usize>)
    ensures
        match r {
            Some(k) => monitor_position(monitors@, id@) == Some(k as int) && k < monitors@.len(),
            None => monitor_position(monitors@, id@) is None,
        },
{
    let mut k: usize = 0;
    while k < monitors.len()
        invariant
            0 <= k <= monitors@.len(),
            monitor_position(monitors@.take(k as int), id@) is None,
        decreases monitors@.len() - k,
    {
        let ghost t = monitors@.take(k + 1);
        assert(t.drop_last() =~= monitors@.take(k as int));
        if str_eq(monitors[k].id.as_str(), id) {
            proof {
                lemma_monitor_position_prefix(monitors@, id@, k as int + 1);
            }
            return Some(k);
        }
        k = k + 1;
    }
    assert(monitors@.take(monitors@.len() as int) =~= monitors@);
    None
}

proof fn lemma_monitor_position_prefix(monitors: Seq<MonitorInfo>, id: Seq<char>, n: int)
    requires
        0 <= n <= monitors.len(),
        monitor_position(monitors.take(n), id) is Some,
    ensures
        monitor_position(monitors, id) == monitor_position(monitors.take(n), id),
    decreases monitors.len() - n,
{
    if n < monitors.len() {
        assert(monitors.take(n + 1).drop_last() =~= monitors.take(n));
        lemma_monitor_position_prefix(monitors, id, n + 1);
    } else {
        assert(monitors.take(n) =~= monitors);
    }
}

pub open spec fn target_label_text(target: WallpaperTarget, monitors: Seq<MonitorInfo>) -> Seq<char> {
    match target {
        WallpaperTarget::All => "全部显示器"@,
        WallpaperTarget::Monitor(id) => match monitor_position(monitors, id@) {
            Some(k) => monitors[k].label@,
            None => "选定显示器"@,
        },
    }
}

/// `wallpaper_target_label`: what the wallpaper is set on, for messages.
pub fn wallpaper_target_label(target: &WallpaperTarget, monitors: &Vec<MonitorInfo>) -> (r: String)
    ensures
        r@ == target_label_text(*target, monitors@),
{
    let mut out: Vec<char> = Vec::new();
    match target {
        WallpaperTarget::All => push_all(&mut out, "全部显示器"),
        WallpaperTarget::Monitor(id) => match find_monitor(monitors, id.as_str()) {
            Some(k) => push_all(&mut out, monitors[k].label.as_str()),
            None => push_all(&mut out, "选定显示器"),
        },
    }
    string_of(out.as_slice())
}

/// After the displays were listed again: a chosen display that is gone
/// falls back to all displays.
pub fn reconcile_target(target: WallpaperTarget, monitors: &Vec<MonitorInfo>) -> (r: WallpaperTarget)
    ensures
        match target {
            WallpaperTarget::All => r == WallpaperTarget::All,
            WallpaperTarget::Monitor(id) => if monitor_position(monitors@, id@) is Some {
                r == target
            } else {
                r == WallpaperTarget::All
            },
        },
{
    let gone = match &target {
        WallpaperTarget::All => false,
        WallpaperTarget::Monitor(id) => find_monitor(monitors, id.as_str()).is_none(),
    };
    if gone {
        WallpaperTarget::All
    } else {
        target
    }
}

/// The entries the automatic wallpaper picks from: the newest one, all, or
/// the favorites.
pub open spec fn auto_pool(entries: Seq<WallpaperEntry>, favorites: Set<(int, int, int)>, source: AutoWallpaperSource) -> Seq<
    WallpaperEntry,
> {
    match source {
        AutoWallpaperSource::Latest => if entries.len() == 0 {
            Seq::empty()
        } else {
            seq![entries[0]]
        },
        AutoWallpaperSource::RandomAll => entries,
        AutoWallpaperSource::RandomFavorites => entries.filter(
            |e: WallpaperEntry| favorites.contains(e.date@),
        ),
    }
}

fn every_position(n: usize) -> (r: Vec<usize>)
    ensures
        r@.len() == n,
        forall|k: int| 0 <= k < n ==> #[trigger] r@[k] == k,
{
    let mut r: Vec<usize> = Vec::new();
    let mut i: usize = 0;
    while i < n
        invariant
            0 <= i <= n,
            r@.len() == i,
            forall|k: int| 0 <= k < i ==> #[trigger] r@[k] == k,
        decreases n - i,
    {
        r.push(i);
        i = i + 1;
    }
    r
}

/// The wallpaper for the automatic change (`run_auto_wallpaper`): the
/// newest entry, a random entry, or a random favorite; `None` when there is
/// nothing to pick from.
pub fn pick_auto_wallpaper(entries: &Vec<WallpaperEntry>, favorites: &Favorites, source: AutoWallpaperSource) -> (r:
    Option<WallpaperEntry>)
    ensures
        r is None <==> auto_pool(entries@, favorites@, source).len() == 0,
        r matches Some(e) ==> auto_pool(entries@, favorites@, source).contains(e),
        source == AutoWallpaperSource::Latest && entries@.len() > 0 ==> r == Some(entries@[0]),
{
    match source {
        AutoWallpaperSource::Latest => {
            if entries.len() == 0 {
                None
            } else {
                let e = entries[0].clone();
                assert(seq![entries@[0]][0] == e);
                Some(e)
            }
        },
        AutoWallpaperSource::RandomAll => {
            let all = every_position(entries.len());
            match choose_position(all.as_slice()) {
                Some(p) => {
                    let ghost k = all@.index_of(p);
                    assert(all@[k] == p);
                    let e = entries[p].clone();
                    assert(entries@[p as int] == e);
                    Some(e)
                },
                None => None,
            }
        },
        AutoWallpaperSource::RandomFavorites => {
            let pool = favorite_entries(entries, favorites);
            let all = every_position(pool.len());
            match choose_position(all.as_slice()) {
                Some(p) => {
                    let ghost k = all@.index_of(p);
                    assert(all@[k] == p);
                    let e = pool[p].clone();
                    assert(pool@[p as int] == e);
                    Some(e)
                },
                None => None,
            }
        },
    }
}

pub open spec fn duration_text(secs: nat) -> Seq<char> {
    if secs >= 3600 {
        decimal(secs / 3600) + "时"@ + zero_pad(decimal((secs % 3600) / 60), 2) + "分"@
    } else if secs >= 60 {
        decimal(secs / 60) + "分"@ + zero_pad(decimal(secs % 60), 2) + "秒"@
    } else {
        decimal(secs) + "秒"@
    }
}

/// `format_duration`: `75` → `1分15秒`, `3720` → `1时02分`, `9` → `9秒`.
pub fn format_duration(secs: u64) -> (r: String)
    ensures
        r@ == duration_text(secs as nat),
{
    let mut out: Vec<char> = Vec::new();
    if secs >= 3600 {
        push_decimal(&mut out, secs / 3600);
        push_all(&mut out, "时");
        push_padded(&mut out, (secs % 3600) / 60, 2);
        push_all(&mut out, "分");
    } else if secs >= 60 {
        push_decimal(&mut out, secs / 60);
        push_all(&mut out, "分");
        push_padded(&mut out, secs % 60, 2);
        push_all(&mut out, "秒");
    } else {
        push_decimal(&mut out, secs);
        push_all(&mut out, "秒");
    }
    string_of(out.as_slice())
}

/// Seconds left of a download at the current speed, when it can be told.
pub fn eta_seconds(total: u64, completed: u64, speed: u64) -> (r: Option<u64>)
    ensures
        speed > 0 && total > completed ==> r == Some(((total - completed) / speed as int) as u64),
        !(speed > 0 && total > completed) ==> r is None,
{
    if speed > 0 && total > completed {
        Some((total - completed) / speed)
    } else {
        None
    }
}

/// The download folder typed by the user: trimmed, and `None` (the default
/// folder) when blank.
pub fn download_dir_from_text(text: &str) -> (r: Option<String>)
    ensures
        match r {
            Some(d) => trim(text@).len() > 0 && d@ == trim(text@),
            None => trim(text@).len() == 0,
        },
{
    let t = trim_chars(&chars_of(text));
    if t.len() == 0 {
        None
    } else {
        Some(string_of(t.as_slice()))
    }
}

/// Characters of a file extension compared without ASCII case.
pub open spec fn ascii_lower(c: char) -> char {
    if 'A' <= c <= 'Z' {
        ((c as int) + 32) as char
    } else {
        c
    }
}

pub open spec fn same_ignoring_ascii_case(a: Seq<char>, b: Seq<char>) -> bool {
    a.len() == b.len() && forall|i: int| 0 <= i < a.len() ==> ascii_lower(#[trigger] a[i]) == ascii_lower(b[i])
}

fn eq_ignore_ascii_case(a: &Vec<char>, b: &str) -> (r: bool)
    ensures
        r == same_ignoring_ascii_case(a@, b@),
{
    let bv = chars_of(b);
    if a.len() != bv.len() {
        return false;
    }
    let mut i: usize = 0;
    while i < a.len()
        invariant
            0 <= i <= a@.len(),
            a@.len() == bv@.len(),
            bv@ == b@,
            forall|j: int| 0 <= j < i ==> ascii_lower(#[trigger] a@[j]) == ascii_lower(bv@[j]),
        decreases a@.len() - i,
    {
        let x = a[i];
        let y = bv[i];
        let lx = if 'A' <= x && x <= 'Z' {
            ((x as u32) + 32) as u8 as char
        } else {
            x
        };
        let ly = if 'A' <= y && y <= 'Z' {
            ((y as u32) + 32) as u8 as char
        } else {
            y
        };
        if lx != ly {
            return false;
        }
        i = i + 1;
    }
    true
}

/// Extensions of the images shown in the downloaded gallery.
pub open spec fn is_image_extension_text(ext: Seq<char>) -> bool {
    same_ignoring_ascii_case(ext, "jpg"@) || same_ignoring_ascii_case(ext, "jpeg"@)
        || same_ignoring_ascii_case(ext, "png"@) || same_ignoring_ascii_case(ext, "webp"@)
}

/// Whether a file with extension `ext` is a wallpaper image (`jpg`,
/// `jpeg`, `png` or `webp`, in any case).
pub fn is_image_extension(ext: &str) -> (r: bool)
    ensures
        r == is_image_extension_text(ext@),
{
    let e = chars_of(ext);
    eq_ignore_ascii_case(&e, "jpg") || eq_ignore_ascii_case(&e, "jpeg") || eq_ignore_ascii_case(&e, "png")
        || eq_ignore_ascii_case(&e, "webp")
}

/// Addresses an update download tries, in order.
pub fn update_download_urls(download_url: &str, fallback: Option<&str>) -> (r: Vec<String>)
    ensures
        match fallback {
            Some(f) => r@.len() == 2 && r@[0]@ == download_url@ && r@[1]@ == f@,
            None => r@.len() == 1 && r@[0]@ == download_url@,
        },
{
    let mut r: Vec<String> = Vec::new();
    r.push(string_of(chars_of(download_url).as_slice()));
    match fallback {
        Some(f) => {
            r.push(string_of(chars_of(f).as_slice()));
        },
        None => {},
    }
    r
}


/// Status line after a list was shown: `共 {count} 张壁纸`.
pub fn loaded_status(count: usize) -> (r: String)
    ensures
        r@ == "共 "@ + decimal(count as nat) + " 张壁纸"@,
{
    let mut out: Vec<char> = Vec::new();
    push_all(&mut out, "共 ");
    push_decimal(&mut out, count as u64);
    push_all(&mut out, " 张壁纸");
    string_of(out.as_slice())
}

} // verus!
