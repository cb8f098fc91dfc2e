//! The unattended wallpaper run of the Windows scheduled task: which
//! wallpaper it picks, and the task's repetition interval.
use vstd::prelude::*;
use rand::seq::SliceRandom;
use crate::date::Date;
use crate::favorites::Favorites;
use crate::library::{task_state, task_state_of, TaskState};
use crate::model::WallpaperEntry;
use crate::settings::{
    clamp_interval, normalized_interval, AppSettings, PeriodicWallpaperSource,
};
use crate::text::{decimal, push_str, string_of, trim, trim_chars, chars_of, push_decimal};

verus! {

/// The wallpaper picked by one periodic run.
#[derive(Debug)]
pub struct Selection {
    pub entry: WallpaperEntry,
    /// The run used the newest wallpaper as the first run of the day.
    pub used_daily_latest: bool,
    /// Random favorites were asked for but there were none, so the pick
    /// came from the whole history.
    pub fell_back_from_favorites: bool,
}

/// Some entry is a favorite.
pub open spec fn has_favorite_entry(entries: Seq<WallpaperEntry>, favorites: Set<(int, int, int)>) -> bool {
    exists|i: int| 0 <= i < entries.len() && favorites.contains(#[trigger] entries[i].date@)
}

/// The first run of the day should use the newest wallpaper.
pub open spec fn daily_latest_due(settings: AppSettings, today: Date) -> bool {
    settings.periodic_daily_first_latest && !(settings.last_periodic_latest_date matches Some(
        d,
    ) && d@ == today@)
}

/// Where a run picks from: positions of `entries`, and the two flags of the
/// resulting selection.
pub struct Candidates {
    pub positions: Vec<usize>,
    pub used_daily_latest: bool,
    pub fell_back_from_favorites: bool,
}

/// `positions` lists, in order, the positions of `entries` that satisfy
/// `keep`.
pub open spec fn lists_positions(
    entries: Seq<WallpaperEntry>,
    positions: Seq<usize>,
    keep: spec_fn(WallpaperEntry) -> bool,
) -> bool {
    &&& forall|k: int| 0 <= k < positions.len() ==> #[trigger] positions[k] < entries.len()
    &&& forall|k: int| 0 <= k < positions.len() ==> keep(entries[#[trigger] positions[k] as int])
    &&& forall|k1: int, k2: int|
        0 <= k1 < k2 < positions.len() ==> #[trigger] positions[k1] < #[trigger] positions[k2]
    &&& forall|i: int|
        0 <= i < entries.len() && keep(#[trigger] entries[i]) ==> exists|k: int|
            0 <= k < positions.len() && #[trigger] positions[k] == i
}

/// The candidates of a periodic run. When the first run of the day should
/// use the newest wallpaper it is the first entry alone; otherwise every
/// entry, or for random favorites the favorite entries (every entry, marked
/// as a fallback, when no entry is a favorite).
pub open spec fn candidates_ok(
    entries: Seq<WallpaperEntry>,
    favorites: Set<(int, int, int)>,
    settings: AppSettings,
    today: Date,
    c: Candidates,
) -> bool {
    if daily_latest_due(settings, today) {
        &&& c.used_daily_latest
        &&& !c.fell_back_from_favorites
        &&& c.positions@ == (if entries.len() == 0 {
            Seq::<usize>::empty()
        } else {
            seq![0usize]
        })
    } else {
        &&& !c.used_daily_latest
        &&& match settings.periodic_wallpaper_source {
            PeriodicWallpaperSource::RandomAll => {
                &&& !c.fell_back_from_favorites
                &&& lists_positions(entries, c.positions@, |e: WallpaperEntry| true)
            },
            PeriodicWallpaperSource::RandomFavorites => if has_favorite_entry(entries, favorites) {
                &&& !c.fell_back_from_favorites
                &&& lists_positions(
                    entries,
                    c.positions@,
                    |e: WallpaperEntry| favorites.contains(e.date@),
                )
            } else {
                &&& c.fell_back_from_favorites
                &&& lists_positions(entries, c.positions@, |e: WallpaperEntry| true)
            },
        }
    }
}

fn all_positions(entries: &Vec<WallpaperEntry>) -> (r: Vec<usize>)
    ensures
        lists_positions(entries@, r@, |e: WallpaperEntry| true),
{
    let mut r: Vec<usize> = Vec::new();
    let mut i: usize = 0;
    while i < entries.len()
        invariant
            0 <= i <= entries@.len(),
            r@.len() == i,
            forall|k: int| 0 <= k < i ==> #[trigger] r@[k] == k,
        decreases entries@.len() - i,
    {
        r.push(i);
        i = i + 1;
    }
    proof {
        assert forall|i: int| #![trigger entries@[i]] 0 <= i < entries@.len() implies exists|k: int|
            0 <= k < r@.len() && #[trigger] r@[k] == i by {
            assert(r@[i] == i);
        }
    }
    r
}

fn favorite_positions(entries: &Vec<WallpaperEntry>, favorites: &Favorites) -> (r: Vec<usize>)
    ensures
        lists_positions(entries@, r@, |e: WallpaperEntry| favorites@.contains(e.date@)),
{
    let ghost keep = |e: WallpaperEntry| favorites@.contains(e.date@);
    let mut r: Vec<usize> = Vec::new();
    let mut i: usize = 0;
    while i < entries.len()
        invariant
            0 <= i <= entries@.len(),
            keep == (|e: WallpaperEntry| favorites@.contains(e.date@)),
            forall|k: int| 0 <= k < r@.len() ==> #[trigger] r@[k] < i,
            forall|k: int| 0 <= k < r@.len() ==> keep(entries@[#[trigger] r@[k] as int]),
            forall|k1: int, k2: int| 0 <= k1 < k2 < r@.len() ==> #[trigger] r@[k1] < #[trigger] r@[k2],
            forall|j: int|
                0 <= j < i && keep(#[trigger] entries@[j]) ==> exists|k: int|
                    0 <= k < r@.len() && #[trigger] r@[k] == j,
        decreases entries@.len() - i,
    {
        if favorites.contains(&entries[i].date) {
            let ghost before = r@;
            r.push(i);
            proof {
                assert forall|j: int|
                    0 <= j < i + 1 && keep(#[trigger] entries@[j]) implies exists|k: int|
                    0 <= k < r@.len() && #[trigger] r@[k] == j by {
                    if j < i {
                        let k = choose|k: int| 0 <= k < before.len() && #[trigger] before[k] == j;
                        assert(r@[k] == j);
                    } else {
                        assert(r@[before.len() as int] == j);
                    }
                }
            }
        }
        i = i + 1;
    }
    r
}

/// Where a periodic run picks from.
pub fn selection_candidates(
    entries: &Vec<WallpaperEntry>,
    favorites: &Favorites,
    settings: &AppSettings,
    today: Date,
) -> (c: Candidates)
    ensures
        candidates_ok(entries@, favorites@, *settings, today, c),
{
    let ran_latest_today = match settings.last_periodic_latest_date {
        Some(d) => d.same_day(&today),
        None => false,
    };
    if settings.periodic_daily_first_latest && !ran_latest_today {
        let mut positions: Vec<usize> = Vec::new();
        if entries.len() > 0 {
            positions.push(0);
        }
        return Candidates { positions, used_daily_latest: true, fell_back_from_favorites: false };
    }
    match settings.periodic_wallpaper_source {
        PeriodicWallpaperSource::RandomAll => Candidates {
            positions: all_positions(entries),
            used_daily_latest: false,
            fell_back_from_favorites: false,
        },
        PeriodicWallpaperSource::RandomFavorites => {
            let favs = favorite_positions(entries, favorites);
            if favs.len() > 0 {
                proof {
                    let i = favs@[0] as int;
                    assert(favorites@.contains(entries@[i].date@));
                    assert(has_favorite_entry(entries@, favorites@));
                }
                Candidates { positions: favs, used_daily_latest: false, fell_back_from_favorites: false }
            } else {
                proof {
                    if has_favorite_entry(entries@, favorites@) {
                        let i = choose|i: int|
                            0 <= i < entries@.len() && favorites@.contains(#[trigger] entries@[i].date@);
                        assert((|e: WallpaperEntry| favorites@.contains(e.date@))(entries@[i]));
                    }
                }
                Candidates {
                    positions: all_positions(entries),
                    used_daily_latest: false,
                    fell_back_from_favorites: true,
                }
            }
        },
    }
}

/// Calls `rand::seq::SliceRandom::choose` with `rand::thread_rng()`. rand
/// documents that it returns one element of the slice, and `None` exactly
/// when the slice is empty; which element comes back is left to chance.
/// `thread_rng` panics if the operating system's entropy source fails on
/// first use; nothing here states that case.
#[verifier::external_body]
pub(crate) fn choose_position(positions: &[usize]) -> (r: Option<usize>)
    ensures
        r is None <==> positions@.len() == 0,
        r matches Some(p) ==> positions@.contains(p),
{
    positions.choose(&mut rand::thread_rng()).copied()
}

/// The selection for the candidates `c` when position `pick` was drawn.
pub fn selection_from_pick(entries: &Vec<WallpaperEntry>, c: &Candidates, pick: usize) -> (r: Option<
    Selection,
>)
    ensures
        pick < entries@.len() ==> (r matches Some(s) && s.entry == entries@[pick as int]
            && s.used_daily_latest == c.used_daily_latest && s.fell_back_from_favorites
            == c.fell_back_from_favorites),
        pick >= entries@.len() ==> r is None,
{
    if pick >= entries.len() {
        return None;
    }
    Some(
        Selection {
            entry: entries[pick].clone(),
            used_daily_latest: c.used_daily_latest,
            fell_back_from_favorites: c.fell_back_from_favorites,
        },
    )
}

/// `select_entry`: the wallpaper for one periodic run. The first run of a
/// day (when so configured) takes the newest entry; otherwise a random
/// entry, or a random favorite when asked for and there is one. `None` only
/// when there is no entry.
pub fn select_entry(
    entries: &Vec<WallpaperEntry>,
    favorites: &Favorites,
    settings: &AppSettings,
    today: Date,
) -> (r: Option<Selection>)
    ensures
        r is None <==> entries@.len() == 0,
        r matches Some(s) ==> exists|c: Candidates|
            #[trigger] candidates_ok(entries@, favorites@, *settings, today, c) && exists|k: int|
                0 <= k < c.positions@.len() && s.entry == entries@[#[trigger] c.positions@[k] as int]
                    && s.used_daily_latest == c.used_daily_latest && s.fell_back_from_favorites
                    == c.fell_back_from_favorites,
{
    let c = selection_candidates(entries, favorites, settings, today);
    proof {
        if entries@.len() > 0 {
            if !daily_latest_due(*settings, today) {
                assert((|e: WallpaperEntry| true)(entries@[0]));
                if settings.periodic_wallpaper_source == PeriodicWallpaperSource::RandomFavorites
                    && has_favorite_entry(entries@, favorites@) {
                    let i = choose|i: int|
                        0 <= i < entries@.len() && favorites@.contains(#[trigger] entries@[i].date@);
                    assert((|e: WallpaperEntry| favorites@.contains(e.date@))(entries@[i]));
                }
            }
            assert(c.positions@.len() > 0);
        }
    }
    match choose_position(c.positions.as_slice()) {
        Some(p) => {
            let ghost k = c.positions@.index_of(p);
            proof {
                assert(c.positions@[k] == p);
            }
            selection_from_pick(entries, &c, p)
        },
        None => None,
    }
}

/// The repetition interval for the task scheduler, as an ISO 8601 duration
/// of the clamped minutes: `PT{m}M`, `PT{h}H` or `PT{h}H{m}M`.
pub open spec fn repetition_text(interval_minutes: int) -> Seq<char> {
    let total = clamp_interval(interval_minutes);
    let hours = total / 60;
    let minutes = total % 60;
    if hours == 0 {
        "PT"@ + decimal(minutes as nat) + "M"@
    } else if minutes == 0 {
        "PT"@ + decimal(hours as nat) + "H"@
    } else {
        "PT"@ + decimal(hours as nat) + "H"@ + decimal(minutes as nat) + "M"@
    }
}

/// `repetition_interval`.
pub fn repetition_interval(interval_minutes: u16) -> (r: String)
    ensures
        r@ == repetition_text(interval_minutes as int),
{
    let total = normalized_interval(interval_minutes);
    let hours = total / 60;
    let minutes = total % 60;
    let mut out: Vec<char> = Vec::new();
    out.push('P');
    out.push('T');
    if hours == 0 {
        push_decimal(&mut out, minutes as u64);
        out.push('M');
    } else if minutes == 0 {
        push_decimal(&mut out, hours as u64);
        out.push('H');
    } else {
        push_decimal(&mut out, hours as u64);
        out.push('H');
        push_decimal(&mut out, minutes as u64);
        out.push('M');
    }
    let r = string_of(out.as_slice());
    proof {
        reveal_strlit("PT");
        reveal_strlit("M");
        reveal_strlit("H");
    }
    r
}

/// The account the periodic task runs as: `domain\user`, or the user alone
/// when the domain is blank.
pub open spec fn task_account_of(domain: Seq<char>, user: Seq<char>) -> Seq<char> {
    if trim(domain).len() == 0 {
        user
    } else {
        domain + seq!['\\'] + user
    }
}

pub fn task_account(domain: &str, user: &str) -> (r: String)
    ensures
        r@ == task_account_of(domain@, user@),
{
    let d = chars_of(domain);
    let t = trim_chars(&d);
    let mut out = String::new();
    if t.len() > 0 {
        push_str(&mut out, domain);
        push_str(&mut out, "\\");
        proof {
            reveal_strlit("\\");
        }
    }
    push_str(&mut out, user);
    out
}


/// Longest wait for the unattended download, in milliseconds.
pub const DOWNLOAD_TIMEOUT_MS: u64 = 600000;

/// Pause between two status queries of the unattended download, in
/// milliseconds.
pub const DOWNLOAD_POLL_INTERVAL_MS: u64 = 300;

/// What the unattended run does after asking the download tool about its
/// task.
#[derive(Clone, Copy, Debug, PartialEq, Eq, Structural)]
pub enum PollAction {
    /// The file is there.
    Finished,
    /// The task failed or was removed.
    Failed,
    /// Too much time has passed.
    TimedOut,
    /// Ask again after `DOWNLOAD_POLL_INTERVAL_MS`.
    Wait,
}

/// The step of the unattended download. The time limit is checked before
/// each query; then a completed task finishes, a failed or removed one
/// fails, and any other state waits.
pub fn download_poll_action(elapsed_ms: u64, status: &str) -> (r: PollAction)
    ensures
        elapsed_ms >= DOWNLOAD_TIMEOUT_MS ==> r == PollAction::TimedOut,
        elapsed_ms < DOWNLOAD_TIMEOUT_MS ==> r == match task_state_of(status@) {
            TaskState::Complete => PollAction::Finished,
            TaskState::Error | TaskState::Removed => PollAction::Failed,
            TaskState::Running => PollAction::Wait,
        },
{
    if elapsed_ms >= DOWNLOAD_TIMEOUT_MS {
        return PollAction::TimedOut;
    }
    match task_state(status) {
        TaskState::Complete => PollAction::Finished,
        TaskState::Error | TaskState::Removed => PollAction::Failed,
        TaskState::Running => PollAction::Wait,
    }
}

/// After a periodic run set the wallpaper: when it used the newest
/// wallpaper as the day's first run, `today` is remembered (so the next
/// runs of the day pick at random). Returns whether the settings changed
/// and must be saved.
pub fn record_periodic_run(settings: &mut AppSettings, selection: &Selection, today: Date) -> (changed: bool)
    ensures
        changed == selection.used_daily_latest,
        changed ==> *final(settings) == (AppSettings {
            last_periodic_latest_date: Some(today),
            ..*old(settings)
        }),
        !changed ==> *final(settings) == *old(settings),
{
    if selection.used_daily_latest {
        settings.last_periodic_latest_date = Some(today);
        true
    } else {
        false
    }
}

/// After the day's first periodic run used the newest wallpaper, later runs
/// of that day do not.
pub proof fn lemma_latest_once_per_day(settings: AppSettings, today: Date)
    requires
        settings.last_periodic_latest_date == Some(today),
    ensures
        !daily_latest_due(settings, today),
{
}

} // verus!
