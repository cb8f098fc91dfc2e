//! The wallpaper list: reading archive records into entries, removing
//! repeated days, merging Bing's recent list into the history archive, and
//! the checks that decide which list to keep.
use vstd::prelude::*;
use vstd::pervasive::VecAdditionalExecFns;
use crate::date::{
    compact_date_fields, dashed_date_fields, date_le, date_lt, exact_reading, following_day,
    naive_date_parse, parse_compact_date, parse_dashed_date,
    Date, COMPACT_FORMAT, DASHED_FORMAT, MAX_YEAR,
};
use crate::model::{
    lemma_positions_cover,
    opt_view, sort_newest_first, stable_newest_first, stable_order_witness,
    WallpaperEntry,
};
use crate::text::{
    chars_of, find, first_match, has_prefix, lemma_first_match_from, matches_at, push_str,
    slice_chars, starts_with, string_of, trim, trim_chars, trim_str,
};

verus! {

/// Some earlier entry (before position `i`) is of the same day as `s[i]`.
pub open spec fn day_seen_before(s: Seq<WallpaperEntry>, i: int) -> bool {
    exists|j: int| 0 <= j < i && #[trigger] s[j].date@ == s[i].date@
}

/// `s` keeping only the first entry of each day, in order.
pub open spec fn first_of_each_day(s: Seq<WallpaperEntry>) -> Seq<WallpaperEntry>
    decreases s.len(),
{
    if s.len() == 0 {
        s
    } else {
        let d = first_of_each_day(s.drop_last());
        if day_seen_before(s, s.len() - 1) {
            d
        } else {
            d.push(s.last())
        }
    }
}

/// Some entry of `s` is of day `d`.
pub open spec fn has_day(s: Seq<WallpaperEntry>, d: (int, int, int)) -> bool {
    exists|k: int| 0 <= k < s.len() && #[trigger] s[k].date@ == d
}

fn contains_day(s: &Vec<WallpaperEntry>, d: &Date) -> (r: bool)
    ensures
        r == has_day(s@, d@),
{
    let mut k: usize = 0;
    while k < s.len()
        invariant
            0 <= k <= s@.len(),
            forall|j: int| 0 <= j < k ==> s@[j].date@ != d@,
        decreases s@.len() - k,
    {
        if s[k].date.same_day(d) {
            return true;
        }
        k = k + 1;
    }
    false
}

/// `dedup_by_date`: keeps the first entry of each day (a day rarely has two
/// records), in order.
pub fn dedup_by_date(entries: Vec<WallpaperEntry>) -> (r: Vec<WallpaperEntry>)
    ensures
        r@ == first_of_each_day(entries@),
        keeps_order(r@, entries@),
        unique_days(r@),
{
    proof {
        lemma_dedup_keeps_order_and_settles(entries@);
        lemma_first_of_each_day(entries@);
    }
    let mut result: Vec<WallpaperEntry> = Vec::new();
    let mut i: usize = 0;
    while i < entries.len()
        invariant
            0 <= i <= entries@.len(),
            result@ == first_of_each_day(entries@.take(i as int)),
            forall|d: (int, int, int)|
                has_day(result@, d) <==> (exists|j: int| 0 <= j < i && #[trigger] entries@[j].date@
                    == d),
        decreases entries@.len() - i,
    {
        let e = &entries[i];
        let seen = contains_day(&result, &e.date);
        let ghost t = entries@.take(i + 1);
        proof {
            assert(t.drop_last() =~= entries@.take(i as int));
            assert(t.last() == entries@[i as int]);
            if seen {
                let j = choose|j: int| 0 <= j < i && #[trigger] entries@[j].date@ == e.date@;
                assert(t[j] == entries@[j]);
                assert(day_seen_before(t, i as int));
            } else {
                assert forall|j: int| 0 <= j < i implies #[trigger] t[j].date@ != t[i as int].date@ by {
                    assert(t[j] == entries@[j]);
                    if t[j].date@ == t[i as int].date@ {
                        assert(exists|jj: int| 0 <= jj < i && #[trigger] entries@[jj].date@ == e.date@);
                    }
                }
            }
        }
        if !seen {
            let ghost before = result@;
            result.push(e.clone());
            proof {
                assert forall|d: (int, int, int)|
                    has_day(result@, d) <==> (exists|j: int| 0 <= j < i + 1 && #[trigger] entries@[j].date@
                        == d) by {
                    if has_day(result@, d) {
                        let k = choose|k: int| 0 <= k < result@.len() && #[trigger] result@[k].date@ == d;
                        if k < before.len() {
                            assert(before[k].date@ == d);
                            assert(has_day(before, d));
                        } else {
                            assert(entries@[i as int].date@ == d);
                        }
                    }
                    if exists|j: int| 0 <= j < i + 1 && #[trigger] entries@[j].date@ == d {
                        let j = choose|j: int| 0 <= j < i + 1 && #[trigger] entries@[j].date@ == d;
                        if j < i {
                            assert(has_day(before, d));
                            let k = choose|k: int| 0 <= k < before.len() && #[trigger] before[k].date@ == d;
                            assert(result@[k] == before[k]);
                        } else {
                            assert(result@[before.len() as int].date@ == d);
                        }
                    }
                }
            }
        } else {
            proof {
                assert forall|d: (int, int, int)|
                    has_day(result@, d) <==> (exists|j: int| 0 <= j < i + 1 && #[trigger] entries@[j].date@
                        == d) by {
                    if exists|j: int| 0 <= j < i + 1 && #[trigger] entries@[j].date@ == d {
                        let j = choose|j: int| 0 <= j < i + 1 && #[trigger] entries@[j].date@ == d;
                        if j == i {
                            assert(has_day(result@, e.date@));
                        }
                    }
                }
            }
        }
        i = i + 1;
    }
    assert(entries@.take(entries@.len() as int) =~= entries@);
    result
}

/// Characters that end the image identifier after `OHR.`.
pub open spec fn is_key_stop(c: char) -> bool {
    c == '_' || c == '.' || c == '&' || c == '?'
}

/// Position of the first identifier stop in `rest[i..]` (or the end).
pub open spec fn key_end_from(rest: Seq<char>, i: int) -> int
    decreases rest.len() - i,
{
    if i < 0 || i >= rest.len() {
        rest.len() as int
    } else if is_key_stop(rest[i]) {
        i
    } else {
        key_end_from(rest, i + 1)
    }
}

/// Bing image identifier in an address: the text after `OHR.` up to the
/// first `_`, `.`, `&` or `?`, trimmed; `None` when absent or empty.
pub open spec fn image_key_of(url: Seq<char>) -> Option<Seq<char>> {
    match first_match(url, "OHR."@) {
        None => None,
        Some(i) => {
            let rest = url.subrange(i + "OHR."@.len(), url.len() as int);
            let key = trim(rest.subrange(0, key_end_from(rest, 0)));
            if key.len() == 0 {
                None
            } else {
                Some(key)
            }
        },
    }
}

proof fn lemma_key_end_from(rest: Seq<char>, i: int)
    requires
        0 <= i <= rest.len(),
    ensures
        i <= key_end_from(rest, i) <= rest.len(),
    decreases rest.len() - i,
{
    if i < rest.len() && !is_key_stop(rest[i]) {
        lemma_key_end_from(rest, i + 1);
    }
}

fn image_key_chars(url: &str) -> (r: Option<Vec<char>>)
    ensures
        match r {
            Some(k) => image_key_of(url@) == Some(k@),
            None => image_key_of(url@) is None,
        },
{
    let u = chars_of(url);
    let marker = chars_of("OHR.");
    let found = find(&u, &marker);
    proof {
        lemma_first_match_from(u@, marker@, 0);
    }
    match found {
        None => None,
        Some(i) => {
            assert(matches_at(u@, marker@, i as int));
            let ulen = u.len();
            assert(i + marker@.len() <= ulen);
            let start = i + marker.len();
            let rest = slice_chars(&u, start, ulen);
            let mut e: usize = 0;
            proof {
                lemma_key_end_from(rest@, 0);
            }
            while e < rest.len() && !(rest[e] == '_' || rest[e] == '.' || rest[e] == '&' || rest[e]
                == '?')
                invariant
                    0 <= e <= rest@.len(),
                    key_end_from(rest@, 0) == key_end_from(rest@, e as int),
                decreases rest@.len() - e,
            {
                e = e + 1;
            }
            let raw = slice_chars(&rest, 0, e);
            let key = trim_chars(&raw);
            if key.len() == 0 {
                None
            } else {
                Some(key)
            }
        },
    }
}

/// `image_key`.
pub fn image_key(entry: &WallpaperEntry) -> (r: Option<String>)
    ensures
        opt_view(r) == image_key_of(entry.url@),
{
    match image_key_chars(entry.url.as_str()) {
        Some(k) => Some(string_of(k.as_slice())),
        None => None,
    }
}

/// Position of the first entry of `s[i..]` whose image identifier is `key`.
pub open spec fn key_index_from(s: Seq<WallpaperEntry>, key: Seq<char>, i: int) -> Option<int>
    decreases s.len() - i,
{
    if i < 0 || i >= s.len() {
        None
    } else if image_key_of(s[i].url@) == Some(key) {
        Some(i)
    } else {
        key_index_from(s, key, i + 1)
    }
}

/// Position of the first entry of `s[i..]` of day `d`.
pub open spec fn day_index_from(s: Seq<WallpaperEntry>, d: (int, int, int), i: int) -> Option<int>
    decreases s.len() - i,
{
    if i < 0 || i >= s.len() {
        None
    } else if s[i].date@ == d {
        Some(i)
    } else {
        day_index_from(s, d, i + 1)
    }
}

/// Merging one recent entry `e` into `entries`: when an entry shows the same
/// image, `e` replaces it only if it is of the same day (otherwise the
/// archive's day is kept and `e` is dropped); else `e` replaces the entry of
/// its day, or is added.
pub open spec fn merge_one(entries: Seq<WallpaperEntry>, e: WallpaperEntry) -> Seq<WallpaperEntry> {
    let by_key = match image_key_of(e.url@) {
        Some(k) => key_index_from(entries, k, 0),
        None => None,
    };
    match by_key {
        Some(j) => if entries[j].date@ == e.date@ {
            entries.update(j, e)
        } else {
            entries
        },
        None => match day_index_from(entries, e.date@, 0) {
            Some(j) => entries.update(j, e),
            None => entries.push(e),
        },
    }
}

/// Merging `recent[0..n]`, in order, into `entries`.
pub open spec fn merge_prefix(
    entries: Seq<WallpaperEntry>,
    recent: Seq<WallpaperEntry>,
    n: int,
) -> Seq<WallpaperEntry>
    decreases n,
{
    if n <= 0 {
        entries
    } else {
        merge_one(merge_prefix(entries, recent, n - 1), recent[n - 1])
    }
}

/// Position of the first key in `keys` equal to `k`.
fn find_key(keys: &Vec<Option<Vec<char>>>, k: &Vec<char>, Ghost(es): Ghost<Seq<WallpaperEntry>>) -> (r: Option<usize>)
    requires
        keys@.len() == es.len(),
        forall|q: int| 0 <= q < keys@.len() ==> key_matches(#[trigger] keys@[q], es[q]),
    ensures
        match r {
            Some(j) => j < es.len() && image_key_of(es[j as int].url@) == Some(k@) && forall|q: int|
                0 <= q < j ==> image_key_of(#[trigger] es[q].url@) != Some(k@),
            None => forall|q: int| 0 <= q < es.len() ==> image_key_of(#[trigger] es[q].url@) != Some(k@),
        },
{
    let mut m: usize = 0;
    while m < keys.len()
        invariant
            0 <= m <= keys@.len(),
            keys@.len() == es.len(),
            forall|q: int| 0 <= q < keys@.len() ==> key_matches(#[trigger] keys@[q], es[q]),
            forall|q: int| 0 <= q < m ==> image_key_of(#[trigger] es[q].url@) != Some(k@),
        decreases keys@.len() - m,
    {
        let hit = match &keys[m] {
            Some(other) => same_chars(other, k),
            None => false,
        };
        proof {
            assert(key_matches(keys@[m as int], es[m as int]));
        }
        if hit {
            return Some(m);
        }
        m = m + 1;
    }
    None
}

/// Position of the first entry of day `d`.
fn find_day(entries: &Vec<WallpaperEntry>, d: &Date) -> (r: Option<usize>)
    ensures
        match r {
            Some(j) => j < entries@.len() && entries@[j as int].date@ == d@ && forall|q: int|
                0 <= q < j ==> #[trigger] entries@[q].date@ != d@,
            None => forall|q: int| 0 <= q < entries@.len() ==> #[trigger] entries@[q].date@ != d@,
        },
{
    let mut m: usize = 0;
    while m < entries.len()
        invariant
            0 <= m <= entries@.len(),
            forall|q: int| 0 <= q < m ==> #[trigger] entries@[q].date@ != d@,
        decreases entries@.len() - m,
    {
        if entries[m].date.same_day(d) {
            return Some(m);
        }
        m = m + 1;
    }
    None
}

/// `merge_entries_prefer_primary` before sorting: the archive (first entry
/// of each day) with the recent list (first entry of each day) merged in.
pub open spec fn merged_unsorted(primary: Seq<WallpaperEntry>, fallback: Seq<WallpaperEntry>) -> Seq<
    WallpaperEntry,
> {
    let p = first_of_each_day(primary);
    merge_prefix(first_of_each_day(fallback), p, p.len() as int)
}

pub proof fn lemma_key_index_from(s: Seq<WallpaperEntry>, key: Seq<char>, i: int)
    requires
        0 <= i,
    ensures
        match key_index_from(s, key, i) {
            Some(j) => i <= j < s.len() && image_key_of(s[j].url@) == Some(key) && forall|m: int|
                i <= m < j ==> image_key_of(#[trigger] s[m].url@) != Some(key),
            None => forall|m: int| i <= m < s.len() ==> image_key_of(#[trigger] s[m].url@) != Some(key),
        },
    decreases s.len() - i,
{
    if i < s.len() && image_key_of(s[i].url@) != Some(key) {
        lemma_key_index_from(s, key, i + 1);
    }
}

pub proof fn lemma_day_index_from(s: Seq<WallpaperEntry>, d: (int, int, int), i: int)
    requires
        0 <= i,
    ensures
        match day_index_from(s, d, i) {
            Some(j) => i <= j < s.len() && s[j].date@ == d && forall|m: int|
                i <= m < j ==> #[trigger] s[m].date@ != d,
            None => forall|m: int| i <= m < s.len() ==> #[trigger] s[m].date@ != d,
        },
    decreases s.len() - i,
{
    if i < s.len() && s[i].date@ != d {
        lemma_day_index_from(s, d, i + 1);
    }
}

fn same_chars(a: &Vec<char>, b: &Vec<char>) -> (r: bool)
    ensures
        r == (a@ == b@),
{
    if a.len() != b.len() {
        return false;
    }
    let mut i: usize = 0;
    while i < a.len()
        invariant
            a@.len() == b@.len(),
            0 <= i <= a@.len(),
            forall|j: int| 0 <= j < i ==> a@[j] == b@[j],
        decreases a@.len() - i,
    {
        if a[i] != b[i] {
            return false;
        }
        i = i + 1;
    }
    assert(a@ =~= b@);
    true
}

pub open spec fn key_matches(k: Option<Vec<char>>, e: WallpaperEntry) -> bool {
    match k {
        Some(v) => image_key_of(e.url@) == Some(v@),
        None => image_key_of(e.url@) is None,
    }
}

/// `merge_entries_prefer_primary`: Bing's recent list (`primary`) merged
/// into the archive (`fallback`), newest first. For the same day the recent
/// entry wins; when both lists show the same image under different days,
/// the archive's day is kept.
pub fn merge_entries_prefer_primary(
    primary: Vec<WallpaperEntry>,
    fallback: Vec<WallpaperEntry>,
) -> (r: Vec<WallpaperEntry>)
    ensures
        stable_newest_first(merged_unsorted(primary@, fallback@), r@),
{
    let mut entries = dedup_by_date(fallback);
    let mut keys: Vec<Option<Vec<char>>> = Vec::new();
    let mut j: usize = 0;
    while j < entries.len()
        invariant
            0 <= j <= entries@.len(),
            keys@.len() == j,
            forall|m: int| 0 <= m < j ==> key_matches(#[trigger] keys@[m], entries@[m]),
        decreases entries@.len() - j,
    {
        keys.push(image_key_chars(entries[j].url.as_str()));
        j = j + 1;
    }
    let prim = dedup_by_date(primary);
    let ghost base = entries@;
    let mut idx: usize = 0;
    while idx < prim.len()
        invariant
            0 <= idx <= prim@.len(),
            entries@ == merge_prefix(base, prim@, idx as int),
            keys@.len() == entries@.len(),
            forall|m: int| 0 <= m < keys@.len() ==> key_matches(#[trigger] keys@[m], entries@[m]),
        decreases prim@.len() - idx,
    {
        let e = prim[idx].clone();
        let ek = image_key_chars(e.url.as_str());
        let ghost cur = entries@;
        assert(merge_prefix(base, prim@, idx + 1) == merge_one(cur, prim@[idx as int]));
        let mut by_key: Option<usize> = None;
        match &ek {
            Some(kk) => {
                proof {
                    lemma_key_index_from(cur, kk@, 0);
                }
                by_key = find_key(&keys, kk, Ghost(cur));
            },
            None => {},
        }
        proof {
            lemma_day_index_from(cur, e.date@, 0);
            let spec_key = match image_key_of(e.url@) {
                Some(k) => key_index_from(cur, k, 0),
                None => None,
            };
            match by_key {
                Some(jj) => assert(spec_key == Some(jj as int)),
                None => assert(spec_key is None),
            }
        }
        match by_key {
            Some(jj) => {
                if entries[jj].date.same_day(&e.date) {
                    entries.set(jj, e);
                    keys.set(jj, ek);
                }
            },
            None => {
                match find_day(&entries, &e.date) {
                    Some(jj) => {
                        assert(day_index_from(cur, e.date@, 0) == Some(jj as int));
                        entries.set(jj, e);
                        keys.set(jj, ek);
                    },
                    None => {
                        assert(day_index_from(cur, e.date@, 0) is None);
                        entries.push(e);
                        keys.push(ek);
                    },
                }
            },
        }
        assert(entries@ == merge_one(cur, prim@[idx as int]));
        idx = idx + 1;
    }
    sort_newest_first(&entries)
}


/// `value` trimmed, or `None` when nothing is left.
pub open spec fn non_empty_text(value: Seq<char>) -> Option<Seq<char>> {
    if trim(value).len() == 0 {
        None
    } else {
        Some(trim(value))
    }
}

/// `non_empty_text` of an optional text.
pub open spec fn opt_non_empty(value: Option<Seq<char>>) -> Option<Seq<char>> {
    match value {
        Some(v) => non_empty_text(v),
        None => None,
    }
}

/// `value` trimmed, `None` when it is blank.
pub fn non_empty_string(value: String) -> (r: Option<String>)
    ensures
        opt_view(r) == non_empty_text(value@),
{
    let t = trim_str(value.as_str());
    if t.as_str().is_empty() {
        None
    } else {
        Some(t)
    }
}

fn opt_non_empty_string(value: &Option<String>) -> (r: Option<String>)
    ensures
        opt_view(r) == opt_non_empty(opt_view(*value)),
{
    match value {
        Some(v) => {
            let t = trim_str(v.as_str());
            if t.as_str().is_empty() {
                None
            } else {
                Some(t)
            }
        },
        None => None,
    }
}

/// Host that Bing's relative image addresses belong to.
pub const BING_HOST: &'static str = "https://cn.bing.com";

/// Ending that turns Bing's `urlbase` into the 3840x2160 image.
pub const UHD_SUFFIX: &'static str = "_UHD.jpg&rf=LaDigue_UHD.jpg&pid=hp&w=3840&h=2160&rs=1&c=4";

/// Address of the UHD image for Bing's `urlbase`: absolute addresses are
/// kept, relative ones are put under `BING_HOST`.
pub open spec fn bing_uhd_url_of(urlbase: Seq<char>) -> Seq<char> {
    let u = trim(urlbase);
    let path = if has_prefix(u, "http://"@) || has_prefix(u, "https://"@) {
        u
    } else if has_prefix(u, "/"@) {
        BING_HOST@ + u
    } else {
        BING_HOST@ + "/"@ + u
    };
    path + UHD_SUFFIX@
}

pub fn bing_uhd_url(urlbase: &str) -> (r: String)
    ensures
        r@ == bing_uhd_url_of(urlbase@),
{
    let u = trim_chars(&chars_of(urlbase));
    let mut out = String::new();
    if starts_with(&u, "http://") || starts_with(&u, "https://") {
    } else if starts_with(&u, "/") {
        push_str(&mut out, BING_HOST);
    } else {
        push_str(&mut out, BING_HOST);
        push_str(&mut out, "/");
    }
    let us = string_of(u.as_slice());
    push_str(&mut out, us.as_str());
    push_str(&mut out, UHD_SUFFIX);
    out
}

/// One record of Bing's `HPImageArchive` reply.
#[derive(Debug)]
pub struct BingArchiveImage {
    /// `YYYYMMDD` on which Bing started showing the image.
    pub startdate: String,
    /// `YYYYMMDD` of the day the image belongs to, when given.
    pub enddate: Option<String>,
    /// Image address without size suffix.
    pub urlbase: String,
    pub copyright: String,
    pub copyrightlink: Option<String>,
    /// Bing's headline (may be blank).
    pub title: String,
}

/// One record of the zxyongyo history archive.
#[derive(Debug)]
pub struct ZxyongyoArchiveImage {
    /// `YYYY-MM-DD`.
    pub date: String,
    pub title: String,
    pub copyright: String,
    pub url_4k: String,
}

pub open spec fn opt_date(d: Option<Date>) -> Option<(int, int, int)> {
    match d {
        Some(x) => Some(x@),
        None => None,
    }
}

/// Day of a Bing record: the end date when it has one that reads, else the
/// day after the start date (the start date itself on the last supported
/// day); `None` when the start date does not read.
pub open spec fn bing_day(start: Option<(int, int, int)>, end: Option<(int, int, int)>) -> Option<
    (int, int, int),
> {
    match start {
        None => None,
        Some(s) => match end {
            Some(e) => Some(e),
            None => if s == (MAX_YEAR as int, 12int, 31int) {
                Some(s)
            } else {
                Some(following_day(s))
            },
        },
    }
}

/// How chrono reads an optional `YYYYMMDD` text.
pub open spec fn compact_parse(text: Option<String>) -> Option<(int, int, int)> {
    match text {
        Some(t) => naive_date_parse(t@, COMPACT_FORMAT@),
        None => None,
    }
}

/// The text fields of the entry made from a Bing record.
pub open spec fn bing_entry_fields(image: BingArchiveImage, e: WallpaperEntry) -> bool {
    &&& opt_view(e.headline) == non_empty_text(image.title@)
    &&& e.title@ == trim(image.copyright@)
    &&& e.url@ == bing_uhd_url_of(image.urlbase@)
    &&& opt_view(e.copyright_link) == opt_non_empty(opt_view(image.copyrightlink))
}

/// The entry for a Bing record whose start and end dates were read as
/// `start` and `end`; `None` when the start date did not read.
pub fn bing_entry_from_dates(image: &BingArchiveImage, start: Option<Date>, end: Option<Date>) -> (r:
    Option<WallpaperEntry>)
    ensures
        r is Some <==> start is Some,
        r matches Some(e) ==> bing_entry_fields(*image, e) && Some(e.date@) == bing_day(
            opt_date(start),
            opt_date(end),
        ),
{
    let start_date = match start {
        Some(d) => d,
        None => return None,
    };
    let date = match end {
        Some(d) => d,
        None => match start_date.next_day() {
            Some(n) => n,
            None => start_date,
        },
    };
    Some(
        WallpaperEntry {
            date,
            headline: non_empty_string(image.title.clone()),
            title: trim_str(image.copyright.as_str()),
            url: bing_uhd_url(image.urlbase.as_str()),
            copyright_link: opt_non_empty_string(&image.copyrightlink),
        },
    )
}

fn read_bing_dates(image: &BingArchiveImage) -> (r: (Option<Date>, Option<Date>))
    ensures
        opt_date(r.0) == naive_date_parse(image.startdate@, COMPACT_FORMAT@),
        opt_date(r.1) == compact_parse(image.enddate),
        exact_reading(r.0, compact_date_fields(image.startdate@)),
        image.enddate matches Some(t) ==> exact_reading(r.1, compact_date_fields(t@)),
{
    let start = parse_compact_date(image.startdate.as_str());
    let end = match &image.enddate {
        Some(t) => parse_compact_date(t.as_str()),
        None => None,
    };
    (start, end)
}

/// `bing_image_to_entry`: the entry for a Bing record, dated by its end
/// date (or the day after its start date); `None` when the start date does
/// not read as `YYYYMMDD`.
pub fn bing_image_to_entry(image: BingArchiveImage) -> (r: Option<WallpaperEntry>)
    ensures
        r is Some <==> naive_date_parse(image.startdate@, COMPACT_FORMAT@) is Some,
        r matches Some(e) ==> bing_entry_fields(image, e) && Some(e.date@) == bing_day(
            naive_date_parse(image.startdate@, COMPACT_FORMAT@),
            compact_parse(image.enddate),
        ),
        compact_date_fields(image.startdate@) matches Some(s) ==> r matches Some(e) && Some(e.date@)
            == bing_day(Some(s), compact_parse(image.enddate)),
        r matches Some(e) ==> (image.enddate matches Some(t) ==> (compact_date_fields(t@) matches Some(
            v,
        ) ==> e.date@ == v)),
{
    let (start, end) = read_bing_dates(&image);
    bing_entry_from_dates(&image, start, end)
}

/// The text fields of the entry made from an archive record.
pub open spec fn zx_entry_fields(image: ZxyongyoArchiveImage, e: WallpaperEntry) -> bool {
    &&& opt_view(e.headline) == non_empty_text(image.title@)
    &&& e.title@ == trim(image.copyright@)
    &&& e.url@ == trim(image.url_4k@)
    &&& e.copyright_link is None
}

/// The entry for an archive record whose date was read as `date`; `None`
/// when it did not read.
pub fn zxyongyo_entry_from_date(image: &ZxyongyoArchiveImage, date: Option<Date>) -> (r: Option<
    WallpaperEntry,
>)
    ensures
        r is Some <==> date is Some,
        r matches Some(e) ==> zx_entry_fields(*image, e) && Some(e.date) == date,
{
    let date = match date {
        Some(d) => d,
        None => return None,
    };
    Some(
        WallpaperEntry {
            date,
            headline: non_empty_string(image.title.clone()),
            title: trim_str(image.copyright.as_str()),
            url: trim_str(image.url_4k.as_str()),
            copyright_link: None,
        },
    )
}

/// `zxyongyo_image_to_entry`: the entry for an archive record; `None` when
/// its date does not read as `YYYY-MM-DD`.
pub fn zxyongyo_image_to_entry(image: ZxyongyoArchiveImage) -> (r: Option<WallpaperEntry>)
    ensures
        r is Some <==> naive_date_parse(image.date@, DASHED_FORMAT@) is Some,
        r matches Some(e) ==> zx_entry_fields(image, e) && naive_date_parse(
            image.date@,
            DASHED_FORMAT@,
        ) == Some(e.date@),
        dashed_date_fields(image.date@) matches Some(v) ==> r matches Some(e) && e.date@ == v,
{
    let d = parse_dashed_date(image.date.as_str());
    zxyongyo_entry_from_date(&image, d)
}


/// `out` lists, in order, the entries made from the records of `images`
/// whose date reads, leaving out the others.
pub open spec fn zx_converted(images: Seq<ZxyongyoArchiveImage>, out: Seq<WallpaperEntry>) -> bool
    decreases images.len(),
{
    if images.len() == 0 {
        out.len() == 0
    } else {
        let img = images.last();
        match naive_date_parse(img.date@, DASHED_FORMAT@) {
            Some(d) => {
                &&& out.len() > 0
                &&& zx_entry_fields(img, out.last())
                &&& out.last().date@ == d
                &&& zx_converted(images.drop_last(), out.drop_last())
            },
            None => zx_converted(images.drop_last(), out),
        }
    }
}

/// Same for Bing records.
pub open spec fn bing_converted(images: Seq<BingArchiveImage>, out: Seq<WallpaperEntry>) -> bool
    decreases images.len(),
{
    if images.len() == 0 {
        out.len() == 0
    } else {
        let img = images.last();
        let start = naive_date_parse(img.startdate@, COMPACT_FORMAT@);
        if start is Some {
            &&& out.len() > 0
            &&& bing_entry_fields(img, out.last())
            &&& Some(out.last().date@) == bing_day(start, compact_parse(img.enddate))
            &&& bing_converted(images.drop_last(), out.drop_last())
        } else {
            bing_converted(images.drop_last(), out)
        }
    }
}

/// Every record whose date is spelled exactly `YYYY-MM-DD` reads as that
/// date.
pub open spec fn zx_dates_read_exactly(images: Seq<ZxyongyoArchiveImage>) -> bool {
    forall|i: int|
        0 <= i < images.len() ==> (dashed_date_fields(#[trigger] images[i].date@) matches Some(v)
            ==> naive_date_parse(images[i].date@, DASHED_FORMAT@) == Some(v))
}

/// Every start or end date of a Bing record that is spelled exactly
/// `YYYYMMDD` reads as that date.
pub open spec fn bing_dates_read_exactly(images: Seq<BingArchiveImage>) -> bool {
    forall|i: int|
        0 <= i < images.len() ==> {
            &&& (compact_date_fields(#[trigger] images[i].startdate@) matches Some(v)
                ==> naive_date_parse(images[i].startdate@, COMPACT_FORMAT@) == Some(v))
            &&& (images[i].enddate matches Some(t) ==> (compact_date_fields(t@) matches Some(v)
                ==> naive_date_parse(t@, COMPACT_FORMAT@) == Some(v)))
        }
}

fn zx_convert_all(images: &Vec<ZxyongyoArchiveImage>) -> (out: Vec<WallpaperEntry>)
    ensures
        zx_converted(images@, out@),
        zx_dates_read_exactly(images@),
{
    let mut out: Vec<WallpaperEntry> = Vec::new();
    let mut i: usize = 0;
    while i < images.len()
        invariant
            0 <= i <= images@.len(),
            zx_converted(images@.take(i as int), out@),
            zx_dates_read_exactly(images@.take(i as int)),
        decreases images@.len() - i,
    {
        let img = &images[i];
        let d = parse_dashed_date(img.date.as_str());
        let e = zxyongyo_entry_from_date(img, d);
        let ghost before = out@;
        let ghost t = images@.take(i + 1);
        proof {
            assert(t.drop_last() =~= images@.take(i as int));
            assert(t.last() == images@[i as int]);
            assert forall|k: int| 0 <= k < t.len() implies (dashed_date_fields(#[trigger] t[k].date@) matches Some(v)
                ==> naive_date_parse(t[k].date@, DASHED_FORMAT@) == Some(v)) by {
                if k < i {
                    assert(t[k] == images@.take(i as int)[k]);
                }
            }
        }
        match e {
            Some(x) => {
                out.push(x);
                assert(out@.drop_last() =~= before);
            },
            None => {},
        }
        i = i + 1;
    }
    assert(images@.take(images@.len() as int) =~= images@);
    out
}

fn bing_convert_all(images: &Vec<BingArchiveImage>) -> (out: Vec<WallpaperEntry>)
    ensures
        bing_converted(images@, out@),
        bing_dates_read_exactly(images@),
{
    let mut out: Vec<WallpaperEntry> = Vec::new();
    let mut i: usize = 0;
    while i < images.len()
        invariant
            0 <= i <= images@.len(),
            bing_converted(images@.take(i as int), out@),
            bing_dates_read_exactly(images@.take(i as int)),
        decreases images@.len() - i,
    {
        let img = &images[i];
        let (start, end) = read_bing_dates(img);
        let e = bing_entry_from_dates(img, start, end);
        let ghost before = out@;
        let ghost t = images@.take(i + 1);
        proof {
            assert(t.drop_last() =~= images@.take(i as int));
            assert(t.last() == images@[i as int]);
            assert forall|k: int| 0 <= k < t.len() implies {
                &&& (compact_date_fields(#[trigger] t[k].startdate@) matches Some(v)
                    ==> naive_date_parse(t[k].startdate@, COMPACT_FORMAT@) == Some(v))
                &&& (t[k].enddate matches Some(tt) ==> (compact_date_fields(tt@) matches Some(v)
                    ==> naive_date_parse(tt@, COMPACT_FORMAT@) == Some(v)))
            } by {
                if k < i {
                    assert(t[k] == images@.take(i as int)[k]);
                }
            }
        }
        match e {
            Some(x) => {
                out.push(x);
                assert(out@.drop_last() =~= before);
            },
            None => {},
        }
        i = i + 1;
    }
    assert(images@.take(images@.len() as int) =~= images@);
    out
}

/// The history archive's entries: records whose date reads, the first of
/// each day, newest first (what `parse_zxyongyo_archive` keeps of the
/// decoded JSON).
pub fn zxyongyo_archive_entries(images: Vec<ZxyongyoArchiveImage>) -> (r: Vec<WallpaperEntry>)
    ensures
        exists|out: Seq<WallpaperEntry>|
            #[trigger] zx_converted(images@, out) && stable_newest_first(first_of_each_day(out), r@),
        zx_dates_read_exactly(images@),
{
    let out = zx_convert_all(&images);
    let d = dedup_by_date(out);
    let r = sort_newest_first(&d);
    assert(zx_converted(images@, out@));
    r
}

/// Bing's recent entries from the records of all requested windows: records
/// whose start date reads, the first of each day, newest first; `None`
/// when none is left.
pub fn bing_recent_entries(images: Vec<BingArchiveImage>) -> (r: Option<Vec<WallpaperEntry>>)
    ensures
        exists|out: Seq<WallpaperEntry>|
            #[trigger] bing_converted(images@, out) && match r {
                Some(v) => v@.len() > 0 && stable_newest_first(first_of_each_day(out), v@),
                None => first_of_each_day(out).len() == 0,
            },
        bing_dates_read_exactly(images@),
{
    let out = bing_convert_all(&images);
    let d = dedup_by_date(out);
    let v = sort_newest_first(&d);
    assert(bing_converted(images@, out@));
    proof {
        let p = choose|p: Seq<int>| stable_order_witness(d@, v@, p);
        assert(stable_order_witness(d@, v@, p));
    }
    if v.len() == 0 {
        None
    } else {
        Some(v)
    }
}

/// Some entry of `archive` is at least as old as every entry of `seed`.
pub open spec fn reaches_back(archive: Seq<WallpaperEntry>, seed: Seq<WallpaperEntry>) -> bool {
    exists|i: int| 0 <= i < archive.len() && no_later_than_all(#[trigger] archive[i].date@, seed)
}

/// Day `d` is not later than any day of `s`.
pub open spec fn no_later_than_all(d: (int, int, int), s: Seq<WallpaperEntry>) -> bool {
    forall|k: int| 0 <= k < s.len() ==> date_le(d, #[trigger] s[k].date@)
}

/// Day `d` is later than every day of `s`.
pub open spec fn later_than_all(s: Seq<WallpaperEntry>, d: (int, int, int)) -> bool {
    forall|k: int| 0 <= k < s.len() ==> date_lt(#[trigger] s[k].date@, d)
}

/// `n * factor`, saturating at `usize::MAX`.
pub open spec fn saturating_times(n: nat, factor: nat) -> nat {
    if n * factor > usize::MAX {
        usize::MAX as nat
    } else {
        n * factor
    }
}

/// The downloaded archive may replace the local history: with no local
/// history it must not be empty; otherwise it must reach back as far as the
/// local history and hold at least nine tenths as many entries.
pub open spec fn covers_seed(archive: Seq<WallpaperEntry>, seed: Seq<WallpaperEntry>) -> bool {
    if seed.len() == 0 {
        archive.len() > 0
    } else {
        &&& reaches_back(archive, seed)
        &&& saturating_times(archive.len(), 10) >= saturating_times(seed.len(), 9)
    }
}

/// Position of an oldest entry, `None` for an empty list.
pub(crate) fn oldest_index(s: &Vec<WallpaperEntry>) -> (r: Option<usize>)
    ensures
        r is None <==> s@.len() == 0,
        r matches Some(i) ==> i < s@.len() && forall|k: int|
            0 <= k < s@.len() ==> date_le(s@[i as int].date@, #[trigger] s@[k].date@),
{
    if s.len() == 0 {
        return None;
    }
    let mut best: usize = 0;
    let mut k: usize = 1;
    while k < s.len()
        invariant
            1 <= k <= s@.len(),
            best < k,
            forall|j: int| 0 <= j < k ==> date_le(s@[best as int].date@, #[trigger] s@[j].date@),
        decreases s@.len() - k,
    {
        if s[k].date.is_before(&s[best].date) {
            best = k;
        }
        k = k + 1;
    }
    Some(best)
}

/// Position of a newest entry, `None` for an empty list.
pub(crate) fn newest_index(s: &Vec<WallpaperEntry>) -> (r: Option<usize>)
    ensures
        r is None <==> s@.len() == 0,
        r matches Some(i) ==> i < s@.len() && forall|k: int|
            0 <= k < s@.len() ==> date_le(#[trigger] s@[k].date@, s@[i as int].date@),
{
    if s.len() == 0 {
        return None;
    }
    let mut best: usize = 0;
    let mut k: usize = 1;
    while k < s.len()
        invariant
            1 <= k <= s@.len(),
            best < k,
            forall|j: int| 0 <= j < k ==> date_le(#[trigger] s@[j].date@, s@[best as int].date@),
        decreases s@.len() - k,
    {
        if s[best].date.is_before(&s[k].date) {
            best = k;
        }
        k = k + 1;
    }
    Some(best)
}

fn saturating_mul(n: usize, factor: usize) -> (r: usize)
    ensures
        r == saturating_times(n as nat, factor as nat),
{
    match n.checked_mul(factor) {
        Some(v) => v,
        None => usize::MAX,
    }
}

/// `archive_covers_seed`: whether a downloaded archive may replace the
/// local history (it must not drop old days nor many entries).
pub fn archive_covers_seed(archive: &Vec<WallpaperEntry>, seed: &Vec<WallpaperEntry>) -> (r: bool)
    ensures
        r == covers_seed(archive@, seed@),
{
    if seed.len() == 0 {
        return archive.len() > 0;
    }
    let remote = oldest_index(archive);
    let local = oldest_index(seed);
    let keeps_history = match (remote, local) {
        (Some(a), Some(b)) => {
            let ok = !seed[b].date.is_before(&archive[a].date);
            proof {
                if ok {
                    assert forall|k: int| 0 <= k < seed@.len() implies date_le(
                        archive@[a as int].date@,
                        #[trigger] seed@[k].date@,
                    ) by {
                        assert(date_le(seed@[b as int].date@, seed@[k].date@));
                    }
                    assert(no_later_than_all(archive@[a as int].date@, seed@));
                    assert(reaches_back(archive@, seed@));
                } else {
                    if reaches_back(archive@, seed@) {
                        let i = choose|i: int|
                            0 <= i < archive@.len() && no_later_than_all(
                                #[trigger] archive@[i].date@,
                                seed@,
                            );
                        assert(date_le(archive@[i].date@, seed@[b as int].date@));
                        assert(date_le(archive@[a as int].date@, archive@[i].date@));
                    }
                }
            }
            ok
        },
        _ => false,
    };
    let keeps_count = saturating_mul(archive.len(), 10) >= saturating_mul(seed.len(), 9);
    keeps_history && keeps_count
}

/// Some entry of `fetched` is newer than every entry of `cached`, which
/// holds whenever `fetched` is not empty and `cached` is.
pub open spec fn brings_newer_day(cached: Seq<WallpaperEntry>, fetched: Seq<WallpaperEntry>) -> bool {
    exists|i: int| 0 <= i < fetched.len() && later_than_all(cached, #[trigger] fetched[i].date@)
}

/// `has_new_entry`: whether the newest downloaded day is later than the
/// newest cached day.
pub fn has_new_entry(cached: &Vec<WallpaperEntry>, fetched: &Vec<WallpaperEntry>) -> (r: bool)
    ensures
        r == brings_newer_day(cached@, fetched@),
{
    let c = newest_index(cached);
    let f = newest_index(fetched);
    match (c, f) {
        (Some(a), Some(b)) => {
            let newer = cached[a].date.is_before(&fetched[b].date);
            proof {
                if newer {
                    assert forall|k: int| 0 <= k < cached@.len() implies date_lt(
                        #[trigger] cached@[k].date@,
                        fetched@[b as int].date@,
                    ) by {
                        assert(date_le(cached@[k].date@, cached@[a as int].date@));
                    }
                    assert(later_than_all(cached@, fetched@[b as int].date@));
                    assert(brings_newer_day(cached@, fetched@));
                } else if brings_newer_day(cached@, fetched@) {
                    let i = choose|i: int|
                        0 <= i < fetched@.len() && later_than_all(
                            cached@,
                            #[trigger] fetched@[i].date@,
                        );
                    assert(date_lt(cached@[a as int].date@, fetched@[i].date@));
                    assert(date_le(fetched@[i].date@, fetched@[b as int].date@));
                }
            }
            newer
        },
        (None, Some(b)) => {
            assert(later_than_all(cached@, fetched@[b as int].date@));
            assert(brings_newer_day(cached@, fetched@));
            true
        },
        _ => false,
    }
}

/// `local_seed_entries`: the local history to fall back on, the cached list
/// merged over the bundled snapshot, or the snapshot alone when there is no
/// usable cache.
pub fn local_seed_entries(cached: Option<Vec<WallpaperEntry>>, bundled: Vec<WallpaperEntry>) -> (r:
    Vec<WallpaperEntry>)
    ensures
        match cached {
            Some(c) if c@.len() > 0 => stable_newest_first(merged_unsorted(c@, bundled@), r@),
            _ => r@ == bundled@,
        },
{
    match cached {
        Some(c) => {
            if c.len() > 0 {
                merge_entries_prefer_primary(c, bundled)
            } else {
                bundled
            }
        },
        None => bundled,
    }
}

/// The history to build on. When a downloaded archive covers the local
/// history, the archive with every local day it lacks added from the local
/// history (for a shared day the archive's entry wins); else the local
/// history. No local day is ever lost.
pub fn select_archive(fetched: Option<Vec<WallpaperEntry>>, local_seed: Vec<WallpaperEntry>) -> (r:
    Vec<WallpaperEntry>)
    ensures
        match fetched {
            Some(f) if covers_seed(f@, local_seed@) => stable_newest_first(
                merged_unsorted(f@, local_seed@),
                r@,
            ),
            _ => r@ == local_seed@,
        },
        forall|d: (int, int, int)| has_day(local_seed@, d) ==> has_day(r@, d),
{
    let ghost seed = local_seed@;
    match fetched {
        Some(f) => {
            if archive_covers_seed(&f, &local_seed) {
                let ghost fv = f@;
                let r = merge_entries_prefer_primary(f, local_seed);
                proof {
                    lemma_merged_list(fv, seed, r@);
                }
                r
            } else {
                local_seed
            }
        },
        None => local_seed,
    }
}

/// The final list of `fetch_all`: Bing's recent entries merged into the
/// history when they came; else the history alone, or `None` (a failed
/// fetch) when it is empty too.
pub fn finish_fetch(recent: Option<Vec<WallpaperEntry>>, archive: Vec<WallpaperEntry>) -> (r: Option<
    Vec<WallpaperEntry>,
>)
    ensures
        match recent {
            Some(rc) => r matches Some(v) && stable_newest_first(merged_unsorted(rc@, archive@), v@),
            None => if archive@.len() == 0 {
                r is None
            } else {
                r matches Some(v) && v@ == archive@
            },
        },
        forall|d: (int, int, int)| has_day(archive@, d) ==> (r matches Some(v) && has_day(v@, d)),
{
    match recent {
        Some(rc) => {
            let ghost rv = rc@;
            let ghost av = archive@;
            let v = merge_entries_prefer_primary(rc, archive);
            proof {
                lemma_merged_list(rv, av, v@);
            }
            Some(v)
        },
        None => {
            if archive.len() == 0 {
                None
            } else {
                Some(archive)
            }
        },
    }
}


/// No two entries share a day.
pub open spec fn unique_days(s: Seq<WallpaperEntry>) -> bool {
    forall|i: int, j: int| 0 <= i < j < s.len() ==> #[trigger] s[i].date@ != #[trigger] s[j].date@
}

/// Every entry of `m` is one of `a` or of `b`.
pub open spec fn drawn_from(m: Seq<WallpaperEntry>, a: Seq<WallpaperEntry>, b: Seq<WallpaperEntry>) -> bool {
    forall|k: int| 0 <= k < m.len() ==> a.contains(#[trigger] m[k]) || b.contains(m[k])
}

/// Removing repeated days keeps one entry per day, drops no day, and keeps
/// only entries of the list, each being the first of its day.
pub proof fn lemma_first_of_each_day(s: Seq<WallpaperEntry>)
    ensures
        unique_days(first_of_each_day(s)),
        forall|d: (int, int, int)| has_day(first_of_each_day(s), d) <==> has_day(s, d),
        forall|k: int|
            0 <= k < first_of_each_day(s).len() ==> exists|j: int|
                0 <= j < s.len() && s[j] == #[trigger] first_of_each_day(s)[k] && !day_seen_before(s, j),
    decreases s.len(),
{
    if s.len() > 0 {
        let t = s.drop_last();
        lemma_first_of_each_day(t);
        let d = first_of_each_day(t);
        let n = s.len() - 1;
        assert forall|j: int| 0 <= j < t.len() implies #[trigger] t[j] == s[j] && (day_seen_before(t, j)
            == day_seen_before(s, j)) by {
            if day_seen_before(s, j) {
                let i = choose|i: int| 0 <= i < j && #[trigger] s[i].date@ == s[j].date@;
                assert(t[i] == s[i]);
            }
            if day_seen_before(t, j) {
                let i = choose|i: int| 0 <= i < j && #[trigger] t[i].date@ == t[j].date@;
                assert(t[i] == s[i]);
            }
        }
        assert forall|x: (int, int, int)| has_day(t, x) implies has_day(s, x) by {
            let k = choose|k: int| 0 <= k < t.len() && #[trigger] t[k].date@ == x;
            assert(s[k] == t[k]);
        }
        if day_seen_before(s, n) {
            let i = choose|i: int| 0 <= i < n && #[trigger] s[i].date@ == s[n].date@;
            assert forall|x: (int, int, int)| has_day(s, x) implies has_day(t, x) by {
                let k = choose|k: int| 0 <= k < s.len() && #[trigger] s[k].date@ == x;
                if k == n {
                    assert(t[i] == s[i]);
                } else {
                    assert(t[k] == s[k]);
                }
            }
            assert forall|k: int| 0 <= k < d.len() implies exists|j: int|
                0 <= j < s.len() && s[j] == #[trigger] d[k] && !day_seen_before(s, j) by {
                let j = choose|j: int| 0 <= j < t.len() && t[j] == #[trigger] d[k] && !day_seen_before(t, j);
                assert(t[j] == s[j]);
            }
        } else {
            let r = d.push(s.last());
            assert(!has_day(d, s[n].date@)) by {
                if has_day(d, s[n].date@) {
                    let k = choose|k: int| 0 <= k < t.len() && #[trigger] t[k].date@ == s[n].date@;
                    assert(t[k] == s[k]);
                    assert(day_seen_before(s, n));
                }
            }
            assert forall|i: int, j: int| 0 <= i < j < r.len() implies #[trigger] r[i].date@ != #[trigger] r[j].date@ by {
                assert(r[i] == d[i]);
                if j < d.len() {
                    assert(r[j] == d[j]);
                } else {
                    assert(has_day(d, d[i].date@));
                }
            }
            assert forall|x: (int, int, int)| has_day(r, x) <==> has_day(s, x) by {
                if has_day(r, x) {
                    let k = choose|k: int| 0 <= k < r.len() && #[trigger] r[k].date@ == x;
                    if k < d.len() {
                        assert(r[k] == d[k]);
                        assert(has_day(d, x));
                    } else {
                        assert(s[n].date@ == x);
                    }
                }
                if has_day(s, x) {
                    let k = choose|k: int| 0 <= k < s.len() && #[trigger] s[k].date@ == x;
                    if k == n {
                        assert(r[d.len() as int].date@ == x);
                    } else {
                        assert(t[k] == s[k]);
                        assert(has_day(t, x));
                        let q = choose|q: int| 0 <= q < d.len() && #[trigger] d[q].date@ == x;
                        assert(r[q] == d[q]);
                    }
                }
            }
            assert forall|k: int| 0 <= k < r.len() implies exists|j: int|
                0 <= j < s.len() && s[j] == #[trigger] r[k] && !day_seen_before(s, j) by {
                if k < d.len() {
                    assert(r[k] == d[k]);
                    let j = choose|j: int| 0 <= j < t.len() && t[j] == #[trigger] d[k] && !day_seen_before(t, j);
                    assert(t[j] == s[j]);
                } else {
                    assert(r[k] == s[n]);
                }
            }
        }
    }
}

/// `w` lists, in increasing order, the positions of `s` that `r` keeps.
pub open spec fn order_witness(r: Seq<WallpaperEntry>, s: Seq<WallpaperEntry>, w: Seq<int>) -> bool {
    &&& w.len() == r.len()
    &&& forall|k: int| 0 <= k < w.len() ==> 0 <= #[trigger] w[k] < s.len() && r[k] == s[w[k]]
    &&& forall|k1: int, k2: int| 0 <= k1 < k2 < w.len() ==> #[trigger] w[k1] < #[trigger] w[k2]
}

/// `r` is `s` with some entries left out and the others in their order.
pub open spec fn keeps_order(r: Seq<WallpaperEntry>, s: Seq<WallpaperEntry>) -> bool {
    exists|w: Seq<int>| #[trigger] order_witness(r, s, w)
}

proof fn dedup_positions(s: Seq<WallpaperEntry>) -> (w: Seq<int>)
    ensures
        order_witness(first_of_each_day(s), s, w),
    decreases s.len(),
{
    if s.len() == 0 {
        Seq::empty()
    } else {
        let t = s.drop_last();
        let n = s.len() - 1;
        let w0 = dedup_positions(t);
        assert forall|j: int| 0 <= j < t.len() implies #[trigger] t[j] == s[j] by {}
        if day_seen_before(s, n) {
            w0
        } else {
            let w = w0.push(n);
            assert forall|k: int| 0 <= k < w.len() implies 0 <= #[trigger] w[k] < s.len()
                && first_of_each_day(s)[k] == s[w[k]] by {
                if k < w0.len() {
                    assert(w[k] == w0[k]);
                    assert(t[w0[k]] == s[w0[k]]);
                }
            }
            w
        }
    }
}

proof fn lemma_unique_days_kept(u: Seq<WallpaperEntry>)
    requires
        unique_days(u),
    ensures
        first_of_each_day(u) == u,
    decreases u.len(),
{
    if u.len() > 0 {
        let t = u.drop_last();
        let n = u.len() - 1;
        assert forall|i: int, j: int| 0 <= i < j < t.len() implies #[trigger] t[i].date@ != #[trigger] t[j].date@ by {
            assert(t[i] == u[i] && t[j] == u[j]);
        }
        lemma_unique_days_kept(t);
        assert(!day_seen_before(u, n));
        assert(t.push(u.last()) =~= u);
    }
}

/// Removing repeated days keeps the remaining entries in their order, and
/// removing repeated days again changes nothing.
pub proof fn lemma_dedup_keeps_order_and_settles(s: Seq<WallpaperEntry>)
    ensures
        keeps_order(first_of_each_day(s), s),
        first_of_each_day(first_of_each_day(s)) == first_of_each_day(s),
{
    let w = dedup_positions(s);
    assert(order_witness(first_of_each_day(s), s, w));
    lemma_first_of_each_day(s);
    lemma_unique_days_kept(first_of_each_day(s));
}

/// The image of `e` is shared only by entries of its own day, among the
/// first entries of each day of both lists.
pub open spec fn image_unshared(e: WallpaperEntry, primary: Seq<WallpaperEntry>, fallback: Seq<WallpaperEntry>) -> bool {
    image_key_of(e.url@) matches Some(k) ==> forall|x: WallpaperEntry|
        (first_of_each_day(primary).contains(x) || first_of_each_day(fallback).contains(x)) && #[trigger] image_key_of(
            x.url@,
        ) == Some(k) ==> x.date@ == e.date@
}

proof fn lemma_merge_one(m: Seq<WallpaperEntry>, e: WallpaperEntry, a: Seq<WallpaperEntry>, b: Seq<WallpaperEntry>)
    requires
        unique_days(m),
        drawn_from(m, a, b),
        a.contains(e),
    ensures
        unique_days(merge_one(m, e)),
        drawn_from(merge_one(m, e), a, b),
        forall|d: (int, int, int)| has_day(m, d) ==> has_day(merge_one(m, e), d),
        forall|x: WallpaperEntry|
            m.contains(x) && x.date@ != e.date@ && image_key_of(x.url@) != image_key_of(e.url@)
                ==> #[trigger] merge_one(m, e).contains(x),
        forall|x: WallpaperEntry|
            m.contains(x) && x.date@ != e.date@ && image_key_of(x.url@) is None
                ==> #[trigger] merge_one(m, e).contains(x),
        (image_key_of(e.url@) matches Some(k) ==> forall|q: int|
            0 <= q < m.len() && #[trigger] image_key_of(m[q].url@) == Some(k) ==> m[q].date@ == e.date@)
            ==> merge_one(m, e).contains(e),
{
    let r = merge_one(m, e);
    let by_key = match image_key_of(e.url@) {
        Some(k) => key_index_from(m, k, 0),
        None => None,
    };
    match image_key_of(e.url@) {
        Some(k) => lemma_key_index_from(m, k, 0),
        None => {},
    }
    lemma_day_index_from(m, e.date@, 0);
    // a replaced entry has the day of `e`, or the image of `e`
    let changed: Option<int> = match by_key {
        Some(j) => if m[j].date@ == e.date@ {
            Some(j)
        } else {
            None
        },
        None => match day_index_from(m, e.date@, 0) {
            Some(j) => Some(j),
            None => None,
        },
    };
    match changed {
        Some(j) => {
            assert(r == m.update(j, e));
            assert(m[j].date@ == e.date@);
            assert forall|i1: int, i2: int| 0 <= i1 < i2 < r.len() implies #[trigger] r[i1].date@
                != #[trigger] r[i2].date@ by {
                if i1 == j {
                    assert(m[i2].date@ != m[j].date@);
                } else if i2 == j {
                    assert(m[i1].date@ != m[j].date@);
                }
            }
            assert forall|q: int| 0 <= q < r.len() implies a.contains(#[trigger] r[q]) || b.contains(r[q]) by {
                if q != j {
                    assert(r[q] == m[q]);
                }
            }
            assert forall|d: (int, int, int)| has_day(m, d) implies has_day(r, d) by {
                let q = choose|q: int| 0 <= q < m.len() && #[trigger] m[q].date@ == d;
                assert(r[q].date@ == d);
            }
            assert forall|x: WallpaperEntry| m.contains(x) && x.date@ != e.date@ implies #[trigger] r.contains(x) by {
                let q = m.index_of(x);
                assert(m[q] == x);
                assert(q != j);
                assert(r[q] == x);
            }
            assert(r[j] == e);
        },
        None => {
            match by_key {
                Some(j) => {
                    assert(r == m);
                    assert(image_key_of(m[j].url@) == image_key_of(e.url@));
                    assert(m[j].date@ != e.date@);
                },
                None => {
                    assert(day_index_from(m, e.date@, 0) is None);
                    assert(r == m.push(e));
                    assert forall|i1: int, i2: int| 0 <= i1 < i2 < r.len() implies #[trigger] r[i1].date@
                        != #[trigger] r[i2].date@ by {
                        assert(r[i1] == m[i1]);
                        if i2 < m.len() {
                            assert(r[i2] == m[i2]);
                        }
                    }
                    assert forall|q: int| 0 <= q < r.len() implies a.contains(#[trigger] r[q]) || b.contains(r[q]) by {
                        if q < m.len() {
                            assert(r[q] == m[q]);
                        }
                    }
                    assert forall|d: (int, int, int)| has_day(m, d) implies has_day(r, d) by {
                        let q = choose|q: int| 0 <= q < m.len() && #[trigger] m[q].date@ == d;
                        assert(r[q] == m[q]);
                    }
                    assert forall|x: WallpaperEntry| m.contains(x) implies #[trigger] r.contains(x) by {
                        let q = m.index_of(x);
                        assert(r[q] == m[q]);
                    }
                    assert(r[m.len() as int] == e);
                },
            }
        },
    }
}

proof fn lemma_merge_prefix(f: Seq<WallpaperEntry>, p: Seq<WallpaperEntry>, n: int)
    requires
        0 <= n <= p.len(),
        unique_days(f),
    ensures
        unique_days(merge_prefix(f, p, n)),
        drawn_from(merge_prefix(f, p, n), p, f),
        forall|d: (int, int, int)| has_day(f, d) ==> has_day(merge_prefix(f, p, n), d),
    decreases n,
{
    if n > 0 {
        lemma_merge_prefix(f, p, n - 1);
        assert(p.contains(p[n - 1]));
        lemma_merge_one(merge_prefix(f, p, n - 1), p[n - 1], p, f);
    } else {
        assert forall|k: int| 0 <= k < f.len() implies p.contains(#[trigger] f[k]) || f.contains(f[k]) by {
            assert(f.contains(f[k]));
        }
    }
}

proof fn lemma_merge_keeps(f: Seq<WallpaperEntry>, p: Seq<WallpaperEntry>, i: int, n: int)
    requires
        0 <= i < n <= p.len(),
        unique_days(f),
        unique_days(p),
        image_key_of(p[i].url@) matches Some(k) ==> forall|x: WallpaperEntry|
            (p.contains(x) || f.contains(x)) && #[trigger] image_key_of(x.url@) == Some(k) ==> x.date@
                == p[i].date@,
    ensures
        merge_prefix(f, p, n).contains(p[i]),
    decreases n,
{
    let e = p[i];
    lemma_merge_prefix(f, p, n - 1);
    let m = merge_prefix(f, p, n - 1);
    assert(p.contains(p[n - 1]));
    lemma_merge_one(m, p[n - 1], p, f);
    if n - 1 == i {
        assert(image_key_of(e.url@) matches Some(k) ==> forall|q: int|
            0 <= q < m.len() && #[trigger] image_key_of(m[q].url@) == Some(k) ==> m[q].date@ == e.date@) by {
            if image_key_of(e.url@) is Some {
                assert forall|q: int| 0 <= q < m.len() && #[trigger] image_key_of(m[q].url@) == image_key_of(
                    e.url@,
                ) implies m[q].date@ == e.date@ by {
                    assert(p.contains(m[q]) || f.contains(m[q]));
                }
            }
        }
    } else {
        lemma_merge_keeps(f, p, i, n - 1);
        let x = p[n - 1];
        assert(e.date@ != x.date@);
        if image_key_of(e.url@) is Some && image_key_of(e.url@) == image_key_of(x.url@) {
            assert(p.contains(x));
            assert(x.date@ == e.date@);
        }
        assert(merge_one(m, x).contains(e));
    }
}

/// Entries of `r` in strictly decreasing order of day.
pub open spec fn strictly_newest_first(r: Seq<WallpaperEntry>) -> bool {
    forall|i: int, j: int| 0 <= i < j < r.len() ==> date_lt(#[trigger] r[j].date@, #[trigger] r[i].date@)
}

/// What merging Bing's recent list into the archive guarantees: one entry
/// per day, newest first; no day of the archive is lost; every entry comes
/// from one of the two lists; and a recent entry whose image no entry of
/// another day shows is kept (for its day, the recent record wins).
pub proof fn lemma_merged_list(primary: Seq<WallpaperEntry>, fallback: Seq<WallpaperEntry>, r: Seq<WallpaperEntry>)
    requires
        stable_newest_first(merged_unsorted(primary, fallback), r),
    ensures
        unique_days(r),
        strictly_newest_first(r),
        forall|d: (int, int, int)| has_day(fallback, d) ==> has_day(r, d),
        forall|k: int| 0 <= k < r.len() ==> primary.contains(#[trigger] r[k]) || fallback.contains(r[k]),
        forall|e: WallpaperEntry|
            #[trigger] first_of_each_day(primary).contains(e) && image_unshared(e, primary, fallback) ==> r.contains(e),
{
    let pf = first_of_each_day(primary);
    let ff = first_of_each_day(fallback);
    lemma_first_of_each_day(primary);
    lemma_first_of_each_day(fallback);
    let m = merged_unsorted(primary, fallback);
    lemma_merge_prefix(ff, pf, pf.len() as int);
    let w = choose|w: Seq<int>| stable_order_witness(m, r, w);
    assert(stable_order_witness(m, r, w));
    assert forall|j: int| #![trigger m[j]] 0 <= j < m.len() implies exists|k: int| 0 <= k < w.len() && #[trigger] w[k] == j by {
        lemma_positions_cover(w, j);
    }
    assert forall|i: int, j: int| 0 <= i < j < r.len() implies #[trigger] r[i].date@ != #[trigger] r[j].date@ by {
        assert(r[i] == m[w[i]] && r[j] == m[w[j]]);
        assert(w[i] != w[j]);
        if w[i] < w[j] {
            assert(m[w[i]].date@ != m[w[j]].date@);
        } else {
            assert(m[w[j]].date@ != m[w[i]].date@);
        }
    }
    assert forall|i: int, j: int| 0 <= i < j < r.len() implies date_lt(#[trigger] r[j].date@, #[trigger] r[i].date@) by {
        assert(date_le(r[j].date@, r[i].date@));
        assert(r[i].date@ != r[j].date@);
    }
    assert forall|d: (int, int, int)| has_day(fallback, d) implies has_day(r, d) by {
        assert(has_day(ff, d));
        assert(has_day(m, d));
        let j = choose|j: int| 0 <= j < m.len() && #[trigger] m[j].date@ == d;
        let k = choose|k: int| 0 <= k < w.len() && #[trigger] w[k] == j;
        assert(r[k] == m[j]);
    }
    assert forall|k: int| 0 <= k < r.len() implies primary.contains(#[trigger] r[k]) || fallback.contains(r[k]) by {
        let x = r[k];
        assert(x == m[w[k]]);
        assert(pf.contains(x) || ff.contains(x));
        if pf.contains(x) {
            let q = pf.index_of(x);
            let j = choose|j: int| 0 <= j < primary.len() && primary[j] == #[trigger] pf[q] && !day_seen_before(primary, j);
            assert(primary[j] == x);
        } else {
            let q = ff.index_of(x);
            let j = choose|j: int| 0 <= j < fallback.len() && fallback[j] == #[trigger] ff[q] && !day_seen_before(fallback, j);
            assert(fallback[j] == x);
        }
    }
    assert forall|e: WallpaperEntry|
        #[trigger] pf.contains(e) && image_unshared(e, primary, fallback) implies r.contains(e) by {
        let i = pf.index_of(e);
        assert(pf[i] == e);
        lemma_merge_keeps(ff, pf, i, pf.len() as int);
        let j = m.index_of(e);
        assert(m[j] == e);
        let k = choose|k: int| 0 <= k < w.len() && #[trigger] w[k] == j;
        assert(r[k] == e);
    }
}

/// A downloaded archive identical to a non-empty local history covers it.
pub proof fn lemma_same_archive_covers(s: Seq<WallpaperEntry>)
    requires
        s.len() <= usize::MAX,
    ensures
        s.len() > 0 ==> covers_seed(s, s),
{
    if s.len() > 0 {
        let i = choose_oldest(s);
        assert(no_later_than_all(s[i].date@, s));
        assert(reaches_back(s, s));
        assert(s.len() * 10 >= s.len() * 9);
    }
}

proof fn lemma_oldest(s: Seq<WallpaperEntry>, n: int) -> (i: int)
    requires
        0 < n <= s.len(),
    ensures
        0 <= i < n,
        forall|k: int| 0 <= k < n ==> date_le(s[i].date@, #[trigger] s[k].date@),
    decreases n,
{
    if n == 1 {
        0
    } else {
        let j = lemma_oldest(s, n - 1);
        if date_lt(s[n - 1].date@, s[j].date@) {
            n - 1
        } else {
            j
        }
    }
}

proof fn choose_oldest(s: Seq<WallpaperEntry>) -> (i: int)
    requires
        s.len() > 0,
    ensures
        0 <= i < s.len(),
        no_later_than_all(s[i].date@, s),
{
    lemma_oldest(s, s.len() as int)
}

/// A list never brings a day newer than its own newest day.
pub proof fn lemma_nothing_new_in_same_list(s: Seq<WallpaperEntry>)
    ensures
        !brings_newer_day(s, s),
{
    if brings_newer_day(s, s) {
        let i = choose|i: int| 0 <= i < s.len() && later_than_all(s, #[trigger] s[i].date@);
        assert(date_lt(s[i].date@, s[i].date@));
    }
}


/// Largest archive or list reply that is read, in bytes.
pub const MAX_REMOTE_JSON_BYTES: u64 = 33554432;

/// Whether a downloaded reply of `len` bytes is small enough to be read.
pub fn reply_size_ok(len: u64) -> (r: bool)
    ensures
        r == (len <= MAX_REMOTE_JSON_BYTES),
{
    len <= MAX_REMOTE_JSON_BYTES
}

/// Whether a freshly downloaded list brings a new day: compared with the
/// cached list when there is one; always when there is none.
pub fn is_new_list(cached: &Option<Vec<WallpaperEntry>>, fetched: &Vec<WallpaperEntry>) -> (r: bool)
    ensures
        match cached {
            Some(c) => r == brings_newer_day(c@, fetched@),
            None => r,
        },
{
    match cached {
        Some(c) => has_new_entry(c, fetched),
        None => true,
    }
}

/// A downloaded archive never covers a local history that it holds fewer
/// than nine tenths as many entries of, nor one that has a day older than
/// every day of the archive.
pub proof fn lemma_short_or_late_archive_does_not_cover(archive: Seq<WallpaperEntry>, seed: Seq<WallpaperEntry>)
    requires
        seed.len() * 9 <= usize::MAX,
    ensures
        archive.len() * 10 < seed.len() * 9 ==> !covers_seed(archive, seed),
        (exists|j: int|
            0 <= j < seed.len() && forall|k: int|
                0 <= k < archive.len() ==> date_lt(#[trigger] seed[j].date@, #[trigger] archive[k].date@))
            ==> !covers_seed(archive, seed),
{
    if exists|j: int|
        0 <= j < seed.len() && forall|k: int|
            0 <= k < archive.len() ==> date_lt(#[trigger] seed[j].date@, #[trigger] archive[k].date@) {
        let j = choose|j: int|
            0 <= j < seed.len() && forall|k: int|
                0 <= k < archive.len() ==> date_lt(#[trigger] seed[j].date@, #[trigger] archive[k].date@);
        if reaches_back(archive, seed) {
            let i = choose|i: int| 0 <= i < archive.len() && no_later_than_all(#[trigger] archive[i].date@, seed);
            assert(date_le(archive[i].date@, seed[j].date@));
            assert(date_lt(seed[j].date@, archive[i].date@));
        }
    }
}

} // verus!
