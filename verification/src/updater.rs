//! Release checks: version numbers, release asset names and addresses, the
//! release record offered to the user, the sanity check of a downloaded
//! update, and the batch script that swaps the executable and restarts.
use vstd::prelude::*;
use crate::text::{
    chars_of, has_prefix, has_suffix, push_all, push_decimal, push_seq, replace_all,
    replace_all_chars, slice_chars, starts_with, ends_with, string_of, str_eq, trim, trim_chars,
    decimal,
};

verus! {

/// Version of this program.
pub const CURRENT_VERSION: &'static str = "0.2.32";

/// Project page on GitHub.
pub const REPO_HTML_URL: &'static str = "https://github.com/pandaligx/bing-wallpaper-lib";

/// GitHub API for the latest release.
pub const RELEASES_API_URL: &'static str =
    "https://api.github.com/repos/pandaligx/bing-wallpaper-lib/releases/latest";

/// Project page on Gitee.
pub const GITEE_REPO_HTML_URL: &'static str = "https://gitee.com/pandaligx/bing-wallpaper-lib";

/// Gitee API for the latest release.
pub const GITEE_RELEASES_API_URL: &'static str =
    "https://gitee.com/api/v5/repos/pandaligx/bing-wallpaper-lib/releases/latest";

/// Gitee API root of the project's releases.
pub const GITEE_RELEASES_API_ROOT: &'static str =
    "https://gitee.com/api/v5/repos/pandaligx/bing-wallpaper-lib/releases/";

/// Largest release API reply that is read, in bytes.
pub const MAX_RELEASE_API_BYTES: u64 = 2097152;

/// Smallest plausible size of a downloaded update, in bytes.
pub const MIN_UPDATE_BYTES: u64 = 1048576;

pub open spec fn is_digit(c: char) -> bool {
    '0' <= c <= '9'
}

/// Value of a string of decimal digits.
pub open spec fn digits_val(s: Seq<char>) -> nat
    decreases s.len(),
{
    if s.len() == 0 {
        0
    } else {
        digits_val(s.drop_last()) * 10 + ((s.last() as int - '0' as int) as nat)
    }
}

pub open spec fn all_digits(s: Seq<char>) -> bool {
    forall|i: int| 0 <= i < s.len() ==> is_digit(#[trigger] s[i])
}

/// What `str::parse::<u64>` gives: an optional `+`, then one or more ASCII
/// digits whose value fits in 64 bits.
pub open spec fn u64_from_text(s: Seq<char>) -> Option<u64> {
    let d = if s.len() > 0 && s[0] == '+' {
        s.drop_first()
    } else {
        s
    };
    if d.len() == 0 || !all_digits(d) || digits_val(d) > u64::MAX {
        None
    } else {
        Some(digits_val(d) as u64)
    }
}

proof fn lemma_digits_val_grows(s: Seq<char>, k: int)
    requires
        0 <= k <= s.len(),
        all_digits(s),
    ensures
        digits_val(s.take(k)) <= digits_val(s),
    decreases s.len() - k,
{
    if k < s.len() {
        lemma_digits_val_grows(s, k + 1);
        assert(s.take(k + 1).drop_last() =~= s.take(k));
        assert(is_digit(s[k]));
        assert(s.take(k + 1).last() == s[k]);
    } else {
        assert(s.take(k) =~= s);
    }
}

/// `str::parse::<u64>` on characters.
pub fn parse_u64(s: &Vec<char>) -> (r: Option<u64>)
    ensures
        r == u64_from_text(s@),
{
    let start: usize = if s.len() > 0 && s[0] == '+' {
        1
    } else {
        0
    };
    let ghost d = if s@.len() > 0 && s@[0] == '+' {
        s@.drop_first()
    } else {
        s@
    };
    assert(d =~= s@.subrange(start as int, s@.len() as int));
    if start >= s.len() {
        return None;
    }
    let mut k: usize = start;
    while k < s.len()
        invariant
            start <= k <= s@.len(),
            start < s@.len(),
            d == s@.subrange(start as int, s@.len() as int),
            d == (if s@.len() > 0 && s@[0] == '+' {
                s@.drop_first()
            } else {
                s@
            }),
            all_digits(d.take(k - start)),
        decreases s@.len() - k,
    {
        if !('0' <= s[k] && s[k] <= '9') {
            assert(d[k - start] == s@[k as int]);
            assert(!is_digit(d[k - start]));
            assert(!all_digits(d));
            return None;
        }
        assert(d.take(k + 1 - start).drop_last() =~= d.take(k - start));
        k = k + 1;
    }
    assert(d.take(d.len() as int) =~= d);
    let mut value: u64 = 0;
    let mut i: usize = start;
    while i < s.len()
        invariant
            start <= i <= s@.len(),
            start < s@.len(),
            d == s@.subrange(start as int, s@.len() as int),
            d == (if s@.len() > 0 && s@[0] == '+' {
                s@.drop_first()
            } else {
                s@
            }),
            all_digits(d),
            value == digits_val(d.take(i - start)),
        decreases s@.len() - i,
    {
        assert(d[i - start] == s@[i as int]);
        assert(is_digit(d[i - start]));
        let digit = (s[i] as u32 - '0' as u32) as u64;
        assert(d.take(i + 1 - start).last() == d[i - start]);
        assert(d.take(i + 1 - start).drop_last() =~= d.take(i - start));
        match value.checked_mul(10) {
            Some(t) => match t.checked_add(digit) {
                Some(v) => {
                    value = v;
                },
                None => {
                    proof {
                        lemma_digits_val_grows(d, i + 1 - start);
                    }
                    return None;
                },
            },
            None => {
                proof {
                    lemma_digits_val_grows(d, i + 1 - start);
                }
                return None;
            },
        }
        i = i + 1;
    }
    assert(d.take(d.len() as int) =~= d);
    Some(value)
}

/// `s` without its leading `v`s (`trim_start_matches('v')`).
pub open spec fn strip_v(s: Seq<char>) -> Seq<char>
    decreases s.len(),
{
    if s.len() > 0 && s[0] == 'v' {
        strip_v(s.drop_first())
    } else {
        s
    }
}

/// Position of the first `.` of `s` at or after `i`, or the length.
pub open spec fn dot_from(s: Seq<char>, i: int) -> int
    decreases s.len() - i,
{
    if i < 0 || i >= s.len() {
        s.len() as int
    } else if s[i] == '.' {
        i
    } else {
        dot_from(s, i + 1)
    }
}

/// The version numbers of a tag `v`, after trimming and removing leading
/// `v`s: the first three `.`-separated parts, a missing minor or patch part
/// counting as 0; `None` when a part present is not a number.
pub open spec fn version_of(text: Seq<char>) -> Option<(u64, u64, u64)> {
    let v = strip_v(trim(text));
    let e0 = dot_from(v, 0);
    let e1 = dot_from(v, e0 + 1);
    let major = u64_from_text(v.subrange(0, e0));
    let minor = if e0 >= v.len() {
        Some(0u64)
    } else {
        u64_from_text(v.subrange(e0 + 1, e1))
    };
    let patch = if e0 >= v.len() || e1 >= v.len() {
        Some(0u64)
    } else {
        u64_from_text(v.subrange(e1 + 1, dot_from(v, e1 + 1)))
    };
    match (major, minor, patch) {
        (Some(a), Some(b), Some(c)) => Some((a, b, c)),
        _ => None,
    }
}

proof fn lemma_dot_from(s: Seq<char>, i: int)
    requires
        0 <= i <= s.len(),
    ensures
        i <= dot_from(s, i) <= s.len(),
        dot_from(s, i) < s.len() ==> s[dot_from(s, i)] == '.',
    decreases s.len() - i,
{
    if i < s.len() && s[i] != '.' {
        lemma_dot_from(s, i + 1);
    }
}

fn next_dot(v: &Vec<char>, from: usize) -> (r: usize)
    requires
        from <= v@.len(),
    ensures
        r == dot_from(v@, from as int),
        from <= r <= v@.len(),
{
    proof {
        lemma_dot_from(v@, from as int);
    }
    let mut i = from;
    while i < v.len() && v[i] != '.'
        invariant
            from <= i <= v@.len(),
            dot_from(v@, from as int) == dot_from(v@, i as int),
        decreases v@.len() - i,
    {
        i = i + 1;
    }
    i
}

/// `parse_version`: `(major, minor, patch)` of a tag such as `v1.2.3`,
/// `2.0.0` or `v0.1`.
pub fn parse_version(text: &str) -> (r: Option<(u64, u64, u64)>)
    ensures
        r == version_of(text@),
{
    let t = trim_chars(&chars_of(text));
    assert(t@.subrange(0, t@.len() as int) =~= t@);
    let mut i: usize = 0;
    while i < t.len() && t[i] == 'v'
        invariant
            0 <= i <= t@.len(),
            strip_v(t@) == strip_v(t@.subrange(i as int, t@.len() as int)),
        decreases t@.len() - i,
    {
        assert(t@.subrange(i as int, t@.len() as int).drop_first() =~= t@.subrange(
            i + 1,
            t@.len() as int,
        ));
        i = i + 1;
    }
    let v = slice_chars(&t, i, t.len());
    assert(strip_v(v@) == v@);
    let e0 = next_dot(&v, 0);
    let major = match parse_u64(&slice_chars(&v, 0, e0)) {
        Some(x) => x,
        None => return None,
    };
    if e0 >= v.len() {
        return Some((major, 0, 0));
    }
    let e1 = next_dot(&v, e0 + 1);
    let minor = match parse_u64(&slice_chars(&v, e0 + 1, e1)) {
        Some(x) => x,
        None => return None,
    };
    if e1 >= v.len() {
        return Some((major, minor, 0));
    }
    let e2 = next_dot(&v, e1 + 1);
    let patch = match parse_u64(&slice_chars(&v, e1 + 1, e2)) {
        Some(x) => x,
        None => return None,
    };
    Some((major, minor, patch))
}

/// Lexicographic order of version triples.
pub open spec fn version_lt(a: (u64, u64, u64), b: (u64, u64, u64)) -> bool {
    ||| a.0 < b.0
    ||| (a.0 == b.0 && a.1 < b.1)
    ||| (a.0 == b.0 && a.1 == b.1 && a.2 < b.2)
}

/// Both tags read and the first names a later version than the second.
pub open spec fn is_newer_version(latest: Seq<char>, current: Seq<char>) -> bool {
    match (version_of(latest), version_of(current)) {
        (Some(l), Some(c)) => version_lt(c, l),
        _ => false,
    }
}

/// Whether release tag `latest` is a later version than `current`; `false`
/// when either does not read.
pub fn is_newer_release(latest: &str, current: &str) -> (r: bool)
    ensures
        r == is_newer_version(latest@, current@),
{
    match (parse_version(latest), parse_version(current)) {
        (Some(l), Some(c)) => c.0 < l.0 || (c.0 == l.0 && c.1 < l.1) || (c.0 == l.0 && c.1 == l.1
            && c.2 < l.2),
        _ => false,
    }
}

pub open spec fn is_name_char(c: char) -> bool {
    ('0' <= c <= '9') || ('a' <= c <= 'z') || ('A' <= c <= 'Z') || c == '.' || c == '-'
}

/// Release executable names: `bing-wallpaper-lib-v…-x64.exe` made of ASCII
/// letters, digits, `.` and `-`.
pub open spec fn is_release_executable(name: Seq<char>) -> bool {
    &&& has_prefix(name, "bing-wallpaper-lib-v"@)
    &&& has_suffix(name, "-x64.exe"@)
    &&& forall|i: int| 0 <= i < name.len() ==> is_name_char(#[trigger] name[i])
}

/// `is_release_executable_name`.
pub fn is_release_executable_name(name: &str) -> (r: bool)
    ensures
        r == is_release_executable(name@),
{
    let n = chars_of(name);
    if !starts_with(&n, "bing-wallpaper-lib-v") || !ends_with(&n, "-x64.exe") {
        return false;
    }
    let mut i: usize = 0;
    while i < n.len()
        invariant
            0 <= i <= n@.len(),
            n@ == name@,
            has_prefix(name@, "bing-wallpaper-lib-v"@),
            has_suffix(name@, "-x64.exe"@),
            forall|j: int| 0 <= j < i ==> is_name_char(#[trigger] n@[j]),
        decreases n@.len() - i,
    {
        let c = n[i];
        if !(('0' <= c && c <= '9') || ('a' <= c && c <= 'z') || ('A' <= c && c <= 'Z') || c == '.'
            || c == '-') {
            assert(!is_name_char(n@[i as int]));
            return false;
        }
        i = i + 1;
    }
    true
}

pub open spec fn github_download_url_of(tag: Seq<char>, asset_name: Seq<char>) -> Seq<char> {
    REPO_HTML_URL@ + "/releases/download/"@ + tag + "/"@ + asset_name
}

/// Download address of a GitHub release asset.
pub fn github_release_download_url(tag: &str, asset_name: &str) -> (r: String)
    ensures
        r@ == github_download_url_of(tag@, asset_name@),
{
    let mut out: Vec<char> = Vec::new();
    push_all(&mut out, REPO_HTML_URL);
    push_all(&mut out, "/releases/download/");
    push_all(&mut out, tag);
    push_all(&mut out, "/");
    push_all(&mut out, asset_name);
    string_of(out.as_slice())
}

pub open spec fn gitee_html_url_of(tag: Seq<char>) -> Seq<char> {
    GITEE_REPO_HTML_URL@ + "/releases/tag/"@ + tag
}

/// Web page of a Gitee release.
pub fn gitee_release_html_url(tag: &str) -> (r: String)
    ensures
        r@ == gitee_html_url_of(tag@),
{
    let mut out: Vec<char> = Vec::new();
    push_all(&mut out, GITEE_REPO_HTML_URL);
    push_all(&mut out, "/releases/tag/");
    push_all(&mut out, tag);
    string_of(out.as_slice())
}

pub open spec fn gitee_by_tag_url_of(tag: Seq<char>) -> Seq<char> {
    GITEE_RELEASES_API_ROOT@ + "tags/"@ + tag
}

/// Gitee API address of the release with tag `tag`.
pub fn gitee_release_by_tag_api_url(tag: &str) -> (r: String)
    ensures
        r@ == gitee_by_tag_url_of(tag@),
{
    let mut out: Vec<char> = Vec::new();
    push_all(&mut out, GITEE_RELEASES_API_ROOT);
    push_all(&mut out, "tags/");
    push_all(&mut out, tag);
    string_of(out.as_slice())
}

pub open spec fn gitee_assets_url_of(release_id: u64) -> Seq<char> {
    GITEE_RELEASES_API_ROOT@ + decimal(release_id as nat) + "/attach_files?per_page=100"@
}

/// Gitee API address of the files attached to release `release_id`.
pub fn gitee_release_assets_api_url(release_id: u64) -> (r: String)
    ensures
        r@ == gitee_assets_url_of(release_id),
{
    let mut out: Vec<char> = Vec::new();
    push_all(&mut out, GITEE_RELEASES_API_ROOT);
    push_decimal(&mut out, release_id);
    push_all(&mut out, "/attach_files?per_page=100");
    string_of(out.as_slice())
}

/// A newer release offered to the user.
#[derive(Debug)]
pub struct ReleaseInfo {
    /// Version without the leading `v`, such as `0.2.0`.
    pub version: String,
    /// Web page of the release.
    pub html_url: String,
    /// Executable to download first.
    pub download_url: String,
    /// Executable to download when the first address fails.
    pub fallback_download_url: Option<String>,
    /// File name of the executable.
    pub asset_name: String,
}

impl Clone for ReleaseInfo {
    fn clone(&self) -> (r: Self)
        ensures
            r == *self,
    {
        ReleaseInfo {
            version: self.version.clone(),
            html_url: self.html_url.clone(),
            download_url: self.download_url.clone(),
            fallback_download_url: match &self.fallback_download_url {
                Some(u) => Some(u.clone()),
                None => None,
            },
            asset_name: self.asset_name.clone(),
        }
    }
}

fn strip_leading_v(tag: &str) -> (r: String)
    ensures
        r@ == strip_v(tag@),
{
    let t = chars_of(tag);
    assert(t@.subrange(0, t@.len() as int) =~= t@);
    let mut i: usize = 0;
    while i < t.len() && t[i] == 'v'
        invariant
            0 <= i <= t@.len(),
            strip_v(t@) == strip_v(t@.subrange(i as int, t@.len() as int)),
        decreases t@.len() - i,
    {
        assert(t@.subrange(i as int, t@.len() as int).drop_first() =~= t@.subrange(
            i + 1,
            t@.len() as int,
        ));
        i = i + 1;
    }
    let rest = slice_chars(&t, i, t.len());
    assert(strip_v(rest@) == rest@);
    string_of(rest.as_slice())
}

/// The offer for a newer Gitee release with tag `tag` whose executable
/// `asset_name` is at `asset_url`: downloaded from Gitee, with the GitHub
/// address as fallback when it differs.
pub fn gitee_release_info(tag: &str, asset_name: &str, asset_url: &str) -> (r: ReleaseInfo)
    ensures
        r.version@ == strip_v(tag@),
        r.html_url@ == gitee_html_url_of(tag@),
        r.download_url@ == asset_url@,
        r.asset_name@ == asset_name@,
        match r.fallback_download_url {
            Some(f) => f@ == github_download_url_of(tag@, asset_name@) && f@ != asset_url@,
            None => asset_url@ == github_download_url_of(tag@, asset_name@),
        },
{
    let github = github_release_download_url(tag, asset_name);
    let same = str_eq(asset_url, github.as_str());
    let mut download_url = String::new();
    crate::text::push_str(&mut download_url, asset_url);
    let mut name = String::new();
    crate::text::push_str(&mut name, asset_name);
    ReleaseInfo {
        version: strip_leading_v(tag),
        html_url: gitee_release_html_url(tag),
        download_url,
        fallback_download_url: if same {
            None
        } else {
            Some(github)
        },
        asset_name: name,
    }
}

/// The offer for a newer GitHub release: downloaded from Gitee when the
/// same file is attached there (`gitee_url`), else from GitHub; the GitHub
/// address is the fallback when it is not the first choice.
pub fn github_release_info(
    tag: &str,
    html_url: &str,
    asset_name: &str,
    github_url: &str,
    gitee_url: Option<&str>,
) -> (r: ReleaseInfo)
    ensures
        r.version@ == strip_v(tag@),
        r.html_url@ == html_url@,
        r.asset_name@ == asset_name@,
        r.download_url@ == match gitee_url {
            Some(g) => g@,
            None => github_url@,
        },
        match r.fallback_download_url {
            Some(f) => f@ == github_url@ && r.download_url@ != github_url@,
            None => r.download_url@ == github_url@,
        },
{
    let mut download_url = String::new();
    match gitee_url {
        Some(g) => crate::text::push_str(&mut download_url, g),
        None => crate::text::push_str(&mut download_url, github_url),
    }
    let same = str_eq(download_url.as_str(), github_url);
    let mut html = String::new();
    crate::text::push_str(&mut html, html_url);
    let mut name = String::new();
    crate::text::push_str(&mut name, asset_name);
    let mut github = String::new();
    crate::text::push_str(&mut github, github_url);
    ReleaseInfo {
        version: strip_leading_v(tag),
        html_url: html,
        download_url,
        fallback_download_url: if same {
            None
        } else {
            Some(github)
        },
        asset_name: name,
    }
}

/// An asset qualifies: a release executable, and the wanted name if one
/// is given.
pub open spec fn asset_wanted(name: Seq<char>, wanted: Option<Seq<char>>) -> bool {
    is_release_executable(name) && match wanted {
        Some(w) => name == w,
        None => true,
    }
}

/// Position of the first asset name that qualifies.
pub fn find_release_asset(names: &Vec<String>, wanted: Option<&str>) -> (r: Option<usize>)
    ensures
        match r {
            Some(i) => i < names@.len() && asset_wanted(names@[i as int]@, opt_str(wanted))
                && forall|j: int|
                0 <= j < i ==> !asset_wanted(#[trigger] names@[j]@, opt_str(wanted)),
            None => forall|j: int|
                0 <= j < names@.len() ==> !asset_wanted(#[trigger] names@[j]@, opt_str(wanted)),
        },
{
    let mut i: usize = 0;
    while i < names.len()
        invariant
            0 <= i <= names@.len(),
            forall|j: int| 0 <= j < i ==> !asset_wanted(#[trigger] names@[j]@, opt_str(wanted)),
        decreases names@.len() - i,
    {
        let n = names[i].as_str();
        let ok = is_release_executable_name(n) && match wanted {
            Some(w) => str_eq(n, w),
            None => true,
        };
        if ok {
            return Some(i);
        }
        i = i + 1;
    }
    None
}

pub open spec fn opt_str(s: Option<&str>) -> Option<Seq<char>> {
    match s {
        Some(x) => Some(x@),
        None => None,
    }
}

/// Why a downloaded update is refused.
#[derive(Clone, Copy, Debug, PartialEq, Eq, Structural)]
pub enum UpdateFileError {
    /// Not a file, or smaller than `MIN_UPDATE_BYTES`.
    BadSize,
    /// Does not start with the `MZ` executable header.
    NotExecutable,
}

/// Checks a downloaded update: it must be a file of at least
/// `MIN_UPDATE_BYTES` bytes that starts with `MZ`.
pub fn check_update_file(is_file: bool, len: u64, header: &[u8]) -> (r: Result<(), UpdateFileError>)
    ensures
        !is_file || len < MIN_UPDATE_BYTES ==> r == Err::<(), UpdateFileError>(
            UpdateFileError::BadSize,
        ),
        is_file && len >= MIN_UPDATE_BYTES ==> (r is Ok <==> (header@.len() >= 2 && header@[0]
            == 77u8 && header@[1] == 90u8)),
        is_file && len >= MIN_UPDATE_BYTES && r is Err ==> r == Err::<(), UpdateFileError>(
            UpdateFileError::NotExecutable,
        ),
{
    if !is_file || len < MIN_UPDATE_BYTES {
        return Err(UpdateFileError::BadSize);
    }
    if header.len() >= 2 && header[0] == 77u8 && header[1] == 90u8 {
        Ok(())
    } else {
        Err(UpdateFileError::NotExecutable)
    }
}

/// A path as batch files need it: `%` doubled.
pub open spec fn batch_text(path: Seq<char>) -> Seq<char> {
    replace_all(path, "%"@, "%%"@)
}

/// `batch_path`.
pub fn batch_path(path: &str) -> (r: Vec<char>)
    ensures
        r@ == batch_text(path@),
{
    proof {
        reveal_strlit("%");
    }
    replace_all_chars(&chars_of(path), "%", "%%")
}

pub const SCRIPT_HEAD: &'static str =
    "@echo off\r\nchcp 65001 >nul\r\nping -n 4 127.0.0.1 >nul\r\nset /a n=0\r\n:retry\r\ncopy /Y \"";

pub const SCRIPT_BETWEEN: &'static str = "\" \"";

pub const SCRIPT_RETRY: &'static str =
    "\" >nul 2>&1\r\nif not errorlevel 1 goto done\r\nset /a n+=1\r\nif %n% GEQ 15 goto failed\r\nping -n 2 127.0.0.1 >nul\r\ngoto retry\r\n:done\r\nstart \"\" \"";

pub const SCRIPT_IF_NOT: &'static str = "\"\r\nif /I not \"";

pub const SCRIPT_EQUALS: &'static str = "\"==\"";

pub const SCRIPT_DEL: &'static str = "\" del \"";

pub const SCRIPT_NEXT_IF_NOT: &'static str = "\" >nul 2>&1\r\nif /I not \"";

pub const SCRIPT_FAILED: &'static str =
    "\" >nul 2>&1\r\ngoto cleanup\r\n:failed\r\nstart \"\" \"";

pub const SCRIPT_TAIL: &'static str = "\"\r\n:cleanup\r\ndel \"%~f0\" >nul 2>&1\r\n";

/// The update script: after a pause it copies the new executable over the
/// final path (retrying up to 15 times), starts it, deletes the old and
/// the downloaded files when they differ from it, and on failure starts
/// the old executable again; finally it deletes itself.
pub open spec fn relaunch_script_of(new_exe: Seq<char>, old_exe: Seq<char>, final_exe: Seq<char>) -> Seq<
    char,
> {
    let n = batch_text(new_exe);
    let o = batch_text(old_exe);
    let f = batch_text(final_exe);
    SCRIPT_HEAD@ + n + SCRIPT_BETWEEN@ + f + SCRIPT_RETRY@ + f + SCRIPT_IF_NOT@ + o + SCRIPT_EQUALS@
        + f + SCRIPT_DEL@ + o + SCRIPT_NEXT_IF_NOT@ + n + SCRIPT_EQUALS@ + f + SCRIPT_DEL@ + n
        + SCRIPT_FAILED@ + o + SCRIPT_TAIL@
}

/// `build_relaunch_script`.
pub fn build_relaunch_script(new_exe: &str, old_exe: &str, final_exe: &str) -> (r: String)
    ensures
        r@ == relaunch_script_of(new_exe@, old_exe@, final_exe@),
{
    let n = batch_path(new_exe);
    let o = batch_path(old_exe);
    let f = batch_path(final_exe);
    let mut out: Vec<char> = Vec::new();
    push_all(&mut out, SCRIPT_HEAD);
    push_seq(&mut out, &n);
    push_all(&mut out, SCRIPT_BETWEEN);
    push_seq(&mut out, &f);
    push_all(&mut out, SCRIPT_RETRY);
    push_seq(&mut out, &f);
    push_all(&mut out, SCRIPT_IF_NOT);
    push_seq(&mut out, &o);
    push_all(&mut out, SCRIPT_EQUALS);
    push_seq(&mut out, &f);
    push_all(&mut out, SCRIPT_DEL);
    push_seq(&mut out, &o);
    push_all(&mut out, SCRIPT_NEXT_IF_NOT);
    push_seq(&mut out, &n);
    push_all(&mut out, SCRIPT_EQUALS);
    push_seq(&mut out, &f);
    push_all(&mut out, SCRIPT_DEL);
    push_seq(&mut out, &n);
    push_all(&mut out, SCRIPT_FAILED);
    push_seq(&mut out, &o);
    push_all(&mut out, SCRIPT_TAIL);
    string_of(out.as_slice())
}


/// "Is a newer release" is a strict order: never true of a tag and itself,
/// never true both ways, and transitive.
pub proof fn lemma_newer_is_strict_order(a: Seq<char>, b: Seq<char>, c: Seq<char>)
    ensures
        !is_newer_version(a, a),
        is_newer_version(a, b) ==> !is_newer_version(b, a),
        is_newer_version(a, b) && is_newer_version(b, c) ==> is_newer_version(a, c),
{
}

/// Tags that read as the same version are never newer than each other.
pub proof fn lemma_same_version_not_newer(a: Seq<char>, b: Seq<char>)
    requires
        version_of(a) == version_of(b),
    ensures
        !is_newer_version(a, b),
{
}

/// Release tags compare by major, then minor, then patch number: a higher
/// major is newer whatever the other numbers; with equal majors a higher
/// minor is newer whatever the patch numbers; with equal majors and minors
/// the higher patch is newer. A tag that does not read is never newer, nor
/// is anything newer than it.
pub proof fn lemma_newer_release_compares_major_minor_patch(latest: Seq<char>, current: Seq<char>)
    ensures
        version_of(latest) is None ==> !is_newer_version(latest, current),
        version_of(current) is None ==> !is_newer_version(latest, current),
        version_of(latest) matches Some(l) ==> (version_of(current) matches Some(c) ==> {
            &&& l.0 > c.0 ==> is_newer_version(latest, current)
            &&& l.0 < c.0 ==> !is_newer_version(latest, current)
            &&& l.0 == c.0 && l.1 > c.1 ==> is_newer_version(latest, current)
            &&& l.0 == c.0 && l.1 < c.1 ==> !is_newer_version(latest, current)
            &&& l.0 == c.0 && l.1 == c.1 ==> (is_newer_version(latest, current) <==> l.2 > c.2)
        }),
{
}

} // verus!
