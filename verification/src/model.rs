//! Wallpaper records and the names, headings and addresses derived from them.
use vstd::prelude::*;
use crate::date::{date_le, date_lt, iso_date_text, Date};
use crate::settings::DownloadResolution;
use crate::text::{
    chars_of, contains, contains_seq, decimal, find, first_match, int_text_padded, is_cc,
    is_control, is_whitespace, is_ws, lemma_first_match_from, push_all, push_int_padded,
    push_padded, push_seq, replace_all, replace_all_chars, same_position, slice_chars,
    string_of, trim, trim_bounds, trim_chars, trim_end, trim_end_len, trim_start, zero_pad,
};

verus! {

/// Longest title part (in characters) kept in a file name.
pub const MAX_TITLE_CHARS: usize = 120;

/// One Bing daily wallpaper.
#[derive(Debug, PartialEq, Eq)]
pub struct WallpaperEntry {
    /// Day the wallpaper was published for.
    pub date: Date,
    /// Bing's short headline, when the source has one.
    pub headline: Option<String>,
    /// Description with location and photographer credit.
    pub title: String,
    /// Full-resolution image address.
    pub url: String,
    /// Bing's search link for the image, when the source has one.
    pub copyright_link: Option<String>,
}

pub fn clone_opt_string(s: &Option<String>) -> (r: Option<String>)
    ensures
        r == *s,
{
    match s {
        Some(x) => Some(x.clone()),
        None => None,
    }
}

impl Clone for WallpaperEntry {
    fn clone(&self) -> (r: Self)
        ensures
            r == *self,
    {
        WallpaperEntry {
            date: self.date,
            headline: clone_opt_string(&self.headline),
            title: self.title.clone(),
            url: self.url.clone(),
            copyright_link: clone_opt_string(&self.copyright_link),
        }
    }
}

/// Characters that become a `_` separator in a file name: list separators,
/// characters Windows forbids in file names, dashes and brackets.
pub open spec fn is_name_separator(c: char) -> bool {
    ||| c == ',' || c == '，' || c == '、' || c == ';' || c == '；'
    ||| c == '|' || c == '｜' || c == '·' || c == '•'
    ||| c == '<' || c == '>' || c == ':' || c == '"' || c == '/' || c == '\\'
    ||| c == '?' || c == '*'
    ||| c == '-' || c == '–' || c == '—'
    ||| c == '(' || c == ')' || c == '（' || c == '）'
    ||| c == '[' || c == ']' || c == '【' || c == '】'
}

/// What a title character becomes in a file name.
pub open spec fn safe_char(c: char) -> char {
    if is_name_separator(c) || is_cc(c) {
        '_'
    } else {
        c
    }
}

/// Characters trimmed from both ends of the finished title part.
pub open spec fn is_edge_separator(c: char) -> bool {
    ||| c == '.' || c == ' ' || c == '_'
    ||| c == '-' || c == '–' || c == '—'
    ||| c == ',' || c == '，' || c == '、' || c == ';' || c == '；'
    ||| c == '|' || c == '｜'
    ||| c == '(' || c == ')' || c == '（' || c == '）'
    ||| c == '[' || c == ']' || c == '【' || c == '】'
}

fn is_name_separator_exec(c: char) -> (r: bool)
    ensures
        r == is_name_separator(c),
{
    c == ',' || c == '，' || c == '、' || c == ';' || c == '；' || c == '|' || c == '｜' || c
        == '·' || c == '•' || c == '<' || c == '>' || c == ':' || c == '"' || c == '/' || c
        == '\\' || c == '?' || c == '*' || c == '-' || c == '–' || c == '—' || c == '(' || c
        == ')' || c == '（' || c == '）' || c == '[' || c == ']' || c == '【' || c == '】'
}

fn is_edge_separator_exec(c: char) -> (r: bool)
    ensures
        r == is_edge_separator(c),
{
    c == '.' || c == ' ' || c == '_' || c == '-' || c == '–' || c == '—' || c == ',' || c
        == '，' || c == '、' || c == ';' || c == '；' || c == '|' || c == '｜' || c == '(' || c
        == ')' || c == '（' || c == '）' || c == '[' || c == ']' || c == '【' || c == '】'
}

/// The smaller of two optional positions.
pub open spec fn min_position(a: Option<int>, b: Option<int>) -> Option<int> {
    match (a, b) {
        (Some(x), Some(y)) => Some(
            if x <= y {
                x
            } else {
                y
            },
        ),
        (Some(x), None) => Some(x),
        (None, _) => b,
    }
}

/// Position where the photographer credit starts: the earliest occurrence
/// of `(©`, `（©`, `( ©`, `（ ©` or a bare `©`.
pub open spec fn credit_start(t: Seq<char>) -> Option<int> {
    min_position(
        first_match(t, "(©"@),
        min_position(
            first_match(t, "（©"@),
            min_position(
                first_match(t, "( ©"@),
                min_position(first_match(t, "（ ©"@), first_match(t, "©"@)),
            ),
        ),
    )
}

/// The title before the photographer credit (the whole title without one).
pub open spec fn before_credit(t: Seq<char>) -> Seq<char> {
    match credit_start(t) {
        Some(k) => t.subrange(0, k),
        None => t,
    }
}

/// The opening bracket matching a closing one.
pub open spec fn opening_bracket(c: char) -> Option<char> {
    if c == ')' {
        Some('(')
    } else if c == '）' {
        Some('（')
    } else if c == ']' {
        Some('[')
    } else if c == '】' {
        Some('【')
    } else {
        None
    }
}

/// Position of the last occurrence of `c` in `s` (`str::rfind`).
pub open spec fn last_index_of(s: Seq<char>, c: char) -> Option<int>
    decreases s.len(),
{
    if s.len() == 0 {
        None
    } else if s.last() == c {
        Some(s.len() - 1)
    } else {
        last_index_of(s.drop_last(), c)
    }
}

pub proof fn lemma_trim_end_shorter(s: Seq<char>)
    ensures
        trim_end(s).len() <= s.len(),
        trim_end(s) == s.subrange(0, trim_end(s).len() as int),
    decreases s.len(),
{
    if s.len() > 0 && is_ws(s.last()) {
        lemma_trim_end_shorter(s.drop_last());
        assert(s.drop_last().subrange(0, trim_end(s).len() as int) =~= s.subrange(
            0,
            trim_end(s).len() as int,
        ));
    } else {
        assert(s.subrange(0, s.len() as int) =~= s);
    }
}

pub proof fn lemma_last_index_of(s: Seq<char>, c: char)
    ensures
        match last_index_of(s, c) {
            Some(k) => 0 <= k < s.len() && s[k] == c && forall|j: int|
                k < j < s.len() ==> s[j] != c,
            None => forall|j: int| 0 <= j < s.len() ==> s[j] != c,
        },
    decreases s.len(),
{
    if s.len() > 0 && s.last() != c {
        let t = s.drop_last();
        lemma_last_index_of(t, c);
        assert forall|j: int| 0 <= j < t.len() implies t[j] == s[j] by {}
    }
}

/// Repeatedly removes a trailing bracket pair that holds only whitespace
/// (such as the `()` left when a credit in brackets has been cut off),
/// together with the whitespace before it.
pub open spec fn strip_empty_brackets(v: Seq<char>) -> Seq<char>
    decreases v.len(),
{
    let t = trim_end(v);
    if t.len() == 0 {
        t
    } else {
        match opening_bracket(t.last()) {
            None => t,
            Some(open) => {
                let b = t.drop_last();
                match last_index_of(b, open) {
                    None => t,
                    Some(k) => {
                        if 0 <= k < b.len() && trim(b.subrange(k + 1, b.len() as int)).len()
                            == 0 {
                            proof {
                                lemma_trim_end_shorter(v);
                            }
                            strip_empty_brackets(b.subrange(0, k))
                        } else {
                            t
                        }
                    },
                }
            },
        }
    }
}

/// `trim_empty_trailing_brackets`: trims `v`, then strips empty trailing
/// bracket pairs.
pub open spec fn without_empty_brackets(v: Seq<char>) -> Seq<char> {
    strip_empty_brackets(trim(v))
}

/// `s` without its trailing spaces.
pub open spec fn drop_trailing_spaces(s: Seq<char>) -> Seq<char>
    decreases s.len(),
{
    if s.len() > 0 && s.last() == ' ' {
        drop_trailing_spaces(s.drop_last())
    } else {
        s
    }
}

/// One character of the file-name pass: `acc` is the text so far and
/// `last_sep` tells whether it ends with a separator that was just written.
/// Separators become one `_` (never at the start, never doubled, with
/// spaces before them dropped); whitespace becomes one space; other
/// characters are kept.
pub open spec fn sanitize_step(acc: Seq<char>, last_sep: bool, c: char) -> (Seq<char>, bool) {
    let safe = safe_char(c);
    if safe == '_' {
        let r = drop_trailing_spaces(acc);
        if r.len() > 0 && !last_sep {
            (r.push('_'), true)
        } else {
            (r, last_sep)
        }
    } else if is_ws(safe) {
        if !(acc.len() > 0 && acc.last() == ' ') && !last_sep {
            (acc.push(' '), last_sep)
        } else {
            (acc, last_sep)
        }
    } else {
        (acc.push(safe), false)
    }
}

/// The file-name pass over `chars[i..]`, stopping as soon as the text
/// reaches `MAX_TITLE_CHARS` characters.
pub open spec fn sanitize_from(chars: Seq<char>, i: int, acc: Seq<char>, last_sep: bool) -> Seq<
    char,
>
    decreases chars.len() - i,
{
    if i < 0 || i >= chars.len() {
        acc
    } else {
        let (a, l) = sanitize_step(acc, last_sep, chars[i]);
        if a.len() >= MAX_TITLE_CHARS {
            a
        } else {
            sanitize_from(chars, i + 1, a, l)
        }
    }
}

/// `s` without leading separator characters.
pub open spec fn drop_edge_start(s: Seq<char>) -> Seq<char>
    decreases s.len(),
{
    if s.len() > 0 && is_edge_separator(s[0]) {
        drop_edge_start(s.drop_first())
    } else {
        s
    }
}

/// `s` without trailing separator characters.
pub open spec fn drop_edge_end(s: Seq<char>) -> Seq<char>
    decreases s.len(),
{
    if s.len() > 0 && is_edge_separator(s.last()) {
        drop_edge_end(s.drop_last())
    } else {
        s
    }
}

/// `trim_filename_separators`: trims whitespace, then separator characters,
/// from both ends.
pub open spec fn trim_edge_separators(s: Seq<char>) -> Seq<char> {
    drop_edge_end(drop_edge_start(trim(s)))
}

/// The title part of a wallpaper's file name: the title before the credit,
/// without empty trailing brackets, with separators unified to `_`,
/// limited in length and trimmed of separators at both ends.
pub open spec fn title_part(title: Seq<char>) -> Seq<char> {
    trim_edge_separators(
        sanitize_from(without_empty_brackets(trim(before_credit(title))), 0, seq![], false),
    )
}

/// File name for a wallpaper: `date_title.jpg`, or `date.jpg` when the
/// title part is empty.
pub open spec fn file_name_of(date: (int, int, int), title: Seq<char>) -> Seq<char> {
    let t = title_part(title);
    if t.len() == 0 {
        iso_date_text(date) + ".jpg"@
    } else {
        iso_date_text(date) + seq!['_'] + t + ".jpg"@
    }
}

/// Characters Windows refuses in file names, and control characters.
pub open spec fn forbidden_in_file_name(c: char) -> bool {
    ||| c == '<' || c == '>' || c == ':' || c == '"' || c == '/' || c == '\\'
    ||| c == '|' || c == '?' || c == '*'
    ||| is_cc(c)
}

/// No character of `s` is refused in a Windows file name.
pub open spec fn file_name_safe(s: Seq<char>) -> bool {
    forall|i: int| 0 <= i < s.len() ==> !forbidden_in_file_name(#[trigger] s[i])
}

proof fn lemma_safe_drop_first(s: Seq<char>)
    requires
        file_name_safe(s),
        s.len() > 0,
    ensures
        file_name_safe(s.drop_first()),
{
    assert forall|i: int| 0 <= i < s.drop_first().len() implies !forbidden_in_file_name(
        #[trigger] s.drop_first()[i],
    ) by {
        assert(s.drop_first()[i] == s[i + 1]);
    }
}

proof fn lemma_safe_drop_last(s: Seq<char>)
    requires
        file_name_safe(s),
        s.len() > 0,
    ensures
        file_name_safe(s.drop_last()),
{
    assert forall|i: int| 0 <= i < s.drop_last().len() implies !forbidden_in_file_name(
        #[trigger] s.drop_last()[i],
    ) by {
        assert(s.drop_last()[i] == s[i]);
    }
}

proof fn lemma_safe_trimmed(s: Seq<char>)
    requires
        file_name_safe(s),
    ensures
        file_name_safe(trim_start(s)),
        file_name_safe(trim_end(s)),
        file_name_safe(drop_edge_start(s)),
        file_name_safe(drop_edge_end(s)),
        file_name_safe(drop_trailing_spaces(s)),
        trim_start(s).len() <= s.len(),
        trim_end(s).len() <= s.len(),
        drop_edge_start(s).len() <= s.len(),
        drop_edge_end(s).len() <= s.len(),
        drop_trailing_spaces(s).len() <= s.len(),
    decreases s.len(),
{
    if s.len() > 0 {
        lemma_safe_drop_first(s);
        lemma_safe_drop_last(s);
        lemma_safe_trimmed(s.drop_first());
        lemma_safe_trimmed(s.drop_last());
    }
}

proof fn lemma_sanitize_safe(chars: Seq<char>, i: int, acc: Seq<char>, last_sep: bool)
    requires
        file_name_safe(acc),
        acc.len() < MAX_TITLE_CHARS,
    ensures
        file_name_safe(sanitize_from(chars, i, acc, last_sep)),
        sanitize_from(chars, i, acc, last_sep).len() <= MAX_TITLE_CHARS,
    decreases chars.len() - i,
{
    if 0 <= i < chars.len() {
        let c = chars[i];
        let (a, l) = sanitize_step(acc, last_sep, c);
        lemma_safe_trimmed(acc);
        let r = drop_trailing_spaces(acc);
        let safe = safe_char(c);
        assert(!forbidden_in_file_name('_'));
        assert(!forbidden_in_file_name(' '));
        if safe != '_' {
            assert(!forbidden_in_file_name(safe));
        }
        assert forall|k: int| 0 <= k < a.len() implies !forbidden_in_file_name(#[trigger] a[k]) by {
            if safe == '_' {
                if k < r.len() {
                    assert(a[k] == r[k]);
                }
            } else if is_ws(safe) {
                if k < acc.len() {
                    assert(a[k] == acc[k]);
                }
            } else {
                if k < acc.len() {
                    assert(a[k] == acc[k]);
                }
            }
        }
        assert(a.len() <= acc.len() + 1);
        if a.len() < MAX_TITLE_CHARS {
            lemma_sanitize_safe(chars, i + 1, a, l);
        }
    }
}

/// The title part of a file name holds no character Windows refuses in
/// file names, and at most `MAX_TITLE_CHARS` characters.
pub proof fn lemma_title_part_safe(title: Seq<char>)
    ensures
        file_name_safe(title_part(title)),
        title_part(title).len() <= MAX_TITLE_CHARS,
{
    let cleaned = without_empty_brackets(trim(before_credit(title)));
    let s = sanitize_from(cleaned, 0, seq![], false);
    lemma_sanitize_safe(cleaned, 0, seq![], false);
    lemma_safe_trimmed(s);
    lemma_safe_trimmed(trim_start(s));
    let t = trim(s);
    lemma_safe_trimmed(t);
    lemma_safe_trimmed(drop_edge_start(t));
}

fn earlier(a: Option<usize>, b: Option<usize>) -> (r: Option<usize>)
    ensures
        same_position(r, min_position(opt_int(a), opt_int(b))),
{
    match (a, b) {
        (Some(x), Some(y)) => Some(
            if x <= y {
                x
            } else {
                y
            },
        ),
        (Some(x), None) => Some(x),
        (None, _) => b,
    }
}

pub open spec fn opt_int(a: Option<usize>) -> Option<int> {
    match a {
        Some(x) => Some(x as int),
        None => None,
    }
}

proof fn lemma_same_position(r: Option<usize>, o: Option<int>)
    requires
        same_position(r, o),
    ensures
        opt_int(r) == o,
{
}

/// `copyright_prefix`: the title before the photographer credit.
pub fn copyright_prefix(title: &Vec<char>) -> (r: Vec<char>)
    ensures
        r@ == before_credit(title@),
{
    let a = find(title, &chars_of("(©"));
    let b = find(title, &chars_of("（©"));
    let c = find(title, &chars_of("( ©"));
    let d = find(title, &chars_of("（ ©"));
    let e = find(title, &chars_of("©"));
    proof {
        lemma_same_position(a, first_match(title@, "(©"@));
        lemma_same_position(b, first_match(title@, "（©"@));
        lemma_same_position(c, first_match(title@, "( ©"@));
        lemma_same_position(d, first_match(title@, "（ ©"@));
        lemma_same_position(e, first_match(title@, "©"@));
        lemma_first_match_from(title@, "(©"@, 0);
        lemma_first_match_from(title@, "（©"@, 0);
        lemma_first_match_from(title@, "( ©"@, 0);
        lemma_first_match_from(title@, "（ ©"@, 0);
        lemma_first_match_from(title@, "©"@, 0);
    }
    let de = earlier(d, e);
    let cde = earlier(c, de);
    let bcde = earlier(b, cde);
    let all = earlier(a, bcde);
    match all {
        Some(k) => slice_chars(title, 0, k),
        None => slice_chars(title, 0, title.len()),
    }
}

fn opening_bracket_exec(c: char) -> (r: Option<char>)
    ensures
        r == opening_bracket(c),
{
    if c == ')' {
        Some('(')
    } else if c == '）' {
        Some('（')
    } else if c == ']' {
        Some('[')
    } else if c == '】' {
        Some('【')
    } else {
        None
    }
}

/// `trailing_bracket_pair`: the bracket pair closed by the last character.
pub fn trailing_bracket_pair(value: &Vec<char>) -> (r: Option<(char, char)>)
    ensures
        value@.len() == 0 ==> r is None,
        value@.len() > 0 ==> match opening_bracket(value@.last()) {
            Some(o) => r == Some((o, value@.last())),
            None => r is None,
        },
{
    if value.len() == 0 {
        return None;
    }
    let last = value[value.len() - 1];
    match opening_bracket_exec(last) {
        Some(o) => Some((o, last)),
        None => None,
    }
}

fn rfind_char(s: &Vec<char>, end: usize, c: char) -> (r: Option<usize>)
    requires
        end <= s@.len(),
    ensures
        same_position(r, last_index_of(s@.subrange(0, end as int), c)),
{
    let mut k = end;
    while k > 0
        invariant
            k <= end <= s@.len(),
            last_index_of(s@.subrange(0, end as int), c) == last_index_of(
                s@.subrange(0, k as int),
                c,
            ),
        decreases k,
    {
        assert(s@.subrange(0, k as int).drop_last() =~= s@.subrange(0, k - 1));
        if s[k - 1] == c {
            return Some(k - 1);
        }
        k = k - 1;
    }
    None
}

/// `trim_empty_trailing_brackets`.
pub fn trim_empty_trailing_brackets(value: &Vec<char>) -> (r: Vec<char>)
    ensures
        r@ == without_empty_brackets(value@),
{
    let mut cur = trim_chars(value);
    loop
        invariant
            strip_empty_brackets(cur@) == without_empty_brackets(value@),
        decreases cur@.len(),
    {
        let hi = trim_end_len(&cur);
        let ghost t = trim_end(cur@);
        let trimmed = slice_chars(&cur, 0, hi);
        assert(trimmed@ =~= t);
        match trailing_bracket_pair(&trimmed) {
            None => {
                return trimmed;
            },
            Some((open, _close)) => {
                let blen = trimmed.len() - 1;
                let ghost b = t.drop_last();
                assert(trimmed@.subrange(0, blen as int) =~= b);
                match rfind_char(&trimmed, blen, open) {
                    None => {
                        return trimmed;
                    },
                    Some(k) => {
                        proof {
                            lemma_last_index_of(b, open);
                        }
                        let inner = slice_chars(&trimmed, k + 1, blen);
                        assert(inner@ =~= b.subrange(k + 1, b.len() as int));
                        let (ilo, ihi) = trim_bounds(&inner);
                        if ilo == ihi {
                            let next = slice_chars(&trimmed, 0, k);
                            assert(next@ =~= b.subrange(0, k as int));
                            cur = next;
                        } else {
                            return trimmed;
                        }
                    },
                }
            },
        }
    }
}

fn drop_trailing_spaces_exec(v: &mut Vec<char>)
    ensures
        final(v)@ == drop_trailing_spaces(old(v)@),
{
    while v.len() > 0 && v[v.len() - 1] == ' '
        invariant
            drop_trailing_spaces(v@) == drop_trailing_spaces(old(v)@),
        decreases v@.len(),
    {
        v.pop();
    }
}

/// The file-name pass of `filename_title_part` over `prefix`.
fn sanitize_title(prefix: &Vec<char>) -> (r: Vec<char>)
    ensures
        r@ == sanitize_from(prefix@, 0, seq![], false),
{
    let mut result: Vec<char> = Vec::new();
    let mut last_sep = false;
    let mut i: usize = 0;
    while i < prefix.len()
        invariant
            0 <= i <= prefix@.len(),
            sanitize_from(prefix@, 0, seq![], false) == sanitize_from(
                prefix@,
                i as int,
                result@,
                last_sep,
            ),
        decreases prefix@.len() - i,
    {
        let ch = prefix[i];
        let safe = if is_name_separator_exec(ch) || is_control(ch) {
            '_'
        } else {
            ch
        };
        let ghost step = sanitize_step(result@, last_sep, ch);
        if safe == '_' {
            drop_trailing_spaces_exec(&mut result);
            if result.len() > 0 && !last_sep {
                result.push('_');
                last_sep = true;
            }
        } else if is_whitespace(safe) {
            let ends_with_space = result.len() > 0 && result[result.len() - 1] == ' ';
            if !ends_with_space && !last_sep {
                result.push(' ');
            }
        } else {
            result.push(safe);
            last_sep = false;
        }
        assert(result@ == step.0 && last_sep == step.1);
        if result.len() >= MAX_TITLE_CHARS {
            return result;
        }
        i = i + 1;
    }
    result
}

proof fn lemma_drop_edge_start(s: Seq<char>, i: int)
    requires
        0 <= i <= s.len(),
        forall|j: int| 0 <= j < i ==> is_edge_separator(#[trigger] s[j]),
        i == s.len() || !is_edge_separator(s[i]),
    ensures
        drop_edge_start(s) == s.subrange(i, s.len() as int),
    decreases i,
{
    if i > 0 {
        let t = s.drop_first();
        assert forall|j: int| 0 <= j < i - 1 implies is_edge_separator(#[trigger] t[j]) by {
            assert(t[j] == s[j + 1]);
        }
        if i - 1 < t.len() {
            assert(t[i - 1] == s[i]);
        }
        assert(is_edge_separator(s[0]));
        lemma_drop_edge_start(t, i - 1);
        assert(t.subrange(i - 1, t.len() as int) =~= s.subrange(i, s.len() as int));
    } else {
        assert(s.subrange(0, s.len() as int) =~= s);
    }
}

proof fn lemma_drop_edge_end(s: Seq<char>, k: int)
    requires
        0 <= k <= s.len(),
        forall|j: int| k <= j < s.len() ==> is_edge_separator(#[trigger] s[j]),
        k == 0 || !is_edge_separator(s[k - 1]),
    ensures
        drop_edge_end(s) == s.subrange(0, k),
    decreases s.len() - k,
{
    if k < s.len() {
        let t = s.drop_last();
        assert forall|j: int| k <= j < t.len() implies is_edge_separator(#[trigger] t[j]) by {
            assert(t[j] == s[j]);
        }
        if k > 0 {
            assert(t[k - 1] == s[k - 1]);
        }
        assert(is_edge_separator(s.last()));
        lemma_drop_edge_end(t, k);
        assert(t.subrange(0, k) =~= s.subrange(0, k));
    } else {
        assert(s.subrange(0, k) =~= s);
    }
}

/// `trim_filename_separators`.
pub fn trim_filename_separators(value: &Vec<char>) -> (r: Vec<char>)
    ensures
        r@ == trim_edge_separators(value@),
{
    let v = trim_chars(value);
    let mut i: usize = 0;
    while i < v.len() && is_edge_separator_exec(v[i])
        invariant
            0 <= i <= v@.len(),
            forall|j: int| 0 <= j < i ==> is_edge_separator(#[trigger] v@[j]),
        decreases v@.len() - i,
    {
        i = i + 1;
    }
    proof {
        lemma_drop_edge_start(v@, i as int);
    }
    let mut k = v.len();
    while k > i && is_edge_separator_exec(v[k - 1])
        invariant
            i <= k <= v@.len(),
            forall|j: int| k <= j < v@.len() ==> is_edge_separator(#[trigger] v@[j]),
        decreases k,
    {
        k = k - 1;
    }
    proof {
        let t = v@.subrange(i as int, v@.len() as int);
        assert forall|j: int| k - i <= j < t.len() implies is_edge_separator(#[trigger] t[j]) by {
            assert(t[j] == v@[j + i]);
        }
        if k > i {
            assert(t[k - i - 1] == v@[k - 1]);
        }
        lemma_drop_edge_end(t, k - i);
        assert(t.subrange(0, k - i) =~= v@.subrange(i as int, k as int));
    }
    slice_chars(&v, i, k)
}

/// `filename_title_part`.
pub fn filename_title_part(title: &str) -> (r: Vec<char>)
    ensures
        r@ == title_part(title@),
{
    let chars = chars_of(title);
    let prefix = copyright_prefix(&chars);
    let trimmed = trim_chars(&prefix);
    let cleaned = trim_empty_trailing_brackets(&trimmed);
    let sanitized = sanitize_title(&cleaned);
    trim_filename_separators(&sanitized)
}

impl WallpaperEntry {
    /// Local file name, such as `2026-07-01_地牢省立公园_纽芬兰和拉布拉多省_加拿大.jpg`.
    pub fn file_name(&self) -> (r: String)
        ensures
            r@ == file_name_of(self.date@, self.title@),
    {
        let title = filename_title_part(self.title.as_str());
        let date_text = self.date.iso_text();
        let mut out = chars_of(date_text.as_str());
        if title.len() > 0 {
            out.push('_');
            push_seq(&mut out, &title);
        }
        push_all(&mut out, ".jpg");
        string_of(out.as_slice())
    }

    /// Address of the list thumbnail: modern addresses carry
    /// `w=3840&h=2160`, which becomes `w=320&h=180`; other addresses (older
    /// bare `.jpg` links) are returned unchanged.
    pub fn thumbnail_url(&self) -> (r: String)
        ensures
            r@ == thumbnail_url_of(self.url@),
    {
        let url = chars_of(self.url.as_str());
        proof {
            reveal_strlit("w=3840&h=2160");
        }
        if contains(&url, FULL_SIZE) {
            let replaced = replace_all_chars(&url, FULL_SIZE, THUMB_SIZE);
            string_of(replaced.as_slice())
        } else {
            string_of(url.as_slice())
        }
    }

    /// Address to download at the chosen resolution: `Original` drops the
    /// size parameters, `4K` keeps the stored address, `2K` and `1K` ask for
    /// the smaller size. Addresses without size parameters are returned
    /// unchanged.
    pub fn download_url(&self, resolution: DownloadResolution) -> (r: String)
        ensures
            r@ == download_url_of(self.url@, resolution),
    {
        let url = chars_of(self.url.as_str());
        proof {
            reveal_strlit("w=3840&h=2160");
            reveal_strlit("&w=3840&h=2160");
        }
        if !contains(&url, FULL_SIZE) {
            return string_of(url.as_slice());
        }
        let out = match resolution {
            DownloadResolution::Original => replace_all_chars(&url, FULL_SIZE_PARAMS, ""),
            DownloadResolution::FourK => url,
            DownloadResolution::TwoK => replace_all_chars(&url, FULL_SIZE, TWO_K_SIZE),
            DownloadResolution::OneK => replace_all_chars(&url, FULL_SIZE, ONE_K_SIZE),
        };
        string_of(out.as_slice())
    }

    /// Card heading: the date, then the headline when there is one, such as
    /// `2026-07-04 紫色花海`.
    pub fn date_heading(&self) -> (r: String)
        ensures
            r@ == date_heading_of(self.date@, opt_view(self.headline)),
    {
        let date_text = self.date.iso_text();
        let mut out = chars_of(date_text.as_str());
        match &self.headline {
            Some(h) => {
                out.push(' ');
                push_all(&mut out, h.as_str());
            },
            None => {},
        }
        string_of(out.as_slice())
    }
}

/// Size parameters of a full-resolution address.
pub const FULL_SIZE: &'static str = "w=3840&h=2160";

/// Size parameters of a list thumbnail.
pub const THUMB_SIZE: &'static str = "w=320&h=180";

/// Size parameters with their separator, dropped for the original image.
pub const FULL_SIZE_PARAMS: &'static str = "&w=3840&h=2160";

pub const TWO_K_SIZE: &'static str = "w=2560&h=1440";

pub const ONE_K_SIZE: &'static str = "w=1920&h=1080";

pub open spec fn thumbnail_url_of(url: Seq<char>) -> Seq<char> {
    if contains_seq(url, FULL_SIZE@) {
        replace_all(url, FULL_SIZE@, THUMB_SIZE@)
    } else {
        url
    }
}

pub open spec fn download_url_of(url: Seq<char>, resolution: DownloadResolution) -> Seq<char> {
    if !contains_seq(url, FULL_SIZE@) {
        url
    } else {
        match resolution {
            DownloadResolution::Original => replace_all(url, FULL_SIZE_PARAMS@, ""@),
            DownloadResolution::FourK => url,
            DownloadResolution::TwoK => replace_all(url, FULL_SIZE@, TWO_K_SIZE@),
            DownloadResolution::OneK => replace_all(url, FULL_SIZE@, ONE_K_SIZE@),
        }
    }
}

pub open spec fn opt_view(o: Option<String>) -> Option<Seq<char>> {
    match o {
        Some(s) => Some(s@),
        None => None,
    }
}

pub open spec fn date_heading_of(date: (int, int, int), headline: Option<Seq<char>>) -> Seq<char> {
    match headline {
        Some(h) => iso_date_text(date) + seq![' '] + h,
        None => iso_date_text(date),
    }
}

/// Entries ordered from newest to oldest.
pub open spec fn newest_first(s: Seq<WallpaperEntry>) -> bool {
    forall|i: int, j: int| 0 <= i < j < s.len() ==> date_le(s[j].date@, s[i].date@)
}

/// `p` is a rearrangement of the positions of `input` that lists `output`:
/// newest first, entries of the same day in their input order.
pub open spec fn stable_order_witness(
    input: Seq<WallpaperEntry>,
    output: Seq<WallpaperEntry>,
    p: Seq<int>,
) -> bool {
    &&& p.len() == input.len()
    &&& output.len() == input.len()
    &&& forall|k: int| 0 <= k < p.len() ==> 0 <= #[trigger] p[k] < input.len()
    &&& forall|k1: int, k2: int|
        0 <= k1 < k2 < p.len() ==> #[trigger] p[k1] != #[trigger] p[k2]
    &&& forall|k: int| 0 <= k < output.len() ==> #[trigger] output[k] == input[p[k]]
    &&& newest_first(output)
    &&& forall|k1: int, k2: int|
        0 <= k1 < k2 < p.len() && output[k1].date@ == output[k2].date@ ==> #[trigger] p[k1]
            < #[trigger] p[k2]
}

/// `output` is `input` sorted from newest to oldest, keeping entries of
/// the same day in their input order (a stable sort).
pub open spec fn stable_newest_first(input: Seq<WallpaperEntry>, output: Seq<WallpaperEntry>) -> bool {
    exists|p: Seq<int>| #[trigger] stable_order_witness(input, output, p)
}

/// `p.len()` distinct positions below `p.len()` include every position
/// below `p.len()`.
pub proof fn lemma_positions_cover(p: Seq<int>, b: int)
    requires
        forall|k: int| 0 <= k < p.len() ==> 0 <= #[trigger] p[k] < p.len(),
        forall|k1: int, k2: int| 0 <= k1 < k2 < p.len() ==> #[trigger] p[k1] != #[trigger] p[k2],
        0 <= b < p.len(),
    ensures
        exists|k: int| 0 <= k < p.len() && #[trigger] p[k] == b,
{
    let n = p.len() as int;
    let s = p.to_set();
    let full = Set::new(|x: int| 0 <= x < n);
    assert(p.no_duplicates()) by {
        assert forall|i: int, j: int| 0 <= i < p.len() && 0 <= j < p.len() && i != j implies p[i]
            != p[j] by {
            if i < j {
                assert(p[i] != p[j]);
            } else {
                assert(p[j] != p[i]);
            }
        }
    }
    p.unique_seq_to_set();
    assert(s.subset_of(full)) by {
        assert forall|x: int| s.contains(x) implies full.contains(x) by {
            let k = p.index_of(x);
            assert(p[k] == x);
        }
    }
    vstd::set_lib::lemma_int_range(0, n);
    assert(full =~= vstd::set_lib::set_int_range(0, n));
    if !s.contains(b) {
        assert(s.subset_of(full.remove(b)));
        vstd::set_lib::lemma_len_subset(s, full.remove(b));
        assert(false);
    }
    let k = p.index_of(b);
    assert(p[k] == b);
}

pub open spec fn order_ok(dates: Seq<Date>, order: Seq<usize>, n: int) -> bool {
    &&& order.len() == n
    &&& forall|k: int| 0 <= k < order.len() ==> #[trigger] order[k] < n
    &&& forall|k1: int, k2: int|
        0 <= k1 < k2 < order.len() ==> #[trigger] order[k1] != #[trigger] order[k2]
    &&& forall|k1: int, k2: int|
        0 <= k1 < k2 < order.len() ==> date_le(
            dates[#[trigger] order[k2] as int]@,
            dates[#[trigger] order[k1] as int]@,
        )
    &&& forall|k1: int, k2: int|
        0 <= k1 < k2 < order.len() && dates[order[k1] as int]@ == dates[order[k2] as int]@
            ==> #[trigger] order[k1] < #[trigger] order[k2]
}

/// Positions of `dates` from newest to oldest, equal days by position.
pub(crate) fn newest_first_order(dates: &Vec<Date>) -> (order: Vec<usize>)
    ensures
        order_ok(dates@, order@, dates@.len() as int),
{
    let mut order: Vec<usize> = Vec::new();
    let n = dates.len();
    let mut i: usize = 0;
    while i < n
        invariant
            n == dates@.len(),
            0 <= i <= n,
            order_ok(dates@, order@, i as int),
        decreases n - i,
    {
        let mut q: usize = 0;
        while q < order.len() && !dates[order[q]].is_before(&dates[i])
            invariant
                n == dates@.len(),
                i < n,
                0 <= q <= order@.len(),
                order_ok(dates@, order@, i as int),
                forall|k: int| 0 <= k < q ==> !date_lt(dates@[#[trigger] order@[k] as int]@, dates@[i as int]@),
            decreases order@.len() - q,
        {
            q = q + 1;
        }
        let ghost old_order = order@;
        assert(q < old_order.len() ==> date_lt(dates@[old_order[q as int] as int]@, dates@[i as int]@));
        order.insert(q, i);
        proof {
            let o = order@;
            assert(o.len() == i + 1);
            assert forall|k: int| 0 <= k < o.len() implies #[trigger] o[k] < i + 1 by {
                if k < q {
                    assert(o[k] == old_order[k]);
                } else if k > q {
                    assert(o[k] == old_order[k - 1]);
                }
            }
            assert forall|k1: int, k2: int|
                0 <= k1 < k2 < o.len() implies #[trigger] o[k1] != #[trigger] o[k2] by {
                if k1 < q && k2 < q {
                    assert(o[k1] == old_order[k1] && o[k2] == old_order[k2]);
                } else if k1 < q && k2 == q {
                    assert(o[k1] == old_order[k1]);
                } else if k1 < q && k2 > q {
                    assert(o[k1] == old_order[k1] && o[k2] == old_order[k2 - 1]);
                } else if k1 == q {
                    assert(o[k2] == old_order[k2 - 1]);
                } else {
                    assert(o[k1] == old_order[k1 - 1] && o[k2] == old_order[k2 - 1]);
                }
            }
            assert forall|k1: int, k2: int| 0 <= k1 < k2 < o.len() implies date_le(
                dates@[#[trigger] o[k2] as int]@,
                dates@[#[trigger] o[k1] as int]@,
            ) by {
                if k1 < q && k2 < q {
                    assert(o[k1] == old_order[k1] && o[k2] == old_order[k2]);
                } else if k1 < q && k2 == q {
                    assert(o[k1] == old_order[k1]);
                } else if k1 < q && k2 > q {
                    assert(o[k1] == old_order[k1] && o[k2] == old_order[k2 - 1]);
                } else if k1 == q {
                    assert(o[k2] == old_order[k2 - 1]);
                    assert(date_lt(dates@[old_order[q as int] as int]@, dates@[i as int]@));
                    if k2 - 1 > q {
                        assert(date_le(
                            dates@[old_order[k2 - 1] as int]@,
                            dates@[old_order[q as int] as int]@,
                        ));
                    }
                } else {
                    assert(o[k1] == old_order[k1 - 1] && o[k2] == old_order[k2 - 1]);
                }
            }
            assert forall|k1: int, k2: int|
                0 <= k1 < k2 < o.len() && dates@[o[k1] as int]@ == dates@[o[k2] as int]@
                    implies #[trigger] o[k1] < #[trigger] o[k2] by {
                if k1 < q && k2 < q {
                    assert(o[k1] == old_order[k1] && o[k2] == old_order[k2]);
                } else if k1 < q && k2 == q {
                    assert(o[k1] == old_order[k1]);
                } else if k1 < q && k2 > q {
                    assert(o[k1] == old_order[k1] && o[k2] == old_order[k2 - 1]);
                } else if k1 == q {
                    assert(o[k2] == old_order[k2 - 1]);
                    assert(date_lt(dates@[old_order[q as int] as int]@, dates@[i as int]@));
                    if k2 - 1 > q {
                        assert(date_le(
                            dates@[old_order[k2 - 1] as int]@,
                            dates@[old_order[q as int] as int]@,
                        ));
                    }
                } else {
                    assert(o[k1] == old_order[k1 - 1] && o[k2] == old_order[k2 - 1]);
                }
            }
        }
        i = i + 1;
    }
    order
}

/// `entries` sorted from newest to oldest; entries of the same day keep
/// their order (`sort_by_key` with `Reverse(date)`).
pub fn sort_newest_first(entries: &Vec<WallpaperEntry>) -> (r: Vec<WallpaperEntry>)
    ensures
        stable_newest_first(entries@, r@),
{
    let mut dates: Vec<Date> = Vec::new();
    let mut i: usize = 0;
    while i < entries.len()
        invariant
            0 <= i <= entries@.len(),
            dates@.len() == i,
            forall|k: int| 0 <= k < i ==> #[trigger] dates@[k] == entries@[k].date,
        decreases entries@.len() - i,
    {
        dates.push(entries[i].date);
        i = i + 1;
    }
    let order = newest_first_order(&dates);
    let mut out: Vec<WallpaperEntry> = Vec::new();
    let mut k: usize = 0;
    while k < order.len()
        invariant
            0 <= k <= order@.len(),
            order_ok(dates@, order@, entries@.len() as int),
            dates@.len() == entries@.len(),
            forall|j: int| 0 <= j < entries@.len() ==> #[trigger] dates@[j] == entries@[j].date,
            out@.len() == k,
            forall|j: int| 0 <= j < k ==> #[trigger] out@[j] == entries@[order@[j] as int],
        decreases order@.len() - k,
    {
        out.push(entries[order[k]].clone());
        k = k + 1;
    }
    let ghost p = order@.map_values(|x: usize| x as int);
    proof {
        assert forall|j1: int, j2: int| 0 <= j1 < j2 < out@.len() implies date_le(
            out@[j2].date@,
            out@[j1].date@,
        ) by {
            assert(dates@[order@[j1] as int] == entries@[order@[j1] as int].date);
            assert(dates@[order@[j2] as int] == entries@[order@[j2] as int].date);
        }
        assert forall|k1: int, k2: int|
            0 <= k1 < k2 < p.len() && out@[k1].date@ == out@[k2].date@ implies #[trigger] p[k1]
            < #[trigger] p[k2] by {
            assert(dates@[order@[k1] as int] == entries@[order@[k1] as int].date);
            assert(dates@[order@[k2] as int] == entries@[order@[k2] as int].date);
        }
        assert forall|k1: int, k2: int|
            0 <= k1 < k2 < p.len() implies #[trigger] p[k1] != #[trigger] p[k2] by {
            assert(order@[k1] != order@[k2]);
        }
        assert(stable_order_witness(entries@, out@, p));
    }
    out
}

/// Wallpapers of one month, for the archive navigation.
#[derive(Debug)]
pub struct MonthGroup {
    /// `YYYY-MM`.
    pub key: String,
    pub year: i32,
    /// Month, 1 to 12.
    pub month: u32,
    /// The month's wallpapers, newest first.
    pub entries: Vec<WallpaperEntry>,
}

/// `format!("{year:04}-{month:02}")`.
pub open spec fn month_key_text(year: int, month: int) -> Seq<char> {
    int_text_padded(year, 4) + seq!['-'] + zero_pad(decimal(month as nat), 2)
}

/// The entries of all groups, in order.
pub open spec fn concat_groups(gs: Seq<MonthGroup>) -> Seq<WallpaperEntry>
    decreases gs.len(),
{
    if gs.len() == 0 {
        seq![]
    } else {
        concat_groups(gs.drop_last()) + gs.last().entries@
    }
}

/// `(y1, m1)` is an earlier month than `(y2, m2)`.
pub open spec fn month_before(y1: int, m1: int, y2: int, m2: int) -> bool {
    y1 < y2 || (y1 == y2 && m1 < m2)
}

/// One group: non-empty, every entry in its month, its key spelling it.
pub open spec fn group_ok(g: MonthGroup) -> bool {
    &&& g.entries@.len() > 0
    &&& g.key@ == month_key_text(g.year as int, g.month as int)
    &&& forall|k: int|
        0 <= k < g.entries@.len() ==> (#[trigger] g.entries@[k]).date@.0 == g.year && g.entries@[k].date@.1
            == g.month
}

/// Groups are well formed and listed from the newest month to the oldest.
pub open spec fn month_groups_ok(gs: Seq<MonthGroup>) -> bool {
    &&& forall|i: int| 0 <= i < gs.len() ==> group_ok(#[trigger] gs[i])
    &&& forall|i: int, j: int|
        0 <= i < j < gs.len() ==> month_before(
            (#[trigger] gs[j]).year as int,
            gs[j].month as int,
            (#[trigger] gs[i]).year as int,
            gs[i].month as int,
        )
}

fn new_group(year: i32, month: u32, entries: Vec<WallpaperEntry>) -> (g: MonthGroup)
    ensures
        g.year == year,
        g.month == month,
        g.entries == entries,
        g.key@ == month_key_text(year as int, month as int),
{
    let mut key: Vec<char> = Vec::new();
    push_int_padded(&mut key, year as i64, 4);
    key.push('-');
    push_padded(&mut key, month as u64, 2);
    MonthGroup { key: string_of(key.as_slice()), year, month, entries }
}

/// `group_by_month`: the entries sorted newest first and cut into months,
/// newest month first.
pub fn group_by_month(entries: &Vec<WallpaperEntry>) -> (r: Vec<MonthGroup>)
    ensures
        month_groups_ok(r@),
        stable_newest_first(entries@, concat_groups(r@)),
        forall|k: int| 0 <= k < r@.len() ==> 1 <= (#[trigger] r@[k]).month <= 12,
{
    let sorted = sort_newest_first(entries);
    let mut groups: Vec<MonthGroup> = Vec::new();
    let mut cur: Vec<WallpaperEntry> = Vec::new();
    let mut cy: i32 = 0;
    let mut cm: u32 = 0;
    let mut i: usize = 0;
    while i < sorted.len()
        invariant
            0 <= i <= sorted@.len(),
            newest_first(sorted@),
            month_groups_ok(groups@),
            concat_groups(groups@) + cur@ == sorted@.take(i as int),
            i > 0 ==> cur@.len() > 0,
            forall|k: int|
                0 <= k < cur@.len() ==> (#[trigger] cur@[k]).date@.0 == cy && cur@[k].date@.1 == cm,
            cur@.len() > 0 ==> groups@.len() == 0 || month_before(
                cy as int,
                cm as int,
                groups@.last().year as int,
                groups@.last().month as int,
            ),
            i > 0 ==> sorted@[i - 1].date@.0 == cy && sorted@[i - 1].date@.1 == cm,
            i > 0 ==> 1 <= cm <= 12,
            forall|k: int| 0 <= k < groups@.len() ==> 1 <= (#[trigger] groups@[k]).month <= 12,
        decreases sorted@.len() - i,
    {
        let e = sorted[i].clone();
        e.date.validity();
        let y = e.date.year();
        let m = e.date.month();
        if i > 0 && (y != cy || m != cm) {
            assert(date_le(sorted@[i as int].date@, sorted@[i - 1].date@));
            let ghost old_groups = groups@;
            let ghost old_cur = cur@;
            let mut done: Vec<WallpaperEntry> = Vec::new();
            std::mem::swap(&mut done, &mut cur);
            let g = new_group(cy, cm, done);
            groups.push(g);
            proof {
                assert(groups@.drop_last() =~= old_groups);
                assert forall|a: int, b: int|
                    0 <= a < b < groups@.len() implies month_before(
                    (#[trigger] groups@[b]).year as int,
                    groups@[b].month as int,
                    (#[trigger] groups@[a]).year as int,
                    groups@[a].month as int,
                ) by {
                    if b == groups@.len() - 1 && a < b - 1 {
                        assert(month_before(
                            old_groups.last().year as int,
                            old_groups.last().month as int,
                            old_groups[a].year as int,
                            old_groups[a].month as int,
                        ));
                    }
                }
                assert(concat_groups(groups@) =~= concat_groups(old_groups) + old_cur);
            }
            cy = y;
            cm = m;
        } else if i == 0 {
            cy = y;
            cm = m;
        }
        let ghost before = cur@;
        cur.push(e);
        proof {
            assert(sorted@.take(i + 1) =~= sorted@.take(i as int).push(sorted@[i as int]));
        }
        i = i + 1;
    }
    if cur.len() > 0 {
        let ghost old_groups = groups@;
        let ghost old_cur = cur@;
        let g = new_group(cy, cm, cur);
        groups.push(g);
        proof {
            assert(groups@.drop_last() =~= old_groups);
            assert forall|a: int, b: int|
                0 <= a < b < groups@.len() implies month_before(
                (#[trigger] groups@[b]).year as int,
                groups@[b].month as int,
                (#[trigger] groups@[a]).year as int,
                groups@[a].month as int,
            ) by {
                if b == groups@.len() - 1 && a < b - 1 {
                    assert(month_before(
                        old_groups.last().year as int,
                        old_groups.last().month as int,
                        old_groups[a].year as int,
                        old_groups[a].month as int,
                    ));
                }
            }
            assert(concat_groups(groups@) =~= concat_groups(old_groups) + old_cur);
        }
    }
    assert(sorted@.take(sorted@.len() as int) =~= sorted@);
    groups
}

} // verus!
