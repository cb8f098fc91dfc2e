//! Texts handed to Windows: the elevated relaunch's command line, the
//! start-with-Windows command, wallpaper paths, and the names of the
//! registry value, mutex and scheduled task.
use vstd::prelude::*;
use crate::text::{chars_of, has_prefix, push_all, slice_chars, starts_with, string_of, trim, trim_chars};

verus! {

/// Registry key of the programs started with Windows.
pub const RUN_KEY: &'static str = "Software\\Microsoft\\Windows\\CurrentVersion\\Run";

/// Name of this program's value under `RUN_KEY`.
pub const RUN_VALUE_NAME: &'static str = "BingWallpaperLib";

/// Name of the mutex that keeps a second instance from starting.
pub const MUTEX_NAME: &'static str = "Global\\BingWallpaperLib_SingleInstance";

/// Name of the periodic wallpaper task.
pub const TASK_NAME: &'static str = "BingWallpaperLibPeriodicWallpaper";

/// Argument that starts the program hidden in the notification area.
pub const BACKGROUND_ARG: &'static str = "--background";

/// Argument of the periodic task's unattended run.
pub const SCHEDULED_ARG: &'static str = "--scheduled-wallpaper";

/// The arguments each in double quotes, separated by spaces.
pub open spec fn quoted_args(args: Seq<Seq<char>>) -> Seq<char>
    decreases args.len(),
{
    if args.len() == 0 {
        Seq::empty()
    } else if args.len() == 1 {
        seq!['"'] + args[0] + seq!['"']
    } else {
        quoted_args(args.drop_last()) + seq![' ', '"'] + args.last() + seq!['"']
    }
}

/// Command line for the elevated copy of the program: the current
/// arguments (without the program name), each in double quotes, separated
/// by spaces.
pub fn relaunch_arguments(args: &Vec<String>) -> (r: String)
    ensures
        r@ == quoted_args(args@.map_values(|a: String| a@)),
{
    let ghost views = args@.map_values(|a: String| a@);
    let mut out: Vec<char> = Vec::new();
    let mut i: usize = 0;
    while i < args.len()
        invariant
            0 <= i <= args@.len(),
            views == args@.map_values(|a: String| a@),
            out@ == quoted_args(views.take(i as int)),
        decreases args@.len() - i,
    {
        proof {
            assert(views.take(i + 1).drop_last() =~= views.take(i as int));
            assert(views.take(i + 1).last() == args@[i as int]@);
        }
        if i > 0 {
            out.push(' ');
        }
        out.push('"');
        push_all(&mut out, args[i].as_str());
        out.push('"');
        proof {
            if i == 0 {
                assert(out@ =~= quoted_args(views.take(1)));
            } else {
                assert(out@ =~= quoted_args(views.take(i + 1)));
            }
        }
        i = i + 1;
    }
    assert(views.take(args@.len() as int) =~= views);
    string_of(out.as_slice())
}

pub open spec fn startup_command_of(exe: Seq<char>) -> Seq<char> {
    seq!['"'] + exe + seq!['"'] + " "@ + BACKGROUND_ARG@
}

/// The command registered to start with Windows: the quoted program path
/// and `--background`.
pub fn startup_command(exe: &str) -> (r: String)
    ensures
        r@ == startup_command_of(exe@),
{
    let mut out: Vec<char> = Vec::new();
    out.push('"');
    push_all(&mut out, exe);
    out.push('"');
    push_all(&mut out, " ");
    push_all(&mut out, BACKGROUND_ARG);
    string_of(out.as_slice())
}

/// Prefix of the long ("verbatim") form of Windows paths.
pub const VERBATIM_PREFIX: &'static str = "\\\\?\\";

pub open spec fn without_verbatim(path: Seq<char>) -> Seq<char> {
    if has_prefix(path, VERBATIM_PREFIX@) {
        path.subrange(VERBATIM_PREFIX@.len() as int, path.len() as int)
    } else {
        path
    }
}

/// A resolved wallpaper path without the `\\?\` prefix, which some
/// wallpaper interfaces refuse.
pub fn strip_verbatim_prefix(path: &str) -> (r: String)
    ensures
        r@ == without_verbatim(path@),
{
    let p = chars_of(path);
    if starts_with(&p, VERBATIM_PREFIX) {
        let prefix = chars_of(VERBATIM_PREFIX);
        let rest = slice_chars(&p, prefix.len(), p.len());
        string_of(rest.as_slice())
    } else {
        string_of(p.as_slice())
    }
}

/// A display can be named by this device path (it is not blank).
pub fn monitor_id_usable(id: &str) -> (r: bool)
    ensures
        r == (trim(id@).len() > 0),
{
    trim_chars(&chars_of(id)).len() > 0
}

} // verus!
