//! The interface's icon set: which icon paths exist, looking one up, and
//! listing them by folder.
use vstd::prelude::*;
use crate::text::{has_prefix, starts_with, chars_of, str_eq};

verus! {

/// Number of bundled icons.
pub const ICON_COUNT: usize = 30;

/// Paths of the bundled icons, in table order.
pub open spec fn icon_paths() -> Seq<Seq<char>> {
    seq![
        "icons/arrow-left.svg"@,
        "icons/arrow-right.svg"@,
        "icons/arrow-up.svg"@,
        "icons/calendar.svg"@,
        "icons/check.svg"@,
        "icons/chevron-down.svg"@,
        "icons/chevron-left.svg"@,
        "icons/chevron-right.svg"@,
        "icons/chevrons-up-down.svg"@,
        "icons/circle-check.svg"@,
        "icons/circle-x.svg"@,
        "icons/close.svg"@,
        "icons/delete.svg"@,
        "icons/folder-closed.svg"@,
        "icons/frame.svg"@,
        "icons/gallery-vertical-end.svg"@,
        "icons/heart-filled.svg"@,
        "icons/heart-outline.svg"@,
        "icons/heart.svg"@,
        "icons/info.svg"@,
        "icons/panel-left-close.svg"@,
        "icons/panel-left-open.svg"@,
        "icons/panel-right-close.svg"@,
        "icons/panel-right-open.svg"@,
        "icons/settings.svg"@,
        "icons/triangle-alert.svg"@,
        "icons/window-close.svg"@,
        "icons/window-maximize.svg"@,
        "icons/window-minimize.svg"@,
        "icons/window-restore.svg"@
    ]
}

/// The table of icon paths.
pub fn icon_table() -> (r: Vec<&'static str>)
    ensures
        r@.len() == ICON_COUNT,
        forall|i: int| 0 <= i < r@.len() ==> #[trigger] r@[i]@ == icon_paths()[i],
{
    let mut v: Vec<&'static str> = Vec::new();
    v.push("icons/arrow-left.svg");
    v.push("icons/arrow-right.svg");
    v.push("icons/arrow-up.svg");
    v.push("icons/calendar.svg");
    v.push("icons/check.svg");
    v.push("icons/chevron-down.svg");
    v.push("icons/chevron-left.svg");
    v.push("icons/chevron-right.svg");
    v.push("icons/chevrons-up-down.svg");
    v.push("icons/circle-check.svg");
    v.push("icons/circle-x.svg");
    v.push("icons/close.svg");
    v.push("icons/delete.svg");
    v.push("icons/folder-closed.svg");
    v.push("icons/frame.svg");
    v.push("icons/gallery-vertical-end.svg");
    v.push("icons/heart-filled.svg");
    v.push("icons/heart-outline.svg");
    v.push("icons/heart.svg");
    v.push("icons/info.svg");
    v.push("icons/panel-left-close.svg");
    v.push("icons/panel-left-open.svg");
    v.push("icons/panel-right-close.svg");
    v.push("icons/panel-right-open.svg");
    v.push("icons/settings.svg");
    v.push("icons/triangle-alert.svg");
    v.push("icons/window-close.svg");
    v.push("icons/window-maximize.svg");
    v.push("icons/window-minimize.svg");
    v.push("icons/window-restore.svg");
    v
}

/// The application's asset source: bundled SVG icons, looked up by path.
pub struct Assets;

impl Assets {
    /// Table position of the icon at `path` (`load` hands out its bytes);
    /// `None` when no icon has that path.
    pub fn load(&self, path: &str) -> (r: Option<usize>)
        ensures
            match r {
                Some(i) => i < ICON_COUNT && icon_paths()[i as int] == path@ && forall|j: int|
                    0 <= j < i ==> icon_paths()[j] != path@,
                None => forall|j: int| 0 <= j < ICON_COUNT ==> icon_paths()[j] != path@,
            },
    {
        let table = icon_table();
        let mut i: usize = 0;
        while i < table.len()
            invariant
                0 <= i <= table@.len(),
                table@.len() == ICON_COUNT,
                forall|k: int| 0 <= k < table@.len() ==> #[trigger] table@[k]@ == icon_paths()[k],
                forall|j: int| 0 <= j < i ==> icon_paths()[j] != path@,
            decreases table@.len() - i,
        {
            if str_eq(table[i], path) {
                return Some(i);
            }
            i = i + 1;
        }
        None
    }

    /// The icon paths that start with `path`, in table order.
    pub fn list(&self, path: &str) -> (r: Vec<&'static str>)
        ensures
            r@.map_values(|s: &'static str| s@) == icon_paths().filter(|p: Seq<char>| has_prefix(p, path@)),
    {
        let table = icon_table();
        let ghost pred = |p: Seq<char>| has_prefix(p, path@);
        let mut out: Vec<&'static str> = Vec::new();
        let mut i: usize = 0;
        while i < table.len()
            invariant
                0 <= i <= table@.len(),
                table@.len() == ICON_COUNT,
                forall|k: int| 0 <= k < table@.len() ==> #[trigger] table@[k]@ == icon_paths()[k],
                pred == (|p: Seq<char>| has_prefix(p, path@)),
                out@.map_values(|s: &'static str| s@) == icon_paths().take(i as int).filter(pred),
            decreases table@.len() - i,
        {
            proof {
                reveal(Seq::filter);
                assert(icon_paths().take(i + 1).drop_last() =~= icon_paths().take(i as int));
                assert(icon_paths().take(i + 1).last() == icon_paths()[i as int]);
            }
            let p = chars_of(table[i]);
            if starts_with(&p, path) {
                let ghost before = out@;
                out.push(table[i]);
                assert(out@.map_values(|s: &'static str| s@) =~= before.map_values(|s: &'static str| s@).push(table@[i as int]@));
            }
            i = i + 1;
        }
        assert(icon_paths().take(ICON_COUNT as int) =~= icon_paths());
        out
    }
}

} // verus!
