# bing-wallpaper-lib

The core of a Windows program that browses the Bing daily wallpaper history,
keeps favorites, downloads wallpapers and changes the desktop wallpaper on a
schedule. The core is written in Verus: every public function in `src/`
carries a contract, and Verus proves the code in `src/` against the contracts.

## Layout

- `src/` — the verified library.
  - `date`, `text`: calendar days and the character-level helpers the rest builds on.
  - `model`: wallpaper entries, file names, addresses, sorting and month groups.
  - `archive`: reading archive and Bing records, merging sources one entry per day.
  - `favorites`, `library`, `schedule`, `settings`: favorites, batch downloads,
    the periodic and daily wallpaper decisions, and the settings they keep.
  - `i18n`: the language catalog and status messages.
  - `updater`, `names`, `system`, `tray`, `window`, `thumbnails`, `aria2`,
    `assets`: release checks, names and command lines, tray menu, window
    placement, thumbnail making and cache names, download engine parameters, icon table.
- `tests/` — tests of the library on concrete values.
- `app/` — the Windows program around the library: network, files, registry,
  Task Scheduler, tray icon and the download engine process.

Calls into `chrono`, `rand`, `uuid` and `image`, and std's `String::push`,
go through small trusted wrappers whose contracts say what those crates
document; everything else in `src/` is proved.
