//! How the bundled download tool is started and addressed: its command
//! line, the address of its control interface and the access token.
use vstd::prelude::*;
use crate::text::{decimal, push_all, push_decimal, string_of};

verus! {

/// Port of the tool's control interface.
pub const RPC_PORT: u16 = 16800;

/// Secret shared with the tool (local use only).
pub const RPC_SECRET: &'static str = "bing-wallpaper-lib-local";

fn text(s: &str) -> (r: String)
    ensures
        r@ == s@,
{
    let mut out: Vec<char> = Vec::new();
    push_all(&mut out, s);
    string_of(out.as_slice())
}

/// Command-line arguments of the tool, downloading into `download_dir`:
/// control interface on the local port with the secret, up to 16
/// connections per file, 8 files at a time, continuing partial files.
pub open spec fn launch_args_of(download_dir: Seq<char>) -> Seq<Seq<char>> {
    seq![
        "--enable-rpc"@,
        "--rpc-listen-port="@ + decimal(RPC_PORT as nat),
        "--rpc-secret="@ + RPC_SECRET@,
        "--rpc-listen-all=false"@,
        "--rpc-allow-origin-all=false"@,
        "--dir="@ + download_dir,
        "--continue=true"@,
        "--auto-file-renaming=false"@,
        "--allow-overwrite=true"@,
        "--max-connection-per-server=16"@,
        "--split=16"@,
        "--min-split-size=1M"@,
        "--max-concurrent-downloads=8"@,
        "--max-overall-download-limit=0"@,
        "--disable-ipv6=true"@,
        "--quiet=true"@,
    ]
}

/// The tool's command-line arguments.
pub fn launch_arguments(download_dir: &str) -> (r: Vec<String>)
    ensures
        r@.map_values(|s: String| s@) == launch_args_of(download_dir@),
{
    let mut v: Vec<String> = Vec::new();
    v.push(text("--enable-rpc"));
    let mut port: Vec<char> = Vec::new();
    push_all(&mut port, "--rpc-listen-port=");
    push_decimal(&mut port, RPC_PORT as u64);
    v.push(string_of(port.as_slice()));
    let mut secret: Vec<char> = Vec::new();
    push_all(&mut secret, "--rpc-secret=");
    push_all(&mut secret, RPC_SECRET);
    v.push(string_of(secret.as_slice()));
    v.push(text("--rpc-listen-all=false"));
    v.push(text("--rpc-allow-origin-all=false"));
    let mut dir: Vec<char> = Vec::new();
    push_all(&mut dir, "--dir=");
    push_all(&mut dir, download_dir);
    v.push(string_of(dir.as_slice()));
    v.push(text("--continue=true"));
    v.push(text("--auto-file-renaming=false"));
    v.push(text("--allow-overwrite=true"));
    v.push(text("--max-connection-per-server=16"));
    v.push(text("--split=16"));
    v.push(text("--min-split-size=1M"));
    v.push(text("--max-concurrent-downloads=8"));
    v.push(text("--max-overall-download-limit=0"));
    v.push(text("--disable-ipv6=true"));
    v.push(text("--quiet=true"));
    assert(v@.map_values(|s: String| s@) =~= launch_args_of(download_dir@));
    v
}

pub open spec fn rpc_url_text() -> Seq<char> {
    "http://127.0.0.1:"@ + decimal(RPC_PORT as nat) + "/jsonrpc"@
}

/// Address of the tool's control interface.
pub fn rpc_url() -> (r: String)
    ensures
        r@ == rpc_url_text(),
{
    let mut out: Vec<char> = Vec::new();
    push_all(&mut out, "http://127.0.0.1:");
    push_decimal(&mut out, RPC_PORT as u64);
    push_all(&mut out, "/jsonrpc");
    string_of(out.as_slice())
}

/// The access token sent with every call: `token:` and the secret.
pub fn secret_token() -> (r: String)
    ensures
        r@ == "token:"@ + RPC_SECRET@,
{
    let mut out: Vec<char> = Vec::new();
    push_all(&mut out, "token:");
    push_all(&mut out, RPC_SECRET);
    string_of(out.as_slice())
}

} // verus!
