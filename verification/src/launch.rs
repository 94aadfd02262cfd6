//! Starting the Dream Skin injector: the lock that keeps two starts apart, the
//! checks that refuse a start, the command line of the injector, and the
//! record written to `state.json`.

use vstd::prelude::*;
use crate::dream_skin::{probe_of, InjectorProbe, InjectorStateFile};
use crate::text::{decimal, decimal_text, two_digit_text, two_digits};

verus! {

broadcast use vstd::string::group_string_axioms;

/// Seconds to wait for the CDP endpoint of Codex before giving up.
pub const CDP_WAIT_SECS: u64 = 45;

/// Seconds to let the injector settle before checking that it still runs.
pub const INJECTOR_SETTLE_SECS: u64 = 2;

/// The flag that keeps two starts of the injector apart.
///
/// A start takes it; a start that finds it taken is refused and leaves it to
/// the start that holds it. A start that took it gives it back when it ends,
/// whether it completed or failed, so it is taken only while a start runs.
#[derive(Debug)]
pub struct InjectionLock {
    busy: bool,
}

/// A start may take the lock: no other start holds it.
pub open spec fn start_admitted(held: bool) -> bool {
    !held
}

impl InjectionLock {
    /// The lock is taken.
    pub closed spec fn held(&self) -> bool {
        self.busy
    }

    /// Whether the lock is taken.
    pub fn is_held(&self) -> (r: bool)
        ensures
            r == self.held(),
    {
        self.busy
    }

    /// Takes the lock for a start, or refuses the start when it is taken.
    pub fn begin(&mut self) -> (r: Result<(), LaunchError>)
        ensures
            final(self).held(),
            start_admitted(old(self).held()) ==> r is Ok,
            !start_admitted(old(self).held()) ==> r matches Err(LaunchError::Busy),
    {
        if self.busy {
            Err(LaunchError::Busy)
        } else {
            self.busy = true;
            Ok(())
        }
    }

    /// Ends a start that took the lock: gives the lock back, whatever the
    /// outcome, and hands the outcome on unchanged.
    pub fn settle<T>(&mut self, outcome: Result<T, LaunchError>) -> (r: Result<T, LaunchError>)
        ensures
            !final(self).held(),
            r == outcome,
    {
        self.busy = false;
        outcome
    }
}

/// The injection lock as the manager starts with it: not taken.
pub fn injection_lock() -> (l: InjectionLock)
    ensures
        !l.held(),
{
    InjectionLock { busy: false }
}

/// Refuses a start whose assets are not all there, naming the first missing one
/// in the order script, stylesheet, renderer script.
pub fn check_assets(assets: &AssetCheck) -> (r: Result<(), LaunchError>)
    ensures
        match first_missing_asset(*assets) {
            None => r is Ok,
            Some(a) => r matches Err(LaunchError::MissingAsset { asset, path }) && asset == a
                && path@ == asset_path(*assets, a)@,
        },
{
    if !assets.injector_script_found {
        Err(
            LaunchError::MissingAsset {
                asset: InjectorAsset::InjectorScript,
                path: assets.injector_script.clone(),
            },
        )
    } else if !assets.stylesheet_found {
        Err(LaunchError::MissingAsset { asset: InjectorAsset::Stylesheet, path: assets.stylesheet.clone() })
    } else if !assets.renderer_script_found {
        Err(
            LaunchError::MissingAsset {
                asset: InjectorAsset::RendererScript,
                path: assets.renderer_script.clone(),
            },
        )
    } else {
        Ok(())
    }
}

/// A file that the injector needs.
#[derive(Debug, Clone, Copy, PartialEq, Eq, Structural)]
pub enum InjectorAsset {
    /// `scripts/injector.mjs`
    InjectorScript,
    /// `dream-skin.css`
    Stylesheet,
    /// `renderer-inject.js`
    RendererScript,
}

/// The injector's assets, each with whether it exists.
#[derive(Debug, Clone)]
pub struct AssetCheck {
    pub injector_script: String,
    pub injector_script_found: bool,
    pub stylesheet: String,
    pub stylesheet_found: bool,
    pub renderer_script: String,
    pub renderer_script_found: bool,
}

/// The first asset, in the order script, stylesheet, renderer script, that is missing.
pub open spec fn first_missing_asset(a: AssetCheck) -> Option<InjectorAsset> {
    if !a.injector_script_found {
        Some(InjectorAsset::InjectorScript)
    } else if !a.stylesheet_found {
        Some(InjectorAsset::Stylesheet)
    } else if !a.renderer_script_found {
        Some(InjectorAsset::RendererScript)
    } else {
        None
    }
}

/// A start goes on only when all three assets were found, and a refusal names
/// the first missing asset in the order script, stylesheet, renderer script:
/// the named asset is missing and every asset before it was found.
pub proof fn lemma_first_missing_asset(a: AssetCheck)
    ensures
        first_missing_asset(a) is None <==> (a.injector_script_found && a.stylesheet_found
            && a.renderer_script_found),
        first_missing_asset(a) == Some(InjectorAsset::InjectorScript) <==> !a.injector_script_found,
        first_missing_asset(a) == Some(InjectorAsset::Stylesheet) <==> (a.injector_script_found
            && !a.stylesheet_found),
        first_missing_asset(a) == Some(InjectorAsset::RendererScript) <==> (a.injector_script_found
            && a.stylesheet_found && !a.renderer_script_found),
{
}

/// The path of one asset.
pub open spec fn asset_path(a: AssetCheck, asset: InjectorAsset) -> String {
    match asset {
        InjectorAsset::InjectorScript => a.injector_script,
        InjectorAsset::Stylesheet => a.stylesheet,
        InjectorAsset::RendererScript => a.renderer_script,
    }
}

/// The file name by which an error names an asset.
pub open spec fn asset_file_name(asset: InjectorAsset) -> Seq<char> {
    match asset {
        InjectorAsset::InjectorScript => "injector.mjs"@,
        InjectorAsset::Stylesheet => "dream-skin.css"@,
        InjectorAsset::RendererScript => "renderer-inject.js"@,
    }
}

/// Why a start of the injector failed.
#[derive(Debug, Clone)]
pub enum LaunchError {
    /// Another start holds the lock.
    Busy,
    /// An asset of the injector is missing.
    MissingAsset { asset: InjectorAsset, path: String },
    /// No Node.js runtime was found.
    NodeMissing,
    /// The CDP endpoint did not answer in time.
    CdpNotReady { port: u16 },
    /// The injector process could not be started.
    SpawnFailed { reason: String },
    /// The injector exited right after it was started.
    ExitedEarly { exit_status: String, stderr: String },
    /// A step failed with this text (writing the theme, the file system, the browser id).
    Failed { reason: String },
}

/// The text of a launch error.
pub open spec fn launch_error_text(e: LaunchError) -> Seq<char> {
    match e {
        LaunchError::Busy => "Dream Skin 注入正在运行中，请等待完成"@,
        LaunchError::MissingAsset { asset, path } => asset_file_name(asset) + " 未找到: "@
            + path@,
        LaunchError::NodeMissing => "未找到 Node.js，请先安装 Node.js 22+"@,
        LaunchError::CdpNotReady { port } => "Codex CDP 端点未在 45 秒内就绪，请确认 Codex 已启动且端口 "@
            + decimal(port as nat) + " 正确"@,
        LaunchError::SpawnFailed { reason } => "启动 injector 失败: "@ + reason@,
        LaunchError::ExitedEarly { exit_status, stderr } => "injector 启动后立即退出 (exit code: "@
            + exit_status@ + ")。错误: "@ + stderr@,
        LaunchError::Failed { reason } => reason@,
    }
}

impl LaunchError {
    /// The text of the error, as the manager shows it.
    pub fn message(&self) -> (m: String)
        ensures
            m@ == launch_error_text(*self),
    {
        match self {
            LaunchError::Busy => String::from_str("Dream Skin 注入正在运行中，请等待完成"),
            LaunchError::MissingAsset { asset, path } => {
                let mut m = match asset {
                    InjectorAsset::InjectorScript => String::from_str("injector.mjs"),
                    InjectorAsset::Stylesheet => String::from_str("dream-skin.css"),
                    InjectorAsset::RendererScript => String::from_str("renderer-inject.js"),
                };
                m.append(" 未找到: ");
                m.append(path.as_str());
                m
            },
            LaunchError::NodeMissing => String::from_str("未找到 Node.js，请先安装 Node.js 22+"),
            LaunchError::CdpNotReady { port } => {
                let mut m = String::from_str(
                    "Codex CDP 端点未在 45 秒内就绪，请确认 Codex 已启动且端口 ",
                );
                let p = decimal_text(*port as u64);
                m.append(p.as_str());
                m.append(" 正确");
                m
            },
            LaunchError::SpawnFailed { reason } => {
                let mut m = String::from_str("启动 injector 失败: ");
                m.append(reason.as_str());
                m
            },
            LaunchError::ExitedEarly { exit_status, stderr } => {
                let mut m = String::from_str("injector 启动后立即退出 (exit code: ");
                m.append(exit_status.as_str());
                m.append(")。错误: ");
                m.append(stderr.as_str());
                m
            },
            LaunchError::Failed { reason } => reason.clone(),
        }
    }
}

/// The Node.js runtime to run the injector with, or the refusal when none was found.
pub fn require_node(found: Option<String>) -> (r: Result<String, LaunchError>)
    ensures
        match found {
            Some(n) => r matches Ok(m) && m@ == n@,
            None => r matches Err(LaunchError::NodeMissing),
        },
{
    match found {
        Some(n) => Ok(n),
        None => Err(LaunchError::NodeMissing),
    }
}

/// Refuses the start when the CDP endpoint on `port` did not become ready.
pub fn require_cdp_ready(ready: bool, port: u16) -> (r: Result<(), LaunchError>)
    ensures
        ready ==> r is Ok,
        !ready ==> (r matches Err(LaunchError::CdpNotReady { port: p }) && p == port),
{
    if ready {
        Ok(())
    } else {
        Err(LaunchError::CdpNotReady { port })
    }
}

/// `args` start the injector script `script` in watch mode against `port` and `browser_id`.
pub open spec fn injector_args_are(
    args: Seq<String>,
    script: Seq<char>,
    port: u16,
    browser_id: Seq<char>,
) -> bool {
    &&& args.len() == 6
    &&& args[0]@ == script
    &&& args[1]@ == "--watch"@
    &&& args[2]@ == "--port"@
    &&& args[3]@ == decimal(port as nat)
    &&& args[4]@ == "--browser-id"@
    &&& args[5]@ == browser_id
}

/// The arguments that start the injector in watch mode against `port` and `browser_id`.
pub fn injector_args(script: &str, port: u16, browser_id: &str) -> (r: Vec<String>)
    ensures
        injector_args_are(r@, script@, port, browser_id@),
{
    let mut r: Vec<String> = Vec::new();
    r.push(String::from_str(script));
    r.push(String::from_str("--watch"));
    r.push(String::from_str("--port"));
    r.push(decimal_text(port as u64));
    r.push(String::from_str("--browser-id"));
    r.push(String::from_str(browser_id));
    r
}

/// The files under the state directory that take the injector's output and errors.
pub fn injector_log_paths(state_root: &str) -> (r: (String, String))
    ensures
        r.0@ == state_root@ + "\\injector.log"@,
        r.1@ == state_root@ + "\\injector-error.log"@,
{
    let mut out = String::from_str(state_root);
    out.append("\\injector.log");
    let mut err = String::from_str(state_root);
    err.append("\\injector-error.log");
    (out, err)
}

/// The start time recorded in `state.json`: the time of day of `now` (seconds
/// since the Unix epoch, UTC) on a fixed date.
pub open spec fn started_at_text(now: nat) -> Seq<char> {
    "2026-07-17T"@ + two_digits((now / 3600) % 24) + ":"@ + two_digits((now / 60) % 60) + ":"@
        + two_digits(now % 60) + "+00:00"@
}

/// Formats the start time recorded in `state.json`.
pub fn injector_started_at(now: u64) -> (r: String)
    ensures
        r@ == started_at_text(now as nat),
{
    let mut r = String::from_str("2026-07-17T");
    let h = two_digit_text((now / 3600) % 24);
    r.append(h.as_str());
    r.append(":");
    let m = two_digit_text((now / 60) % 60);
    r.append(m.as_str());
    r.append(":");
    let s = two_digit_text(now % 60);
    r.append(s.as_str());
    r.append("+00:00");
    r
}

/// What a completed start writes to `state.json`.
#[derive(Debug, Clone)]
pub struct InjectorStateRecord {
    pub schema_version: u32,
    pub platform: String,
    pub port: u16,
    pub injector_pid: u32,
    pub injector_started_at: String,
    pub injector_path: String,
    pub node_path: String,
    pub codex_exe: String,
    pub codex_package_root: String,
    pub codex_version: String,
    pub browser_id: String,
    pub created_at: u64,
}

/// `r` is the record of an injector started at `now` with process id `pid`.
pub open spec fn state_record_is(
    r: InjectorStateRecord,
    port: u16,
    pid: u32,
    now: u64,
    injector_script: Seq<char>,
    node_path: Seq<char>,
    browser_id: Seq<char>,
) -> bool {
    &&& r.schema_version == 3
    &&& r.platform@ == "windows"@
    &&& r.port == port
    &&& r.injector_pid == pid
    &&& r.injector_started_at@ == started_at_text(now as nat)
    &&& r.injector_path@ == injector_script
    &&& r.node_path@ == node_path
    &&& r.codex_exe@ == ""@
    &&& r.codex_package_root@ == ""@
    &&& r.codex_version@ == "0.0.0"@
    &&& r.browser_id@ == browser_id
    &&& r.created_at == now
}

/// The record of an injector started at `now` with process id `pid`.
pub fn injector_state_record(
    port: u16,
    pid: u32,
    now: u64,
    injector_script: &str,
    node_path: &str,
    browser_id: &str,
) -> (r: InjectorStateRecord)
    ensures
        state_record_is(r, port, pid, now, injector_script@, node_path@, browser_id@),
{
    InjectorStateRecord {
        schema_version: 3,
        platform: String::from_str("windows"),
        port,
        injector_pid: pid,
        injector_started_at: injector_started_at(now),
        injector_path: String::from_str(injector_script),
        node_path: String::from_str(node_path),
        codex_exe: String::from_str(""),
        codex_package_root: String::from_str(""),
        codex_version: String::from_str("0.0.0"),
        browser_id: String::from_str(browser_id),
        created_at: now,
    }
}

/// What a start saves is what the status check probes: a state file read back
/// with the saved `injectorPid` and `platform` makes the status ask the process
/// list of Windows about the started injector.
pub proof fn lemma_saved_state_is_probed(record: InjectorStateRecord, read_back: InjectorStateFile)
    requires
        record.platform@ == "windows"@,
        read_back.injector_pid == Some(record.injector_pid as u64),
        read_back.platform matches Some(p) && p@ == record.platform@,
    ensures
        probe_of(Some(read_back)) == (InjectorProbe::AskTasklist { pid: record.injector_pid }),
{
    assert((record.injector_pid as u64) % 0x1_0000_0000 == record.injector_pid as u64);
}

} // verus!
