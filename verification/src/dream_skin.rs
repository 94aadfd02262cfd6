//! The Dream Skin status: whether the base theme is installed in Codex's
//! `config.toml`, whether the injector recorded in `state.json` runs, and the
//! status record handed to the manager's front end.

use vstd::prelude::*;
use crate::json::{json_member_str, json_member_u64, json_str_member, json_u64_member};
use crate::text::{contains_text, lemma_occurs_in_extended, decimal, decimal_text, occurs_in, same_text};

verus! {

broadcast use vstd::string::group_string_axioms;

/// The CDP port that the status record reports.
pub const DREAM_SKIN_PORT: u16 = 9335;

/// The state of Dream Skin as the manager shows it.
#[derive(Debug, Clone)]
pub struct DreamSkinStatus {
    pub base_theme_installed: bool,
    pub injector_running: bool,
    pub injector_pid: Option<u32>,
    pub port: u16,
    pub message: String,
}

/// What was found on the machine when the status was taken.
#[derive(Debug, Clone, Copy)]
pub struct SkinObservation {
    /// `config.toml` carries the base theme.
    pub base_theme_installed: bool,
    /// The recorded injector process is alive.
    pub injector_running: bool,
    /// The injector process id recorded in `state.json`.
    pub injector_pid: Option<u32>,
}

/// The message shown for a status.
pub open spec fn status_message(injector_running: bool, base_theme_installed: bool) -> Seq<char> {
    if injector_running {
        "Codex 主题已激活 ✓"@
    } else if base_theme_installed {
        "基础主题已安装，点击「重启 Codex++」🚀 自动注入主题"@
    } else {
        "Codex 主题未安装，请先安装基础主题"@
    }
}

/// `s` is the status record of the observation `o`.
pub open spec fn describes(s: DreamSkinStatus, o: SkinObservation) -> bool {
    &&& s.base_theme_installed == o.base_theme_installed
    &&& s.injector_running == o.injector_running
    &&& s.injector_pid == o.injector_pid
    &&& s.port == DREAM_SKIN_PORT
    &&& s.message@ == status_message(o.injector_running, o.base_theme_installed)
}

/// The status record of an observation.
pub fn get_dream_skin_status(observed: &SkinObservation) -> (s: DreamSkinStatus)
    ensures
        describes(s, *observed),
{
    let message = if observed.injector_running {
        String::from_str("Codex 主题已激活 ✓")
    } else if observed.base_theme_installed {
        String::from_str("基础主题已安装，点击「重启 Codex++」🚀 自动注入主题")
    } else {
        String::from_str("Codex 主题未安装，请先安装基础主题")
    };
    DreamSkinStatus {
        base_theme_installed: observed.base_theme_installed,
        injector_running: observed.injector_running,
        injector_pid: observed.injector_pid,
        port: DREAM_SKIN_PORT,
        message,
    }
}

/// The message of a status: a running injector always reads as active, whatever
/// the configuration; otherwise the message tells whether the base theme is
/// installed.
pub proof fn lemma_status_message(s: DreamSkinStatus, o: SkinObservation)
    requires
        describes(s, o),
    ensures
        o.injector_running ==> s.message@ == "Codex 主题已激活 ✓"@,
        !o.injector_running && o.base_theme_installed ==> s.message@
            == "基础主题已安装，点击「重启 Codex++」🚀 自动注入主题"@,
        !o.injector_running && !o.base_theme_installed ==> s.message@
            == "Codex 主题未安装，请先安装基础主题"@,
        s.port == 9335,
        s.injector_running == o.injector_running,
        s.base_theme_installed == o.base_theme_installed,
        s.injector_pid == o.injector_pid,
{
}

/// The answer to a request that first changes the base theme and then observes:
/// the failure text unchanged, or the status of what was observed afterwards.
pub open spec fn answers_after(
    outcome: Result<SkinObservation, String>,
    r: Result<DreamSkinStatus, String>,
) -> bool {
    match outcome {
        Ok(o) => r matches Ok(s) && describes(s, o),
        Err(e) => r matches Err(m) && m@ == e@,
    }
}

/// Installing the base theme: `applied` is the failure of writing the theme
/// into `config.toml`, or what was observed after it was written.
pub fn install_dream_skin(applied: Result<SkinObservation, String>) -> (r: Result<
    DreamSkinStatus,
    String,
>)
    ensures
        answers_after(applied, r),
{
    match applied {
        Ok(o) => Ok(get_dream_skin_status(&o)),
        Err(e) => Err(e),
    }
}

/// Restoring the configuration from before the base theme: `restored` is the
/// failure of the restore, or what was observed after it.
pub fn restore_dream_skin_base(restored: Result<SkinObservation, String>) -> (r: Result<
    DreamSkinStatus,
    String,
>)
    ensures
        answers_after(restored, r),
{
    match restored {
        Ok(o) => Ok(get_dream_skin_status(&o)),
        Err(e) => Err(e),
    }
}

/// Stopping the injector never fails: its steps ignore their own failures, and the
/// answer is the status observed once they are done.
pub fn stop_dream_skin_injector(observed: &SkinObservation) -> (r: Result<DreamSkinStatus, String>)
    ensures
        r matches Ok(s) && describes(s, *observed),
{
    Ok(get_dream_skin_status(observed))
}

/// The markers of the Dream Skin base theme in the text of `config.toml`.
pub open spec fn theme_markers_present(config: Seq<char>) -> bool {
    &&& occurs_in(config, "appearanceLightChromeTheme"@)
    &&& (occurs_in(config, "#B65CFF"@) || occurs_in(config, "appearanceTheme"@))
}

/// The base theme reads as installed exactly when the chrome theme marker is
/// there together with the accent colour or the theme marker (either one, or
/// both, will do).
pub proof fn lemma_theme_markers(config: Seq<char>)
    ensures
        occurs_in(config, "appearanceLightChromeTheme"@) && occurs_in(config, "#B65CFF"@)
            ==> theme_markers_present(config),
        occurs_in(config, "appearanceLightChromeTheme"@) && occurs_in(config, "appearanceTheme"@)
            ==> theme_markers_present(config),
        !occurs_in(config, "appearanceLightChromeTheme"@) ==> !theme_markers_present(config),
        !occurs_in(config, "#B65CFF"@) && !occurs_in(config, "appearanceTheme"@)
            ==> !theme_markers_present(config),
{
}

/// Adding text to `config.toml` never takes the base theme away: a config that
/// reads as installed still does with anything before or after it.
pub proof fn lemma_theme_markers_kept(before: Seq<char>, config: Seq<char>, after: Seq<char>)
    requires
        theme_markers_present(config),
    ensures
        theme_markers_present(before + config + after),
{
    lemma_occurs_in_extended(before, config, after, "appearanceLightChromeTheme"@);
    if occurs_in(config, "#B65CFF"@) {
        lemma_occurs_in_extended(before, config, after, "#B65CFF"@);
    } else {
        lemma_occurs_in_extended(before, config, after, "appearanceTheme"@);
    }
}

/// Whether the base theme is installed, given the text of `config.toml`, or
/// `None` when it could not be read.
pub fn check_base_theme_installed(config: Option<&str>) -> (r: bool)
    ensures
        r == (config matches Some(c) && theme_markers_present(c@)),
{
    match config {
        None => false,
        Some(c) => contains_text(c, "appearanceLightChromeTheme") && (contains_text(c, "#B65CFF")
            || contains_text(c, "appearanceTheme")),
    }
}

/// The members of the injector's `state.json` that the status reads.
#[derive(Debug, Clone)]
pub struct InjectorStateFile {
    /// `injectorPid`, when it is a non-negative integer.
    pub injector_pid: Option<u64>,
    /// `platform`, when it is a string.
    pub platform: Option<String>,
    /// `codexExe`, when it is a string.
    pub codex_exe: Option<String>,
}

/// The members of `state.json` that the status reads, from the text of the file.
pub open spec fn state_file_members(text: Seq<char>, state: InjectorStateFile) -> bool {
    &&& state.injector_pid == json_u64_member(text, "injectorPid"@)
    &&& match json_str_member(text, "platform"@) {
        Some(p) => state.platform matches Some(s) && s@ == p,
        None => state.platform is None,
    }
    &&& match json_str_member(text, "codexExe"@) {
        Some(c) => state.codex_exe matches Some(s) && s@ == c,
        None => state.codex_exe is None,
    }
}

/// Reads the injector's `state.json` from its text; a text that is not a JSON
/// object has none of the members.
pub fn injector_state_of_text(text: &str) -> (r: InjectorStateFile)
    ensures
        state_file_members(text@, r),
{
    InjectorStateFile {
        injector_pid: json_member_u64(text, "injectorPid"),
        platform: json_member_str(text, "platform"),
        codex_exe: json_member_str(text, "codexExe"),
    }
}

/// The recorded process id, cut to 32 bits as `as u32` cuts it.
pub open spec fn stored_pid(state: InjectorStateFile) -> Option<u32> {
    match state.injector_pid {
        Some(p) => Some((p % 0x1_0000_0000) as u32),
        None => None,
    }
}

/// The state file was written on Windows.
pub open spec fn written_on_windows(state: InjectorStateFile) -> bool {
    state.platform matches Some(p) && p@ == "windows"@
}

/// What is known of the injector before the process list is asked.
#[derive(Debug, Clone, Copy, PartialEq, Eq, Structural)]
pub enum InjectorProbe {
    /// The injector does not run; `recorded_pid` is the process id in the state file, if any.
    Stopped { recorded_pid: Option<u32> },
    /// The injector runs if the process list of Windows names `pid`.
    AskTasklist { pid: u32 },
}

/// The probe for a state file, or `None` when `state.json` is missing or no JSON.
pub open spec fn probe_of(state: Option<InjectorStateFile>) -> InjectorProbe {
    match state {
        None => InjectorProbe::Stopped { recorded_pid: None },
        Some(s) => if !written_on_windows(s) {
            InjectorProbe::Stopped { recorded_pid: stored_pid(s) }
        } else {
            match stored_pid(s) {
                Some(p) => InjectorProbe::AskTasklist { pid: p },
                None => InjectorProbe::Stopped { recorded_pid: None },
            }
        },
    }
}

/// Decides, from the injector's state file, whether the injector may run.
pub fn injector_probe(state: &Option<InjectorStateFile>) -> (r: InjectorProbe)
    ensures
        r == probe_of(*state),
{
    match state {
        None => InjectorProbe::Stopped { recorded_pid: None },
        Some(s) => {
            let pid: Option<u32> = match s.injector_pid {
                Some(p) => Some((p % 0x1_0000_0000) as u32),
                None => None,
            };
            let windows = match &s.platform {
                Some(p) => same_text(p.as_str(), "windows"),
                None => false,
            };
            if !windows {
                InjectorProbe::Stopped { recorded_pid: pid }
            } else {
                match pid {
                    Some(p) => InjectorProbe::AskTasklist { pid: p },
                    None => InjectorProbe::Stopped { recorded_pid: None },
                }
            }
        },
    }
}

/// The output of `tasklist /FI "PID eq <pid>"` names the process: it holds the
/// decimal process id. `None` is a `tasklist` that could not be run.
pub fn injector_running_from_tasklist(pid: u32, output: Option<&str>) -> (r: bool)
    ensures
        r == (output matches Some(o) && occurs_in(o@, decimal(pid as nat))),
{
    match output {
        None => false,
        Some(o) => {
            let digits = decimal_text(pid as u64);
            contains_text(o, digits.as_str())
        },
    }
}

/// The processes that stopping the injector ends.
#[derive(Debug, Clone, Copy, PartialEq, Eq, Structural)]
pub struct StopPlan {
    /// The injector process to end.
    pub kill_injector: Option<u32>,
    /// Whether to end Codex (`ChatGPT.exe`), which the state file says was started.
    pub kill_codex: bool,
}

/// The recorded injector process id of a state file, if it was read.
pub open spec fn recorded_pid(state: Option<InjectorStateFile>) -> Option<u32> {
    match state {
        Some(s) => stored_pid(s),
        None => None,
    }
}

/// Decides which processes stopping the injector ends.
pub fn injector_stop_plan(state: &Option<InjectorStateFile>) -> (r: StopPlan)
    ensures
        r.kill_injector == recorded_pid(*state),
        r.kill_codex == (*state matches Some(s) && s.codex_exe is Some),
{
    let kill_injector = match injector_probe(state) {
        InjectorProbe::Stopped { recorded_pid: pid } => pid,
        InjectorProbe::AskTasklist { pid } => Some(pid),
    };
    let kill_codex = match state {
        Some(s) => s.codex_exe.is_some(),
        None => false,
    };
    StopPlan { kill_injector, kill_codex }
}

} // verus!
