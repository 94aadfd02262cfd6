use codex_plus_core::dream_skin::{
    check_base_theme_installed, get_dream_skin_status, injector_probe, injector_state_of_text,
    injector_running_from_tasklist, injector_stop_plan, install_dream_skin,
    restore_dream_skin_base, stop_dream_skin_injector, InjectorProbe, InjectorStateFile,
    SkinObservation, StopPlan, DREAM_SKIN_PORT,
};

fn observed(installed: bool, running: bool, pid: Option<u32>) -> SkinObservation {
    SkinObservation { base_theme_installed: installed, injector_running: running, injector_pid: pid }
}

fn state(pid: Option<u64>, platform: Option<&str>, codex_exe: Option<&str>) -> InjectorStateFile {
    InjectorStateFile {
        injector_pid: pid,
        platform: platform.map(|p| p.to_string()),
        codex_exe: codex_exe.map(|c| c.to_string()),
    }
}

#[test]
fn check_base_theme_installed_returns_true_when_theme_markers_present() {
    let config = "[desktop]\nappearanceLightChromeTheme = \"dream\"\naccent = \"#B65CFF\"\n";
    assert!(check_base_theme_installed(Some(config)));
}

#[test]
fn base_theme_needs_the_chrome_theme_marker() {
    assert!(!check_base_theme_installed(Some("accent = \"#B65CFF\"\nappearanceTheme = 1")));
    assert!(check_base_theme_installed(Some("appearanceLightChromeTheme appearanceTheme")));
    assert!(!check_base_theme_installed(Some("appearanceLightChromeTheme only")));
    assert!(!check_base_theme_installed(Some("")));
    assert!(!check_base_theme_installed(None));
}

#[test]
fn status_of_a_running_injector() {
    let s = get_dream_skin_status(&observed(false, true, Some(42)));
    assert!(!s.base_theme_installed);
    assert!(s.injector_running);
    assert_eq!(s.injector_pid, Some(42));
    assert_eq!(s.port, 9335);
    assert_eq!(DREAM_SKIN_PORT, 9335);
    assert_eq!(s.message, "Codex 主题已激活 ✓");
}

#[test]
fn status_of_an_installed_theme() {
    let s = get_dream_skin_status(&observed(true, false, None));
    assert_eq!(s.message, "基础主题已安装，点击「重启 Codex++」🚀 自动注入主题");
    assert_eq!(s.injector_pid, None);
}

#[test]
fn status_without_theme() {
    let s = get_dream_skin_status(&observed(false, false, Some(7)));
    assert_eq!(s.message, "Codex 主题未安装，请先安装基础主题");
    assert_eq!(s.injector_pid, Some(7));
    assert_eq!(s.port, 9335);
}

#[test]
fn install_passes_failure_on() {
    let r = install_dream_skin(Err("config.toml is read-only".to_string()));
    assert_eq!(r.unwrap_err(), "config.toml is read-only");
    let s = install_dream_skin(Ok(observed(true, false, None))).unwrap();
    assert!(s.base_theme_installed);
    assert_eq!(s.message, "基础主题已安装，点击「重启 Codex++」🚀 自动注入主题");
}

#[test]
fn restore_reports_what_is_left() {
    let s = restore_dream_skin_base(Ok(observed(false, false, None))).unwrap();
    assert!(!s.base_theme_installed);
    assert_eq!(s.message, "Codex 主题未安装，请先安装基础主题");
    assert_eq!(restore_dream_skin_base(Err("x".to_string())).unwrap_err(), "x");
}

#[test]
fn stop_always_answers_with_status() {
    let s = stop_dream_skin_injector(&observed(true, false, Some(3))).unwrap();
    assert_eq!(s.injector_pid, Some(3));
    assert!(!s.injector_running);
}

#[test]
fn probe_without_state() {
    assert_eq!(injector_probe(&None), InjectorProbe::Stopped { recorded_pid: None });
}

#[test]
fn probe_of_other_platforms_never_asks() {
    let st = Some(state(Some(1234), Some("linux"), None));
    assert_eq!(injector_probe(&st), InjectorProbe::Stopped { recorded_pid: Some(1234) });
    let st = Some(state(Some(1234), None, None));
    assert_eq!(injector_probe(&st), InjectorProbe::Stopped { recorded_pid: Some(1234) });
    let st = Some(state(Some(1234), Some("Windows"), None));
    assert_eq!(injector_probe(&st), InjectorProbe::Stopped { recorded_pid: Some(1234) });
}

#[test]
fn probe_on_windows_asks_the_process_list() {
    let st = Some(state(Some(1234), Some("windows"), None));
    assert_eq!(injector_probe(&st), InjectorProbe::AskTasklist { pid: 1234 });
    let st = Some(state(None, Some("windows"), None));
    assert_eq!(injector_probe(&st), InjectorProbe::Stopped { recorded_pid: None });
}

#[test]
fn probe_cuts_the_pid_to_32_bits() {
    let st = Some(state(Some(4_294_967_296 + 5), Some("windows"), None));
    assert_eq!(injector_probe(&st), InjectorProbe::AskTasklist { pid: 5 });
}

#[test]
fn tasklist_output_names_the_pid() {
    let out = "node.exe                      1234 Console    1     45,000 K";
    assert!(injector_running_from_tasklist(1234, Some(out)));
    assert!(!injector_running_from_tasklist(4321, Some(out)));
    assert!(!injector_running_from_tasklist(1234, Some("INFO: No tasks are running")));
    assert!(!injector_running_from_tasklist(1234, None));
    assert!(injector_running_from_tasklist(0, Some("pid 0")));
}

#[test]
fn stop_plan_ends_the_recorded_processes() {
    let st = Some(state(Some(99), Some("linux"), Some("C:\\Codex\\ChatGPT.exe")));
    assert_eq!(injector_stop_plan(&st), StopPlan { kill_injector: Some(99), kill_codex: true });
    let st = Some(state(None, Some("windows"), None));
    assert_eq!(injector_stop_plan(&st), StopPlan { kill_injector: None, kill_codex: false });
    assert_eq!(injector_stop_plan(&None), StopPlan { kill_injector: None, kill_codex: false });
}

#[test]
fn state_file_text_is_read() {
    let text = "{\n  \"injectorPid\": 4242,\n  \"platform\": \"windows\",\n  \"codexExe\": \"\",\n  \"port\": 9335\n}";
    let st = injector_state_of_text(text);
    assert_eq!(st.injector_pid, Some(4242));
    assert_eq!(st.platform.as_deref(), Some("windows"));
    assert_eq!(st.codex_exe.as_deref(), Some(""));
    assert_eq!(injector_probe(&Some(st)), InjectorProbe::AskTasklist { pid: 4242 });
}

#[test]
fn state_file_members_of_other_types_are_absent() {
    let st = injector_state_of_text("{\"injectorPid\": -3, \"platform\": 1}");
    assert_eq!(st.injector_pid, None);
    assert_eq!(st.platform, None);
    assert_eq!(st.codex_exe, None);
    let st = injector_state_of_text("{\"injectorPid\": 12.5}");
    assert_eq!(st.injector_pid, None);
}

#[test]
fn state_file_that_is_not_an_object() {
    for text in ["", "not json", "[4242, \"windows\"]", "4242"] {
        let st = injector_state_of_text(text);
        assert_eq!(st.injector_pid, None);
        assert_eq!(st.platform, None);
        assert_eq!(injector_probe(&Some(st)), InjectorProbe::Stopped { recorded_pid: None });
    }
}
