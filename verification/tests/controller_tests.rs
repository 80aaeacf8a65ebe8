//! The dashboard controller: filtering, selection, search, modal
//! workflows, and the key mapping.

use systrix::actions::{ActionError, ProcessManager};
use systrix::event::{EventHandler, KeyInput};
use systrix::monitor::{
    BatteryInfo, CpuSnapshot, DiskInfo, DiskSnapshot, MemorySnapshot, NetworkSnapshot, ProcessInfo,
};
use systrix::ui::{ModalType, Theme, Ui};

fn proc(pid: u32, name: &str, user: &str) -> ProcessInfo {
    ProcessInfo {
        pid,
        name: name.to_string(),
        user: user.to_string(),
        cpu_usage: 12,
        memory_usage: 3,
        disk_read: 512,
        disk_write: 0,
        threads: 2,
        status: "Running".to_string(),
        start_time: 0,
        exe_path: format!("/usr/bin/{}", name),
    }
}

fn cpu_snap() -> CpuSnapshot {
    CpuSnapshot::compute(
        "model".to_string(),
        1,
        1,
        10,
        1000,
        vec![10],
        (0, 0, 0),
        0,
        "os".to_string(),
        "host".to_string(),
    )
}

fn feed(ui: &mut Ui, procs: Vec<ProcessInfo>) {
    let battery: Option<BatteryInfo> = None;
    let disks: Vec<DiskInfo> = Vec::new();
    ui.apply_snapshots(
        cpu_snap(),
        MemorySnapshot::compute(100, 50, 0, 0),
        DiskSnapshot::aggregate(&Vec::new()),
        NetworkSnapshot::aggregate(Vec::new()),
        battery,
        procs,
        disks,
    );
}

fn three_procs() -> Vec<ProcessInfo> {
    vec![
        proc(10, "chrome_helper", "alice"),
        proc(11, "bash", "chrome"),
        proc(12, "vim", "bob"),
    ]
}

/// A manager that must never be consulted.
struct PanicManager;

impl ProcessManager for PanicManager {
    fn kill_process(&self, _pid: u32, _signal: &str) -> Result<(), ActionError> {
        panic!("the provider must not be reached");
    }
    fn suspend_process(&self, _pid: u32) -> Result<(), ActionError> {
        panic!("the provider must not be reached");
    }
    fn resume_process(&self, _pid: u32) -> Result<(), ActionError> {
        panic!("the provider must not be reached");
    }
}

/// A manager that always succeeds.
struct OkManager;

impl ProcessManager for OkManager {
    fn kill_process(&self, _pid: u32, _signal: &str) -> Result<(), ActionError> {
        Ok(())
    }
    fn suspend_process(&self, _pid: u32) -> Result<(), ActionError> {
        Ok(())
    }
    fn resume_process(&self, _pid: u32) -> Result<(), ActionError> {
        Ok(())
    }
}

/// A manager that always refuses with a permission error.
struct DenyManager;

impl ProcessManager for DenyManager {
    fn kill_process(&self, _pid: u32, _signal: &str) -> Result<(), ActionError> {
        Err(ActionError::PermissionDenied)
    }
    fn suspend_process(&self, _pid: u32) -> Result<(), ActionError> {
        Err(ActionError::PermissionDenied)
    }
    fn resume_process(&self, _pid: u32) -> Result<(), ActionError> {
        Err(ActionError::PermissionDenied)
    }
}

#[test]
fn test_search_filter_matches_name_and_user() {
    let mut ui = Ui::with_refresh_interval(500);
    ui.set_active_panel(1);
    feed(&mut ui, three_procs());
    ui.start_search();
    for c in "chrome".chars() {
        ui.search_input(c);
    }
    assert_eq!(ui.filtered_process_indices, vec![0, 1]);
    assert_eq!(ui.selected_process_index, 0);
}

#[test]
fn test_escape_clears_search_and_restores_view() {
    let mut ui = Ui::with_refresh_interval(500);
    ui.set_active_panel(1);
    feed(&mut ui, three_procs());
    ui.start_search();
    for c in "vim".chars() {
        ui.search_input(c);
    }
    assert_eq!(ui.filtered_process_indices, vec![2]);
    ui.cancel_action();
    assert!(!ui.search_mode);
    assert_eq!(ui.search_query, "");
    assert_eq!(ui.filtered_process_indices, vec![0, 1, 2]);
}

#[test]
fn test_search_key_outside_processes_panel() {
    let mut ui = Ui::with_refresh_interval(500);
    feed(&mut ui, three_procs());
    assert_eq!(ui.active_panel, 0);
    let handler = EventHandler::new(500);
    let quit = handler.handle_key(KeyInput::Char('/'), &mut ui, &PanicManager);
    assert!(!quit);
    assert!(!ui.search_mode);
    assert_eq!(ui.search_query, "");
}

#[test]
fn test_cursor_clamped_after_refresh() {
    let mut ui = Ui::with_refresh_interval(500);
    ui.set_active_panel(1);
    feed(&mut ui, three_procs());
    ui.scroll_to_bottom();
    assert_eq!(ui.selected_process_index, 2);
    feed(&mut ui, vec![proc(20, "only", "root")]);
    assert_eq!(ui.selected_process_index, 0);
    assert_eq!(ui.filtered_process_indices, vec![0]);
}

#[test]
fn test_empty_view_pins_cursor_and_disables_actions() {
    let mut ui = Ui::with_refresh_interval(500);
    ui.set_active_panel(1);
    feed(&mut ui, three_procs());
    ui.start_search();
    for c in "zzz".chars() {
        ui.search_input(c);
    }
    assert!(ui.filtered_process_indices.is_empty());
    assert_eq!(ui.selected_process_index, 0);
    ui.cancel_action(); // leave search so the kill key would be live
    ui.start_search();
    for c in "zzz".chars() {
        ui.search_input(c);
    }
    ui.kill_selected_process();
    assert!(!ui.show_modal);
    assert_eq!(ui.pending_kill_pid, None);
    ui.show_details();
    assert!(!ui.show_modal);
}

#[test]
fn test_theme_cycles_back_after_three_toggles() {
    let mut ui = Ui::with_refresh_interval(500);
    assert_eq!(ui.theme, Theme::Dark);
    ui.toggle_theme();
    assert_eq!(ui.theme, Theme::Light);
    ui.toggle_theme();
    assert_eq!(ui.theme, Theme::Dracula);
    ui.toggle_theme();
    assert_eq!(ui.theme, Theme::Dark);
}

#[test]
fn test_pause_toggle_twice_restores_acquisition() {
    let mut ui = Ui::with_refresh_interval(500);
    ui.toggle_pause();
    assert!(ui.paused);
    feed(&mut ui, three_procs());
    assert!(ui.process_data.is_empty());
    ui.toggle_pause();
    assert!(!ui.paused);
    feed(&mut ui, three_procs());
    assert_eq!(ui.process_data.len(), 3);
}

#[test]
fn test_kill_system_process_rejected_before_provider() {
    let mut ui = Ui::with_refresh_interval(500);
    ui.set_active_panel(1);
    feed(&mut ui, vec![proc(1, "init", "root")]);
    ui.kill_selected_process();
    assert_eq!(ui.pending_kill_pid, Some(1));
    assert_eq!(ui.modal_type, ModalType::KillConfirm);
    ui.confirm_kill(&PanicManager);
    assert_eq!(ui.pending_kill_pid, None);
    assert_eq!(ui.modal_type, ModalType::ProcessDetail);
    assert!(ui.modal_message.contains("system process"));
}

#[test]
fn test_confirmed_kill_reaches_provider() {
    let mut ui = Ui::with_refresh_interval(500);
    ui.set_active_panel(1);
    feed(&mut ui, vec![proc(42, "stale", "bob")]);
    ui.kill_selected_process();
    assert!(ui.modal_message.contains("stale"));
    assert!(ui.modal_message.contains("42"));
    ui.confirm_kill(&OkManager);
    assert_eq!(ui.modal_message, "Process 42 terminated.");
    assert_eq!(ui.pending_kill_pid, None);
}

#[test]
fn test_failed_kill_reports_cause() {
    let mut ui = Ui::with_refresh_interval(500);
    ui.set_active_panel(1);
    feed(&mut ui, vec![proc(42, "stale", "bob")]);
    ui.kill_selected_process();
    ui.confirm_kill(&DenyManager);
    assert_eq!(ui.modal_message, "Failed to kill process 42: permission denied");
}

#[test]
fn test_suspend_and_resume_report_outcomes() {
    let mut ui = Ui::with_refresh_interval(500);
    ui.set_active_panel(1);
    feed(&mut ui, vec![proc(7, "vim", "bob")]);
    ui.suspend_selected_process(&OkManager);
    assert_eq!(ui.modal_message, "Process vim (PID 7) suspended.");
    ui.resume_selected_process(&DenyManager);
    assert_eq!(
        ui.modal_message,
        "Failed to resume process vim (PID 7): permission denied"
    );
    assert_eq!(ui.modal_type, ModalType::ProcessDetail);
}

#[test]
fn test_show_details_message() {
    let mut ui = Ui::with_refresh_interval(500);
    ui.set_active_panel(1);
    feed(&mut ui, vec![proc(7, "vim", "bob")]);
    ui.show_details();
    assert_eq!(
        ui.modal_message,
        "PID: 7\nName: vim\nUser: bob\nCPU: 12%\nMemory: 3%\nDisk Read: 512 B\nDisk Write: 0 B\nThreads: 2\nStatus: Running\nExecutable: /usr/bin/vim"
    );
    assert_eq!(ui.modal_type, ModalType::ProcessDetail);
}

#[test]
fn test_navigation_bounds() {
    let mut ui = Ui::with_refresh_interval(500);
    ui.set_active_panel(1);
    feed(&mut ui, three_procs());
    ui.scroll_up();
    assert_eq!(ui.selected_process_index, 0);
    ui.scroll_down();
    ui.scroll_down();
    ui.scroll_down();
    assert_eq!(ui.selected_process_index, 2);
    ui.page_down();
    assert_eq!(ui.selected_process_index, 2);
    ui.page_up();
    assert_eq!(ui.selected_process_index, 0);
    ui.scroll_to_bottom();
    assert_eq!(ui.selected_process_index, 2);
    ui.scroll_to_top();
    assert_eq!(ui.selected_process_index, 0);
}

#[test]
fn test_panel_keys_and_wrapping() {
    let mut ui = Ui::with_refresh_interval(500);
    let handler = EventHandler::new(500);
    assert!(!handler.handle_key(KeyInput::Char('3'), &mut ui, &PanicManager));
    assert_eq!(ui.active_panel, 2);
    assert!(!handler.handle_key(KeyInput::Tab, &mut ui, &PanicManager));
    assert_eq!(ui.active_panel, 3);
    ui.set_active_panel(4);
    assert!(!handler.handle_key(KeyInput::Tab, &mut ui, &PanicManager));
    assert_eq!(ui.active_panel, 0);
}

#[test]
fn test_settings_category_keys() {
    let mut ui = Ui::with_refresh_interval(500);
    let handler = EventHandler::new(500);
    ui.set_active_panel(4);
    assert_eq!(ui.settings_state.selected_category, 0);
    handler.handle_key(KeyInput::Char('3'), &mut ui, &PanicManager);
    assert_eq!(ui.active_panel, 4);
    assert_eq!(ui.settings_state.selected_category, 2);
    handler.handle_key(KeyInput::Down, &mut ui, &PanicManager);
    assert_eq!(ui.settings_state.selected_category, 3);
    handler.handle_key(KeyInput::PageDown, &mut ui, &PanicManager);
    assert_eq!(ui.settings_state.selected_category, 4);
    handler.handle_key(KeyInput::Down, &mut ui, &PanicManager);
    assert_eq!(ui.settings_state.selected_category, 4);
}

#[test]
fn test_modal_blocks_panel_keys() {
    let mut ui = Ui::with_refresh_interval(500);
    ui.set_active_panel(1);
    feed(&mut ui, three_procs());
    ui.show_details();
    assert!(ui.show_modal);
    let handler = EventHandler::new(500);
    handler.handle_key(KeyInput::Char('3'), &mut ui, &PanicManager);
    assert_eq!(ui.active_panel, 1);
    handler.handle_key(KeyInput::Tab, &mut ui, &PanicManager);
    assert_eq!(ui.active_panel, 1);
    handler.handle_key(KeyInput::Esc, &mut ui, &PanicManager);
    assert!(!ui.show_modal);
    handler.handle_key(KeyInput::Char('3'), &mut ui, &PanicManager);
    assert_eq!(ui.active_panel, 2);
}

#[test]
fn test_quit_keys() {
    let mut ui = Ui::with_refresh_interval(500);
    let handler = EventHandler::new(500);
    assert!(handler.handle_key(KeyInput::Char('q'), &mut ui, &PanicManager));
    assert!(handler.handle_key(KeyInput::Char('Q'), &mut ui, &PanicManager));
    assert!(handler.handle_key(KeyInput::CtrlC, &mut ui, &PanicManager));
    assert!(!handler.handle_key(KeyInput::Char('x'), &mut ui, &PanicManager));
}

#[test]
fn test_search_typing_through_keys() {
    let mut ui = Ui::with_refresh_interval(500);
    ui.set_active_panel(1);
    feed(&mut ui, three_procs());
    let handler = EventHandler::new(500);
    handler.handle_key(KeyInput::Char('/'), &mut ui, &PanicManager);
    assert!(ui.search_mode);
    handler.handle_key(KeyInput::Char('b'), &mut ui, &PanicManager);
    handler.handle_key(KeyInput::Char('o'), &mut ui, &PanicManager);
    assert_eq!(ui.search_query, "bo");
    assert_eq!(ui.filtered_process_indices, vec![2]);
    handler.handle_key(KeyInput::Backspace, &mut ui, &PanicManager);
    assert_eq!(ui.search_query, "b");
    assert_eq!(ui.filtered_process_indices, vec![1, 2]);
}

#[test]
fn test_confirm_key_through_handler() {
    let mut ui = Ui::with_refresh_interval(500);
    ui.set_active_panel(1);
    feed(&mut ui, vec![proc(42, "stale", "bob")]);
    let handler = EventHandler::new(500);
    handler.handle_key(KeyInput::Char('k'), &mut ui, &OkManager);
    assert_eq!(ui.modal_type, ModalType::KillConfirm);
    handler.handle_key(KeyInput::Char('y'), &mut ui, &OkManager);
    assert_eq!(ui.modal_message, "Process 42 terminated.");
    assert_eq!(ui.pending_kill_pid, None);
}

#[test]
fn test_export_report() {
    let mut ui = Ui::with_refresh_interval(500);
    ui.report_export_result(Ok("out/report.json".to_string()));
    assert_eq!(ui.modal_message, "Exported to out/report.json");
    ui.report_export_result(Err("disk full".to_string()));
    assert_eq!(ui.modal_message, "Export failed: disk full");
}
