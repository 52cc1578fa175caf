use game_time_manager::tray::{MenuChoice, TrayAction, TrayMenu};

#[test]
fn menu_starts_from_service_state() {
    let m = TrayMenu::new(true);
    assert_eq!(m, TrayMenu { start: false, stop: true, enable_run: false, disable_run: true });
    let m = TrayMenu::new(false);
    assert_eq!(m, TrayMenu { start: true, stop: false, enable_run: false, disable_run: true });
}

#[test]
fn clicks_switch_items() {
    let mut m = TrayMenu::new(false);
    assert_eq!(m.click(MenuChoice::Start), TrayAction::StartService);
    assert!(!m.start && m.stop);
    assert_eq!(m.click(MenuChoice::Stop), TrayAction::StopService);
    assert!(m.start && !m.stop);
    assert_eq!(m.click(MenuChoice::DisableRun), TrayAction::RemoveRunOnStart);
    assert!(m.enable_run && !m.disable_run);
    assert_eq!(m.click(MenuChoice::EnableRun), TrayAction::RegisterRunOnStart);
    assert!(!m.enable_run && m.disable_run);
    let before = m;
    assert_eq!(m.click(MenuChoice::Settings), TrayAction::OpenSettings);
    assert_eq!(m, before);
}

#[test]
fn refresh_reads_the_system() {
    let mut m = TrayMenu::new(false);
    m.refresh(true, false);
    assert_eq!(m, TrayMenu { start: false, stop: true, enable_run: true, disable_run: false });
    m.refresh(false, true);
    assert_eq!(m, TrayMenu { start: true, stop: false, enable_run: false, disable_run: true });
}
