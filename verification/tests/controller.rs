use effect::config::AppConfig;
use effect::controller::{Command, Controller, Event, NoticeKind, Reaction, Status};

fn config(path: Option<&str>) -> AppConfig {
    AppConfig { selected_path: path.map(String::from) }
}

fn is_quiet(r: &Reaction) -> bool {
    !r.stop_wallpaper
        && r.path_text.is_none()
        && !r.refresh_desktop
        && r.status.is_none()
        && r.notice.is_none()
        && r.command.is_none()
        && !r.exit
}

fn status_text(r: &Reaction) -> String {
    r.status.as_ref().expect("a status").text()
}

/// A manager that has applied `/srv/clouds` successfully.
fn running() -> Controller {
    let (mut c, _) = Controller::startup(config(Some("/srv/clouds")), false);
    c.step(Event::ApplyClicked);
    c.step(Event::BackupChecked(false));
    c.step(Event::BackupSaved(Ok(())));
    let r = c.step(Event::WallpaperStarted(Ok(())));
    assert_eq!(status_text(&r), "● 正在运行：clouds");
    c
}

#[test]
fn startup_shows_selection_and_backup() {
    let (_, r) = Controller::startup(config(Some("/srv/clouds")), true);
    assert_eq!(r.path_text.as_deref(), Some("/srv/clouds"));
    assert_eq!(status_text(&r), "● 检测到壁纸备份，可点击“停止并恢复”");
    let (_, r) = Controller::startup(config(None), false);
    assert_eq!(r.path_text.as_deref(), Some(""));
    assert_eq!(status_text(&r), "● 已停止");
}

#[test]
fn choosing_saves_the_selection() {
    let (mut c, _) = Controller::startup(config(None), false);
    let r = c.step(Event::Selected("/srv/a.html".to_string()));
    assert_eq!(r.path_text.as_deref(), Some("/srv/a.html"));
    match r.command {
        Some(Command::SaveConfig(saved)) => assert_eq!(saved.selected_path.as_deref(), Some("/srv/a.html")),
        _ => panic!("the choice is saved"),
    }
    let r = c.step(Event::ConfigSaved(true));
    assert_eq!(status_text(&r), "● 已选择，点击“应用”开始");
    let r = c.step(Event::Selected("/srv/b.html".to_string()));
    assert!(r.command.is_some());
    let r = c.step(Event::ConfigSaved(false));
    assert_eq!(status_text(&r), "● 已选择，但保存配置失败");
}

#[test]
fn apply_without_selection_fails() {
    let (mut c, _) = Controller::startup(config(None), false);
    let r = c.step(Event::ApplyClicked);
    assert_eq!(status_text(&r), "● 应用失败");
    let notice = r.notice.unwrap();
    assert!(matches!(notice.kind, NoticeKind::ApplyFailed));
    assert_eq!(notice.kind.title(), "无法应用动态壁纸");
    assert_eq!(notice.message, "请先选择 HTML 文件或目录");
    assert!(r.command.is_none() && !r.stop_wallpaper);
}

#[test]
fn apply_backs_up_only_when_no_backup_exists() {
    let (mut c, _) = Controller::startup(config(Some("/srv/clouds")), false);
    let r = c.step(Event::ApplyClicked);
    assert!(!r.stop_wallpaper);
    assert!(matches!(r.command, Some(Command::CheckBackup)));
    let r = c.step(Event::BackupChecked(false));
    assert!(matches!(r.command, Some(Command::SaveBackup)));
    let r = c.step(Event::BackupSaved(Ok(())));
    assert!(matches!(r.command, Some(Command::StartWallpaper(ref p)) if p == "/srv/clouds"));

    let (mut c, _) = Controller::startup(config(Some("/srv/clouds")), true);
    c.step(Event::ApplyClicked);
    let r = c.step(Event::BackupChecked(true));
    assert!(matches!(r.command, Some(Command::StartWallpaper(ref p)) if p == "/srv/clouds"));
}

#[test]
fn failed_backup_fails_the_apply() {
    let (mut c, _) = Controller::startup(config(Some("/srv/clouds")), false);
    c.step(Event::ApplyClicked);
    c.step(Event::BackupChecked(false));
    let r = c.step(Event::BackupSaved(Err("access denied".to_string())));
    assert_eq!(status_text(&r), "● 应用失败");
    assert_eq!(r.notice.unwrap().message, "access denied");
    assert!(r.command.is_none() && !r.refresh_desktop);
}

#[test]
fn failed_start_restores_the_backup() {
    let (mut c, _) = Controller::startup(config(Some("/srv/notes.txt")), false);
    c.step(Event::ApplyClicked);
    c.step(Event::BackupChecked(true));
    let r = c.step(Event::WallpaperStarted(Err("请选择 HTML 文件或包含 index.html 的目录".to_string())));
    assert!(matches!(r.command, Some(Command::RestoreBackup)));
    assert!(r.status.is_none());
    let r = c.step(Event::BackupRestored(Ok(true)));
    assert!(r.refresh_desktop);
    assert_eq!(status_text(&r), "● 应用失败");
    let notice = r.notice.unwrap();
    assert!(matches!(notice.kind, NoticeKind::ApplyFailed));
    assert_eq!(notice.message, "请选择 HTML 文件或包含 index.html 的目录");
    assert!(!r.exit);
    let r = c.step(Event::BackupRestored(Ok(true)));
    assert!(is_quiet(&r));
}

#[test]
fn stop_restores_and_keeps_the_window_open() {
    let mut c = running();
    let r = c.step(Event::StopClicked);
    assert!(r.stop_wallpaper);
    assert!(matches!(r.command, Some(Command::RestoreBackup)));
    assert!(!r.exit);
    let r = c.step(Event::BackupRestored(Ok(true)));
    assert!(r.refresh_desktop && !r.exit);
    assert_eq!(status_text(&r), "● 已停止，并恢复之前的静态壁纸");
    // The manager can apply again.
    let r = c.step(Event::ApplyClicked);
    assert!(!r.stop_wallpaper);
    assert!(matches!(r.command, Some(Command::CheckBackup)));
}

#[test]
fn stop_without_backup_just_stops() {
    let (mut c, _) = Controller::startup(config(None), false);
    let r = c.step(Event::StopClicked);
    assert!(!r.stop_wallpaper);
    let r = c.step(Event::BackupRestored(Ok(false)));
    assert_eq!(status_text(&r), "● 已停止");
    assert!(r.refresh_desktop && !r.exit);
}

#[test]
fn failed_restore_on_stop_is_reported() {
    let mut c = running();
    c.step(Event::StopClicked);
    let r = c.step(Event::BackupRestored(Err("bad backup".to_string())));
    assert_eq!(status_text(&r), "● 恢复失败");
    let notice = r.notice.unwrap();
    assert!(matches!(notice.kind, NoticeKind::RestoreFailed));
    assert_eq!(notice.kind.title(), "无法恢复静态壁纸");
    assert!(!r.refresh_desktop && !r.exit);
}

#[test]
fn close_stops_restores_and_exits() {
    let mut c = running();
    let r = c.step(Event::CloseRequested);
    assert!(r.stop_wallpaper);
    assert!(matches!(r.command, Some(Command::RestoreBackup)));
    assert!(!r.exit);
    let r = c.step(Event::BackupRestored(Ok(true)));
    assert!(r.exit && r.refresh_desktop);
}

#[test]
fn close_stays_open_when_restore_fails() {
    let mut c = running();
    c.step(Event::CloseRequested);
    let r = c.step(Event::BackupRestored(Err("locked".to_string())));
    assert!(!r.exit);
    assert!(r.status.is_none());
    let notice = r.notice.unwrap();
    assert!(matches!(notice.kind, NoticeKind::ExitRestoreFailed));
    assert_eq!(notice.kind.title(), "退出前无法恢复静态壁纸");
    assert_eq!(notice.message, "locked");
}

#[test]
fn new_selection_while_running_switches_directly() {
    let mut c = running();
    c.step(Event::Selected("/srv/rain".to_string()));
    c.step(Event::ConfigSaved(true));
    let r = c.step(Event::ApplyClicked);
    assert!(r.stop_wallpaper);
    let r = c.step(Event::BackupChecked(true));
    assert!(matches!(r.command, Some(Command::StartWallpaper(ref p)) if p == "/srv/rain"));
    let r = c.step(Event::WallpaperStarted(Ok(())));
    assert_eq!(status_text(&r), "● 正在运行：rain");
}

#[test]
fn unexpected_events_change_nothing() {
    let (mut c, _) = Controller::startup(config(Some("/srv/clouds")), false);
    assert!(is_quiet(&c.step(Event::BackupChecked(true))));
    assert!(is_quiet(&c.step(Event::WallpaperStarted(Ok(())))));
    assert!(is_quiet(&c.step(Event::ConfigSaved(true))));
    c.step(Event::ApplyClicked);
    assert!(is_quiet(&c.step(Event::StopClicked)));
    assert!(is_quiet(&c.step(Event::Selected("/x".to_string()))));
    let r = c.step(Event::BackupChecked(true));
    assert!(matches!(r.command, Some(Command::StartWallpaper(_))));
}

#[test]
fn status_texts() {
    assert_eq!(Status::Stopped.text(), "● 已停止");
    assert_eq!(Status::Selected.text(), "● 已选择，点击“应用”开始");
    assert_eq!(Status::Running("index.html".to_string()).text(), "● 正在运行：index.html");
    assert_eq!(Status::StoppedRestored.text(), "● 已停止，并恢复之前的静态壁纸");
}
