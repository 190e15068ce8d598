use effect::desktop::{
    com_init_outcome, restore_plan, ComInit, DesktopBackup, DesktopCommand, MonitorWallpaper,
    RPC_E_CHANGED_MODE,
};

fn monitor(id: &str, path: &str) -> MonitorWallpaper {
    MonitorWallpaper { monitor_id: id.to_string(), wallpaper_path: path.to_string() }
}

#[test]
fn capture_keeps_what_was_read() {
    let backup = DesktopBackup::capture(vec![monitor("m1", "C:\\w1.jpg")], 4, 0x00ff00);
    assert_eq!(backup.monitors.len(), 1);
    assert_eq!(backup.monitors[0].monitor_id, "m1");
    assert_eq!(backup.position, 4);
    assert_eq!(backup.background_color, 0x00ff00);
}

#[test]
fn restore_sets_position_colour_then_each_monitor() {
    let backup = DesktopBackup::capture(
        vec![monitor("m1", "C:\\w1.jpg"), monitor("m2", "C:\\w2.png")],
        2,
        0x123456,
    );
    let plan = restore_plan(&backup);
    assert_eq!(plan.len(), 4);
    assert!(matches!(plan[0], DesktopCommand::SetPosition(2)));
    assert!(matches!(plan[1], DesktopCommand::SetBackgroundColor(0x123456)));
    match &plan[2] {
        DesktopCommand::SetWallpaper { monitor_id, wallpaper_path } => {
            assert_eq!(monitor_id, "m1");
            assert_eq!(wallpaper_path, "C:\\w1.jpg");
        }
        _ => panic!("third command sets the first monitor"),
    }
    match &plan[3] {
        DesktopCommand::SetWallpaper { monitor_id, wallpaper_path } => {
            assert_eq!(monitor_id, "m2");
            assert_eq!(wallpaper_path, "C:\\w2.png");
        }
        _ => panic!("fourth command sets the second monitor"),
    }
}

#[test]
fn restore_of_a_backup_without_monitors() {
    let backup = DesktopBackup::capture(Vec::new(), -1, 0);
    let plan = restore_plan(&backup);
    assert_eq!(plan.len(), 2);
    assert!(matches!(plan[0], DesktopCommand::SetPosition(-1)));
}

#[test]
fn com_initialisation_outcomes() {
    assert!(matches!(com_init_outcome(0), ComInit::Initialized));
    assert!(matches!(com_init_outcome(1), ComInit::Initialized));
    assert!(matches!(com_init_outcome(RPC_E_CHANGED_MODE), ComInit::InOtherMode));
    assert_eq!(RPC_E_CHANGED_MODE, 0x80010106u32 as i32);
    assert!(matches!(com_init_outcome(0x80004005u32 as i32), ComInit::Failed(code) if code == 0x80004005u32 as i32));
}

#[derive(Clone, PartialEq, Debug)]
struct FakeDesktop {
    position: i32,
    color: u32,
    wallpapers: std::collections::BTreeMap<String, String>,
}

fn apply(desktop: &mut FakeDesktop, plan: &[DesktopCommand]) {
    for command in plan {
        match command {
            DesktopCommand::SetPosition(p) => desktop.position = *p,
            DesktopCommand::SetBackgroundColor(c) => desktop.color = *c,
            DesktopCommand::SetWallpaper { monitor_id, wallpaper_path } => {
                desktop.wallpapers.insert(monitor_id.clone(), wallpaper_path.clone());
            }
        }
    }
}

#[test]
fn restoring_a_backup_reinstates_the_desktop() {
    let mut original = FakeDesktop { position: 3, color: 7, wallpapers: Default::default() };
    original.wallpapers.insert("m1".into(), "C:\\a.jpg".into());
    original.wallpapers.insert("m2".into(), "C:\\b.jpg".into());
    let monitors = original
        .wallpapers
        .iter()
        .map(|(id, path)| monitor(id, path))
        .collect();
    let backup = DesktopBackup::capture(monitors, original.position, original.color);

    let mut changed = original.clone();
    changed.position = 0;
    changed.color = 99;
    changed.wallpapers.insert("m1".into(), "C:\\dynamic.png".into());
    changed.wallpapers.insert("m2".into(), String::new());
    apply(&mut changed, &restore_plan(&backup));
    assert_eq!(changed, original);
}
