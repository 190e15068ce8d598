//! The static desktop wallpaper: what a backup of it holds, the commands that
//! put a backup back, and how the COM initialisation that surrounds every
//! access to the desktop wallpaper object is judged.
use vstd::prelude::*;

verus! {

/// The wallpaper shown on one monitor.
pub struct MonitorWallpaper {
    pub monitor_id: String,
    pub wallpaper_path: String,
}

/// A backup of the static wallpaper: one image per monitor, the position mode and the
/// background colour.
pub struct DesktopBackup {
    pub monitors: Vec<MonitorWallpaper>,
    pub position: i32,
    pub background_color: u32,
}

/// One change to the desktop wallpaper object.
pub enum DesktopCommand {
    SetPosition(i32),
    SetBackgroundColor(u32),
    SetWallpaper { monitor_id: String, wallpaper_path: String },
}

/// The desktop's wallpaper settings, as far as a backup concerns them.
pub struct DesktopState {
    pub position: i32,
    pub background_color: u32,
    pub wallpapers: Map<Seq<char>, Seq<char>>,
}

/// What one command leaves of a desktop.
pub open spec fn apply_command(state: DesktopState, command: DesktopCommand) -> DesktopState {
    match command {
        DesktopCommand::SetPosition(position) => DesktopState { position, ..state },
        DesktopCommand::SetBackgroundColor(background_color) => DesktopState {
            background_color,
            ..state
        },
        DesktopCommand::SetWallpaper { monitor_id, wallpaper_path } => DesktopState {
            wallpapers: state.wallpapers.insert(monitor_id@, wallpaper_path@),
            ..state
        },
    }
}

/// What a sequence of commands, carried out in order, leaves of a desktop.
pub open spec fn apply_commands(state: DesktopState, commands: Seq<DesktopCommand>) -> DesktopState
    decreases commands.len(),
{
    if commands.len() == 0 {
        state
    } else {
        apply_commands(apply_command(state, commands[0]), commands.drop_first())
    }
}

/// The command that puts back one monitor's wallpaper.
pub open spec fn wallpaper_command(monitor: MonitorWallpaper) -> DesktopCommand {
    DesktopCommand::SetWallpaper {
        monitor_id: monitor.monitor_id,
        wallpaper_path: monitor.wallpaper_path,
    }
}

/// The commands that restore a backup: position, then background colour, then each
/// monitor's wallpaper in the order of the backup.
pub open spec fn spec_restore_plan(backup: DesktopBackup) -> Seq<DesktopCommand> {
    seq![
        DesktopCommand::SetPosition(backup.position),
        DesktopCommand::SetBackgroundColor(backup.background_color),
    ] + backup.monitors@.map_values(|m: MonitorWallpaper| wallpaper_command(m))
}

/// A backup was taken of a desktop: it holds the desktop's position and colour, and
/// each monitor it lists with that monitor's wallpaper.
pub open spec fn captures(backup: DesktopBackup, state: DesktopState) -> bool {
    &&& backup.position == state.position
    &&& backup.background_color == state.background_color
    &&& forall|i: int|
        0 <= i < backup.monitors@.len() ==> {
            let m = #[trigger] backup.monitors@[i];
            state.wallpapers.contains_key(m.monitor_id@) && state.wallpapers[m.monitor_id@]
                == m.wallpaper_path@
        }
}

/// Two desktops agree on everything that a backup records.
pub open spec fn agrees_on(backup: DesktopBackup, a: DesktopState, b: DesktopState) -> bool {
    &&& a.position == b.position
    &&& a.background_color == b.background_color
    &&& forall|i: int|
        0 <= i < backup.monitors@.len() ==> {
            let id = (#[trigger] backup.monitors@[i]).monitor_id@;
            a.wallpapers.contains_key(id) && b.wallpapers.contains_key(id) && a.wallpapers[id]
                == b.wallpapers[id]
        }
}

impl DesktopBackup {
    /// A backup of the wallpapers read monitor by monitor, with the position mode and
    /// background colour.
    pub fn capture(monitors: Vec<MonitorWallpaper>, position: i32, background_color: u32) -> (r:
        DesktopBackup)
        ensures
            r.monitors@ == monitors@,
            r.position == position,
            r.background_color == background_color,
    {
        DesktopBackup { monitors, position, background_color }
    }
}

/// The commands that put a backup back on the desktop.
pub fn restore_plan(backup: &DesktopBackup) -> (plan: Vec<DesktopCommand>)
    ensures
        plan@ == spec_restore_plan(*backup),
{
    let mut plan: Vec<DesktopCommand> = Vec::new();
    plan.push(DesktopCommand::SetPosition(backup.position));
    plan.push(DesktopCommand::SetBackgroundColor(backup.background_color));
    let n = backup.monitors.len();
    let ghost head = seq![
        DesktopCommand::SetPosition(backup.position),
        DesktopCommand::SetBackgroundColor(backup.background_color),
    ];
    for i in 0..n
        invariant
            n == backup.monitors@.len(),
            plan@ == head + backup.monitors@.take(i as int).map_values(
                |m: MonitorWallpaper| wallpaper_command(m),
            ),
    {
        let monitor = &backup.monitors[i];
        plan.push(
            DesktopCommand::SetWallpaper {
                monitor_id: monitor.monitor_id.clone(),
                wallpaper_path: monitor.wallpaper_path.clone(),
            },
        );
        assert(backup.monitors@.take(i + 1) =~= backup.monitors@.take(i as int).push(
            backup.monitors@[i as int],
        ));
    }
    assert(backup.monitors@.take(n as int) =~= backup.monitors@);
    plan
}

/// Carrying out the wallpaper commands of monitors `i..` keeps what every earlier
/// listed monitor was given, and sets each later one as the backup lists it.
proof fn lemma_wallpaper_commands(backup: DesktopBackup, state: DesktopState, reference: DesktopState, i: int)
    requires
        0 <= i <= backup.monitors@.len(),
        captures(backup, reference),
        forall|j: int|
            0 <= j < i ==> {
                let id = (#[trigger] backup.monitors@[j]).monitor_id@;
                state.wallpapers.contains_key(id) && state.wallpapers[id] == reference.wallpapers[id]
            },
    ensures
        ({
            let result = apply_commands(
                state,
                backup.monitors@.skip(i).map_values(|m: MonitorWallpaper| wallpaper_command(m)),
            );
            &&& result.position == state.position
            &&& result.background_color == state.background_color
            &&& forall|j: int|
                0 <= j < backup.monitors@.len() ==> {
                    let id = (#[trigger] backup.monitors@[j]).monitor_id@;
                    result.wallpapers.contains_key(id) && result.wallpapers[id]
                        == reference.wallpapers[id]
                }
        }),
    decreases backup.monitors@.len() - i,
{
    let rest = backup.monitors@.skip(i).map_values(|m: MonitorWallpaper| wallpaper_command(m));
    if i == backup.monitors@.len() {
        assert(rest.len() == 0);
    } else {
        let m = backup.monitors@[i];
        let next = apply_command(state, wallpaper_command(m));
        assert(rest[0] == wallpaper_command(m));
        assert(rest.drop_first() =~= backup.monitors@.skip(i + 1).map_values(
            |m: MonitorWallpaper| wallpaper_command(m),
        ));
        assert forall|j: int| 0 <= j < i + 1 implies {
            let id = (#[trigger] backup.monitors@[j]).monitor_id@;
            next.wallpapers.contains_key(id) && next.wallpapers[id] == reference.wallpapers[id]
        } by {
            let id = backup.monitors@[j].monitor_id@;
            if id == m.monitor_id@ {
                assert(reference.wallpapers[m.monitor_id@] == m.wallpaper_path@);
            }
        }
        lemma_wallpaper_commands(backup, next, reference, i + 1);
    }
}

/// Restoring a backup taken of a desktop gives that desktop back: whatever the desktop
/// shows before the restore, afterwards it has the backed-up position, background colour
/// and, on every monitor the backup lists, the backed-up wallpaper.
pub proof fn restore_reinstates_backup(
    backup: DesktopBackup,
    original: DesktopState,
    current: DesktopState,
)
    requires
        captures(backup, original),
    ensures
        agrees_on(backup, apply_commands(current, spec_restore_plan(backup)), original),
{
    let plan = spec_restore_plan(backup);
    let walls = backup.monitors@.map_values(|m: MonitorWallpaper| wallpaper_command(m));
    let after_position = apply_command(current, plan[0]);
    let after_color = apply_command(after_position, plan[1]);
    assert(plan.drop_first().drop_first() =~= walls);
    assert(apply_commands(current, plan) == apply_commands(after_position, plan.drop_first()));
    assert(plan.drop_first()[0] == plan[1]);
    assert(apply_commands(after_position, plan.drop_first()) == apply_commands(
        after_color,
        walls,
    ));
    assert(backup.monitors@.skip(0) =~= backup.monitors@);
    lemma_wallpaper_commands(backup, after_color, original, 0);
}

/// `CoInitializeEx` reported that the thread already uses another concurrency model.
pub const RPC_E_CHANGED_MODE: i32 = -2147417850i32;

/// How the COM set-up before a wallpaper access turned out.
pub enum ComInit {
    /// COM was initialised here and must be uninitialised afterwards.
    Initialized,
    /// COM was already initialised in another mode; use it and leave it be.
    InOtherMode,
    /// Initialisation failed; the access fails with this result.
    Failed(i32),
}

/// Judges the result of `CoInitializeEx`: a success code means COM must be released
/// again afterwards, `RPC_E_CHANGED_MODE` means it is usable as it is, any other
/// failure ends the access.
pub fn com_init_outcome(hresult: i32) -> (r: ComInit)
    ensures
        hresult >= 0 ==> r is Initialized,
        hresult == RPC_E_CHANGED_MODE ==> r is InOtherMode,
        hresult < 0 && hresult != RPC_E_CHANGED_MODE ==> r == ComInit::Failed(hresult),
{
    if hresult >= 0 {
        ComInit::Initialized
    } else if hresult == RPC_E_CHANGED_MODE {
        ComInit::InOtherMode
    } else {
        ComInit::Failed(hresult)
    }
}

} // verus!
