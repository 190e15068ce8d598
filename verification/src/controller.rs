//! The manager window's behaviour: what each click, and each answer of the
//! outside work that a click starts, does to the manager's state and what it
//! asks to be shown and done next.
//!
//! The caller carries out a reaction in the order of its fields: it stops the
//! running wallpaper, shows the path text, refreshes the desktop, shows the
//! status and the notice, then performs the command and hands its outcome back
//! as the next event; `exit` ends the manager.
use vstd::prelude::*;
use crate::config::AppConfig;
use crate::paths::{display_name, spec_display_name};

verus! {

/// The status line of the manager window.
pub enum Status {
    Stopped,
    BackupFound,
    Selected,
    SelectedUnsaved,
    Running(String),
    ApplyFailed,
    RestoreFailed,
    StoppedRestored,
}

impl Status {
    /// The text shown for a status.
    pub open spec fn spec_text(&self) -> Seq<char> {
        match self {
            Status::Stopped => "● 已停止"@,
            Status::BackupFound => "● 检测到壁纸备份，可点击“停止并恢复”"@,
            Status::Selected => "● 已选择，点击“应用”开始"@,
            Status::SelectedUnsaved => "● 已选择，但保存配置失败"@,
            Status::Running(name) => "● 正在运行："@ + name@,
            Status::ApplyFailed => "● 应用失败"@,
            Status::RestoreFailed => "● 恢复失败"@,
            Status::StoppedRestored => "● 已停止，并恢复之前的静态壁纸"@,
        }
    }

    /// The text shown for a status.
    pub fn text(&self) -> (r: String)
        ensures
            r@ == self.spec_text(),
    {
        match self {
            Status::Stopped => String::from_str("● 已停止"),
            Status::BackupFound => String::from_str("● 检测到壁纸备份，可点击“停止并恢复”"),
            Status::Selected => String::from_str("● 已选择，点击“应用”开始"),
            Status::SelectedUnsaved => String::from_str("● 已选择，但保存配置失败"),
            Status::Running(name) => {
                let mut text = String::from_str("● 正在运行：");
                text.append(name.as_str());
                text
            },
            Status::ApplyFailed => String::from_str("● 应用失败"),
            Status::RestoreFailed => String::from_str("● 恢复失败"),
            Status::StoppedRestored => String::from_str("● 已停止，并恢复之前的静态壁纸"),
        }
    }
}

/// Which failure an error dialog reports.
pub enum NoticeKind {
    ApplyFailed,
    RestoreFailed,
    ExitRestoreFailed,
}

impl NoticeKind {
    /// The title of the error dialog.
    pub fn title(&self) -> (r: &'static str)
        ensures
            r@ == match self {
                NoticeKind::ApplyFailed => "无法应用动态壁纸"@,
                NoticeKind::RestoreFailed => "无法恢复静态壁纸"@,
                NoticeKind::ExitRestoreFailed => "退出前无法恢复静态壁纸"@,
            },
    {
        match self {
            NoticeKind::ApplyFailed => "无法应用动态壁纸",
            NoticeKind::RestoreFailed => "无法恢复静态壁纸",
            NoticeKind::ExitRestoreFailed => "退出前无法恢复静态壁纸",
        }
    }
}

/// An error dialog: which failure, and the error's message.
pub struct Notice {
    pub kind: NoticeKind,
    pub message: String,
}

/// Outside work that the manager asks for; its outcome comes back as an event.
pub enum Command {
    /// Write the configuration; answered by `ConfigSaved`.
    SaveConfig(AppConfig),
    /// Look whether a wallpaper backup exists; answered by `BackupChecked`.
    CheckBackup,
    /// Back up the current static wallpaper; answered by `BackupSaved`.
    SaveBackup,
    /// Start the dynamic wallpaper from this selection; answered by `WallpaperStarted`.
    StartWallpaper(String),
    /// Put the backed-up static wallpaper back and remove the backup; answered by
    /// `BackupRestored`, whose `true` says that a backup was restored.
    RestoreBackup,
}

/// What happens to the manager: a user action, or the outcome of a command.
pub enum Event {
    /// An HTML file or a directory was chosen.
    Selected(String),
    ConfigSaved(bool),
    ApplyClicked,
    StopClicked,
    CloseRequested,
    BackupChecked(bool),
    BackupSaved(Result<(), String>),
    WallpaperStarted(Result<(), String>),
    BackupRestored(Result<bool, String>),
}

/// Which outside work the manager waits for.
pub enum Phase {
    Idle,
    SavingConfig,
    CheckingBackup(String),
    SavingBackup(String),
    Starting(String),
    /// The wallpaper failed to start with this message; the backup is being put back.
    RollingBack(String),
    /// The backup is being put back after a stop; `true` when the window is closing.
    Restoring(bool),
}

/// What the manager asks for in answer to one event.
pub struct Reaction {
    pub stop_wallpaper: bool,
    pub path_text: Option<String>,
    pub refresh_desktop: bool,
    pub status: Option<Status>,
    pub notice: Option<Notice>,
    pub command: Option<Command>,
    pub exit: bool,
}

/// The state of the manager window.
pub struct Controller {
    config: AppConfig,
    running: bool,
    phase: Phase,
}

/// A reaction that asks for nothing.
pub open spec fn quiet() -> Reaction {
    Reaction {
        stop_wallpaper: false,
        path_text: None,
        refresh_desktop: false,
        status: None,
        notice: None,
        command: None,
        exit: false,
    }
}

/// A reaction that only asks for a command.
pub open spec fn only_command(command: Command) -> Reaction {
    Reaction { command: Some(command), ..quiet() }
}

/// A reaction that reports a failure to apply a wallpaper.
pub open spec fn apply_failure(message: String, refresh: bool) -> Reaction {
    Reaction {
        refresh_desktop: refresh,
        status: Some(Status::ApplyFailed),
        notice: Some(Notice { kind: NoticeKind::ApplyFailed, message }),
        ..quiet()
    }
}

impl Controller {
    #[verifier::type_invariant]
    spec fn never_running_while_busy(self) -> bool {
        !(self.phase is Idle || self.phase is SavingConfig) ==> !self.running
    }

    /// The configuration in effect.
    pub closed spec fn config(&self) -> AppConfig {
        self.config
    }

    /// Whether a dynamic wallpaper runs.
    pub closed spec fn running(&self) -> bool {
        self.running
    }

    /// The outside work the manager waits for.
    pub closed spec fn phase(&self) -> Phase {
        self.phase
    }

    /// The manager at start-up, with the loaded configuration and no wallpaper running.
    /// It shows the chosen path, or nothing, and tells whether a wallpaper backup was
    /// found, so that it can be restored.
    pub fn startup(config: AppConfig, backup_exists: bool) -> (r: (Controller, Reaction))
        ensures
            r.0.config() == config,
            !r.0.running(),
            r.0.phase() is Idle,
            r.1 == (Reaction {
                path_text: Some(r.1.path_text->0),
                status: Some(if backup_exists { Status::BackupFound } else { Status::Stopped }),
                ..quiet()
            }),
            r.1.path_text->0@ == match config.selected_path {
                Some(path) => path@,
                None => Seq::<char>::empty(),
            },
    {
        let path_text = match &config.selected_path {
            Some(path) => path.clone(),
            None => String::new(),
        };
        let status = if backup_exists {
            Status::BackupFound
        } else {
            Status::Stopped
        };
        let controller = Controller { config, running: false, phase: Phase::Idle };
        let reaction = Reaction {
            stop_wallpaper: false,
            path_text: Some(path_text),
            refresh_desktop: false,
            status: Some(status),
            notice: None,
            command: None,
            exit: false,
        };
        (controller, reaction)
    }
}

/// The step relation of the manager: from `pre`, `event` leads to `post` and asks for `r`.
/// Events that the current phase does not wait for change nothing and ask for nothing.
pub open spec fn steps_to(pre: Controller, event: Event, post: Controller, r: Reaction) -> bool {
    let same_state = post.config() == pre.config() && post.running() == pre.running();
    match pre.phase() {
        Phase::Idle => match event {
            Event::Selected(path) => {
                let config = AppConfig { selected_path: Some(path) };
                &&& post.config() == config
                &&& post.running() == pre.running()
                &&& post.phase() == Phase::SavingConfig
                &&& r == Reaction {
                    path_text: Some(path),
                    command: Some(Command::SaveConfig(config)),
                    ..quiet()
                }
            },
            Event::ApplyClicked => match pre.config().selected_path {
                None => {
                    &&& same_state
                    &&& post.phase() == pre.phase()
                    &&& r == apply_failure(r.notice->0.message, false)
                    &&& r.notice->0.message@ == "请先选择 HTML 文件或目录"@
                },
                Some(selection) => {
                    &&& post.config() == pre.config()
                    &&& !post.running()
                    &&& post.phase() == Phase::CheckingBackup(selection)
                    &&& r == Reaction {
                        stop_wallpaper: pre.running(),
                        command: Some(Command::CheckBackup),
                        ..quiet()
                    }
                },
            },
            Event::StopClicked | Event::CloseRequested => {
                &&& post.config() == pre.config()
                &&& !post.running()
                &&& post.phase() == Phase::Restoring(event is CloseRequested)
                &&& r == Reaction {
                    stop_wallpaper: pre.running(),
                    command: Some(Command::RestoreBackup),
                    ..quiet()
                }
            },
            _ => same_state && post.phase() == pre.phase() && r == quiet(),
        },
        Phase::SavingConfig => match event {
            Event::ConfigSaved(saved) => {
                &&& same_state
                &&& post.phase() is Idle
                &&& r == Reaction {
                    status: Some(
                        if saved {
                            Status::Selected
                        } else {
                            Status::SelectedUnsaved
                        },
                    ),
                    ..quiet()
                }
            },
            _ => same_state && post.phase() == pre.phase() && r == quiet(),
        },
        Phase::CheckingBackup(selection) => match event {
            Event::BackupChecked(exists) => {
                &&& same_state
                &&& if exists {
                    post.phase() == Phase::Starting(selection) && r == only_command(
                        Command::StartWallpaper(selection),
                    )
                } else {
                    post.phase() == Phase::SavingBackup(selection) && r == only_command(
                        Command::SaveBackup,
                    )
                }
            },
            _ => same_state && post.phase() == pre.phase() && r == quiet(),
        },
        Phase::SavingBackup(selection) => match event {
            Event::BackupSaved(Ok(())) => {
                &&& same_state
                &&& post.phase() == Phase::Starting(selection)
                &&& r == only_command(Command::StartWallpaper(selection))
            },
            Event::BackupSaved(Err(message)) => {
                &&& same_state
                &&& post.phase() is Idle
                &&& r == apply_failure(message, false)
            },
            _ => same_state && post.phase() == pre.phase() && r == quiet(),
        },
        Phase::Starting(selection) => match event {
            Event::WallpaperStarted(Ok(())) => {
                &&& post.config() == pre.config()
                &&& post.running()
                &&& post.phase() is Idle
                &&& r == Reaction { status: Some(Status::Running(r.status->0->0)), ..quiet() }
                &&& r.status->0->0@ == spec_display_name(selection@)
            },
            Event::WallpaperStarted(Err(message)) => {
                &&& same_state
                &&& post.phase() == Phase::RollingBack(message)
                &&& r == only_command(Command::RestoreBackup)
            },
            _ => same_state && post.phase() == pre.phase() && r == quiet(),
        },
        Phase::RollingBack(message) => match event {
            Event::BackupRestored(_) => {
                &&& same_state
                &&& post.phase() is Idle
                &&& r == apply_failure(message, true)
            },
            _ => same_state && post.phase() == pre.phase() && r == quiet(),
        },
        Phase::Restoring(closing) => match event {
            Event::BackupRestored(Ok(restored)) => {
                &&& same_state
                &&& post.phase() is Idle
                &&& r == Reaction {
                    refresh_desktop: true,
                    status: Some(
                        if restored {
                            Status::StoppedRestored
                        } else {
                            Status::Stopped
                        },
                    ),
                    exit: closing,
                    ..quiet()
                }
            },
            Event::BackupRestored(Err(message)) => {
                &&& same_state
                &&& post.phase() is Idle
                &&& if closing {
                    r == Reaction {
                        notice: Some(Notice { kind: NoticeKind::ExitRestoreFailed, message }),
                        ..quiet()
                    }
                } else {
                    r == Reaction {
                        status: Some(Status::RestoreFailed),
                        notice: Some(Notice { kind: NoticeKind::RestoreFailed, message }),
                        ..quiet()
                    }
                }
            },
            _ => same_state && post.phase() == pre.phase() && r == quiet(),
        },
    }
}

fn nothing() -> (r: Reaction)
    ensures
        r == quiet(),
{
    Reaction {
        stop_wallpaper: false,
        path_text: None,
        refresh_desktop: false,
        status: None,
        notice: None,
        command: None,
        exit: false,
    }
}

fn command_only(command: Command) -> (r: Reaction)
    ensures
        r == only_command(command),
{
    Reaction {
        stop_wallpaper: false,
        path_text: None,
        refresh_desktop: false,
        status: None,
        notice: None,
        command: Some(command),
        exit: false,
    }
}

fn failed_apply(message: String, refresh: bool) -> (r: Reaction)
    ensures
        r == apply_failure(message, refresh),
{
    Reaction {
        stop_wallpaper: false,
        path_text: None,
        refresh_desktop: refresh,
        status: Some(Status::ApplyFailed),
        notice: Some(Notice { kind: NoticeKind::ApplyFailed, message }),
        command: None,
        exit: false,
    }
}

impl Controller {
    /// Handles one event; see `steps_to` for what each event does in each phase.
    pub fn step(&mut self, event: Event) -> (r: Reaction)
        ensures
            steps_to(*old(self), event, *final(self), r),
    {
        proof {
            use_type_invariant(&*self);
        }
        match event {
            Event::Selected(path) => {
                if !matches!(self.phase, Phase::Idle) {
                    return nothing();
                }
                let config = AppConfig { selected_path: Some(path.clone()) };
                let saved = config.duplicate();
                let running = self.running;
                *self = Controller { config, running, phase: Phase::SavingConfig };
                Reaction {
                    stop_wallpaper: false,
                    path_text: Some(path),
                    refresh_desktop: false,
                    status: None,
                    notice: None,
                    command: Some(Command::SaveConfig(saved)),
                    exit: false,
                }
            },
            Event::ApplyClicked => {
                if !matches!(self.phase, Phase::Idle) {
                    return nothing();
                }
                match &self.config.selected_path {
                    None => failed_apply(String::from_str("请先选择 HTML 文件或目录"), false),
                    Some(selection) => {
                        let selection = selection.clone();
                        let was_running = self.running;
                        let config = self.config.duplicate();
                        *self = Controller {
                            config,
                            running: false,
                            phase: Phase::CheckingBackup(selection),
                        };
                        Reaction {
                            stop_wallpaper: was_running,
                            path_text: None,
                            refresh_desktop: false,
                            status: None,
                            notice: None,
                            command: Some(Command::CheckBackup),
                            exit: false,
                        }
                    },
                }
            },
            Event::StopClicked | Event::CloseRequested => {
                if !matches!(self.phase, Phase::Idle) {
                    return nothing();
                }
                let closing = match event {
                    Event::CloseRequested => true,
                    _ => false,
                };
                let was_running = self.running;
                let config = self.config.duplicate();
                *self = Controller { config, running: false, phase: Phase::Restoring(closing) };
                Reaction {
                    stop_wallpaper: was_running,
                    path_text: None,
                    refresh_desktop: false,
                    status: None,
                    notice: None,
                    command: Some(Command::RestoreBackup),
                    exit: false,
                }
            },
            Event::ConfigSaved(saved) => {
                if !matches!(self.phase, Phase::SavingConfig) {
                    return nothing();
                }
                self.phase = Phase::Idle;
                let status = if saved {
                    Status::Selected
                } else {
                    Status::SelectedUnsaved
                };
                Reaction {
                    stop_wallpaper: false,
                    path_text: None,
                    refresh_desktop: false,
                    status: Some(status),
                    notice: None,
                    command: None,
                    exit: false,
                }
            },
            Event::BackupChecked(exists) => {
                let selection = match &self.phase {
                    Phase::CheckingBackup(selection) => selection.clone(),
                    _ => return nothing(),
                };
                if exists {
                    self.phase = Phase::Starting(selection.clone());
                    command_only(Command::StartWallpaper(selection))
                } else {
                    self.phase = Phase::SavingBackup(selection);
                    command_only(Command::SaveBackup)
                }
            },
            Event::BackupSaved(outcome) => {
                let selection = match &self.phase {
                    Phase::SavingBackup(selection) => selection.clone(),
                    _ => return nothing(),
                };
                match outcome {
                    Ok(()) => {
                        self.phase = Phase::Starting(selection.clone());
                        command_only(Command::StartWallpaper(selection))
                    },
                    Err(message) => {
                        self.phase = Phase::Idle;
                        failed_apply(message, false)
                    },
                }
            },
            Event::WallpaperStarted(outcome) => {
                let selection = match &self.phase {
                    Phase::Starting(selection) => selection.clone(),
                    _ => return nothing(),
                };
                match outcome {
                    Ok(()) => {
                        let config = self.config.duplicate();
                        *self = Controller { config, running: true, phase: Phase::Idle };
                        let name = display_name(selection.as_str());
                        Reaction {
                            stop_wallpaper: false,
                            path_text: None,
                            refresh_desktop: false,
                            status: Some(Status::Running(name)),
                            notice: None,
                            command: None,
                            exit: false,
                        }
                    },
                    Err(message) => {
                        self.phase = Phase::RollingBack(message);
                        command_only(Command::RestoreBackup)
                    },
                }
            },
            Event::BackupRestored(outcome) => {
                match &self.phase {
                    Phase::RollingBack(message) => {
                        let message = message.clone();
                        self.phase = Phase::Idle;
                        failed_apply(message, true)
                    },
                    Phase::Restoring(closing) => {
                        let closing = *closing;
                        self.phase = Phase::Idle;
                        match outcome {
                            Ok(restored) => Reaction {
                                stop_wallpaper: false,
                                path_text: None,
                                refresh_desktop: true,
                                status: Some(
                                    if restored {
                                        Status::StoppedRestored
                                    } else {
                                        Status::Stopped
                                    },
                                ),
                                notice: None,
                                command: None,
                                exit: closing,
                            },
                            Err(message) => if closing {
                                Reaction {
                                    stop_wallpaper: false,
                                    path_text: None,
                                    refresh_desktop: false,
                                    status: None,
                                    notice: Some(
                                        Notice { kind: NoticeKind::ExitRestoreFailed, message },
                                    ),
                                    command: None,
                                    exit: false,
                                }
                            } else {
                                Reaction {
                                    stop_wallpaper: false,
                                    path_text: None,
                                    refresh_desktop: false,
                                    status: Some(Status::RestoreFailed),
                                    notice: Some(
                                        Notice { kind: NoticeKind::RestoreFailed, message },
                                    ),
                                    command: None,
                                    exit: false,
                                }
                            },
                        }
                    },
                    _ => nothing(),
                }
            },
        }
    }
}

/// Stopping never closes the manager: a stop from the idle window stops the running
/// wallpaper and restores the backup, and whatever the restore answers, the window
/// stays open, idle, with no wallpaper running and the same selection, ready to apply
/// again.
pub proof fn stop_keeps_manager_open(
    pre: Controller,
    mid: Controller,
    post: Controller,
    r1: Reaction,
    r2: Reaction,
    answer: Result<bool, String>,
)
    requires
        pre.phase() is Idle,
        steps_to(pre, Event::StopClicked, mid, r1),
        steps_to(mid, Event::BackupRestored(answer), post, r2),
    ensures
        r1.stop_wallpaper == pre.running(),
        r1.command == Some(Command::RestoreBackup),
        !r1.exit && !r2.exit,
        post.phase() is Idle,
        !post.running(),
        post.config() == pre.config(),
{
}

/// Closing the window also stops and restores: the running wallpaper is stopped and the
/// backup restored, and the manager ends exactly when the restore succeeded, after
/// refreshing the desktop.
pub proof fn close_stops_and_restores(
    pre: Controller,
    mid: Controller,
    post: Controller,
    r1: Reaction,
    r2: Reaction,
    answer: Result<bool, String>,
)
    requires
        pre.phase() is Idle,
        steps_to(pre, Event::CloseRequested, mid, r1),
        steps_to(mid, Event::BackupRestored(answer), post, r2),
    ensures
        r1.stop_wallpaper == pre.running(),
        r1.command == Some(Command::RestoreBackup),
        !r1.exit,
        r2.exit == answer is Ok,
        answer is Ok ==> r2.refresh_desktop,
        !post.running(),
{
}

/// The manager only ends in answer to a successful restore while the window closes.
pub proof fn exit_only_after_restore_on_close(
    pre: Controller,
    event: Event,
    post: Controller,
    r: Reaction,
)
    requires
        steps_to(pre, event, post, r),
        r.exit,
    ensures
        pre.phase() == Phase::Restoring(true),
        event matches Event::BackupRestored(Ok(_)),
{
}

/// Choosing a new HTML while a wallpaper runs and then applying switches directly to it:
/// the choice is saved while the old wallpaper keeps running, and the apply stops the old
/// wallpaper and goes on with the new choice.
pub proof fn new_selection_while_running_switches(
    pre: Controller,
    path: String,
    saved: bool,
    m1: Controller,
    m2: Controller,
    m3: Controller,
    r1: Reaction,
    r2: Reaction,
    r3: Reaction,
)
    requires
        pre.phase() is Idle,
        pre.running(),
        steps_to(pre, Event::Selected(path), m1, r1),
        steps_to(m1, Event::ConfigSaved(saved), m2, r2),
        steps_to(m2, Event::ApplyClicked, m3, r3),
    ensures
        r1.command == Some(Command::SaveConfig(AppConfig { selected_path: Some(path) })),
        m2.running(),
        r3.stop_wallpaper,
        m3.phase() == Phase::CheckingBackup(path),
{
}

/// Applying starts the wallpaper of the current selection: whether a backup exists or
/// has to be made first, the wallpaper started is the selected one, and the running one,
/// if any, was stopped first.
pub proof fn apply_starts_selection(
    pre: Controller,
    selection: String,
    exists: bool,
    m1: Controller,
    m2: Controller,
    r1: Reaction,
    r2: Reaction,
)
    requires
        pre.phase() is Idle,
        pre.config().selected_path == Some(selection),
        steps_to(pre, Event::ApplyClicked, m1, r1),
        steps_to(m1, Event::BackupChecked(exists), m2, r2),
    ensures
        r1.stop_wallpaper == pre.running(),
        r1.command == Some(Command::CheckBackup),
        exists ==> r2.command == Some(Command::StartWallpaper(selection)),
        !exists ==> r2.command == Some(Command::SaveBackup),
        !exists ==> forall|m3: Controller, r3: Reaction|
            steps_to(m2, Event::BackupSaved(Ok(())), m3, r3) ==> r3.command == Some(
                Command::StartWallpaper(selection),
            ),
{
}

/// A backup is never overwritten, and no wallpaper starts without one: the current
/// wallpaper is backed up only after the check found no backup, and a wallpaper is
/// started only after the check found one or the backup was made.
pub proof fn backup_before_start(pre: Controller, event: Event, post: Controller, r: Reaction)
    requires
        steps_to(pre, event, post, r),
    ensures
        r.command == Some(Command::SaveBackup) ==> event == Event::BackupChecked(false),
        r.command matches Some(Command::StartWallpaper(_)) ==> event == Event::BackupChecked(
            true,
        ) || event matches Event::BackupSaved(Ok(_)),
{
}

/// A wallpaper that fails to start leaves the desktop as it was: the backup is put back,
/// the desktop refreshed, and the failure reported with the start's own message.
pub proof fn failed_start_restores(
    pre: Controller,
    selection: String,
    message: String,
    answer: Result<bool, String>,
    mid: Controller,
    post: Controller,
    r1: Reaction,
    r2: Reaction,
)
    requires
        pre.phase() == Phase::Starting(selection),
        steps_to(pre, Event::WallpaperStarted(Err(message)), mid, r1),
        steps_to(mid, Event::BackupRestored(answer), post, r2),
    ensures
        r1.command == Some(Command::RestoreBackup),
        r2.refresh_desktop,
        r2.status == Some(Status::ApplyFailed),
        r2.notice == Some(Notice { kind: NoticeKind::ApplyFailed, message }),
        post.phase() is Idle,
        post.running() == pre.running(),
{
}

/// The manager shows a wallpaper as running exactly when one was started: a running
/// status comes only from a successful start, and leaves the manager marked running.
pub proof fn running_status_means_running(pre: Controller, event: Event, post: Controller, r: Reaction)
    requires
        steps_to(pre, event, post, r),
        r.status matches Some(Status::Running(_)),
    ensures
        post.running(),
        event matches Event::WallpaperStarted(Ok(_)),
{
}

} // verus!
