//! Init systems: which one runs the host, and for each the files, links and
//! commands that install, remove and control the `zapret-rust` service.
//!
//! The library plans the work as a list of [`Step`]s; the caller carries the
//! steps out and hands each command's outcome back to [`run_outcome`].
use vstd::prelude::*;
use crate::text;

verus! {

/// An init system that can run the service.
#[derive(Debug, Clone, Copy, PartialEq, Eq, Structural)]
pub enum InitType {
    Systemd,
    OpenRc,
    Runit,
    Dinit,
    S6,
    Init,
}

/// The name of an init system.
pub open spec fn init_name(t: InitType) -> Seq<char> {
    match t {
        InitType::Systemd => "systemd"@,
        InitType::OpenRc => "openrc"@,
        InitType::Runit => "runit"@,
        InitType::Dinit => "dinit"@,
        InitType::S6 => "s6"@,
        InitType::Init => "init"@,
    }
}

impl InitType {
    /// The name of the init system (`systemd`, `openrc`, `runit`, `dinit`, `s6`, `init`).
    pub fn as_str(&self) -> (s: &'static str)
        ensures
            s@ == init_name(*self),
    {
        match self {
            InitType::Systemd => "systemd",
            InitType::OpenRc => "openrc",
            InitType::Runit => "runit",
            InitType::Dinit => "dinit",
            InitType::S6 => "s6",
            InitType::Init => "init",
        }
    }
}

/// What the host shows of its init system: which marker paths exist and
/// which control programs are on the `PATH`.
#[derive(Debug, Clone, Copy, PartialEq, Eq, Structural)]
pub struct InitProbes {
    /// `/run/systemd/system` exists.
    pub run_systemd_system: bool,
    /// `/run/openrc` exists.
    pub run_openrc: bool,
    /// `/sbin/openrc-run` exists.
    pub sbin_openrc_run: bool,
    /// `/etc/dinit.d` exists.
    pub etc_dinit_d: bool,
    /// `dinitctl` is on the `PATH`.
    pub has_dinitctl: bool,
    /// `/etc/runit` exists.
    pub etc_runit: bool,
    /// `/var/service` exists.
    pub var_service: bool,
    /// `sv` is on the `PATH`.
    pub has_sv: bool,
    /// `/etc/s6` exists.
    pub etc_s6: bool,
    /// `s6-svstat` is on the `PATH`.
    pub has_s6_svstat: bool,
    /// `/etc/init.d` exists.
    pub etc_init_d: bool,
}

/// The init system the probes point to, tried in a fixed order: systemd,
/// OpenRC, dinit, runit, s6, then SysV init.
pub open spec fn detected(p: InitProbes) -> Option<InitType> {
    if p.run_systemd_system {
        Some(InitType::Systemd)
    } else if p.run_openrc || p.sbin_openrc_run {
        Some(InitType::OpenRc)
    } else if p.etc_dinit_d && p.has_dinitctl {
        Some(InitType::Dinit)
    } else if (p.etc_runit || p.var_service) && p.has_sv {
        Some(InitType::Runit)
    } else if p.etc_s6 && p.has_s6_svstat {
        Some(InitType::S6)
    } else if p.etc_init_d {
        Some(InitType::Init)
    } else {
        None
    }
}

/// Detects the active init system from what the host shows.
pub fn detect_init_system(p: &InitProbes) -> (r: Option<InitType>)
    ensures
        r == detected(*p),
{
    if p.run_systemd_system {
        Some(InitType::Systemd)
    } else if p.run_openrc || p.sbin_openrc_run {
        Some(InitType::OpenRc)
    } else if p.etc_dinit_d && p.has_dinitctl {
        Some(InitType::Dinit)
    } else if (p.etc_runit || p.var_service) && p.has_sv {
        Some(InitType::Runit)
    } else if p.etc_s6 && p.has_s6_svstat {
        Some(InitType::S6)
    } else if p.etc_init_d {
        Some(InitType::Init)
    } else {
        None
    }
}

/// The name the service is registered under.
pub const SERVICE_NAME: &'static str = "zapret-rust";
/// The systemd unit file.
pub const SYSTEMD_UNIT: &'static str = "/etc/systemd/system/zapret-rust.service";
/// The OpenRC and SysV init script.
pub const INIT_SCRIPT: &'static str = "/etc/init.d/zapret-rust";
/// The runit service directory.
pub const RUNIT_DIR: &'static str = "/etc/sv/zapret-rust";
/// The run script in the runit service directory.
pub const RUNIT_RUN: &'static str = "/etc/sv/zapret-rust/run";
/// The dinit service description.
pub const DINIT_SERVICE: &'static str = "/etc/dinit.d/zapret-rust";
/// The dinit directory of services started at boot.
pub const DINIT_BOOT_DIR: &'static str = "/etc/dinit.d/boot.d";
/// The link that starts the dinit service at boot.
pub const DINIT_BOOT_LINK: &'static str = "/etc/dinit.d/boot.d/zapret-rust";
/// The s6 service directory.
pub const S6_DIR: &'static str = "/etc/s6/services/zapret-rust";
/// The run script in the s6 service directory.
pub const S6_RUN: &'static str = "/etc/s6/services/zapret-rust/run";

/// The command line the service runs.
pub open spec fn launch_line(exe: Seq<char>, config: Seq<char>, cache: Seq<char>) -> Seq<char> {
    exe + " --config "@ + config + " --cache-dir "@ + cache
}

fn launch_line_text(exe: &str, config: &str, cache: &str) -> (s: String)
    ensures
        s@ == launch_line(exe@, config@, cache@),
{
    String::from_str(exe).concat(" --config ").concat(config).concat(" --cache-dir ").concat(cache)
}

/// The systemd unit up to the program it starts.
pub const SYSTEMD_HEAD: &'static str = "[Unit]\nDescription=Zapret Discord Youtube Service\nAfter=network-online.target\nWants=network-online.target\n\n[Service]\nType=simple\nExecStart=";
/// The systemd unit after the command line.
pub const SYSTEMD_TAIL: &'static str = "\nRestart=always\nRestartSec=5\n\n[Install]\nWantedBy=multi-user.target\n";
/// The OpenRC script up to the program it runs.
pub const OPENRC_HEAD: &'static str = "#!/sbin/openrc-run\n\ndescription=\"Zapret Discord Youtube Service\"\nsupervisor=\"supervise-daemon\"\nrespawn_delay=5\nrespawn_max=10\n\ncommand=\"";
/// The OpenRC script between the program and the config path.
pub const OPENRC_ARGS: &'static str = "\"\ncommand_args=\"--config ";
/// The OpenRC script after the cache directory.
pub const OPENRC_TAIL: &'static str = "\"\n\ndepend() {\n    need net\n    after firewall\n}\n";
/// The runit run script up to the command line.
pub const RUNIT_HEAD: &'static str = "#!/bin/sh\nexec 2>&1\nexec ";
/// The dinit description up to the command line.
pub const DINIT_HEAD: &'static str = "type = simple\ncommand = ";
/// The dinit description after the command line.
pub const DINIT_TAIL: &'static str = "\nrestart = true\nrestart-delay = 5\n";
/// The s6 run script up to the command line.
pub const S6_HEAD: &'static str = "#!/bin/sh\nexec ";
/// The SysV init script up to the program it runs.
pub const SYSV_HEAD: &'static str = "#!/bin/sh\n### BEGIN INIT INFO\n# Provides:          zapret-rust\n# Required-Start:    $network $local_fs\n# Required-Stop:     $network $local_fs\n# Default-Start:     2 3 4 5\n# Default-Stop:      0 1 6\n# Short-Description: Zapret Discord Youtube Service\n### END INIT INFO\n\nDESC=\"Zapret Discord Youtube Service\"\nNAME=\"zapret-rust\"\nDAEMON=\"";
/// The SysV init script between the program and the config path.
pub const SYSV_ARGS: &'static str = "\"\nDAEMON_ARGS=\"--config ";
/// The SysV init script after the cache directory.
pub const SYSV_TAIL: &'static str = "\"\nPIDFILE=\"/var/run/$NAME.pid\"\n\ncase \"$1\" in\n    start)\n        echo \"Starting $DESC\"\n        start-stop-daemon --start --background --make-pidfile --pidfile \"$PIDFILE\" --exec \"$DAEMON\" -- $DAEMON_ARGS\n        ;;\n    stop)\n        echo \"Stopping $DESC\"\n        start-stop-daemon --stop --pidfile \"$PIDFILE\" --retry 5\n        ;;\n    restart)\n        $0 stop\n        $0 start\n        ;;\n    status)\n        if [ -f \"$PIDFILE\" ] && kill -0 $(cat \"$PIDFILE\") 2>/dev/null; then\n            echo \"$DESC is running\"\n            exit 0\n        else\n            echo \"$DESC is stopped\"\n            exit 3\n        fi\n        ;;\n    *)\n        echo \"Usage: $0 {start|stop|restart|status}\"\n        exit 1\n        ;;\nesac\n";

/// The service file (unit, script or description) that `t` runs the
/// service from, for the given program, config file and cache directory.
pub open spec fn service_text(t: InitType, exe: Seq<char>, config: Seq<char>, cache: Seq<char>) -> Seq<char> {
    match t {
        InitType::Systemd => SYSTEMD_HEAD@ + launch_line(exe, config, cache) + SYSTEMD_TAIL@,
        InitType::OpenRc => OPENRC_HEAD@ + exe + OPENRC_ARGS@ + config + " --cache-dir "@ + cache
            + OPENRC_TAIL@,
        InitType::Runit => RUNIT_HEAD@ + launch_line(exe, config, cache) + "\n"@,
        InitType::Dinit => DINIT_HEAD@ + launch_line(exe, config, cache) + DINIT_TAIL@,
        InitType::S6 => S6_HEAD@ + launch_line(exe, config, cache) + "\n"@,
        InitType::Init => SYSV_HEAD@ + exe + SYSV_ARGS@ + config + " --cache-dir "@ + cache
            + SYSV_TAIL@,
    }
}

/// The service file that `t` runs the service from.
pub fn service_file_text(t: InitType, exe: &str, config: &str, cache: &str) -> (s: String)
    ensures
        s@ == service_text(t, exe@, config@, cache@),
{
    match t {
        InitType::Systemd => String::from_str(SYSTEMD_HEAD).concat(
            launch_line_text(exe, config, cache).as_str(),
        ).concat(SYSTEMD_TAIL),
        InitType::OpenRc => String::from_str(OPENRC_HEAD).concat(exe).concat(OPENRC_ARGS).concat(
            config,
        ).concat(" --cache-dir ").concat(cache).concat(OPENRC_TAIL),
        InitType::Runit => String::from_str(RUNIT_HEAD).concat(
            launch_line_text(exe, config, cache).as_str(),
        ).concat("\n"),
        InitType::Dinit => String::from_str(DINIT_HEAD).concat(
            launch_line_text(exe, config, cache).as_str(),
        ).concat(DINIT_TAIL),
        InitType::S6 => String::from_str(S6_HEAD).concat(
            launch_line_text(exe, config, cache).as_str(),
        ).concat("\n"),
        InitType::Init => String::from_str(SYSV_HEAD).concat(exe).concat(SYSV_ARGS).concat(
            config,
        ).concat(" --cache-dir ").concat(cache).concat(SYSV_TAIL),
    }
}

/// Where runit looks for enabled services on most systems.
pub const RUNIT_LINK: &'static str = "/var/service/zapret-rust";
/// Where runit looks for enabled services when only `/service` exists.
pub const RUNIT_LINK_ALT: &'static str = "/service/zapret-rust";

/// One piece of work in installing, removing or controlling the service.
#[derive(Debug, Clone, PartialEq, Eq)]
pub enum Step {
    /// Run `program` with `args`. When it fails, [`command_outcome`] words the
    /// error from `label`; a failure stops the plan only when `required`.
    Run { program: String, args: Vec<String>, label: String, exit_code_fallback: bool, required: bool },
    /// Write `content` to `path`, and make it executable (mode 755) when asked.
    WriteFile { path: String, content: String, executable: bool },
    /// Create the directory `path` and its parents.
    CreateDir { path: String, required: bool },
    /// Remove the file or link `path` if there is one.
    RemoveFile { path: String, required: bool },
    /// Remove the directory `path` and all it holds, if it exists.
    RemoveDir { path: String },
    /// Replace whatever is at `link` with a symbolic link to `target`.
    Symlink { target: String, link: String, required: bool },
}

/// A [`Step`] with its strings as character sequences.
pub enum StepView {
    Run { program: Seq<char>, args: Seq<Seq<char>>, label: Seq<char>, exit_code_fallback: bool, required: bool },
    WriteFile { path: Seq<char>, content: Seq<char>, executable: bool },
    CreateDir { path: Seq<char>, required: bool },
    RemoveFile { path: Seq<char>, required: bool },
    RemoveDir { path: Seq<char> },
    Symlink { target: Seq<char>, link: Seq<char>, required: bool },
}

impl View for Step {
    type V = StepView;

    open spec fn view(&self) -> StepView {
        match self {
            Step::Run { program, args, label, exit_code_fallback, required } => StepView::Run {
                program: program@,
                args: crate::order::strings(args@),
                label: label@,
                exit_code_fallback: *exit_code_fallback,
                required: *required,
            },
            Step::WriteFile { path, content, executable } => StepView::WriteFile {
                path: path@,
                content: content@,
                executable: *executable,
            },
            Step::CreateDir { path, required } => StepView::CreateDir { path: path@, required: *required },
            Step::RemoveFile { path, required } => StepView::RemoveFile { path: path@, required: *required },
            Step::RemoveDir { path } => StepView::RemoveDir { path: path@ },
            Step::Symlink { target, link, required } => StepView::Symlink {
                target: target@,
                link: link@,
                required: *required,
            },
        }
    }
}

/// The views of a list of steps.
pub open spec fn step_views(v: Seq<Step>) -> Seq<StepView> {
    v.map_values(|s: Step| s@)
}

/// Running `program` with `args`; a failure is worded after the whole
/// command line.
pub open spec fn run_view(program: Seq<char>, args: Seq<Seq<char>>, required: bool) -> StepView {
    StepView::Run {
        program,
        args,
        label: program + " "@ + text::join(args, " "@),
        exit_code_fallback: true,
        required,
    }
}

fn run1(program: &str, a: &str, required: bool) -> (s: Step)
    ensures
        s@ == run_view(program@, seq![a@], required),
{
    let label = String::from_str(program).concat(" ").concat(a);
    proof {
        let args = seq![a@];
        assert(args.drop_last() =~= Seq::<Seq<char>>::empty());
        assert(text::join(args, " "@) == a@);
    }
    let args = vec![a.to_string()];
    assert(crate::order::strings(args@) =~= seq![a@]);
    Step::Run { program: program.to_string(), args, label, exit_code_fallback: true, required }
}

fn run2(program: &str, a: &str, b: &str, required: bool) -> (s: Step)
    ensures
        s@ == run_view(program@, seq![a@, b@], required),
{
    let label = String::from_str(program).concat(" ").concat(a).concat(" ").concat(b);
    proof {
        let args = seq![a@, b@];
        assert(args.drop_last() =~= seq![a@]);
        assert(seq![a@].drop_last() =~= Seq::<Seq<char>>::empty());
        assert(text::join(seq![a@], " "@) == a@);
        assert(text::join(args, " "@) == a@ + " "@ + b@);
    }
    let args = vec![a.to_string(), b.to_string()];
    assert(crate::order::strings(args@) =~= seq![a@, b@]);
    assert(label@ =~= program@ + " "@ + text::join(seq![a@, b@], " "@));
    Step::Run { program: program.to_string(), args, label, exit_code_fallback: true, required }
}

fn run3(program: &str, a: &str, b: &str, c: &str, required: bool) -> (s: Step)
    ensures
        s@ == run_view(program@, seq![a@, b@, c@], required),
{
    let label = String::from_str(program).concat(" ").concat(a).concat(" ").concat(b).concat(" ").concat(
        c,
    );
    proof {
        let args = seq![a@, b@, c@];
        assert(args.drop_last() =~= seq![a@, b@]);
        assert(seq![a@, b@].drop_last() =~= seq![a@]);
        assert(seq![a@].drop_last() =~= Seq::<Seq<char>>::empty());
        assert(text::join(seq![a@], " "@) == a@);
        assert(text::join(seq![a@, b@], " "@) == a@ + " "@ + b@);
        assert(text::join(args, " "@) == a@ + " "@ + b@ + " "@ + c@);
    }
    let args = vec![a.to_string(), b.to_string(), c.to_string()];
    assert(crate::order::strings(args@) =~= seq![a@, b@, c@]);
    assert(label@ =~= program@ + " "@ + text::join(seq![a@, b@, c@], " "@));
    Step::Run { program: program.to_string(), args, label, exit_code_fallback: true, required }
}

/// What the host shows that decides a few paths and commands of a plan.
#[derive(Debug, Clone, Copy, PartialEq, Eq, Structural)]
pub struct ServiceHost {
    /// `/service` exists.
    pub service_dir: bool,
    /// `/var/service` exists.
    pub var_service_dir: bool,
    /// `update-rc.d` is on the `PATH`.
    pub has_update_rc_d: bool,
    /// `chkconfig` is on the `PATH`.
    pub has_chkconfig: bool,
}

/// Where runit is told about the service: `/service` when only that
/// directory exists, `/var/service` otherwise.
pub open spec fn runit_link(h: ServiceHost) -> Seq<char> {
    if h.service_dir && !h.var_service_dir {
        RUNIT_LINK_ALT@
    } else {
        RUNIT_LINK@
    }
}

/// The runit link for the host.
pub fn runit_link_path(h: &ServiceHost) -> (s: &'static str)
    ensures
        s@ == runit_link(*h),
{
    if h.service_dir && !h.var_service_dir {
        RUNIT_LINK_ALT
    } else {
        RUNIT_LINK
    }
}

/// How SysV init registers the script: `update-rc.d` where it exists, else
/// `chkconfig`, else not at all.
pub open spec fn sysv_register(h: ServiceHost) -> Seq<StepView> {
    if h.has_update_rc_d {
        seq![StepView::Run {
            program: "update-rc.d"@,
            args: seq![SERVICE_NAME@, "defaults"@],
            label: "update-rc.d"@,
            exit_code_fallback: false,
            required: true,
        }]
    } else if h.has_chkconfig {
        seq![StepView::Run {
            program: "chkconfig"@,
            args: seq!["--add"@, SERVICE_NAME@],
            label: "chkconfig --add"@,
            exit_code_fallback: false,
            required: true,
        }]
    } else {
        seq![]
    }
}

/// How SysV init unregisters the script; its outcome is ignored.
pub open spec fn sysv_unregister(h: ServiceHost) -> Seq<StepView> {
    if h.has_update_rc_d {
        seq![run_view("update-rc.d"@, seq!["-f"@, SERVICE_NAME@, "remove"@], false)]
    } else if h.has_chkconfig {
        seq![run_view("chkconfig"@, seq!["--del"@, SERVICE_NAME@], false)]
    } else {
        seq![]
    }
}

/// The steps that install the service under `t` for the given program,
/// config file and cache directory.
pub open spec fn install_plan(
    t: InitType,
    exe: Seq<char>,
    config: Seq<char>,
    cache: Seq<char>,
    h: ServiceHost,
) -> Seq<StepView> {
    let text = service_text(t, exe, config, cache);
    match t {
        InitType::Systemd => seq![
            StepView::WriteFile { path: SYSTEMD_UNIT@, content: text, executable: false },
            run_view("systemctl"@, seq!["daemon-reload"@], true),
            run_view("systemctl"@, seq!["enable"@, SERVICE_NAME@], true),
        ],
        InitType::OpenRc => seq![
            StepView::WriteFile { path: INIT_SCRIPT@, content: text, executable: true },
            run_view("rc-update"@, seq!["add"@, SERVICE_NAME@, "default"@], true),
        ],
        InitType::Runit => seq![
            StepView::CreateDir { path: RUNIT_DIR@, required: true },
            StepView::WriteFile { path: RUNIT_RUN@, content: text, executable: true },
            StepView::Symlink { target: RUNIT_DIR@, link: runit_link(h), required: true },
        ],
        InitType::Dinit => seq![
            StepView::WriteFile { path: DINIT_SERVICE@, content: text, executable: false },
            StepView::CreateDir { path: DINIT_BOOT_DIR@, required: false },
            StepView::Symlink { target: "../zapret-rust"@, link: DINIT_BOOT_LINK@, required: false },
        ],
        InitType::S6 => seq![
            StepView::CreateDir { path: S6_DIR@, required: true },
            StepView::WriteFile { path: S6_RUN@, content: text, executable: true },
        ],
        InitType::Init => seq![
            StepView::WriteFile { path: INIT_SCRIPT@, content: text, executable: true },
        ] + sysv_register(h),
    }
}

/// The steps that remove the service from `t`: stop it (ignoring failure),
/// unregister it, and delete its files.
pub open spec fn uninstall_plan(t: InitType, h: ServiceHost) -> Seq<StepView> {
    match t {
        InitType::Systemd => seq![
            run_view("systemctl"@, seq!["stop"@, SERVICE_NAME@], false),
            run_view("systemctl"@, seq!["disable"@, SERVICE_NAME@], false),
            StepView::RemoveFile { path: SYSTEMD_UNIT@, required: true },
            run_view("systemctl"@, seq!["daemon-reload"@], true),
        ],
        InitType::OpenRc => seq![
            run_view("rc-service"@, seq![SERVICE_NAME@, "stop"@], false),
            run_view("rc-update"@, seq!["del"@, SERVICE_NAME@, "default"@], false),
            StepView::RemoveFile { path: INIT_SCRIPT@, required: true },
        ],
        InitType::Runit => seq![
            run_view("sv"@, seq!["stop"@, SERVICE_NAME@], false),
            StepView::RemoveFile { path: runit_link(h), required: true },
            StepView::RemoveDir { path: RUNIT_DIR@ },
        ],
        InitType::Dinit => seq![
            run_view("dinitctl"@, seq!["stop"@, SERVICE_NAME@], false),
            StepView::RemoveFile { path: DINIT_BOOT_LINK@, required: false },
            StepView::RemoveFile { path: DINIT_SERVICE@, required: true },
        ],
        InitType::S6 => seq![
            run_view("s6-svc"@, seq!["-d"@, S6_DIR@], false),
            StepView::RemoveDir { path: S6_DIR@ },
        ],
        InitType::Init => seq![run_view(INIT_SCRIPT@, seq!["stop"@], false)] + sysv_unregister(h)
            + seq![StepView::RemoveFile { path: INIT_SCRIPT@, required: true }],
    }
}

fn install_systemd(exe: &str, config: &str, cache: &str, h: &ServiceHost) -> (v: Vec<Step>)
    ensures
        step_views(v@) == install_plan(InitType::Systemd, exe@, config@, cache@, *h),
{
    let text = service_file_text(InitType::Systemd, exe, config, cache);
    let mut v: Vec<Step> = Vec::new();
    v.push(Step::WriteFile { path: SYSTEMD_UNIT.to_string(), content: text, executable: false });
    v.push(run1("systemctl", "daemon-reload", true));
    v.push(run2("systemctl", "enable", SERVICE_NAME, true));
    proof {
        assert(step_views(v@) =~~= install_plan(InitType::Systemd, exe@, config@, cache@, *h));
    }
    v
}

fn uninstall_systemd(h: &ServiceHost) -> (v: Vec<Step>)
    ensures
        step_views(v@) == uninstall_plan(InitType::Systemd, *h),
{
    let mut v: Vec<Step> = Vec::new();
    v.push(run2("systemctl", "stop", SERVICE_NAME, false));
    v.push(run2("systemctl", "disable", SERVICE_NAME, false));
    v.push(Step::RemoveFile { path: SYSTEMD_UNIT.to_string(), required: true });
    v.push(run1("systemctl", "daemon-reload", true));
    proof {
        assert(step_views(v@) =~~= uninstall_plan(InitType::Systemd, *h));
    }
    v
}

fn install_openrc(exe: &str, config: &str, cache: &str, h: &ServiceHost) -> (v: Vec<Step>)
    ensures
        step_views(v@) == install_plan(InitType::OpenRc, exe@, config@, cache@, *h),
{
    let text = service_file_text(InitType::OpenRc, exe, config, cache);
    let mut v: Vec<Step> = Vec::new();
    v.push(Step::WriteFile { path: INIT_SCRIPT.to_string(), content: text, executable: true });
    v.push(run3("rc-update", "add", SERVICE_NAME, "default", true));
    proof {
        assert(step_views(v@) =~~= install_plan(InitType::OpenRc, exe@, config@, cache@, *h));
    }
    v
}

fn uninstall_openrc(h: &ServiceHost) -> (v: Vec<Step>)
    ensures
        step_views(v@) == uninstall_plan(InitType::OpenRc, *h),
{
    let mut v: Vec<Step> = Vec::new();
    v.push(run2("rc-service", SERVICE_NAME, "stop", false));
    v.push(run3("rc-update", "del", SERVICE_NAME, "default", false));
    v.push(Step::RemoveFile { path: INIT_SCRIPT.to_string(), required: true });
    proof {
        assert(step_views(v@) =~~= uninstall_plan(InitType::OpenRc, *h));
    }
    v
}

fn install_runit(exe: &str, config: &str, cache: &str, h: &ServiceHost) -> (v: Vec<Step>)
    ensures
        step_views(v@) == install_plan(InitType::Runit, exe@, config@, cache@, *h),
{
    let text = service_file_text(InitType::Runit, exe, config, cache);
    let mut v: Vec<Step> = Vec::new();
    v.push(Step::CreateDir { path: RUNIT_DIR.to_string(), required: true });
    v.push(Step::WriteFile { path: RUNIT_RUN.to_string(), content: text, executable: true });
    v.push(Step::Symlink {
        target: RUNIT_DIR.to_string(),
        link: runit_link_path(h).to_string(),
        required: true,
    });
    proof {
        assert(step_views(v@) =~~= install_plan(InitType::Runit, exe@, config@, cache@, *h));
    }
    v
}

fn uninstall_runit(h: &ServiceHost) -> (v: Vec<Step>)
    ensures
        step_views(v@) == uninstall_plan(InitType::Runit, *h),
{
    let mut v: Vec<Step> = Vec::new();
    v.push(run2("sv", "stop", SERVICE_NAME, false));
    v.push(Step::RemoveFile { path: runit_link_path(h).to_string(), required: true });
    v.push(Step::RemoveDir { path: RUNIT_DIR.to_string() });
    proof {
        assert(step_views(v@) =~~= uninstall_plan(InitType::Runit, *h));
    }
    v
}

fn install_dinit(exe: &str, config: &str, cache: &str, h: &ServiceHost) -> (v: Vec<Step>)
    ensures
        step_views(v@) == install_plan(InitType::Dinit, exe@, config@, cache@, *h),
{
    let text = service_file_text(InitType::Dinit, exe, config, cache);
    let mut v: Vec<Step> = Vec::new();
    v.push(Step::WriteFile { path: DINIT_SERVICE.to_string(), content: text, executable: false });
    v.push(Step::CreateDir { path: DINIT_BOOT_DIR.to_string(), required: false });
    v.push(Step::Symlink {
        target: "../zapret-rust".to_string(),
        link: DINIT_BOOT_LINK.to_string(),
        required: false,
    });
    proof {
        assert(step_views(v@) =~~= install_plan(InitType::Dinit, exe@, config@, cache@, *h));
    }
    v
}

fn uninstall_dinit(h: &ServiceHost) -> (v: Vec<Step>)
    ensures
        step_views(v@) == uninstall_plan(InitType::Dinit, *h),
{
    let mut v: Vec<Step> = Vec::new();
    v.push(run2("dinitctl", "stop", SERVICE_NAME, false));
    v.push(Step::RemoveFile { path: DINIT_BOOT_LINK.to_string(), required: false });
    v.push(Step::RemoveFile { path: DINIT_SERVICE.to_string(), required: true });
    proof {
        assert(step_views(v@) =~~= uninstall_plan(InitType::Dinit, *h));
    }
    v
}

fn install_s6(exe: &str, config: &str, cache: &str, h: &ServiceHost) -> (v: Vec<Step>)
    ensures
        step_views(v@) == install_plan(InitType::S6, exe@, config@, cache@, *h),
{
    let text = service_file_text(InitType::S6, exe, config, cache);
    let mut v: Vec<Step> = Vec::new();
    v.push(Step::CreateDir { path: S6_DIR.to_string(), required: true });
    v.push(Step::WriteFile { path: S6_RUN.to_string(), content: text, executable: true });
    proof {
        assert(step_views(v@) =~~= install_plan(InitType::S6, exe@, config@, cache@, *h));
    }
    v
}

fn uninstall_s6(h: &ServiceHost) -> (v: Vec<Step>)
    ensures
        step_views(v@) == uninstall_plan(InitType::S6, *h),
{
    let mut v: Vec<Step> = Vec::new();
    v.push(run2("s6-svc", "-d", S6_DIR, false));
    v.push(Step::RemoveDir { path: S6_DIR.to_string() });
    proof {
        assert(step_views(v@) =~~= uninstall_plan(InitType::S6, *h));
    }
    v
}

fn install_sysv(exe: &str, config: &str, cache: &str, h: &ServiceHost) -> (v: Vec<Step>)
    ensures
        step_views(v@) == install_plan(InitType::Init, exe@, config@, cache@, *h),
{
    let text = service_file_text(InitType::Init, exe, config, cache);
    let mut v: Vec<Step> = Vec::new();
    v.push(Step::WriteFile { path: INIT_SCRIPT.to_string(), content: text, executable: true });
    if h.has_update_rc_d {
        let args = vec![SERVICE_NAME.to_string(), "defaults".to_string()];
        assert(crate::order::strings(args@) =~= seq![SERVICE_NAME@, "defaults"@]);
        v.push(Step::Run {
            program: "update-rc.d".to_string(),
            args,
            label: "update-rc.d".to_string(),
            exit_code_fallback: false,
            required: true,
        });
    } else if h.has_chkconfig {
        let args = vec!["--add".to_string(), SERVICE_NAME.to_string()];
        assert(crate::order::strings(args@) =~= seq!["--add"@, SERVICE_NAME@]);
        v.push(Step::Run {
            program: "chkconfig".to_string(),
            args,
            label: "chkconfig --add".to_string(),
            exit_code_fallback: false,
            required: true,
        });
    }
    proof {
        assert(step_views(v@) =~~= install_plan(InitType::Init, exe@, config@, cache@, *h));
    }
    v
}

fn uninstall_sysv(h: &ServiceHost) -> (v: Vec<Step>)
    ensures
        step_views(v@) == uninstall_plan(InitType::Init, *h),
{
    let mut v: Vec<Step> = Vec::new();
    v.push(run1(INIT_SCRIPT, "stop", false));
    if h.has_update_rc_d {
        v.push(run3("update-rc.d", "-f", SERVICE_NAME, "remove", false));
    } else if h.has_chkconfig {
        v.push(run2("chkconfig", "--del", SERVICE_NAME, false));
    }
    v.push(Step::RemoveFile { path: INIT_SCRIPT.to_string(), required: true });
    proof {
        assert(step_views(v@) =~~= uninstall_plan(InitType::Init, *h));
    }
    v
}

/// The steps that install the service under `t`, running `exe` with the
/// given config file and cache directory.
pub fn install_steps(t: InitType, exe: &str, config: &str, cache: &str, h: &ServiceHost) -> (v: Vec<Step>)
    ensures
        step_views(v@) == install_plan(t, exe@, config@, cache@, *h),
{
    match t {
        InitType::Systemd => install_systemd(exe, config, cache, h),
        InitType::OpenRc => install_openrc(exe, config, cache, h),
        InitType::Runit => install_runit(exe, config, cache, h),
        InitType::Dinit => install_dinit(exe, config, cache, h),
        InitType::S6 => install_s6(exe, config, cache, h),
        InitType::Init => install_sysv(exe, config, cache, h),
    }
}

/// The steps that remove the service from `t`.
pub fn uninstall_steps(t: InitType, h: &ServiceHost) -> (v: Vec<Step>)
    ensures
        step_views(v@) == uninstall_plan(t, *h),
{
    match t {
        InitType::Systemd => uninstall_systemd(h),
        InitType::OpenRc => uninstall_openrc(h),
        InitType::Runit => uninstall_runit(h),
        InitType::Dinit => uninstall_dinit(h),
        InitType::S6 => uninstall_s6(h),
        InitType::Init => uninstall_sysv(h),
    }
}

/// A command that controls a running service.
#[derive(Debug, Clone, Copy, PartialEq, Eq, Structural)]
pub enum Control {
    Start,
    Stop,
    Restart,
}

/// The verb of a control command.
pub open spec fn control_verb(c: Control) -> Seq<char> {
    match c {
        Control::Start => "start"@,
        Control::Stop => "stop"@,
        Control::Restart => "restart"@,
    }
}

/// The flag of `s6-svc` for a control command.
pub open spec fn s6_flag(c: Control) -> Seq<char> {
    match c {
        Control::Start => "-u"@,
        Control::Stop => "-d"@,
        Control::Restart => "-r"@,
    }
}

fn verb(c: Control) -> (s: &'static str)
    ensures
        s@ == control_verb(c),
{
    match c {
        Control::Start => "start",
        Control::Stop => "stop",
        Control::Restart => "restart",
    }
}

fn flag(c: Control) -> (s: &'static str)
    ensures
        s@ == s6_flag(c),
{
    match c {
        Control::Start => "-u",
        Control::Stop => "-d",
        Control::Restart => "-r",
    }
}

/// The command that starts, stops or restarts the service under `t`; its
/// failure is an error.
pub open spec fn control_plan(t: InitType, c: Control) -> StepView {
    match t {
        InitType::Systemd => run_view("systemctl"@, seq![control_verb(c), SERVICE_NAME@], true),
        InitType::OpenRc => run_view("rc-service"@, seq![SERVICE_NAME@, control_verb(c)], true),
        InitType::Runit => run_view("sv"@, seq![control_verb(c), SERVICE_NAME@], true),
        InitType::Dinit => run_view("dinitctl"@, seq![control_verb(c), SERVICE_NAME@], true),
        InitType::S6 => run_view("s6-svc"@, seq![s6_flag(c), S6_DIR@], true),
        InitType::Init => run_view(INIT_SCRIPT@, seq![control_verb(c)], true),
    }
}

/// The command that starts, stops or restarts the service under `t`.
pub fn control_step(t: InitType, c: Control) -> (s: Step)
    ensures
        s@ == control_plan(t, c),
{
    match t {
        InitType::Systemd => run2("systemctl", verb(c), SERVICE_NAME, true),
        InitType::OpenRc => run2("rc-service", SERVICE_NAME, verb(c), true),
        InitType::Runit => run2("sv", verb(c), SERVICE_NAME, true),
        InitType::Dinit => run2("dinitctl", verb(c), SERVICE_NAME, true),
        InitType::S6 => run2("s6-svc", flag(c), S6_DIR, true),
        InitType::Init => run1(INIT_SCRIPT, verb(c), true),
    }
}

/// Under systemd a control command is `systemctl` with the verb first and
/// the service name second: the same arguments `sv` (runit) and `dinitctl`
/// (dinit) get, the verb being the one the SysV init script is run with.
pub proof fn lemma_systemd_control(c: Control)
    ensures
        control_plan(InitType::Systemd, c) is Run,
        control_plan(InitType::Systemd, c)->program == "systemctl"@,
        control_plan(InitType::Systemd, c)->args.len() == 2,
        control_plan(InitType::Systemd, c)->args[0] == control_plan(InitType::Init, c)->args[0],
        control_plan(InitType::Systemd, c)->args[1] == SERVICE_NAME@,
        control_plan(InitType::Systemd, c)->args == control_plan(InitType::Runit, c)->args,
        control_plan(InitType::Systemd, c)->args == control_plan(InitType::Dinit, c)->args,
{
}

/// The command whose outcome tells whether the service runs under `t`.
pub open spec fn status_plan(t: InitType) -> StepView {
    match t {
        InitType::Systemd => run_view("systemctl"@, seq!["is-active"@, SERVICE_NAME@], false),
        InitType::OpenRc => run_view("rc-service"@, seq![SERVICE_NAME@, "status"@], false),
        InitType::Runit => run_view("sv"@, seq!["status"@, SERVICE_NAME@], false),
        InitType::Dinit => run_view("dinitctl"@, seq!["status"@, SERVICE_NAME@], false),
        InitType::S6 => run_view("s6-svstat"@, seq![S6_DIR@], false),
        InitType::Init => run_view(INIT_SCRIPT@, seq!["status"@], false),
    }
}

/// The command whose outcome tells whether the service runs under `t`.
pub fn status_step(t: InitType) -> (s: Step)
    ensures
        s@ == status_plan(t),
{
    match t {
        InitType::Systemd => run2("systemctl", "is-active", SERVICE_NAME, false),
        InitType::OpenRc => run2("rc-service", SERVICE_NAME, "status", false),
        InitType::Runit => run2("sv", "status", SERVICE_NAME, false),
        InitType::Dinit => run2("dinitctl", "status", SERVICE_NAME, false),
        InitType::S6 => run1("s6-svstat", S6_DIR, false),
        InitType::Init => run1(INIT_SCRIPT, "status", false),
    }
}

/// The path whose existence means the service is installed under `t`.
pub open spec fn installed_marker(t: InitType) -> Seq<char> {
    match t {
        InitType::Systemd => SYSTEMD_UNIT@,
        InitType::OpenRc => INIT_SCRIPT@,
        InitType::Runit => RUNIT_DIR@,
        InitType::Dinit => DINIT_SERVICE@,
        InitType::S6 => S6_DIR@,
        InitType::Init => INIT_SCRIPT@,
    }
}

/// The path whose existence means the service is installed under `t`.
pub fn installed_path(t: InitType) -> (s: &'static str)
    ensures
        s@ == installed_marker(t),
{
    match t {
        InitType::Systemd => SYSTEMD_UNIT,
        InitType::OpenRc => INIT_SCRIPT,
        InitType::Runit => RUNIT_DIR,
        InitType::Dinit => DINIT_SERVICE,
        InitType::S6 => S6_DIR,
        InitType::Init => INIT_SCRIPT,
    }
}

/// Whether the service runs, from whether it is installed and the outcome
/// of the status command (`ran_ok` is false when the command could not run
/// or exited with failure): runit needs a status line that starts with
/// `run:`, dinit one that says `Status: started` or `Status: running`, s6 one
/// that says `up (pid`, and SysV init an installed script.
pub open spec fn reports_active(t: InitType, installed: bool, ran_ok: bool, stdout: Seq<char>) -> bool {
    match t {
        InitType::Systemd => ran_ok,
        InitType::OpenRc => ran_ok,
        InitType::Runit => ran_ok && text::starts_with(text::trim(stdout), "run:"@),
        InitType::Dinit => ran_ok && (text::contains_seq(stdout, "Status: started"@)
            || text::contains_seq(stdout, "Status: running"@)),
        InitType::S6 => ran_ok && text::contains_seq(stdout, "up (pid"@),
        InitType::Init => installed && ran_ok,
    }
}

/// Reads whether the service runs under `t` from the status command's outcome.
pub fn is_active_from(t: InitType, installed: bool, ran_ok: bool, stdout: &str) -> (b: bool)
    ensures
        b == reports_active(t, installed, ran_ok, stdout@),
{
    match t {
        InitType::Systemd => ran_ok,
        InitType::OpenRc => ran_ok,
        InitType::Runit => {
            if !ran_ok {
                return false;
            }
            let t = text::to_chars(text::trim_str(stdout).as_str());
            let p = text::to_chars("run:");
            text::has_prefix(t.as_slice(), p.as_slice())
        },
        InitType::Dinit => ran_ok && (text::contains_str(stdout, "Status: started") || text::contains_str(
            stdout,
            "Status: running",
        )),
        InitType::S6 => ran_ok && text::contains_str(stdout, "up (pid"),
        InitType::Init => installed && ran_ok,
    }
}

/// The decimal text of a signed number.
pub open spec fn signed_text(n: int) -> Seq<char> {
    if n < 0 {
        seq!['-'] + text::decimal((-n) as nat)
    } else {
        text::decimal(n as nat)
    }
}

/// An exit code as `{:?}` prints an `Option<i32>`: `Some(3)` or `None`.
pub open spec fn exit_code_text(code: Option<i32>) -> Seq<char> {
    match code {
        Some(c) => "Some("@ + signed_text(c as int) + ")"@,
        None => "None"@,
    }
}

/// The error for a failed command: its label, ` failed: `, and the trimmed
/// error output, or the exit code where that is empty and the command words
/// its failure that way.
pub open spec fn failure_text(label: Seq<char>, exit_code_fallback: bool, stderr: Seq<char>, code: Option<i32>) -> Seq<char> {
    let e = text::trim(stderr);
    label + " failed: "@ + if exit_code_fallback && e.len() == 0 {
        "exit code "@ + exit_code_text(code)
    } else {
        e
    }
}

fn signed_chars(n: i32) -> (v: Vec<char>)
    ensures
        v@ == signed_text(n as int),
{
    if n < 0 {
        let m: i64 = -(n as i64);
        let mut v: Vec<char> = Vec::new();
        v.push('-');
        let d = text::decimal_chars(m as usize);
        text::push_all(&mut v, d.as_slice());
        v
    } else {
        text::decimal_chars(n as usize)
    }
}

fn exit_code_string(code: Option<i32>) -> (s: String)
    ensures
        s@ == exit_code_text(code),
{
    match code {
        Some(c) => {
            let d = signed_chars(c);
            String::from_str("Some(").concat(text::from_chars(d.as_slice()).as_str()).concat(")")
        },
        None => String::from_str("None"),
    }
}

/// The outcome of a command of a plan: `Ok` when it succeeded, else the
/// error worded by [`failure_text`].
pub fn command_outcome(
    label: &str,
    exit_code_fallback: bool,
    success: bool,
    stderr: &str,
    code: Option<i32>,
) -> (r: Result<(), String>)
    ensures
        success ==> r is Ok,
        !success ==> (r matches Err(e) && e@ == failure_text(label@, exit_code_fallback, stderr@, code)),
{
    if success {
        return Ok(());
    }
    let e = text::trim_str(stderr);
    let detail = if exit_code_fallback && e.as_str().is_empty() {
        String::from_str("exit code ").concat(exit_code_string(code).as_str())
    } else {
        e
    };
    Err(String::from_str(label).concat(" failed: ").concat(detail.as_str()))
}

/// A service manager: the plans and readings of one init system.
pub trait ServiceManager {
    /// The init system this manager drives.
    spec fn kind_of(&self) -> InitType;

    /// The init system this manager drives.
    fn init_type(&self) -> (t: InitType)
        ensures
            t == self.kind_of(),
    ;

    /// The path whose existence means the service is installed.
    fn marker_path(&self) -> (s: &'static str)
        ensures
            s@ == installed_marker(self.kind_of()),
    {
        installed_path(self.init_type())
    }

    /// The steps that install the service.
    fn install(&self, exe: &str, config: &str, cache: &str, host: &ServiceHost) -> (v: Vec<Step>)
        ensures
            step_views(v@) == install_plan(self.kind_of(), exe@, config@, cache@, *host),
    {
        install_steps(self.init_type(), exe, config, cache, host)
    }

    /// The steps that remove the service.
    fn uninstall(&self, host: &ServiceHost) -> (v: Vec<Step>)
        ensures
            step_views(v@) == uninstall_plan(self.kind_of(), *host),
    {
        uninstall_steps(self.init_type(), host)
    }

    /// The command that starts the service.
    fn start(&self) -> (s: Step)
        ensures
            s@ == control_plan(self.kind_of(), Control::Start),
    {
        control_step(self.init_type(), Control::Start)
    }

    /// The command that stops the service.
    fn stop(&self) -> (s: Step)
        ensures
            s@ == control_plan(self.kind_of(), Control::Stop),
    {
        control_step(self.init_type(), Control::Stop)
    }

    /// The command that restarts the service.
    fn restart(&self) -> (s: Step)
        ensures
            s@ == control_plan(self.kind_of(), Control::Restart),
    {
        control_step(self.init_type(), Control::Restart)
    }

    /// The command whose outcome [`ServiceManager::is_active`] reads.
    fn status(&self) -> (s: Step)
        ensures
            s@ == status_plan(self.kind_of()),
    {
        status_step(self.init_type())
    }

    /// Whether the service runs, from the status command's outcome.
    fn is_active(&self, installed: bool, ran_ok: bool, stdout: &str) -> (b: bool)
        ensures
            b == reports_active(self.kind_of(), installed, ran_ok, stdout@),
    {
        is_active_from(self.init_type(), installed, ran_ok, stdout)
    }
}

/// The systemd manager.
#[derive(Debug, Clone, Copy, PartialEq, Eq, Structural)]
pub struct SystemdManager;

/// The OpenRC manager.
#[derive(Debug, Clone, Copy, PartialEq, Eq, Structural)]
pub struct OpenRcManager;

/// The runit manager.
#[derive(Debug, Clone, Copy, PartialEq, Eq, Structural)]
pub struct RunitManager;

/// The dinit manager.
#[derive(Debug, Clone, Copy, PartialEq, Eq, Structural)]
pub struct DinitManager;

/// The s6 manager.
#[derive(Debug, Clone, Copy, PartialEq, Eq, Structural)]
pub struct S6Manager;

/// The SysV init manager.
#[derive(Debug, Clone, Copy, PartialEq, Eq, Structural)]
pub struct InitManager;

impl ServiceManager for SystemdManager {
    open spec fn kind_of(&self) -> InitType {
        InitType::Systemd
    }

    fn init_type(&self) -> (t: InitType) {
        InitType::Systemd
    }
}

impl ServiceManager for OpenRcManager {
    open spec fn kind_of(&self) -> InitType {
        InitType::OpenRc
    }

    fn init_type(&self) -> (t: InitType) {
        InitType::OpenRc
    }
}

impl ServiceManager for RunitManager {
    open spec fn kind_of(&self) -> InitType {
        InitType::Runit
    }

    fn init_type(&self) -> (t: InitType) {
        InitType::Runit
    }
}

impl ServiceManager for DinitManager {
    open spec fn kind_of(&self) -> InitType {
        InitType::Dinit
    }

    fn init_type(&self) -> (t: InitType) {
        InitType::Dinit
    }
}

impl ServiceManager for S6Manager {
    open spec fn kind_of(&self) -> InitType {
        InitType::S6
    }

    fn init_type(&self) -> (t: InitType) {
        InitType::S6
    }
}

impl ServiceManager for InitManager {
    open spec fn kind_of(&self) -> InitType {
        InitType::Init
    }

    fn init_type(&self) -> (t: InitType) {
        InitType::Init
    }
}

/// The manager of any init system.
#[derive(Debug, Clone, Copy, PartialEq, Eq, Structural)]
pub enum AnyManager {
    Systemd(SystemdManager),
    OpenRc(OpenRcManager),
    Runit(RunitManager),
    Dinit(DinitManager),
    S6(S6Manager),
    Init(InitManager),
}

impl ServiceManager for AnyManager {
    open spec fn kind_of(&self) -> InitType {
        match self {
            AnyManager::Systemd(_) => InitType::Systemd,
            AnyManager::OpenRc(_) => InitType::OpenRc,
            AnyManager::Runit(_) => InitType::Runit,
            AnyManager::Dinit(_) => InitType::Dinit,
            AnyManager::S6(_) => InitType::S6,
            AnyManager::Init(_) => InitType::Init,
        }
    }

    fn init_type(&self) -> (t: InitType) {
        match self {
            AnyManager::Systemd(_) => InitType::Systemd,
            AnyManager::OpenRc(_) => InitType::OpenRc,
            AnyManager::Runit(_) => InitType::Runit,
            AnyManager::Dinit(_) => InitType::Dinit,
            AnyManager::S6(_) => InitType::S6,
            AnyManager::Init(_) => InitType::Init,
        }
    }
}

/// The manager for an init system.
pub fn get_manager(init_type: InitType) -> (m: AnyManager)
    ensures
        m.kind_of() == init_type,
{
    match init_type {
        InitType::Systemd => AnyManager::Systemd(SystemdManager),
        InitType::OpenRc => AnyManager::OpenRc(OpenRcManager),
        InitType::Runit => AnyManager::Runit(RunitManager),
        InitType::Dinit => AnyManager::Dinit(DinitManager),
        InitType::S6 => AnyManager::S6(S6Manager),
        InitType::Init => AnyManager::Init(InitManager),
    }
}

/// The manager for the init system the probes point to, if any.
pub fn get_detected_manager(p: &InitProbes) -> (m: Option<AnyManager>)
    ensures
        match detected(*p) {
            Some(t) => m matches Some(g) && g.kind_of() == t,
            None => m is None,
        },
{
    match detect_init_system(p) {
        Some(t) => Some(get_manager(t)),
        None => None,
    }
}

/// Whether a step leaves a file or link at `p`.
pub open spec fn writes_path(s: StepView, p: Seq<char>) -> bool {
    match s {
        StepView::WriteFile { path, .. } => path == p,
        StepView::Symlink { link, .. } => link == p,
        _ => false,
    }
}

/// Whether a step removes `p`: the file or link itself, or a directory it lies in.
pub open spec fn clears_path(s: StepView, p: Seq<char>) -> bool {
    match s {
        StepView::RemoveFile { path, .. } => path == p,
        StepView::RemoveDir { path } => path == p || text::starts_with(p, path + "/"@),
        _ => false,
    }
}

/// Whether some step of a plan leaves a file or link at `p`.
pub open spec fn plan_writes(plan: Seq<StepView>, p: Seq<char>) -> bool {
    exists|i: int| 0 <= i < plan.len() && #[trigger] writes_path(plan[i], p)
}

/// Whether some step of a plan removes `p`.
pub open spec fn plan_clears(plan: Seq<StepView>, p: Seq<char>) -> bool {
    exists|i: int| 0 <= i < plan.len() && #[trigger] clears_path(plan[i], p)
}

/// Removing the service takes away every file and link that installing it
/// left, on the same host, whatever program, config and cache it was
/// installed with.
pub proof fn lemma_uninstall_clears_install(
    t: InitType,
    exe: Seq<char>,
    config: Seq<char>,
    cache: Seq<char>,
    h: ServiceHost,
)
    ensures
        forall|p: Seq<char>|
            plan_writes(install_plan(t, exe, config, cache, h), p) ==> plan_clears(
                #[trigger] uninstall_plan(t, h),
                p,
            ),
{
    let ins = install_plan(t, exe, config, cache, h);
    let un = uninstall_plan(t, h);
    reveal_strlit("/etc/sv/zapret-rust/run");
    reveal_strlit("/etc/sv/zapret-rust");
    reveal_strlit("/etc/s6/services/zapret-rust/run");
    reveal_strlit("/etc/s6/services/zapret-rust");
    reveal_strlit("/");
    assert forall|p: Seq<char>| plan_writes(ins, p) implies plan_clears(un, p) by {
        let i = choose|i: int| 0 <= i < ins.len() && #[trigger] writes_path(ins[i], p);
        match t {
            InitType::Systemd => {
                assert(clears_path(un[2], p));
            },
            InitType::OpenRc => {
                assert(clears_path(un[2], p));
            },
            InitType::Runit => {
                if i == 1 {
                    assert(RUNIT_RUN@.take((RUNIT_DIR@ + "/"@).len() as int) =~= RUNIT_DIR@ + "/"@);
                    assert(clears_path(un[2], p));
                } else {
                    assert(clears_path(un[1], p));
                }
            },
            InitType::Dinit => {
                if i == 0 {
                    assert(clears_path(un[2], p));
                } else {
                    assert(clears_path(un[1], p));
                }
            },
            InitType::S6 => {
                assert(S6_RUN@.take((S6_DIR@ + "/"@).len() as int) =~= S6_DIR@ + "/"@);
                assert(clears_path(un[1], p));
            },
            InitType::Init => {
                assert(i == 0);
                assert(clears_path(un[un.len() - 1], p));
            },
        }
    }
}

/// Whether a step creates the directory `p`.
pub open spec fn makes_dir(s: StepView, p: Seq<char>) -> bool {
    s matches StepView::CreateDir { path, .. } && path == p
}

/// Installing the service leaves its marker path (a file, or for runit and
/// s6 the service directory), and removing it takes the marker away, so the
/// service reads as installed after one and not after the other.
pub proof fn lemma_marker_follows_plans(
    t: InitType,
    exe: Seq<char>,
    config: Seq<char>,
    cache: Seq<char>,
    h: ServiceHost,
)
    ensures
        ({
            let ins = install_plan(t, exe, config, cache, h);
            let m = installed_marker(t);
            plan_writes(ins, m) || exists|i: int| 0 <= i < ins.len() && #[trigger] makes_dir(ins[i], m)
        }),
        plan_clears(uninstall_plan(t, h), installed_marker(t)),
{
    let ins = install_plan(t, exe, config, cache, h);
    let un = uninstall_plan(t, h);
    let m = installed_marker(t);
    match t {
        InitType::Systemd => {
            assert(writes_path(ins[0], m));
            assert(clears_path(un[2], m));
        },
        InitType::OpenRc => {
            assert(writes_path(ins[0], m));
            assert(clears_path(un[2], m));
        },
        InitType::Runit => {
            assert(makes_dir(ins[0], m));
            assert(clears_path(un[2], m));
        },
        InitType::Dinit => {
            assert(writes_path(ins[0], m));
            assert(clears_path(un[2], m));
        },
        InitType::S6 => {
            assert(makes_dir(ins[0], m));
            assert(clears_path(un[1], m));
        },
        InitType::Init => {
            assert(writes_path(ins[0], m));
            assert(clears_path(un[un.len() - 1], m));
        },
    }
}

} // verus!
