//! The session lifecycle: connect, prepare, launch, stop and tear down.
//!
//! Each operation checks that a process is bound and returns the device
//! commands that carry it out, in order. The caller runs them one after
//! another against its transport and stops at the first failure; teardown
//! commands are run each regardless of the others.
use vstd::prelude::*;
use vstd::string::*;
use crate::activity::{activity_of, resolve_activity, trimmed_end};
use crate::config::{config_text, generate_config, pairs_view};
use crate::error::AndroidError;
use crate::paths::{
    activity_query, activity_query_spec, chmod_command, chmod_spec, clear_debug_command,
    clear_debug_spec, config_path, config_path_spec, grant_command, grant_spec, profile_path,
    profile_path_spec, decimal, decimal_string, remove_command, remove_spec, set_debug_command, set_debug_spec, surround,
    TARGET_PORT,
};

verus! {

#[verifier::external_type_specification]
#[verifier::external_body]
pub struct ExDevice(mozdevice::Device);

/// Permission bits of everything pushed to the device.
pub const PUSH_MODE: u32 = 0o777;

/// What the caller asks of a session, already validated.
#[derive(Debug)]
pub struct AndroidOptions {
    /// The package of the application under automation.
    pub package: String,
    /// The activity to launch; resolved on the device where absent.
    pub activity: Option<String>,
    /// The serial of the device to use, where several are attached.
    pub device_serial: Option<String>,
    /// Extra intent arguments passed on launch.
    pub intent_arguments: Option<Vec<String>>,
}

pub open spec fn opt_view(o: Option<String>) -> Option<Seq<char>> {
    match o {
        Some(s) => Some(s@),
        None => None,
    }
}

pub open spec fn strings_view(v: Seq<String>) -> Seq<Seq<char>> {
    v.map_values(|s: String| s@)
}

pub open spec fn opt_strings_view(o: Option<Vec<String>>) -> Option<Seq<Seq<char>>> {
    match o {
        Some(v) => Some(strings_view(v@)),
        None => None,
    }
}

/// The options as plain values.
pub struct OptionsView {
    pub package: Seq<char>,
    pub activity: Option<Seq<char>>,
    pub device_serial: Option<Seq<char>>,
    pub intent_arguments: Option<Seq<Seq<char>>>,
}

impl View for AndroidOptions {
    type V = OptionsView;

    open spec fn view(&self) -> OptionsView {
        OptionsView {
            package: self.package@,
            activity: opt_view(self.activity),
            device_serial: opt_view(self.device_serial),
            intent_arguments: opt_strings_view(self.intent_arguments),
        }
    }
}

fn clone_opt(o: &Option<String>) -> (r: Option<String>)
    ensures
        opt_view(r) == opt_view(*o),
{
    match o {
        Some(s) => Some(s.clone()),
        None => None,
    }
}

fn clone_strings(v: &Vec<String>) -> (r: Vec<String>)
    ensures
        strings_view(r@) == strings_view(v@),
{
    let mut r: Vec<String> = Vec::new();
    let mut i: usize = 0;
    while i < v.len()
        invariant
            i <= v.len(),
            r@.len() == i,
            forall|j: int| 0 <= j < i ==> #[trigger] r@[j]@ == v@[j]@,
        decreases v.len() - i,
    {
        let s = v[i].clone();
        proof {
            assert(s@ == v@[i as int]@);
        }
        r.push(s);
        i += 1;
    }
    proof {
        assert(strings_view(r@) =~= strings_view(v@));
    }
    r
}

impl AndroidOptions {
    /// A copy of the options.
    pub fn copy(&self) -> (r: AndroidOptions)
        ensures
            r@ == self@,
    {
        AndroidOptions {
            package: self.package.clone(),
            activity: clone_opt(&self.activity),
            device_serial: clone_opt(&self.device_serial),
            intent_arguments: match &self.intent_arguments {
                Some(v) => Some(clone_strings(v)),
                None => None,
            },
        }
    }
}

/// One interaction with the device.
#[derive(Debug, PartialEq, Eq)]
pub enum DeviceCommand {
    /// Run a shell command.
    Shell(String),
    /// Clear the stored data of a package.
    ClearAppData(String),
    /// Push a local directory to a device path with the given mode.
    PushDir(String, String, u32),
    /// Write the given contents to a device file with the given mode.
    PushFile(String, String, u32),
    /// Start package/activity with intent arguments.
    Launch(String, String, Vec<String>),
    /// Force-stop a package.
    ForceStop(String),
    /// Forward a host port to a device port.
    ForwardPort(u16, u16),
    /// Remove the forward of a host port.
    KillForwardPort(u16),
}

/// A device command as plain values.
pub enum Command {
    Shell(Seq<char>),
    ClearAppData(Seq<char>),
    PushDir(Seq<char>, Seq<char>, u32),
    PushFile(Seq<char>, Seq<char>, u32),
    Launch(Seq<char>, Seq<char>, Seq<Seq<char>>),
    ForceStop(Seq<char>),
    ForwardPort(u16, u16),
    KillForwardPort(u16),
}

impl View for DeviceCommand {
    type V = Command;

    open spec fn view(&self) -> Command {
        match self {
            DeviceCommand::Shell(c) => Command::Shell(c@),
            DeviceCommand::ClearAppData(p) => Command::ClearAppData(p@),
            DeviceCommand::PushDir(l, d, m) => Command::PushDir(l@, d@, *m),
            DeviceCommand::PushFile(c, d, m) => Command::PushFile(c@, d@, *m),
            DeviceCommand::Launch(p, a, args) => Command::Launch(p@, a@, strings_view(args@)),
            DeviceCommand::ForceStop(p) => Command::ForceStop(p@),
            DeviceCommand::ForwardPort(h, t) => Command::ForwardPort(*h, *t),
            DeviceCommand::KillForwardPort(h) => Command::KillForwardPort(*h),
        }
    }
}

pub open spec fn commands_view(v: Seq<DeviceCommand>) -> Seq<Command> {
    v.map_values(|c: DeviceCommand| c@)
}

/// A running application on a device.
#[derive(Debug)]
pub struct AndroidProcess {
    pub device: mozdevice::Device,
    pub package: String,
    pub activity: String,
}

impl AndroidProcess {
    /// Binds `package` and `activity` on `device`.
    pub fn new(device: mozdevice::Device, package: String, activity: String) -> (r: Result<
        AndroidProcess,
        mozdevice::DeviceError,
    >)
        ensures
            r matches Ok(p) && p.device == device && p.package == package && p.activity
                == activity,
    {
        Ok(AndroidProcess { device, package, activity })
    }

    /// The message of a failed launch, with the package, the activity and
    /// the transport's own message `cause`.
    pub fn launch_failure_message(&self, cause: &str) -> (r: String)
        ensures
            r@ == "Could not launch Android "@ + self.package@ + "/"@ + self.activity@ + ": "@
                + cause@,
    {
        let r = surround("Could not launch Android ", self.package.as_str(), "/");
        surround(r.as_str(), self.activity.as_str(), ": ").concat(cause)
    }
}

/// The session: the caller's options, the bound process once connected,
/// the device profile path and the port forward.
#[derive(Debug)]
pub struct AndroidHandler {
    pub options: AndroidOptions,
    pub process: Option<AndroidProcess>,
    pub profile: String,
    pub host_port: u16,
    pub target_port: u16,
}

/// The intent arguments of a launch: the caller's own, then the marionette
/// arguments for applications that do not read the configuration document.
pub open spec fn launch_args(extra: Option<Seq<Seq<char>>>, profile: Seq<char>) -> Seq<Seq<char>> {
    let base = match extra {
        Some(a) => a,
        None => Seq::<Seq<char>>::empty(),
    };
    base + seq!["--es"@, "args"@, "-marionette -profile "@ + profile]
}

/// The commands of `prepare`, in order.
pub open spec fn prepare_plan(
    package: Seq<char>,
    profile: Seq<char>,
    local: Seq<char>,
    document: Seq<char>,
) -> Seq<Command> {
    seq![
        Command::ClearAppData(package),
        Command::Shell(grant_spec(package, "READ_EXTERNAL_STORAGE"@)),
        Command::Shell(grant_spec(package, "WRITE_EXTERNAL_STORAGE"@)),
        Command::Shell(remove_spec(profile)),
        Command::PushDir(local, profile, PUSH_MODE),
        Command::PushFile(document, config_path_spec(package), PUSH_MODE),
        Command::Shell(chmod_spec(config_path_spec(package))),
        Command::Shell(set_debug_spec(package)),
    ]
}

/// The commands of teardown, in order; none where no process is bound.
pub open spec fn teardown_plan(package: Option<Seq<char>>, host_port: u16) -> Seq<Command> {
    match package {
        Some(p) => seq![Command::Shell(clear_debug_spec(p)), Command::KillForwardPort(host_port)],
        None => Seq::<Command>::empty(),
    }
}

/// `process` is bound to `package` and `activity` on `device`.
pub open spec fn bound_as(
    process: Option<AndroidProcess>,
    device: mozdevice::Device,
    package: Seq<char>,
    activity: Seq<char>,
) -> bool {
    process matches Some(p) && p.device == device && p.package@ == package && p.activity@
        == activity
}

/// `r` is the error that no activity was found for `package`.
pub open spec fn activity_not_found(r: Result<(), AndroidError>, package: Seq<char>) -> bool {
    r matches Err(AndroidError::ActivityNotFound(p)) && p@ == package
}

/// How one teardown step went, for the log.
#[derive(Debug, PartialEq, Eq)]
pub struct TeardownLog {
    /// The step failed; the caller logs it as an error and goes on.
    pub failed: bool,
    pub message: String,
}

/// The forward `(<host> -> <target>)` as the log names it.
pub open spec fn forward_text(host: u16, target: u16) -> Seq<char> {
    "Android port forward ("@ + decimal(host as nat) + " -> "@ + decimal(target as nat) + ")"@
}

/// The log message of teardown step `step`, given its failure message if it
/// failed and the ports of the forward.
pub open spec fn teardown_message(
    step: int,
    failure: Option<Seq<char>>,
    host: u16,
    target: u16,
) -> Seq<char> {
    if step == 0 {
        match failure {
            None => "Disabled reading from configuration file"@,
            Some(e) => "Failed disabling from configuration file: "@ + e,
        }
    } else {
        match failure {
            None => forward_text(host, target) + " stopped"@,
            Some(e) => forward_text(host, target) + " failed to stop: "@ + e,
        }
    }
}

fn forward_string(host: u16, target: u16) -> (r: String)
    ensures
        r@ == forward_text(host, target),
{
    let h = decimal_string(host);
    let t = decimal_string(target);
    let r = surround("Android port forward (", h.as_str(), " -> ");
    surround(r.as_str(), t.as_str(), ")")
}

fn teardown_entry(step: usize, failure: &Option<String>, host: u16, target: u16) -> (r:
    TeardownLog)
    ensures
        r.failed == failure is Some,
        r.message@ == teardown_message(step as int, opt_view(*failure), host, target),
{
    if step == 0 {
        match failure {
            None => TeardownLog {
                failed: false,
                message: String::from_str("Disabled reading from configuration file"),
            },
            Some(e) => TeardownLog {
                failed: true,
                message: String::from_str("Failed disabling from configuration file: ").concat(
                    e.as_str(),
                ),
            },
        }
    } else {
        let f = forward_string(host, target);
        match failure {
            None => TeardownLog { failed: false, message: f.concat(" stopped") },
            Some(e) => TeardownLog {
                failed: true,
                message: f.concat(" failed to stop: ").concat(e.as_str()),
            },
        }
    }
}

impl AndroidHandler {
    /// The package of the bound process, if any.
    pub open spec fn bound_package(&self) -> Option<Seq<char>> {
        match self.process {
            Some(p) => Some(p.package@),
            None => None,
        }
    }

    /// A disconnected session for `options`.
    pub fn new(options: &AndroidOptions) -> (r: AndroidHandler)
        ensures
            r.options@ == options@,
            r.process is None,
            r.profile@ == profile_path_spec(options.package@),
            r.host_port == 0,
            r.target_port == 0,
    {
        AndroidHandler {
            options: options.copy(),
            process: None,
            profile: profile_path(options.package.as_str()),
            host_port: 0,
            target_port: 0,
        }
    }

    /// Records the port forward of a new connection and returns the command
    /// that sets it up.
    pub fn forward(&mut self, host_port: u16) -> (r: DeviceCommand)
        ensures
            r@ == Command::ForwardPort(host_port, TARGET_PORT),
            final(self).host_port == host_port,
            final(self).target_port == TARGET_PORT,
            final(self).options == old(self).options,
            final(self).process == old(self).process,
            final(self).profile == old(self).profile,
    {
        self.host_port = host_port;
        self.target_port = TARGET_PORT;
        DeviceCommand::ForwardPort(host_port, TARGET_PORT)
    }

    /// The shell command whose answer names the activity to launch, where
    /// the options name none.
    pub fn activity_query(&self) -> (r: Option<String>)
        ensures
            r is Some <==> self.options.activity is None,
            r matches Some(q) ==> q@ == activity_query_spec(self.options.package@),
    {
        match &self.options.activity {
            Some(_) => None,
            None => Some(activity_query(self.options.package.as_str())),
        }
    }

    /// Binds the process on `device`, in a session not yet connected. The
    /// activity is the one of the
    /// options, else the one that `response`, the answer to
    /// [`Self::activity_query`], names.
    pub fn connect(&mut self, device: mozdevice::Device, response: Option<String>) -> (r: Result<
        (),
        AndroidError,
    >)
        requires
            old(self).process is None,
            old(self).options.activity is None ==> response is Some,
        ensures
            final(self).options == old(self).options,
            final(self).profile == old(self).profile,
            final(self).host_port == old(self).host_port,
            final(self).target_port == old(self).target_port,
            match old(self).options.activity {
                Some(a) => r is Ok && bound_as(
                    final(self).process,
                    device,
                    old(self).options.package@,
                    a@,
                ),
                None => match activity_of(trimmed_end(response->Some_0@)) {
                    None => final(self).process == old(self).process && activity_not_found(
                        r,
                        old(self).options.package@,
                    ),
                    Some(a) => r is Ok && bound_as(
                        final(self).process,
                        device,
                        old(self).options.package@,
                        a,
                    ),
                },
            },
    {
        let activity = match &self.options.activity {
            Some(a) => a.clone(),
            None => {
                let text = match &response {
                    Some(t) => t,
                    None => unreached(),
                };
                match resolve_activity(self.options.package.as_str(), text.as_str()) {
                    Ok(a) => a,
                    Err(e) => return Err(e),
                }
            },
        };
        match AndroidProcess::new(device, self.options.package.clone(), activity) {
            Ok(p) => {
                self.process = Some(p);
                Ok(())
            },
            Err(e) => Err(AndroidError::Device(e)),
        }
    }

    /// The configuration document for this session's profile path and the
    /// caller's environment pairs.
    pub fn generate_config_file(&self, envs: &Vec<(String, String)>) -> (r: Result<
        String,
        AndroidError,
    >)
        ensures
            r is Ok,
            r->Ok_0@ == config_text(self.profile@, pairs_view(envs@)),
    {
        match generate_config(self.profile.as_str(), envs) {
            Ok(s) => Ok(s),
            Err(e) => Err(AndroidError::Serde(e)),
        }
    }

    /// The commands that prepare the device: reset the application, grant
    /// storage access, replace the profile by the local directory `profile`,
    /// push the configuration document and mark the application debuggable.
    pub fn prepare(&self, profile: &str, env: &Vec<(String, String)>) -> (r: Result<
        Vec<DeviceCommand>,
        AndroidError,
    >)
        ensures
            self.process is None ==> r matches Err(AndroidError::NotConnected),
            self.process matches Some(p) ==> r is Ok && commands_view(r->Ok_0@) == prepare_plan(
                p.package@,
                self.profile@,
                profile@,
                config_text(self.profile@, pairs_view(env@)),
            ),
    {
        let process = match &self.process {
            Some(p) => p,
            None => return Err(AndroidError::NotConnected),
        };
        let document = match self.generate_config_file(env) {
            Ok(s) => s,
            Err(e) => return Err(e),
        };
        let package = process.package.as_str();
        let target = config_path(package);
        proof {
            reveal_strlit("READ_EXTERNAL_STORAGE");
            reveal_strlit("WRITE_EXTERNAL_STORAGE");
        }
        let v: Vec<DeviceCommand> = vec![
            DeviceCommand::ClearAppData(process.package.clone()),
            DeviceCommand::Shell(grant_command(package, "READ_EXTERNAL_STORAGE")),
            DeviceCommand::Shell(grant_command(package, "WRITE_EXTERNAL_STORAGE")),
            DeviceCommand::Shell(remove_command(self.profile.as_str())),
            DeviceCommand::PushDir(String::from_str(profile), self.profile.clone(), PUSH_MODE),
            DeviceCommand::PushFile(document, target.clone(), PUSH_MODE),
            DeviceCommand::Shell(chmod_command(target.as_str())),
            DeviceCommand::Shell(set_debug_command(package)),
        ];
        proof {
            assert(commands_view(v@) =~= prepare_plan(
                process.package@,
                self.profile@,
                profile@,
                config_text(self.profile@, pairs_view(env@)),
            ));
        }
        Ok(v)
    }

    /// The command that starts the bound package and activity.
    pub fn launch(&self) -> (r: Result<DeviceCommand, AndroidError>)
        ensures
            self.process is None ==> r matches Err(AndroidError::NotConnected),
            self.process matches Some(p) ==> r matches Ok(c) && c@ == Command::Launch(
                p.package@,
                p.activity@,
                launch_args(opt_strings_view(self.options.intent_arguments), self.profile@),
            ),
    {
        let process = match &self.process {
            Some(p) => p,
            None => return Err(AndroidError::NotConnected),
        };
        let mut args = match &self.options.intent_arguments {
            Some(a) => clone_strings(a),
            None => Vec::new(),
        };
        args.push(String::from_str("--es"));
        args.push(String::from_str("args"));
        args.push(String::from_str("-marionette -profile ").concat(self.profile.as_str()));
        proof {
            assert(strings_view(args@) =~= launch_args(
                opt_strings_view(self.options.intent_arguments),
                self.profile@,
            ));
        }
        Ok(DeviceCommand::Launch(process.package.clone(), process.activity.clone(), args))
    }

    /// The command that force-stops the bound package.
    pub fn force_stop(&self) -> (r: Result<DeviceCommand, AndroidError>)
        ensures
            self.process is None ==> r matches Err(AndroidError::NotConnected),
            self.process matches Some(p) ==> r matches Ok(c) && c@ == Command::ForceStop(
                p.package@,
            ),
    {
        match &self.process {
            Some(p) => Ok(DeviceCommand::ForceStop(p.package.clone())),
            None => Err(AndroidError::NotConnected),
        }
    }

    /// The commands that undo the session's device state: clear the
    /// debuggable mark, then remove the port forward. Each is to be tried
    /// whatever became of the other.
    pub fn teardown(&self) -> (r: Vec<DeviceCommand>)
        ensures
            commands_view(r@) == teardown_plan(self.bound_package(), self.host_port),
    {
        match &self.process {
            Some(p) => {
                let v = vec![
                    DeviceCommand::Shell(clear_debug_command(p.package.as_str())),
                    DeviceCommand::KillForwardPort(self.host_port),
                ];
                proof {
                    assert(commands_view(v@) =~= teardown_plan(
                        self.bound_package(),
                        self.host_port,
                    ));
                }
                v
            },
            None => {
                let v: Vec<DeviceCommand> = Vec::new();
                proof {
                    assert(commands_view(v@) =~= teardown_plan(
                        self.bound_package(),
                        self.host_port,
                    ));
                }
                v
            },
        }
    }
}

impl AndroidHandler {
    /// The log of a teardown whose steps, all of them tried, ended as
    /// `outcomes` says: `None` for success, else the failure's message. Each
    /// step gets its own entry, whatever became of the other.
    pub fn teardown_report(&self, outcomes: &Vec<Option<String>>) -> (r: Vec<TeardownLog>)
        requires
            outcomes.len() == teardown_plan(self.bound_package(), self.host_port).len(),
        ensures
            r.len() == outcomes.len(),
            forall|i: int|
                0 <= i < r.len() ==> (#[trigger] r@[i]).failed == outcomes@[i] is Some
                    && r@[i].message@ == teardown_message(
                    i,
                    opt_view(outcomes@[i]),
                    self.host_port,
                    self.target_port,
                ),
    {
        let mut r: Vec<TeardownLog> = Vec::new();
        let mut i: usize = 0;
        while i < outcomes.len()
            invariant
                i <= outcomes.len(),
                r.len() == i,
                forall|j: int|
                    0 <= j < i ==> (#[trigger] r@[j]).failed == outcomes@[j] is Some
                        && r@[j].message@ == teardown_message(
                        j,
                        opt_view(outcomes@[j]),
                        self.host_port,
                        self.target_port,
                    ),
            decreases outcomes.len() - i,
        {
            r.push(teardown_entry(i, &outcomes[i], self.host_port, self.target_port));
            i += 1;
        }
        r
    }
}

/// A session that never connected tears down without any device command.
pub proof fn lemma_unconnected_teardown_is_empty(h: AndroidHandler)
    requires
        h.process is None,
    ensures
        teardown_plan(h.bound_package(), h.host_port) == Seq::<Command>::empty(),
{
}

/// A connected session tears down in two steps fixed in advance, so that a
/// failure of one cannot keep the other from being tried: clearing the
/// debuggable mark, then removing the port forward.
pub proof fn lemma_teardown_steps(h: AndroidHandler)
    requires
        h.process is Some,
    ensures
        teardown_plan(h.bound_package(), h.host_port).len() == 2,
        teardown_plan(h.bound_package(), h.host_port)[0] == Command::Shell(
            clear_debug_spec(h.process->Some_0.package@),
        ),
        teardown_plan(h.bound_package(), h.host_port)[1] == Command::KillForwardPort(h.host_port),
{
}

} // verus!
