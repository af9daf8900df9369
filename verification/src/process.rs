//! Running TShock servers: how a server is launched, and the table of the
//! processes that run.
use vstd::prelude::*;

use crate::error::AppError;
use crate::models::ServerStatus;
use crate::names::strings_view;
use crate::text::{append, concat2, concat3, decimal, i64_text, owned, signed_decimal, str_eq, u64_text};

verus! {

// ───────────────────────── launching ─────────────────────────

/// How a TShock server process is started: the program and its arguments.
#[derive(Debug, Clone)]
pub struct LaunchPlan {
    pub program: String,
    pub args: Vec<String>,
    /// A self-contained build (TShock 6 and later) runs directly; older
    /// builds run through `dotnet`.
    pub self_contained: bool,
}

/// What the launch depends on besides the server's settings: which
/// executables the version directory holds, whether the world file exists,
/// and the directory's listing (for the error when nothing can run).
#[derive(Debug, Clone)]
pub struct InstallState {
    pub has_binary: bool,
    pub has_dll: bool,
    pub world_exists: bool,
    pub dir_listing: String,
}

/// The settings a server is launched with.
#[derive(Debug, Clone)]
pub struct LaunchSettings {
    pub version_path: String,
    pub config_path: String,
    pub port: u16,
    pub max_players: i32,
    pub password: Option<String>,
    pub world_path: Option<String>,
    pub autocreate: Option<u32>,
    pub world_name: Option<String>,
}

/// `-password <pwd>` when there is one.
pub open spec fn password_args(p: Option<String>) -> Seq<Seq<char>> {
    match p {
        Some(pwd) => seq!["-password"@, pwd@],
        None => Seq::empty(),
    }
}

/// `-world <path>` when a world is set and its file exists.
pub open spec fn world_args(w: Option<String>, exists: bool) -> Seq<Seq<char>> {
    match w {
        Some(path) => if exists {
            seq!["-world"@, path@]
        } else {
            Seq::empty()
        },
        None => Seq::empty(),
    }
}

/// `-autocreate <1|2|3>` (small, medium, large) when asked for one of them.
pub open spec fn autocreate_args(a: Option<u32>) -> Seq<Seq<char>> {
    match a {
        Some(size) => if 1 <= size <= 3 {
            seq!["-autocreate"@, decimal(size as nat)]
        } else {
            Seq::empty()
        },
        None => Seq::empty(),
    }
}

/// `-worldname <name>` when a non-empty name is given.
pub open spec fn world_name_args(n: Option<String>) -> Seq<Seq<char>> {
    match n {
        Some(name) => if name@.len() > 0 {
            seq!["-worldname"@, name@]
        } else {
            Seq::empty()
        },
        None => Seq::empty(),
    }
}

/// The arguments after the program (and after the DLL for `dotnet`).
pub open spec fn server_args(s: LaunchSettings, world_exists: bool) -> Seq<Seq<char>> {
    seq![
        "-configpath"@,
        s.config_path@,
        "-port"@,
        decimal(s.port as nat),
        "-maxplayers"@,
        signed_decimal(s.max_players as int),
    ] + password_args(s.password) + world_args(s.world_path, world_exists) + autocreate_args(
        s.autocreate,
    ) + world_name_args(s.world_name)
}

/// The self-contained executable of a version: `<version>/TShock.Server`.
pub open spec fn binary_path(version_path: Seq<char>) -> Seq<char> {
    version_path + "/TShock.Server"@
}

/// The DLL of an older version: `<version>/TShock.Server.dll`.
pub open spec fn dll_path(version_path: Seq<char>) -> Seq<char> {
    version_path + "/TShock.Server.dll"@
}

/// The error when a version holds neither executable.
pub open spec fn missing_executable_message(version_path: Seq<char>, listing: Seq<char>) -> Seq<char> {
    "TShock 可执行文件未找到，请检查版本 "@ + version_path + " 是否正确安装。目录内容: ["@ + listing + "]"@
}

fn push_str_arg(args: &mut Vec<String>, a: &str)
    ensures
        strings_view(final(args)@) == strings_view(old(args)@).push(a@),
{
    let ghost before = strings_view(args@);
    args.push(owned(a));
    assert(strings_view(args@) =~= before.push(a@));
}

fn password_part(args: &mut Vec<String>, p: &Option<String>)
    ensures
        strings_view(final(args)@) == strings_view(old(args)@) + password_args(*p),
{
    match p {
        Some(pwd) => {
            push_str_arg(args, "-password");
            push_str_arg(args, pwd.as_str());
        },
        None => {},
    }
    assert(strings_view(args@) =~= strings_view(old(args)@) + password_args(*p));
}

fn world_part(args: &mut Vec<String>, w: &Option<String>, exists: bool)
    ensures
        strings_view(final(args)@) == strings_view(old(args)@) + world_args(*w, exists),
{
    match w {
        Some(path) => {
            if exists {
                push_str_arg(args, "-world");
                push_str_arg(args, path.as_str());
            }
        },
        None => {},
    }
    assert(strings_view(args@) =~= strings_view(old(args)@) + world_args(*w, exists));
}

fn autocreate_part(args: &mut Vec<String>, a: Option<u32>)
    ensures
        strings_view(final(args)@) == strings_view(old(args)@) + autocreate_args(a),
{
    match a {
        Some(size) => {
            if size >= 1 && size <= 3 {
                push_str_arg(args, "-autocreate");
                let t = u64_text(size as u64);
                push_str_arg(args, t.as_str());
            }
        },
        None => {},
    }
    assert(strings_view(args@) =~= strings_view(old(args)@) + autocreate_args(a));
}

fn world_name_part(args: &mut Vec<String>, n: &Option<String>)
    ensures
        strings_view(final(args)@) == strings_view(old(args)@) + world_name_args(*n),
{
    match n {
        Some(name) => {
            if name.unicode_len() > 0 {
                push_str_arg(args, "-worldname");
                push_str_arg(args, name.as_str());
            }
        },
        None => {},
    }
    assert(strings_view(args@) =~= strings_view(old(args)@) + world_name_args(*n));
}

/// How to launch a server: the self-contained binary when the version has
/// one, else the DLL through `dotnet`, with the server's arguments; refused
/// with `NotFound` when the version holds neither.
pub fn launch_plan(settings: &LaunchSettings, install: &InstallState) -> (r: Result<LaunchPlan, AppError>)
    ensures
        (!install.has_binary && !install.has_dll) <==> r is Err,
        r matches Err(e) ==> (e matches AppError::NotFound(m) && m@ == missing_executable_message(
            settings.version_path@,
            install.dir_listing@,
        )),
        r matches Ok(p) ==> {
            &&& p.self_contained == install.has_binary
            &&& install.has_binary ==> p.program@ == binary_path(settings.version_path@)
                && strings_view(p.args@) == server_args(*settings, install.world_exists)
            &&& !install.has_binary ==> p.program@ == "dotnet"@ && strings_view(p.args@) == seq![
                dll_path(settings.version_path@),
            ] + server_args(*settings, install.world_exists)
        },
{
    let vp = settings.version_path.as_str();
    if !install.has_binary && !install.has_dll {
        let mut m = concat3("TShock 可执行文件未找到，请检查版本 ", vp, " 是否正确安装。目录内容: [");
        append(&mut m, install.dir_listing.as_str());
        append(&mut m, "]");
        return Err(AppError::NotFound(m));
    }
    let mut args: Vec<String> = Vec::new();
    let program = if install.has_binary {
        concat2(vp, "/TShock.Server")
    } else {
        let dll = concat2(vp, "/TShock.Server.dll");
        push_str_arg(&mut args, dll.as_str());
        owned("dotnet")
    };
    let ghost head = strings_view(args@);
    push_str_arg(&mut args, "-configpath");
    push_str_arg(&mut args, settings.config_path.as_str());
    push_str_arg(&mut args, "-port");
    let port = u64_text(settings.port as u64);
    push_str_arg(&mut args, port.as_str());
    push_str_arg(&mut args, "-maxplayers");
    let mp = i64_text(settings.max_players as i64);
    push_str_arg(&mut args, mp.as_str());
    password_part(&mut args, &settings.password);
    world_part(&mut args, &settings.world_path, install.world_exists);
    autocreate_part(&mut args, settings.autocreate);
    world_name_part(&mut args, &settings.world_name);
    assert(strings_view(args@) =~= head + server_args(*settings, install.world_exists));
    Ok(LaunchPlan { program, args, self_contained: install.has_binary })
}

/// What is written to a server's standard input for a command: the
/// command and a newline.
pub fn stdin_line(command: &str) -> (r: String)
    ensures
        r@ == command@ + "\n"@,
{
    concat2(command, "\n")
}

/// How a line the server wrote to standard error shows in its log.
pub fn stderr_log_line(line: &str) -> (r: String)
    ensures
        r@ == "[STDERR] "@ + line@,
{
    concat2("[STDERR] ", line)
}

// ───────────────────────── the process table ─────────────────────────

/// The servers whose processes run, each once.
#[derive(Debug)]
pub struct ProcessTable {
    running: Vec<String>,
}

pub open spec fn not_running_message(server_id: Seq<char>) -> Seq<char> {
    "Server "@ + server_id + " not running"@
}

impl ProcessTable {
    /// The ids of the running servers.
    pub closed spec fn ids(&self) -> Seq<Seq<char>> {
        strings_view(self.running@)
    }

    /// No server is in the table twice.
    pub open spec fn wf(&self) -> bool {
        self.ids().no_duplicates()
    }

    /// Whether `id` runs.
    pub open spec fn runs(&self, id: Seq<char>) -> bool {
        self.ids().contains(id)
    }

    /// An empty table.
    pub fn new() -> (t: Self)
        ensures
            t.wf(),
            t.ids() == Seq::<Seq<char>>::empty(),
    {
        let t = ProcessTable { running: Vec::new() };
        assert(t.ids() =~= Seq::<Seq<char>>::empty());
        t
    }

    fn position(&self, id: &str) -> (r: Option<usize>)
        ensures
            r is None <==> !self.runs(id@),
            r matches Some(k) ==> k < self.ids().len() && self.ids()[k as int] == id@,
    {
        let mut k: usize = 0;
        while k < self.running.len()
            invariant
                k <= self.running@.len(),
                forall|m: int| 0 <= m < k ==> self.ids()[m] != id@,
            decreases self.running@.len() - k,
        {
            assert(self.ids()[k as int] == self.running@[k as int]@);
            if str_eq(self.running[k].as_str(), id) {
                return Some(k);
            }
            k = k + 1;
        }
        proof {
            if self.runs(id@) {
                let m = choose|m: int| 0 <= m < self.ids().len() && self.ids()[m] == id@;
                assert(self.ids()[m] == id@);
            }
        }
        None
    }

    /// Whether `id` runs.
    pub fn is_running(&self, id: &str) -> (r: bool)
        ensures
            r == self.runs(id@),
    {
        self.position(id).is_some()
    }

    /// `Running` while the process runs, else `Stopped`.
    pub fn get_status(&self, id: &str) -> (r: ServerStatus)
        ensures
            r == (if self.runs(id@) { ServerStatus::Running } else { ServerStatus::Stopped }),
    {
        if self.is_running(id) {
            ServerStatus::Running
        } else {
            ServerStatus::Stopped
        }
    }

    /// Records a started server; refused with `Conflict` while it runs.
    pub fn start(&mut self, id: &str) -> (r: Result<(), AppError>)
        requires
            old(self).wf(),
        ensures
            final(self).wf(),
            r is Err <==> old(self).runs(id@),
            r matches Err(e) ==> (e matches AppError::Conflict(m) && m@ == "Server already running"@),
            r is Err ==> final(self).ids() == old(self).ids(),
            r is Ok ==> final(self).ids() == old(self).ids().push(id@),
    {
        if self.is_running(id) {
            return Err(AppError::Conflict(owned("Server already running")));
        }
        let ghost before = self.ids();
        self.running.push(owned(id));
        assert(self.ids() =~= before.push(id@));
        proof {
            assert forall|i: int, j: int| 0 <= i < j < self.ids().len() implies self.ids()[i] != self.ids()[j] by {
                if j == before.len() {
                    assert(before.contains(before[i]));
                }
            }
        }
        Ok(())
    }

    /// Removes a server that stopped or is being stopped; refused with
    /// `NotFound` when it does not run.
    pub fn stop(&mut self, id: &str) -> (r: Result<(), AppError>)
        requires
            old(self).wf(),
        ensures
            final(self).wf(),
            r is Err <==> !old(self).runs(id@),
            r matches Err(e) ==> (e matches AppError::NotFound(m) && m@ == not_running_message(id@)),
            r is Err ==> final(self).ids() == old(self).ids(),
            !final(self).runs(id@),
            forall|x: Seq<char>| x != id@ ==> (#[trigger] final(self).runs(x) <==> old(self).runs(x)),
    {
        match self.position(id) {
            None => {
                Err(AppError::NotFound(concat3("Server ", id, " not running")))
            },
            Some(k) => {
                let ghost before = self.ids();
                self.running.remove(k);
                assert(self.ids() =~= before.remove(k as int));
                proof {
                    assert forall|x: Seq<char>| x != id@ implies (#[trigger] self.runs(x) <==> before.contains(x)) by {
                        if before.contains(x) {
                            let m = choose|m: int| 0 <= m < before.len() && before[m] == x;
                            if m < k {
                                assert(self.ids()[m] == x);
                            } else {
                                assert(m != k);
                                assert(self.ids()[m - 1] == x);
                            }
                        }
                        if self.runs(x) {
                            let m = choose|m: int| 0 <= m < self.ids().len() && self.ids()[m] == x;
                            if m < k {
                                assert(before[m] == x);
                            } else {
                                assert(before[m + 1] == x);
                            }
                        }
                    }
                    if self.runs(id@) {
                        let m = choose|m: int| 0 <= m < self.ids().len() && self.ids()[m] == id@;
                        if m < k {
                            assert(before[m] == id@);
                        } else {
                            assert(before[m + 1] == id@);
                        }
                    }
                }
                Ok(())
            },
        }
    }

    /// Whether a command can go to `id`: refused with `NotFound` when it does
    /// not run.
    pub fn command_target(&self, id: &str) -> (r: Result<(), AppError>)
        ensures
            r is Ok <==> self.runs(id@),
            r matches Err(e) ==> (e matches AppError::NotFound(m) && m@ == not_running_message(id@)),
    {
        if self.is_running(id) {
            Ok(())
        } else {
            Err(AppError::NotFound(concat3("Server ", id, " not running")))
        }
    }
}

impl Default for ProcessTable {
    fn default() -> (t: Self)
        ensures
            t.wf(),
            t.ids() == Seq::<Seq<char>>::empty(),
    {
        ProcessTable::new()
    }
}

/// A server that was started runs until it is stopped, and a second start
/// meanwhile is refused; stopping it leaves the other servers as they were.
pub proof fn law_start_then_stop(before: ProcessTable, started: ProcessTable, stopped: ProcessTable, id: Seq<char>)
    requires
        before.wf(),
        !before.runs(id),
        started.ids() == before.ids().push(id),
        !stopped.runs(id),
        forall|x: Seq<char>| x != id ==> (#[trigger] stopped.runs(x) <==> started.runs(x)),
    ensures
        started.runs(id),
        forall|x: Seq<char>| #[trigger] stopped.runs(x) <==> before.runs(x),
{
    assert(started.ids()[before.ids().len() as int] == id);
    assert forall|x: Seq<char>| #[trigger] stopped.runs(x) <==> before.runs(x) by {
        if x != id {
            if before.runs(x) {
                let m = choose|m: int| 0 <= m < before.ids().len() && before.ids()[m] == x;
                assert(started.ids()[m] == x);
            }
            if started.runs(x) {
                let m = choose|m: int| 0 <= m < started.ids().len() && started.ids()[m] == x;
                assert(before.ids()[m] == x);
            }
        }
    }
}

} // verus!
