//! FRP (reverse proxy) tunnel settings and the `frpc` configuration files the
//! panel generates from them.
use vstd::prelude::*;

use crate::paths::{join, path_join};
use crate::text::{
    append, bool_text, chars_of, decimal, opt_view, owned, parse_unsigned, parse_u32,
    push_char, push_decimal, trimmed, trim,
};

verus! {

/// The tunnel that exposes the panel itself.
#[derive(Debug, Clone)]
pub struct PanelFrpTunnelSettings {
    pub enabled: bool,
    pub local_port: u16,
    pub remote_port: u16,
    pub proxy_name: String,
}

/// The panel-wide FRP settings.
#[derive(Debug, Clone)]
pub struct GlobalFrpSettings {
    pub enabled: bool,
    pub frpc_bin: String,
    pub server_addr: String,
    pub server_port: u16,
    pub auth_token: String,
    pub transport_protocol: String,
    pub tls_enable: bool,
    pub log_level: String,
    pub panel_tunnel: PanelFrpTunnelSettings,
}

/// A configuration file to write: where, and what.
#[derive(Debug)]
pub struct FrpConfigFile {
    pub path: String,
    pub content: String,
}

/// The live state of one tunnel.
#[derive(Debug, Clone)]
pub struct FrpRuntimeStatus {
    pub key: String,
    pub running: bool,
    pub pid: Option<u32>,
    pub config_path: Option<String>,
    pub remote_port: Option<u16>,
    pub last_error: Option<String>,
}

impl GlobalFrpSettings {
    /// The settings used before any are saved: FRP off, `frpc` from the
    /// path, port 7000, TCP without TLS, log level `info`, and the panel
    /// tunnel (off) forwarding `panel_port` to the same remote port.
    pub fn with_panel_port(panel_port: u16) -> (r: Self)
        ensures
            !r.enabled,
            r.frpc_bin@ == "frpc"@,
            r.server_addr@.len() == 0,
            r.server_port == 7000,
            r.auth_token@.len() == 0,
            r.transport_protocol@ == "tcp"@,
            !r.tls_enable,
            r.log_level@ == "info"@,
            !r.panel_tunnel.enabled,
            r.panel_tunnel.local_port == panel_port,
            r.panel_tunnel.remote_port == panel_port,
            r.panel_tunnel.proxy_name@ == "terraria-panel"@,
    {
        GlobalFrpSettings {
            enabled: false,
            frpc_bin: owned("frpc"),
            server_addr: String::new(),
            server_port: 7000,
            auth_token: String::new(),
            transport_protocol: owned("tcp"),
            tls_enable: false,
            log_level: owned("info"),
            panel_tunnel: PanelFrpTunnelSettings {
                enabled: false,
                local_port: panel_port,
                remote_port: panel_port,
                proxy_name: owned("terraria-panel"),
            },
        }
    }

    /// Saved settings with an unset (zero) panel port filled in with
    /// `panel_port`; everything else is kept.
    pub fn with_default_panel_port(self, panel_port: u16) -> (r: Self)
        ensures
            r.panel_tunnel.local_port == (if self.panel_tunnel.local_port == 0 {
                panel_port
            } else {
                self.panel_tunnel.local_port
            }),
            r == (GlobalFrpSettings {
                panel_tunnel: PanelFrpTunnelSettings {
                    local_port: r.panel_tunnel.local_port,
                    ..self.panel_tunnel
                },
                ..self
            }),
    {
        let mut s = self;
        if s.panel_tunnel.local_port == 0 {
            s.panel_tunnel.local_port = panel_port;
        }
        s
    }
}

/// Where the FRP settings are stored under the data directory.
pub fn global_frp_settings_path(data_dir: &str) -> (r: String)
    ensures
        r@ == path_join(data_dir@, "settings/frp.json"@),
{
    join(data_dir, "settings/frp.json")
}

pub open spec fn runtime_dir_spec(data_dir: Seq<char>) -> Seq<char> {
    path_join(path_join(data_dir, "runtime"@), "frp"@)
}

/// The directory of generated `frpc` configurations.
pub fn runtime_frp_dir(data_dir: &str) -> (r: String)
    ensures
        r@ == runtime_dir_spec(data_dir@),
{
    let a = join(data_dir, "runtime");
    join(a.as_str(), "frp")
}

/// The configuration file of the panel's own tunnel.
pub fn panel_frp_config_path(data_dir: &str) -> (r: String)
    ensures
        r@ == path_join(runtime_dir_spec(data_dir@), "panel.toml"@),
{
    let d = runtime_frp_dir(data_dir);
    join(d.as_str(), "panel.toml")
}

/// The configuration file of one server's tunnel.
pub fn server_frp_config_path(data_dir: &str, server_id: &str) -> (r: String)
    ensures
        r@ == path_join(runtime_dir_spec(data_dir@), "server_"@ + server_id@ + ".toml"@),
{
    let d = runtime_frp_dir(data_dir);
    let mut name = owned("server_");
    append(&mut name, server_id);
    append(&mut name, ".toml");
    join(d.as_str(), name.as_str())
}

/// `s` with every `"` replaced by `\"`.
pub open spec fn escape_quotes(s: Seq<char>) -> Seq<char>
    decreases s.len(),
{
    if s.len() == 0 {
        Seq::empty()
    } else {
        escape_quotes(s.drop_last()) + (if s.last() == '"' {
            seq!['\\', '"']
        } else {
            seq![s.last()]
        })
    }
}

fn append_escaped(out: &mut String, s: &str)
    ensures
        final(out)@ == old(out)@ + escape_quotes(s@),
{
    let v = chars_of(s);
    let ghost o0 = out@;
    let mut i: usize = 0;
    assert(v@.take(0) =~= Seq::<char>::empty());
    while i < v.len()
        invariant
            i <= v.len(),
            v@ == s@,
            out@ == o0 + escape_quotes(v@.take(i as int)),
        decreases v.len() - i,
    {
        let c = v[i];
        assert(v@.take(i + 1).drop_last() =~= v@.take(i as int));
        if c == '"' {
            push_char(out, '\\');
            push_char(out, '"');
        } else {
            push_char(out, c);
        }
        i = i + 1;
        assert(out@ =~= o0 + escape_quotes(v@.take(i as int)));
    }
    assert(v@.take(v.len() as int) =~= v@);
}

/// The text of an `frpc` TOML configuration: the server connection with
/// token authentication, and one TCP proxy from `127.0.0.1:local_port` to
/// `remote_port`.
pub open spec fn frp_config_text(
    settings: GlobalFrpSettings,
    proxy_name: Seq<char>,
    local_port: u16,
    remote_port: u16,
) -> Seq<char> {
    "serverAddr = \""@ + settings.server_addr@ + "\"\nserverPort = "@ + decimal(
        settings.server_port as nat,
    ) + "\nauth.method = \"token\"\nauth.token = \""@ + escape_quotes(settings.auth_token@)
        + "\"\nlog.level = \""@ + settings.log_level@ + "\"\ntransport.protocol = \""@
        + settings.transport_protocol@ + "\"\ntransport.tls.enable = "@ + bool_text(
        settings.tls_enable,
    ) + "\n\n[[proxies]]\nname = \""@ + proxy_name + "\"\ntype = \"tcp\"\nlocalIP = \"127.0.0.1\"\nlocalPort = "@
        + decimal(local_port as nat) + "\nremotePort = "@ + decimal(remote_port as nat) + "\n"@
}

pub fn frp_config_content(
    settings: &GlobalFrpSettings,
    proxy_name: &str,
    local_port: u16,
    remote_port: u16,
) -> (r: String)
    ensures
        r@ == frp_config_text(*settings, proxy_name@, local_port, remote_port),
{
    let mut out = owned("serverAddr = \"");
    append(&mut out, settings.server_addr.as_str());
    append(&mut out, "\"\nserverPort = ");
    push_decimal(&mut out, settings.server_port as u64);
    append(&mut out, "\nauth.method = \"token\"\nauth.token = \"");
    append_escaped(&mut out, settings.auth_token.as_str());
    append(&mut out, "\"\nlog.level = \"");
    append(&mut out, settings.log_level.as_str());
    append(&mut out, "\"\ntransport.protocol = \"");
    append(&mut out, settings.transport_protocol.as_str());
    append(&mut out, "\"\ntransport.tls.enable = ");
    if settings.tls_enable {
        append(&mut out, "true");
    } else {
        append(&mut out, "false");
    }
    append(&mut out, "\n\n[[proxies]]\nname = \"");
    append(&mut out, proxy_name);
    append(&mut out, "\"\ntype = \"tcp\"\nlocalIP = \"127.0.0.1\"\nlocalPort = ");
    push_decimal(&mut out, local_port as u64);
    append(&mut out, "\nremotePort = ");
    push_decimal(&mut out, remote_port as u64);
    append(&mut out, "\n");
    out
}

/// The configuration file for the panel's own tunnel.
pub fn write_panel_frp_config(data_dir: &str, settings: &GlobalFrpSettings) -> (r: FrpConfigFile)
    ensures
        r.path@ == path_join(runtime_dir_spec(data_dir@), "panel.toml"@),
        r.content@ == frp_config_text(
            *settings,
            settings.panel_tunnel.proxy_name@,
            settings.panel_tunnel.local_port,
            settings.panel_tunnel.remote_port,
        ),
{
    let path = panel_frp_config_path(data_dir);
    let content = frp_config_content(
        settings,
        settings.panel_tunnel.proxy_name.as_str(),
        settings.panel_tunnel.local_port,
        settings.panel_tunnel.remote_port,
    );
    FrpConfigFile { path, content }
}

/// The configuration file for one server's tunnel.
pub fn write_server_frp_config(
    data_dir: &str,
    settings: &GlobalFrpSettings,
    server_id: &str,
    proxy_name: &str,
    local_port: u16,
    remote_port: u16,
) -> (r: FrpConfigFile)
    ensures
        r.path@ == path_join(runtime_dir_spec(data_dir@), "server_"@ + server_id@ + ".toml"@),
        r.content@ == frp_config_text(*settings, proxy_name@, local_port, remote_port),
{
    let path = server_frp_config_path(data_dir, server_id);
    let content = frp_config_content(settings, proxy_name, local_port, remote_port);
    FrpConfigFile { path, content }
}

impl FrpRuntimeStatus {
    /// The status of a tunnel the panel has no process for.
    pub fn stopped(key: String) -> (r: Self)
        ensures
            r.key@ == key@,
            !r.running,
            r.pid is None,
            r.config_path is None,
            r.remote_port is None,
            r.last_error is None,
    {
        FrpRuntimeStatus {
            key,
            running: false,
            pid: None,
            config_path: None,
            remote_port: None,
            last_error: None,
        }
    }

    /// The status of a tunnel with a recorded process; `alive` says whether
    /// that process still exists.
    pub fn with_process(
        key: String,
        pid: u32,
        config_path: String,
        remote_port: Option<u16>,
        last_error: Option<String>,
        alive: bool,
    ) -> (r: Self)
        ensures
            r.key@ == key@,
            r.running == alive,
            r.pid == Some(pid),
            r.config_path == Some(config_path),
            r.remote_port == remote_port,
            r.last_error == last_error,
    {
        FrpRuntimeStatus {
            key,
            running: alive,
            pid: Some(pid),
            config_path: Some(config_path),
            remote_port,
            last_error,
        }
    }
}

/// The first line of `s` (`str::lines().next()`): up to the first `\n`,
/// without a trailing `\r`; `None` for empty text.
pub open spec fn first_line(s: Seq<char>) -> Option<Seq<char>> {
    if s.len() == 0 {
        None
    } else {
        let n = if exists|i: int| 0 <= i < s.len() && s[i] == '\n' {
            choose|i: int| 0 <= i < s.len() && s[i] == '\n' && forall|j: int| 0 <= j < i ==> s[j] != '\n'
        } else {
            s.len() as int
        };
        let l = s.take(n);
        Some(if l.len() > 0 && l.last() == '\r' { l.drop_last() } else { l })
    }
}

/// The process id `pgrep` printed first, if its first line is a number.
pub fn pid_from_pgrep_output(stdout: &str) -> (r: Option<u32>)
    ensures
        r == (match first_line(stdout@) {
            Some(l) => match parse_unsigned(trim(l), u32::MAX as nat) {
                Some(v) => Some(v as u32),
                None => None,
            },
            None => None,
        }),
{
    let v = chars_of(stdout);
    if v.len() == 0 {
        return None;
    }
    let mut n: usize = 0;
    while n < v.len() && v[n] != '\n'
        invariant
            n <= v.len(),
            forall|j: int| 0 <= j < n ==> v@[j] != '\n',
        decreases v.len() - n,
    {
        n = n + 1;
    }
    proof {
        if exists|i: int| 0 <= i < v@.len() && v@[i] == '\n' {
            let c = choose|i: int| 0 <= i < v@.len() && v@[i] == '\n' && forall|j: int| 0 <= j < i ==> v@[j] != '\n';
            assert(0 <= c < v@.len() && v@[c as int] == '\n' && forall|j: int| 0 <= j < c ==> v@[j] != '\n') by {
                assert(0 <= n < v@.len() && v@[n as int] == '\n');
            }
            if c < n {
                assert(v@[c] != '\n');
            }
            if n < c {
                assert(v@[n as int] != '\n');
            }
        }
    }
    let mut end = n;
    if end > 0 && v[end - 1] == '\r' {
        end = end - 1;
    }
    proof {
        let l = v@.take(n as int);
        if l.len() > 0 && l.last() == '\r' {
            assert(l.drop_last() =~= v@.subrange(0, end as int));
        } else {
            assert(l =~= v@.subrange(0, end as int));
        }
    }
    let line = crate::text::string_of_range(&v, 0, end);
    let t = trimmed(line.as_str());
    parse_u32(t.as_str())
}

// ───────────────────────── running tunnels ─────────────────────────

/// A tunnel process the panel started or found.
#[derive(Debug, Clone)]
pub struct FrpProcess {
    pub key: String,
    pub pid: u32,
    pub config_path: String,
    pub remote_port: Option<u16>,
    pub last_error: Option<String>,
}

/// The tunnel processes by key, each key once.
#[derive(Debug)]
pub struct FrpTable {
    entries: Vec<FrpProcess>,
}


/// What the table records of a tunnel: its process id, configuration file,
/// remote port and last error.
pub open spec fn frp_entry_view(p: FrpProcess) -> (u32, Seq<char>, Option<u16>, Option<Seq<char>>) {
    (p.pid, p.config_path@, p.remote_port, opt_view(p.last_error))
}

impl FrpTable {
    pub closed spec fn keys(&self) -> Seq<Seq<char>> {
        self.entries@.map_values(|p: FrpProcess| p.key@)
    }

    pub closed spec fn entry_at(&self, i: int) -> FrpProcess {
        self.entries@[i]
    }

    /// No key is recorded twice.
    pub open spec fn wf(&self) -> bool {
        self.keys().no_duplicates()
    }

    /// The tunnels as a map from key to what is recorded of them.
    pub open spec fn tunnels(&self) -> Map<Seq<char>, (u32, Seq<char>, Option<u16>, Option<Seq<char>>)> {
        Map::new(
            |k: Seq<char>| self.keys().contains(k),
            |k: Seq<char>| frp_entry_view(self.entry_at(choose|i: int| 0 <= i < self.keys().len() && self.keys()[i] == k)),
        )
    }

    /// An empty table.
    pub fn new() -> (t: Self)
        ensures
            t.wf(),
            t.tunnels() == Map::<Seq<char>, (u32, Seq<char>, Option<u16>, Option<Seq<char>>)>::empty(),
    {
        let t = FrpTable { entries: Vec::new() };
        assert(t.keys() =~= Seq::<Seq<char>>::empty());
        assert(t.tunnels() =~= Map::<Seq<char>, (u32, Seq<char>, Option<u16>, Option<Seq<char>>)>::empty());
        t
    }

    fn position(&self, key: &str) -> (r: Option<usize>)
        ensures
            r is None <==> !self.keys().contains(key@),
            r matches Some(k) ==> k < self.keys().len() && self.keys()[k as int] == key@,
    {
        let mut k: usize = 0;
        while k < self.entries.len()
            invariant
                k <= self.entries@.len(),
                forall|m: int| 0 <= m < k ==> self.keys()[m] != key@,
            decreases self.entries@.len() - k,
        {
            assert(self.keys()[k as int] == self.entries@[k as int].key@);
            if crate::text::str_eq(self.entries[k].key.as_str(), key) {
                return Some(k);
            }
            k = k + 1;
        }
        proof {
            if self.keys().contains(key@) {
                let m = choose|m: int| 0 <= m < self.keys().len() && self.keys()[m] == key@;
                assert(self.keys()[m] == key@);
            }
        }
        None
    }

    proof fn lemma_lookup(&self, k: int)
        requires
            self.wf(),
            0 <= k < self.keys().len(),
        ensures
            self.tunnels().contains_key(self.keys()[k]),
            self.tunnels()[self.keys()[k]] == frp_entry_view(self.entry_at(k)),
    {
        let key = self.keys()[k];
        assert(self.keys().contains(key));
        let c = choose|i: int| 0 <= i < self.keys().len() && self.keys()[i] == key;
        assert(c == k);
    }

    /// The status of tunnel `key`; `alive` says whether its process still
    /// runs (asked of the system for the recorded process id).
    pub fn status(&self, key: &str, alive: bool) -> (r: FrpRuntimeStatus)
        requires
            self.wf(),
        ensures
            r.key@ == key@,
            !self.tunnels().contains_key(key@) ==> !r.running && r.pid is None && r.config_path is None
                && r.remote_port is None && r.last_error is None,
            self.tunnels().contains_key(key@) ==> r.running == alive && r.pid == Some(self.tunnels()[key@].0)
                && (r.config_path matches Some(c) && c@ == self.tunnels()[key@].1) && r.remote_port
                == self.tunnels()[key@].2 && opt_view(r.last_error) == self.tunnels()[key@].3,
    {
        match self.position(key) {
            None => FrpRuntimeStatus::stopped(crate::text::owned(key)),
            Some(k) => {
                proof {
                    self.lemma_lookup(k as int);
                }
                let e = &self.entries[k];
                FrpRuntimeStatus::with_process(
                    crate::text::owned(key),
                    e.pid,
                    e.config_path.clone(),
                    e.remote_port,
                    e.last_error.clone(),
                    alive,
                )
            },
        }
    }

    /// The process id recorded for `key`.
    pub fn pid_of(&self, key: &str) -> (r: Option<u32>)
        requires
            self.wf(),
        ensures
            r is None <==> !self.tunnels().contains_key(key@),
            r matches Some(p) ==> p == self.tunnels()[key@].0,
    {
        match self.position(key) {
            None => None,
            Some(k) => {
                proof {
                    self.lemma_lookup(k as int);
                }
                Some(self.entries[k].pid)
            },
        }
    }

    /// Forgets tunnel `key` and gives back its process id, to be stopped.
    pub fn remove(&mut self, key: &str) -> (r: Option<u32>)
        requires
            old(self).wf(),
        ensures
            final(self).wf(),
            r is None <==> !old(self).tunnels().contains_key(key@),
            r matches Some(p) ==> p == old(self).tunnels()[key@].0,
            final(self).tunnels() == old(self).tunnels().remove(key@),
    {
        match self.position(key) {
            None => {
                assert(self.tunnels() =~= self.tunnels().remove(key@));
                None
            },
            Some(k) => {
                proof {
                    self.lemma_lookup(k as int);
                }
                let ghost before = *self;
                let ghost bk = self.keys();
                let pid = self.entries[k].pid;
                self.entries.remove(k);
                proof {
                    assert(self.keys() =~= bk.remove(k as int));
                    assert forall|i: int, j: int| 0 <= i < j < self.keys().len() implies self.keys()[i] != self.keys()[j] by {
                        let i0 = if i < k { i } else { i + 1 };
                        let j0 = if j < k { j } else { j + 1 };
                        assert(self.keys()[i] == bk[i0] && self.keys()[j] == bk[j0]);
                    }
                    assert forall|x: Seq<char>| #[trigger] self.keys().contains(x) <==> (bk.contains(x) && x != key@) by {
                        if self.keys().contains(x) {
                            let m = choose|m: int| 0 <= m < self.keys().len() && self.keys()[m] == x;
                            let m0 = if m < k { m } else { m + 1 };
                            assert(bk[m0] == x);
                            assert(m0 != k);
                        }
                        if bk.contains(x) && x != key@ {
                            let m = choose|m: int| 0 <= m < bk.len() && bk[m] == x;
                            if m < k {
                                assert(self.keys()[m] == x);
                            } else {
                                assert(m != k);
                                assert(self.keys()[m - 1] == x);
                            }
                        }
                    }
                    assert forall|x: Seq<char>| #[trigger] self.tunnels().contains_key(x) implies self.tunnels()[x]
                        == before.tunnels()[x] by {
                        let m = choose|m: int| 0 <= m < self.keys().len() && self.keys()[m] == x;
                        self.lemma_lookup(m);
                        let m0 = if m < k { m } else { m + 1 };
                        assert(self.entry_at(m) == before.entry_at(m0));
                        before.lemma_lookup(m0);
                    }
                    assert(self.tunnels() =~= before.tunnels().remove(key@));
                }
                Some(pid)
            },
        }
    }

    /// Records a started (or found) tunnel under `key`; the table must not
    /// hold `key` (stop it first).
    pub fn insert(&mut self, key: &str, pid: u32, config_path: &str, remote_port: Option<u16>)
        requires
            old(self).wf(),
            !old(self).tunnels().contains_key(key@),
        ensures
            final(self).wf(),
            final(self).tunnels() == old(self).tunnels().insert(key@, (pid, config_path@, remote_port, None)),
    {
        let ghost before = *self;
        let ghost bk = self.keys();
        self.entries.push(FrpProcess {
            key: crate::text::owned(key),
            pid,
            config_path: crate::text::owned(config_path),
            remote_port,
            last_error: None,
        });
        proof {
            assert(self.keys() =~= bk.push(key@));
            assert forall|i: int, j: int| 0 <= i < j < self.keys().len() implies self.keys()[i] != self.keys()[j] by {
                if j == bk.len() {
                    assert(bk.contains(bk[i]));
                }
            }
            self.lemma_lookup(bk.len() as int);
            assert forall|x: Seq<char>| #[trigger] self.tunnels().contains_key(x) && x != key@ implies self.tunnels()[x]
                == before.tunnels()[x] by {
                let m = choose|m: int| 0 <= m < self.keys().len() && self.keys()[m] == x;
                self.lemma_lookup(m);
                assert(m < bk.len());
                assert(self.entry_at(m) == before.entry_at(m));
                before.lemma_lookup(m);
            }
            assert forall|x: Seq<char>| #[trigger] self.keys().contains(x) <==> (bk.contains(x) || x == key@) by {
                if self.keys().contains(x) {
                    let m = choose|m: int| 0 <= m < self.keys().len() && self.keys()[m] == x;
                    if m < bk.len() {
                        assert(bk[m] == x);
                    }
                }
                if bk.contains(x) {
                    let m = choose|m: int| 0 <= m < bk.len() && bk[m] == x;
                    assert(self.keys()[m] == x);
                }
            }
            assert(self.tunnels() =~= before.tunnels().insert(key@, (pid, config_path@, remote_port, None)));
        }
    }

    /// The keys of all recorded tunnels (to stop them all).
    pub fn tunnel_keys(&self) -> (r: Vec<String>)
        ensures
            r@.map_values(|s: String| s@) == self.keys(),
    {
        let mut out: Vec<String> = Vec::new();
        let mut i: usize = 0;
        while i < self.entries.len()
            invariant
                i <= self.entries@.len(),
                out@.map_values(|s: String| s@) == self.keys().take(i as int),
            decreases self.entries@.len() - i,
        {
            let ghost b = out@.map_values(|s: String| s@);
            out.push(self.entries[i].key.clone());
            assert(out@.map_values(|s: String| s@) =~= b.push(self.entries@[i as int].key@));
            assert(self.keys().take(i + 1) =~= self.keys().take(i as int).push(self.keys()[i as int]));
            i = i + 1;
        }
        assert(self.keys().take(self.keys().len() as int) =~= self.keys());
        out
    }
}

impl Default for FrpTable {
    fn default() -> (t: Self)
        ensures
            t.wf(),
            t.tunnels() == Map::<Seq<char>, (u32, Seq<char>, Option<u16>, Option<Seq<char>>)>::empty(),
    {
        FrpTable::new()
    }
}

/// A tunnel recorded under a key reads back as recorded, and removing it
/// gives back its process id and leaves the other tunnels as they were.
pub proof fn law_tunnel_reads_back(before: FrpTable, after_insert: FrpTable, after_remove: FrpTable, key: Seq<char>, pid: u32, config_path: Seq<char>, remote_port: Option<u16>)
    requires
        after_insert.tunnels() == before.tunnels().insert(key, (pid, config_path, remote_port, None)),
        after_remove.tunnels() == after_insert.tunnels().remove(key),
        !before.tunnels().contains_key(key),
    ensures
        after_insert.tunnels().contains_key(key),
        after_insert.tunnels()[key] == (pid, config_path, remote_port, None::<Seq<char>>),
        after_remove.tunnels() == before.tunnels(),
{
    assert(after_remove.tunnels() =~= before.tunnels());
}

} // verus!
