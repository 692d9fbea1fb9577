//! Network boot configuration for local debugging and the dedicated
//! binaries: command-line parsing, environment fallbacks, the window
//! placement for side-by-side testing and the boot decision.
use vstd::prelude::*;
use crate::pvp_net::{NetMode, PvpNetConfig, PvpNetConfigView};
use crate::text::{
    chars_contain, push_all, push_str, string_from, string_of,
    chars_are, chars_eq, chars_of, chars_start_with, eq_ignore_ascii_case, find_any, has_infix,
    has_prefix, index_of_any, last_index_of, lowercase, parse_trimmed_i32, parse_trimmed_u16, parse_trimmed_u64, slice_chars, to_ascii_lowercase,
    trim_chars, trim_str, trimmed, trimmed_i32, trimmed_u16, trimmed_u64,
};

verus! {

/// Which network game a boot starts.
#[derive(Debug, Clone, Copy, PartialEq, Eq, Structural)]
pub enum LocalNetDebugMode {
    Coop,
    Pvp,
}

/// Which part this process plays in the network game.
#[derive(Debug, Clone, Copy, PartialEq, Eq, Structural)]
pub enum LocalNetDebugRole {
    Server,
    Host,
    Client,
}

/// The display name of a role.
pub open spec fn role_label(role: LocalNetDebugRole) -> Seq<char> {
    match role {
        LocalNetDebugRole::Server => "Server"@,
        LocalNetDebugRole::Host => "Host"@,
        LocalNetDebugRole::Client => "Client"@,
    }
}

/// The display name of a mode.
pub open spec fn mode_label(mode: LocalNetDebugMode) -> Seq<char> {
    match mode {
        LocalNetDebugMode::Coop => "Coop"@,
        LocalNetDebugMode::Pvp => "PVP"@,
    }
}

impl LocalNetDebugRole {
    /// The display name of this role.
    pub fn label(self) -> (r: &'static str)
        ensures
            r@ == role_label(self),
    {
        match self {
            LocalNetDebugRole::Server => "Server",
            LocalNetDebugRole::Host => "Host",
            LocalNetDebugRole::Client => "Client",
        }
    }
}

impl LocalNetDebugMode {
    /// The display name of this mode.
    pub fn label(self) -> (r: &'static str)
        ensures
            r@ == mode_label(self),
    {
        match self {
            LocalNetDebugMode::Coop => "Coop",
            LocalNetDebugMode::Pvp => "PVP",
        }
    }
}

/// The mode a token names: `coop`, `co-op` or `pvp`, ignoring surrounding
/// whitespace and ASCII case.
pub open spec fn net_mode_of(s: Seq<char>) -> Option<LocalNetDebugMode> {
    let t = lowercase(trimmed(s));
    if t == "coop"@ || t == "co-op"@ {
        Some(LocalNetDebugMode::Coop)
    } else if t == "pvp"@ {
        Some(LocalNetDebugMode::Pvp)
    } else {
        None
    }
}

/// The role a token names: `server`, `host` or `client`, ignoring surrounding
/// whitespace and ASCII case.
pub open spec fn net_role_of(s: Seq<char>) -> Option<LocalNetDebugRole> {
    let t = lowercase(trimmed(s));
    if t == "server"@ {
        Some(LocalNetDebugRole::Server)
    } else if t == "host"@ {
        Some(LocalNetDebugRole::Host)
    } else if t == "client"@ {
        Some(LocalNetDebugRole::Client)
    } else {
        None
    }
}

/// A window position written `x,y`: two `i32` around the first comma, each
/// with surrounding whitespace allowed.
pub open spec fn window_pos_of(s: Seq<char>) -> Option<(i32, i32)> {
    let k = index_of_any(s, seq![',']);
    if k < 0 {
        None
    } else {
        match (trimmed_i32(s.take(k)), trimmed_i32(s.skip(k + 1))) {
            (Some(x), Some(y)) => Some((x, y)),
            _ => None,
        }
    }
}

fn parse_net_mode_chars(v: &[char]) -> (r: Option<LocalNetDebugMode>)
    ensures
        r == net_mode_of(v@),
{
    let t = trim_chars(v);
    let l = to_ascii_lowercase(t.as_slice());
    if chars_are(l.as_slice(), "coop") || chars_are(l.as_slice(), "co-op") {
        Some(LocalNetDebugMode::Coop)
    } else if chars_are(l.as_slice(), "pvp") {
        Some(LocalNetDebugMode::Pvp)
    } else {
        None
    }
}

fn parse_net_role_chars(v: &[char]) -> (r: Option<LocalNetDebugRole>)
    ensures
        r == net_role_of(v@),
{
    let t = trim_chars(v);
    let l = to_ascii_lowercase(t.as_slice());
    if chars_are(l.as_slice(), "server") {
        Some(LocalNetDebugRole::Server)
    } else if chars_are(l.as_slice(), "host") {
        Some(LocalNetDebugRole::Host)
    } else if chars_are(l.as_slice(), "client") {
        Some(LocalNetDebugRole::Client)
    } else {
        None
    }
}

/// Reads a network mode token (`coop`, `co-op`, `pvp`).
pub fn parse_net_mode(value: &str) -> (r: Option<LocalNetDebugMode>)
    ensures
        r == net_mode_of(value@),
{
    let v = chars_of(value);
    parse_net_mode_chars(v.as_slice())
}

/// Reads a network role token (`server`, `host`, `client`).
pub fn parse_net_role(value: &str) -> (r: Option<LocalNetDebugRole>)
    ensures
        r == net_role_of(value@),
{
    let v = chars_of(value);
    parse_net_role_chars(v.as_slice())
}

fn parse_window_pos_chars(v: &[char]) -> (r: Option<(i32, i32)>)
    ensures
        r == window_pos_of(v@),
{
    let comma = [','];
    let k = find_any(v, comma.as_slice());
    assert(comma@ == seq![',']);
    let k = match k {
        Some(k) => k,
        None => return None,
    };
    assert(k < v@.len());
    assert(v@.len() == v.len());
    let left = slice_chars(v, 0, k);
    let right = slice_chars(v, k + 1, v.len());
    assert(left@ == v@.take(k as int));
    assert(right@ == v@.skip(k + 1));
    let x = parse_trimmed_i32(left.as_slice());
    let y = parse_trimmed_i32(right.as_slice());
    match (x, y) {
        (Some(x), Some(y)) => Some((x, y)),
        _ => None,
    }
}

/// Reads a window position written `x,y`.
pub fn parse_window_pos(value: &str) -> (r: Option<(i32, i32)>)
    ensures
        r == window_pos_of(value@),
{
    let v = chars_of(value);
    parse_window_pos_chars(v.as_slice())
}

/// Whether an environment flag's value switches it on: set, not blank after
/// trimming, not `0` and not `false` in any ASCII case.
pub open spec fn flag_on(value: Option<Seq<char>>) -> bool {
    match value {
        Some(v) => {
            let t = trimmed(v);
            t.len() > 0 && t != "0"@ && !eq_ignore_ascii_case(t, "false"@)
        },
        None => false,
    }
}

/// Whether an environment flag with the given value (`None` when unset) is on.
pub fn flag_value_on(value: &Option<String>) -> (b: bool)
    ensures
        b == flag_on(value.deep_view()),
{
    match value {
        Some(v) => {
            let t = trim_str(v.as_str());
            if t.len() == 0 || chars_are(t.as_slice(), "0") {
                return false;
            }
            let l = to_ascii_lowercase(t.as_slice());
            let f = chars_of("false");
            let lf = to_ascii_lowercase(f.as_slice());
            !chars_eq(l.as_slice(), lf.as_slice())
        },
        None => false,
    }
}

/// Command-line network boot settings, before environment fallbacks.
#[derive(Debug, Clone)]
pub struct CliNetBootConfig {
    pub enabled: bool,
    pub mode: Option<LocalNetDebugMode>,
    pub role: Option<LocalNetDebugRole>,
    pub host_ip: Option<String>,
    pub client_id: Option<u64>,
    pub port: Option<u16>,
    pub save_suffix: Option<String>,
    pub window_pos: Option<(i32, i32)>,
}

/// The value of a [`CliNetBootConfig`], strings as character sequences.
pub struct CliBootView {
    pub enabled: bool,
    pub mode: Option<LocalNetDebugMode>,
    pub role: Option<LocalNetDebugRole>,
    pub host_ip: Option<Seq<char>>,
    pub client_id: Option<u64>,
    pub port: Option<u16>,
    pub save_suffix: Option<Seq<char>>,
    pub window_pos: Option<(i32, i32)>,
}

impl View for CliNetBootConfig {
    type V = CliBootView;

    open spec fn view(&self) -> CliBootView {
        CliBootView {
            enabled: self.enabled,
            mode: self.mode,
            role: self.role,
            host_ip: self.host_ip.deep_view(),
            client_id: self.client_id,
            port: self.port,
            save_suffix: self.save_suffix.deep_view(),
            window_pos: self.window_pos,
        }
    }
}

/// No network boot requested.
pub open spec fn cli_boot_default() -> CliBootView {
    CliBootView {
        enabled: false,
        mode: None,
        role: None,
        host_ip: None,
        client_id: None,
        port: None,
        save_suffix: None,
        window_pos: None,
    }
}

impl Default for CliNetBootConfig {
    fn default() -> (r: Self)
        ensures
            r@ == cli_boot_default(),
    {
        CliNetBootConfig {
            enabled: false,
            mode: None,
            role: None,
            host_ip: None,
            client_id: None,
            port: None,
            save_suffix: None,
            window_pos: None,
        }
    }
}

/// A boot as a coop dedicated server.
pub open spec fn with_coop_server(c: CliBootView) -> CliBootView {
    CliBootView {
        enabled: true,
        mode: Some(LocalNetDebugMode::Coop),
        role: Some(LocalNetDebugRole::Server),
        ..c
    }
}

/// The setting implied by the binary's file stem: a binary named `server`
/// (in any ASCII case) boots a coop dedicated server.
pub open spec fn stem_default(c: CliBootView, stem: Seq<char>) -> CliBootView {
    if lowercase(stem) == "server"@ {
        with_coop_server(c)
    } else {
        c
    }
}

/// The text of path `p` after its last `/`.
pub open spec fn last_component(p: Seq<char>) -> Seq<char> {
    p.skip(last_index_of(p, '/') + 1)
}

/// A path whose file name every platform reads alike: no `\` or `:`, not
/// starting with `//`, and a last `/` component that is not empty, `.` or `..`.
pub open spec fn plain_file_path(p: Seq<char>) -> bool {
    &&& !p.contains('\\')
    &&& !p.contains(':')
    &&& !has_prefix(p, "//"@)
    &&& last_component(p).len() > 0
    &&& last_component(p) != "."@
    &&& last_component(p) != ".."@
}

/// The stem of a file name (`Path::file_stem`): the name without the text
/// from its last `.`, unless that `.` is its first character.
pub open spec fn name_stem(n: Seq<char>) -> Seq<char> {
    let d = last_index_of(n, '.');
    if d <= 0 {
        n
    } else {
        n.take(d)
    }
}

/// The file stem of a plain path.
pub open spec fn path_stem(p: Seq<char>) -> Seq<char> {
    name_stem(last_component(p))
}

/// `Path::file_stem` of the executable path, or empty when there is none.
/// The contract states the stem of a plain path (see [`plain_file_path`]),
/// which std's documentation fixes on every platform; of other paths (with
/// `\`, `:`, a leading `//`, or ending in a separator, `.` or `..`) the
/// platform's path rules decide, and the contract states only that the stem
/// is a contiguous part of the path.
#[verifier::external_body]
fn binary_stem(exe_name: &str) -> (r: String)
    ensures
        has_infix(exe_name@, r@),
        plain_file_path(exe_name@) ==> r@ == path_stem(exe_name@),
{
    match std::path::Path::new(exe_name).file_stem() {
        Some(stem) => stem.to_string_lossy().into_owned(),
        None => String::new(),
    }
}

/// Whether the file stem `stem` is `expected`, ignoring ASCII case.
pub fn stem_is(stem: &str, expected: &str) -> (b: bool)
    ensures
        b == (lowercase(stem@) == expected@),
{
    let v = chars_of(stem);
    let l = to_ascii_lowercase(v.as_slice());
    chars_are(l.as_slice(), expected)
}

/// Whether the executable's file stem is `expected`, ignoring ASCII case.
pub fn is_named_binary(exe_name: &str, expected: &str) -> (b: bool)
    ensures
        exists|stem: Seq<char>| has_infix(exe_name@, stem) && b == (lowercase(stem) == expected@),
        plain_file_path(exe_name@) ==> b == (lowercase(path_stem(exe_name@)) == expected@),
{
    let stem = binary_stem(exe_name);
    stem_is(stem.as_str(), expected)
}

/// Applies the setting implied by the binary's file stem.
pub fn apply_server_stem_default(config: &mut CliNetBootConfig, stem: &str)
    ensures
        final(config)@ == stem_default(old(config)@, stem@),
{
    if stem_is(stem, "server") {
        config.enabled = true;
        config.mode = Some(LocalNetDebugMode::Coop);
        config.role = Some(LocalNetDebugRole::Server);
    }
}

/// A binary named `server` boots a coop dedicated server.
pub fn apply_server_binary_name_default(config: &mut CliNetBootConfig, exe_name: &str)
    ensures
        exists|stem: Seq<char>|
            has_infix(exe_name@, stem) && final(config)@ == stem_default(old(config)@, stem),
        plain_file_path(exe_name@) ==> final(config)@ == stem_default(
            old(config)@,
            path_stem(exe_name@),
        ),
{
    let stem = binary_stem(exe_name);
    apply_server_stem_default(config, stem.as_str());
}

/// The value that follows the argument at `i`, unless it is missing or is
/// itself an option (`--...`).
pub open spec fn next_value(args: Seq<Seq<char>>, i: int) -> Option<Seq<char>> {
    if 0 <= i && i + 1 < args.len() && !has_prefix(args[i + 1], "--"@) {
        Some(args[i + 1])
    } else {
        None
    }
}

/// Takes the value that follows the argument at `*index`, advancing `*index`
/// past it.
pub fn next_arg_value(args: &Vec<String>, index: &mut usize) -> (r: Option<String>)
    requires
        *old(index) < usize::MAX,
    ensures
        r.deep_view() == next_value(args.deep_view(), *old(index) as int),
        *final(index) == (if r is Some { *old(index) + 1 } else { *old(index) as int }),
{
    let i = *index;
    if i + 1 >= args.len() {
        return None;
    }
    let v = chars_of(args[i + 1].as_str());
    if chars_start_with(v.as_slice(), "--") {
        return None;
    }
    *index = i + 1;
    Some(args[i + 1].clone())
}

/// The mode and role set by a combined token such as `coop-server`,
/// `pvp:client` or `coop/host`: the part before the first `:`, `-` or `/` names
/// the mode, the part after it the role; a part that names nothing leaves
/// the setting as it was.
pub open spec fn net_token_applied(c: CliBootView, value: Seq<char>) -> CliBootView {
    let n = lowercase(trimmed(value));
    let k = index_of_any(n, seq![':', '-', '/']);
    let mode_token = if k < 0 { n } else { n.take(k) };
    let role_token = if k < 0 { Seq::<char>::empty() } else { n.skip(k + 1) };
    CliBootView {
        mode: match net_mode_of(mode_token) {
            Some(m) => Some(m),
            None => c.mode,
        },
        role: match net_role_of(role_token) {
            Some(r) => Some(r),
            None => c.role,
        },
        ..c
    }
}

/// Applies a combined mode/role token such as `coop-server`.
pub fn apply_net_mode_token(config: &mut CliNetBootConfig, value: &str)
    ensures
        final(config)@ == net_token_applied(old(config)@, value@),
{
    let t = trim_str(value);
    let n = to_ascii_lowercase(t.as_slice());
    let seps = [':', '-', '/'];
    assert(seps@ == seq![':', '-', '/']);
    let k = find_any(n.as_slice(), seps.as_slice());
    let (mode_token, role_token) = match k {
        None => (slice_chars(n.as_slice(), 0, n.len()), Vec::new()),
        Some(k) => {
            assert(k < n@.len());
            let m = slice_chars(n.as_slice(), 0, k);
            let r = slice_chars(n.as_slice(), k + 1, n.len());
            assert(m@ == n@.take(k as int));
            assert(r@ == n@.skip(k + 1));
            (m, r)
        },
    };
    assert(k is None ==> mode_token@ == n@);
    assert(k is None ==> role_token@ == Seq::<char>::empty());
    if let Some(mode) = parse_net_mode_chars(mode_token.as_slice()) {
        config.mode = Some(mode);
    }
    if let Some(role) = parse_net_role_chars(role_token.as_slice()) {
        config.role = Some(role);
    }
}

/// What one command-line argument at position `i` does to the settings, and
/// whether it consumed the value that follows it.
pub open spec fn cli_step(
    c: CliBootView,
    args: Seq<Seq<char>>,
    i: int,
    client_binary: bool,
) -> (CliBootView, bool) {
    let a = args[i];
    let nv = next_value(args, i);
    let took = nv is Some;
    if a == "--coop-server"@ {
        (with_coop_server(c), false)
    } else if a == "--coop-host"@ {
        (
            CliBootView {
                enabled: true,
                mode: Some(LocalNetDebugMode::Coop),
                role: Some(LocalNetDebugRole::Host),
                ..c
            },
            false,
        )
    } else if a == "--coop-client"@ {
        (
            CliBootView {
                enabled: true,
                mode: Some(LocalNetDebugMode::Coop),
                role: Some(LocalNetDebugRole::Client),
                host_ip: if took { nv } else { c.host_ip },
                ..c
            },
            took,
        )
    } else if a == "--pvp-server"@ {
        (
            CliBootView {
                enabled: true,
                mode: Some(LocalNetDebugMode::Pvp),
                role: Some(LocalNetDebugRole::Server),
                ..c
            },
            false,
        )
    } else if a == "--pvp-host"@ {
        (
            CliBootView {
                enabled: true,
                mode: Some(LocalNetDebugMode::Pvp),
                role: Some(LocalNetDebugRole::Host),
                ..c
            },
            false,
        )
    } else if a == "--pvp-client"@ {
        (
            CliBootView {
                enabled: true,
                mode: Some(LocalNetDebugMode::Pvp),
                role: Some(LocalNetDebugRole::Client),
                host_ip: if took { nv } else { c.host_ip },
                ..c
            },
            took,
        )
    } else if a == "--net-mode"@ || a == "--net"@ {
        match nv {
            Some(v) => (net_token_applied(CliBootView { enabled: true, ..c }, v), true),
            None => (c, false),
        }
    } else if a == "--role"@ {
        match nv {
            Some(v) => match net_role_of(v) {
                Some(r) => (CliBootView { enabled: true, role: Some(r), ..c }, true),
                None => (c, true),
            },
            None => (c, false),
        }
    } else if a == "--host"@ || a == "--server"@ {
        match nv {
            Some(v) => (CliBootView { enabled: true, host_ip: Some(v), ..c }, true),
            None => (c, false),
        }
    } else if a == "--client-id"@ {
        match nv {
            Some(v) => (CliBootView { enabled: true, client_id: trimmed_u64(v), ..c }, true),
            None => (c, false),
        }
    } else if a == "--port"@ {
        match nv {
            Some(v) => (CliBootView { enabled: true, port: trimmed_u16(v), ..c }, true),
            None => (c, false),
        }
    } else if a == "--save-suffix"@ {
        (
            CliBootView {
                save_suffix: match nv {
                    Some(v) => if trimmed(v).len() > 0 {
                        Some(v)
                    } else {
                        None
                    },
                    None => None,
                },
                ..c
            },
            took,
        )
    } else if a == "--window-pos"@ {
        (
            CliBootView {
                window_pos: match nv {
                    Some(v) => window_pos_of(v),
                    None => None,
                },
                ..c
            },
            took,
        )
    } else if client_binary && c.host_ip is None && !has_prefix(a, "--"@) {
        (
            CliBootView {
                enabled: true,
                mode: Some(LocalNetDebugMode::Coop),
                role: Some(LocalNetDebugRole::Client),
                host_ip: Some(a),
                ..c
            },
            false,
        )
    } else {
        (c, false)
    }
}

/// The settings after reading the arguments from position `i` on.
pub open spec fn cli_parse_from(
    c: CliBootView,
    args: Seq<Seq<char>>,
    i: nat,
    client_binary: bool,
) -> CliBootView
    decreases args.len() - i,
{
    if i >= args.len() {
        c
    } else {
        let (c2, took) = cli_step(c, args, i as int, client_binary);
        cli_parse_from(c2, args, if took { i + 2 } else { i + 1 }, client_binary)
    }
}

/// The settings that a binary with file stem `stem` reads from the
/// arguments `args` (the program name excluded).
pub open spec fn cli_parse(stem: Seq<char>, args: Seq<Seq<char>>) -> CliBootView {
    cli_parse_from(
        stem_default(cli_boot_default(), stem),
        args,
        0,
        lowercase(stem) == "client"@,
    )
}

/// Applies the argument at `index` to `config`; returns whether it consumed
/// the value that follows it.
fn apply_arg(
    config: &mut CliNetBootConfig,
    args: &Vec<String>,
    index: usize,
    client_binary: bool,
) -> (took: bool)
    requires
        index < args@.len(),
    ensures
        (final(config)@, took) == cli_step(
            old(config)@,
            args.deep_view(),
            index as int,
            client_binary,
        ),
{
    let ghost av = args.deep_view();
    assert(index < args.len());
    let a = chars_of(args[index].as_str());
    assert(a@ == av[index as int]);
    let a = a.as_slice();
    let mut next = index;
    if chars_are(a, "--coop-server") {
        config.enabled = true;
        config.mode = Some(LocalNetDebugMode::Coop);
        config.role = Some(LocalNetDebugRole::Server);
        false
    } else if chars_are(a, "--coop-host") {
        config.enabled = true;
        config.mode = Some(LocalNetDebugMode::Coop);
        config.role = Some(LocalNetDebugRole::Host);
        false
    } else if chars_are(a, "--coop-client") {
        config.enabled = true;
        config.mode = Some(LocalNetDebugMode::Coop);
        config.role = Some(LocalNetDebugRole::Client);
        match next_arg_value(args, &mut next) {
            Some(v) => {
                config.host_ip = Some(v);
                true
            },
            None => false,
        }
    } else if chars_are(a, "--pvp-server") {
        config.enabled = true;
        config.mode = Some(LocalNetDebugMode::Pvp);
        config.role = Some(LocalNetDebugRole::Server);
        false
    } else if chars_are(a, "--pvp-host") {
        config.enabled = true;
        config.mode = Some(LocalNetDebugMode::Pvp);
        config.role = Some(LocalNetDebugRole::Host);
        false
    } else if chars_are(a, "--pvp-client") {
        config.enabled = true;
        config.mode = Some(LocalNetDebugMode::Pvp);
        config.role = Some(LocalNetDebugRole::Client);
        match next_arg_value(args, &mut next) {
            Some(v) => {
                config.host_ip = Some(v);
                true
            },
            None => false,
        }
    } else if chars_are(a, "--net-mode") || chars_are(a, "--net") {
        match next_arg_value(args, &mut next) {
            Some(v) => {
                config.enabled = true;
                apply_net_mode_token(config, v.as_str());
                true
            },
            None => false,
        }
    } else if chars_are(a, "--role") {
        match next_arg_value(args, &mut next) {
            Some(v) => {
                if let Some(role) = parse_net_role(v.as_str()) {
                    config.enabled = true;
                    config.role = Some(role);
                }
                true
            },
            None => false,
        }
    } else if chars_are(a, "--host") || chars_are(a, "--server") {
        match next_arg_value(args, &mut next) {
            Some(v) => {
                config.enabled = true;
                config.host_ip = Some(v);
                true
            },
            None => false,
        }
    } else if chars_are(a, "--client-id") {
        match next_arg_value(args, &mut next) {
            Some(v) => {
                config.enabled = true;
                let cv = chars_of(v.as_str());
                config.client_id = parse_trimmed_u64(cv.as_slice());
                true
            },
            None => false,
        }
    } else if chars_are(a, "--port") {
        match next_arg_value(args, &mut next) {
            Some(v) => {
                config.enabled = true;
                let cv = chars_of(v.as_str());
                config.port = parse_trimmed_u16(cv.as_slice());
                true
            },
            None => false,
        }
    } else if chars_are(a, "--save-suffix") {
        match next_arg_value(args, &mut next) {
            Some(v) => {
                let t = trim_str(v.as_str());
                config.save_suffix = if t.len() > 0 {
                    Some(v)
                } else {
                    None
                };
                true
            },
            None => {
                config.save_suffix = None;
                false
            },
        }
    } else if chars_are(a, "--window-pos") {
        match next_arg_value(args, &mut next) {
            Some(v) => {
                config.window_pos = parse_window_pos(v.as_str());
                true
            },
            None => {
                config.window_pos = None;
                false
            },
        }
    } else if client_binary && config.host_ip.is_none() && !chars_start_with(a, "--") {
        config.enabled = true;
        config.mode = Some(LocalNetDebugMode::Coop);
        config.role = Some(LocalNetDebugRole::Client);
        config.host_ip = Some(args[index].clone());
        false
    } else {
        false
    }
}

/// Reads the command-line arguments `args` (the program name excluded) of a
/// binary whose file stem is `stem`.
pub fn cli_from_stem_and_args(stem: &str, args: &Vec<String>) -> (r: CliNetBootConfig)
    ensures
        r@ == cli_parse(stem@, args.deep_view()),
{
    let ghost av = args.deep_view();
    let mut config = CliNetBootConfig::default();
    apply_server_stem_default(&mut config, stem);
    let client_binary = stem_is(stem, "client");
    let ghost start = config@;
    let mut index: usize = 0;
    while index < args.len()
        invariant
            av == args.deep_view(),
            index <= args@.len(),
            cli_parse_from(config@, av, index as nat, client_binary) == cli_parse_from(
                start,
                av,
                0,
                client_binary,
            ),
        decreases args@.len() - index,
    {
        let took = apply_arg(&mut config, args, index, client_binary);
        index = if took {
            index + 2
        } else {
            index + 1
        };
    }
    config
}

/// Reads the command-line arguments `args` (the program name excluded) of
/// the executable `exe_name`.
pub fn cli_from_args(exe_name: &str, args: &Vec<String>) -> (r: CliNetBootConfig)
    ensures
        exists|stem: Seq<char>|
            has_infix(exe_name@, stem) && r@ == cli_parse(stem, args.deep_view()),
        plain_file_path(exe_name@) ==> r@ == cli_parse(path_stem(exe_name@), args.deep_view()),
{
    let stem = binary_stem(exe_name);
    cli_from_stem_and_args(stem.as_str(), args)
}

/// The network boot settings in effect.
#[derive(Debug, Clone)]
pub struct LocalNetDebugConfig {
    pub enabled: bool,
    pub mode: Option<LocalNetDebugMode>,
    pub role: Option<LocalNetDebugRole>,
    pub host_ip: String,
    pub client_id: u64,
    pub port: Option<u16>,
    pub save_suffix: Option<String>,
    pub title_suffix: Option<String>,
    pub window_pos: Option<(i32, i32)>,
}

/// The value of a [`LocalNetDebugConfig`], strings as character sequences.
pub struct LocalNetDebugConfigView {
    pub enabled: bool,
    pub mode: Option<LocalNetDebugMode>,
    pub role: Option<LocalNetDebugRole>,
    pub host_ip: Seq<char>,
    pub client_id: u64,
    pub port: Option<u16>,
    pub save_suffix: Option<Seq<char>>,
    pub title_suffix: Option<Seq<char>>,
    pub window_pos: Option<(i32, i32)>,
}

impl View for LocalNetDebugConfig {
    type V = LocalNetDebugConfigView;

    open spec fn view(&self) -> LocalNetDebugConfigView {
        LocalNetDebugConfigView {
            enabled: self.enabled,
            mode: self.mode,
            role: self.role,
            host_ip: self.host_ip@,
            client_id: self.client_id,
            port: self.port,
            save_suffix: self.save_suffix.deep_view(),
            title_suffix: self.title_suffix.deep_view(),
            window_pos: self.window_pos,
        }
    }
}

/// No network boot: the loopback host and nothing else set.
pub open spec fn debug_config_default() -> LocalNetDebugConfigView {
    LocalNetDebugConfigView {
        enabled: false,
        mode: None,
        role: None,
        host_ip: "127.0.0.1"@,
        client_id: 0,
        port: None,
        save_suffix: None,
        title_suffix: None,
        window_pos: None,
    }
}

impl Default for LocalNetDebugConfig {
    fn default() -> (r: Self)
        ensures
            r@ == debug_config_default(),
    {
        LocalNetDebugConfig {
            enabled: false,
            mode: None,
            role: None,
            host_ip: string_from("127.0.0.1"),
            client_id: 0,
            port: None,
            save_suffix: None,
            title_suffix: None,
            window_pos: None,
        }
    }
}

/// The name of the save file of a debug boot: `run_save_debug_<suffix>.ron`.
pub open spec fn save_filename_of(c: LocalNetDebugConfigView) -> Option<Seq<char>> {
    if !c.enabled {
        None
    } else {
        match c.save_suffix {
            Some(s) => Some("run_save_debug_"@ + s + ".ron"@),
            None => None,
        }
    }
}

impl LocalNetDebugConfig {
    /// The save file that a debug boot uses in place of the normal one.
    pub fn save_filename(&self) -> (r: Option<String>)
        ensures
            r.deep_view() == save_filename_of(self@),
    {
        if !self.enabled {
            return None;
        }
        match &self.save_suffix {
            Some(suffix) => {
                let mut name = string_from("run_save_debug_");
                push_str(&mut name, suffix.as_str());
                push_str(&mut name, ".ron");
                Some(name)
            },
            None => None,
        }
    }
}

/// The values of the `LOCAL_NET_DEBUG*` environment variables, `None` for
/// one that is unset or not Unicode.
#[derive(Debug, Clone, Default)]
pub struct LocalNetDebugEnv {
    /// `LOCAL_NET_DEBUG`
    pub debug: Option<String>,
    /// `LOCAL_NET_DEBUG_MODE`
    pub mode: Option<String>,
    /// `LOCAL_NET_DEBUG_ROLE`
    pub role: Option<String>,
    /// `LOCAL_NET_DEBUG_HOST`
    pub host: Option<String>,
    /// `LOCAL_NET_DEBUG_CLIENT_ID`
    pub client_id: Option<String>,
    /// `LOCAL_NET_DEBUG_PORT`
    pub port: Option<String>,
    /// `LOCAL_NET_DEBUG_SAVE_SUFFIX`
    pub save_suffix: Option<String>,
}

/// The value of a [`LocalNetDebugEnv`].
pub struct LocalNetDebugEnvView {
    pub debug: Option<Seq<char>>,
    pub mode: Option<Seq<char>>,
    pub role: Option<Seq<char>>,
    pub host: Option<Seq<char>>,
    pub client_id: Option<Seq<char>>,
    pub port: Option<Seq<char>>,
    pub save_suffix: Option<Seq<char>>,
}

impl View for LocalNetDebugEnv {
    type V = LocalNetDebugEnvView;

    open spec fn view(&self) -> LocalNetDebugEnvView {
        LocalNetDebugEnvView {
            debug: self.debug.deep_view(),
            mode: self.mode.deep_view(),
            role: self.role.deep_view(),
            host: self.host.deep_view(),
            client_id: self.client_id.deep_view(),
            port: self.port.deep_view(),
            save_suffix: self.save_suffix.deep_view(),
        }
    }
}

/// Where a debug window goes when `LOCAL_NET_DEBUG` is on and no position was
/// given: server and host on the left, client on the right.
pub open spec fn default_window_pos(role: LocalNetDebugRole) -> (i32, i32) {
    match role {
        LocalNetDebugRole::Client => (980, 40),
        _ => (40, 40),
    }
}

/// The boot mode: from the command line, else from `LOCAL_NET_DEBUG_MODE`.
pub open spec fn resolved_mode(cli: CliBootView, env: LocalNetDebugEnvView) -> Option<
    LocalNetDebugMode,
> {
    match cli.mode {
        Some(m) => Some(m),
        None => match env.mode {
            Some(v) => net_mode_of(v),
            None => None,
        },
    }
}

/// The boot role: from the command line, else from `LOCAL_NET_DEBUG_ROLE`.
pub open spec fn resolved_role(cli: CliBootView, env: LocalNetDebugEnvView) -> Option<
    LocalNetDebugRole,
> {
    match cli.role {
        Some(r) => Some(r),
        None => match env.role {
            Some(v) => net_role_of(v),
            None => None,
        },
    }
}

/// The settings in effect, given the command line and the environment: the
/// command line wins; a boot needs both a mode and a role, else nothing is
/// booted.
pub open spec fn resolved_config(
    cli: CliBootView,
    env: LocalNetDebugEnvView,
) -> LocalNetDebugConfigView {
    let raw_mode = resolved_mode(cli, env);
    let raw_role = resolved_role(cli, env);
    let debug = flag_on(env.debug);
    let enabled = cli.enabled || debug || raw_mode is Some || raw_role is Some;
    if !enabled || raw_mode is None || raw_role is None {
        debug_config_default()
    } else {
        let mode = raw_mode.unwrap();
        let role = raw_role.unwrap();
        LocalNetDebugConfigView {
            enabled: true,
            mode: Some(mode),
            role: Some(role),
            host_ip: match cli.host_ip {
                Some(h) => h,
                None => match env.host {
                    Some(h) => h,
                    None => "127.0.0.1"@,
                },
            },
            client_id: match cli.client_id {
                Some(id) => id,
                None => match env.client_id {
                    Some(v) => match trimmed_u64(v) {
                        Some(id) => id,
                        None => 0,
                    },
                    None => 0,
                },
            },
            port: match cli.port {
                Some(p) => Some(p),
                None => match env.port {
                    Some(v) => trimmed_u16(v),
                    None => None,
                },
            },
            save_suffix: Some(
                if env.save_suffix is Some && trimmed(env.save_suffix.unwrap()).len() > 0 {
                    env.save_suffix.unwrap()
                } else {
                    match cli.save_suffix {
                        Some(v) => v,
                        None => lowercase(mode_label(mode)) + "_"@ + lowercase(role_label(role)),
                    }
                },
            ),
            title_suffix: Some("["@ + mode_label(mode) + " "@ + role_label(role) + "]"@),
            window_pos: match cli.window_pos {
                Some(p) => Some(p),
                None => if debug {
                    Some(default_window_pos(role))
                } else {
                    None
                },
            },
        }
    }
}

/// A boot was asked for (on the command line, by `LOCAL_NET_DEBUG`, or by
/// naming a mode or a role) but its mode or role is missing, so nothing boots.
pub open spec fn boot_incomplete_of(cli: CliBootView, env: LocalNetDebugEnvView) -> bool {
    let requested = cli.enabled || flag_on(env.debug) || resolved_mode(cli, env) is Some
        || resolved_role(cli, env) is Some;
    requested && (resolved_mode(cli, env) is None || resolved_role(cli, env) is None)
}

impl LocalNetDebugConfig {
    /// The settings in effect, given the command line `cli` and the
    /// environment `env`.
    pub fn resolve(cli: &CliNetBootConfig, env: &LocalNetDebugEnv) -> (r: Self)
        ensures
            r@ == resolved_config(cli@, env@),
    {
        let raw_mode = match cli.mode {
            Some(m) => Some(m),
            None => match &env.mode {
                Some(v) => parse_net_mode(v.as_str()),
                None => None,
            },
        };
        let raw_role = match cli.role {
            Some(r) => Some(r),
            None => match &env.role {
                Some(v) => parse_net_role(v.as_str()),
                None => None,
            },
        };
        let debug = flag_value_on(&env.debug);
        let enabled = cli.enabled || debug || raw_mode.is_some() || raw_role.is_some();
        if !enabled {
            return Self::default();
        }
        let (mode, role) = match (raw_mode, raw_role) {
            (Some(m), Some(r)) => (m, r),
            _ => return Self::default(),
        };
        let host_ip = match &cli.host_ip {
            Some(h) => h.clone(),
            None => match &env.host {
                Some(h) => h.clone(),
                None => string_from("127.0.0.1"),
            },
        };
        let client_id = match cli.client_id {
            Some(id) => id,
            None => match &env.client_id {
                Some(v) => {
                    let cv = chars_of(v.as_str());
                    match parse_trimmed_u64(cv.as_slice()) {
                        Some(id) => id,
                        None => 0,
                    }
                },
                None => 0,
            },
        };
        let port = match cli.port {
            Some(p) => Some(p),
            None => match &env.port {
                Some(v) => {
                    let cv = chars_of(v.as_str());
                    parse_trimmed_u16(cv.as_slice())
                },
                None => None,
            },
        };
        let mode_text = mode.label();
        let role_text = role.label();
        let env_suffix = match &env.save_suffix {
            Some(v) => {
                let t = trim_str(v.as_str());
                if t.len() > 0 {
                    Some(v.clone())
                } else {
                    None
                }
            },
            None => None,
        };
        let save_suffix = match env_suffix {
            Some(v) => v,
            None => match &cli.save_suffix {
                Some(v) => v.clone(),
                None => {
                    let mc = chars_of(mode_text);
                    let rc = chars_of(role_text);
                    let ml = to_ascii_lowercase(mc.as_slice());
                    let rl = to_ascii_lowercase(rc.as_slice());
                    let mut s = string_of(ml.as_slice());
                    push_str(&mut s, "_");
                    push_all(&mut s, rl.as_slice());
                    s
                },
            },
        };
        let mut title = string_from("[");
        push_str(&mut title, mode_text);
        push_str(&mut title, " ");
        push_str(&mut title, role_text);
        push_str(&mut title, "]");
        let window_pos = match cli.window_pos {
            Some(p) => Some(p),
            None => if debug {
                Some(
                    match role {
                        LocalNetDebugRole::Client => (980, 40),
                        _ => (40, 40),
                    },
                )
            } else {
                None
            },
        };
        LocalNetDebugConfig {
            enabled: true,
            mode: Some(mode),
            role: Some(role),
            host_ip,
            client_id,
            port,
            save_suffix: Some(save_suffix),
            title_suffix: Some(title),
            window_pos,
        }
    }
}

impl LocalNetDebugConfig {
    /// Whether a boot was asked for but lacks its mode or role (and so the
    /// settings stay off): the case to warn about.
    pub fn boot_incomplete(cli: &CliNetBootConfig, env: &LocalNetDebugEnv) -> (b: bool)
        ensures
            b == boot_incomplete_of(cli@, env@),
    {
        let mode = match cli.mode {
            Some(m) => Some(m),
            None => match &env.mode {
                Some(v) => parse_net_mode(v.as_str()),
                None => None,
            },
        };
        let role = match cli.role {
            Some(r) => Some(r),
            None => match &env.role {
                Some(v) => parse_net_role(v.as_str()),
                None => None,
            },
        };
        let requested = cli.enabled || flag_value_on(&env.debug) || mode.is_some() || role.is_some();
        requested && (mode.is_none() || role.is_none())
    }
}

/// What the debug boot has done so far in this process.
#[derive(Debug, Default, Clone, Copy)]
pub struct LocalNetDebugRuntime {
    pub bootstrapped: bool,
    pub window_applied: bool,
}

/// The changes to make to the primary window of a debug boot.
#[derive(Debug, Clone)]
pub struct DebugWindowPlan {
    /// The new title, when it changes.
    pub title: Option<String>,
    /// Where to place the window, now windowed, when a position is set.
    pub position: Option<(i32, i32)>,
}

/// The title of a debug window: the title suffix is appended, after a space,
/// unless the title already contains it.
pub open spec fn debug_title(title: Seq<char>, suffix: Option<Seq<char>>) -> Option<Seq<char>> {
    match suffix {
        Some(s) => if has_infix(title, s) {
            None
        } else {
            Some(title + " "@ + s)
        },
        None => None,
    }
}

/// Decides the one-time placement and title of the primary window for a
/// debug boot. `window_title` is the title of the primary window, `None`
/// when there is none yet. Nothing is done, and nothing recorded, while the
/// boot is off, once the window was placed, or without a window.
pub fn plan_debug_window(
    config: &LocalNetDebugConfig,
    runtime: &mut LocalNetDebugRuntime,
    window_title: Option<&str>,
) -> (r: Option<DebugWindowPlan>)
    ensures
        !config.enabled || old(runtime).window_applied || window_title is None ==> r is None
            && *final(runtime) == *old(runtime),
        config.enabled && !old(runtime).window_applied && window_title is Some ==> {
            &&& r matches Some(plan) && plan.title.deep_view() == debug_title(
                window_title.unwrap()@,
                config.title_suffix.deep_view(),
            ) && plan.position == config.window_pos
            &&& final(runtime).window_applied
            &&& final(runtime).bootstrapped == old(runtime).bootstrapped
        },
{
    if !config.enabled || runtime.window_applied {
        return None;
    }
    let title = match window_title {
        Some(t) => t,
        None => return None,
    };
    let new_title = match &config.title_suffix {
        Some(suffix) => {
            let tv = chars_of(title);
            let sv = chars_of(suffix.as_str());
            if chars_contain(tv.as_slice(), sv.as_slice()) {
                None
            } else {
                let mut t = string_from(title);
                push_str(&mut t, " ");
                push_str(&mut t, suffix.as_str());
                Some(t)
            }
        },
        None => None,
    };
    runtime.window_applied = true;
    Some(DebugWindowPlan { title: new_title, position: config.window_pos })
}

/// The network start that a debug boot performs. A client connects to the
/// config's `host_ip`; every start uses the config's `port` when one is set.
#[derive(Debug, Clone, Copy, PartialEq, Eq, Structural)]
pub enum LocalBootAction {
    /// Start a coop dedicated server.
    CoopServer,
    /// Start a coop listen host, which also plays the first player.
    CoopHost,
    /// Join a coop session; `client_id` `None` stands for the default remote
    /// client id.
    CoopClient { client_id: Option<u64> },
    /// Start a PVP dedicated server.
    PvpServer,
    /// Start a PVP listen host.
    PvpHost,
    /// Join a PVP host or server.
    PvpClient,
}

/// What the debug boot does this frame.
#[derive(Debug, Clone, Copy, PartialEq, Eq, Structural)]
pub enum AutoBootPlan {
    /// Nothing: the boot is off, already done, or the game is not at the main menu.
    Idle,
    /// Reset both networks, but start nothing: mode or role is missing.
    ResetOnly,
    /// Reset both networks, then start one.
    Boot(LocalBootAction),
}

/// The start that a mode and role call for.
pub open spec fn boot_action_for(
    mode: LocalNetDebugMode,
    role: LocalNetDebugRole,
    client_id: u64,
) -> LocalBootAction {
    match (mode, role) {
        (LocalNetDebugMode::Coop, LocalNetDebugRole::Server) => LocalBootAction::CoopServer,
        (LocalNetDebugMode::Coop, LocalNetDebugRole::Host) => LocalBootAction::CoopHost,
        (LocalNetDebugMode::Coop, LocalNetDebugRole::Client) => LocalBootAction::CoopClient {
            client_id: if client_id == 0 {
                None
            } else {
                Some(client_id)
            },
        },
        (LocalNetDebugMode::Pvp, LocalNetDebugRole::Server) => LocalBootAction::PvpServer,
        (LocalNetDebugMode::Pvp, LocalNetDebugRole::Host) => LocalBootAction::PvpHost,
        (LocalNetDebugMode::Pvp, LocalNetDebugRole::Client) => LocalBootAction::PvpClient,
    }
}

/// The debug boot's decision for this frame.
pub open spec fn auto_boot_plan_of(
    c: LocalNetDebugConfigView,
    bootstrapped: bool,
    at_main_menu: bool,
) -> AutoBootPlan {
    if !c.enabled || bootstrapped || !at_main_menu {
        AutoBootPlan::Idle
    } else if c.mode is None || c.role is None {
        AutoBootPlan::ResetOnly
    } else {
        AutoBootPlan::Boot(boot_action_for(c.mode.unwrap(), c.role.unwrap(), c.client_id))
    }
}

/// Decides what the debug boot does this frame; `at_main_menu` tells whether
/// the game is at its main menu.
pub fn plan_auto_boot(
    config: &LocalNetDebugConfig,
    runtime: &LocalNetDebugRuntime,
    at_main_menu: bool,
) -> (r: AutoBootPlan)
    ensures
        r == auto_boot_plan_of(config@, runtime.bootstrapped, at_main_menu),
{
    if !config.enabled || runtime.bootstrapped || !at_main_menu {
        return AutoBootPlan::Idle;
    }
    let (mode, role) = match (config.mode, config.role) {
        (Some(m), Some(r)) => (m, r),
        _ => return AutoBootPlan::ResetOnly,
    };
    let action = match (mode, role) {
        (LocalNetDebugMode::Coop, LocalNetDebugRole::Server) => LocalBootAction::CoopServer,
        (LocalNetDebugMode::Coop, LocalNetDebugRole::Host) => LocalBootAction::CoopHost,
        (LocalNetDebugMode::Coop, LocalNetDebugRole::Client) => LocalBootAction::CoopClient {
            client_id: if config.client_id == 0 {
                None
            } else {
                Some(config.client_id)
            },
        },
        (LocalNetDebugMode::Pvp, LocalNetDebugRole::Server) => LocalBootAction::PvpServer,
        (LocalNetDebugMode::Pvp, LocalNetDebugRole::Host) => LocalBootAction::PvpHost,
        (LocalNetDebugMode::Pvp, LocalNetDebugRole::Client) => LocalBootAction::PvpClient,
    };
    AutoBootPlan::Boot(action)
}

impl LocalNetDebugRuntime {
    /// Records the outcome of a boot attempt: a successful one is not repeated.
    pub fn record_boot(&mut self, succeeded: bool)
        ensures
            final(self).bootstrapped == (old(self).bootstrapped || succeeded),
            final(self).window_applied == old(self).window_applied,
    {
        if succeeded {
            self.bootstrapped = true;
        }
    }
}

/// The PVP config for a debug boot's start: the mode of the role, the boot's
/// port when one is set, and for a client the boot's host address; coop
/// starts leave it as it is.
pub open spec fn pvp_boot_config(
    p: PvpNetConfigView,
    c: LocalNetDebugConfigView,
    action: LocalBootAction,
) -> PvpNetConfigView {
    let port = match c.port {
        Some(port) => port,
        None => p.port,
    };
    match action {
        LocalBootAction::PvpServer => PvpNetConfigView { mode: NetMode::Server, port, ..p },
        LocalBootAction::PvpHost => PvpNetConfigView { mode: NetMode::Host, port, ..p },
        LocalBootAction::PvpClient => PvpNetConfigView {
            mode: NetMode::Client,
            host_ip: c.host_ip,
            port,
            ..p
        },
        _ => p,
    }
}

/// Writes a debug boot's PVP start into the PVP config.
pub fn configure_pvp_boot(
    pvp: &mut PvpNetConfig,
    config: &LocalNetDebugConfig,
    action: LocalBootAction,
)
    ensures
        final(pvp)@ == pvp_boot_config(old(pvp)@, config@, action),
{
    let mode = match action {
        LocalBootAction::PvpServer => NetMode::Server,
        LocalBootAction::PvpHost => NetMode::Host,
        LocalBootAction::PvpClient => NetMode::Client,
        _ => return,
    };
    pvp.mode = mode;
    if let LocalBootAction::PvpClient = action {
        pvp.host_ip = config.host_ip.clone();
    }
    if let Some(port) = config.port {
        pvp.port = port;
    }
}

/// The command line wins: a mode and role given there are the ones booted,
/// whatever the environment says.
pub proof fn law_command_line_wins(cli: CliBootView, env: LocalNetDebugEnvView)
    requires
        cli.mode is Some,
        cli.role is Some,
    ensures
        resolved_config(cli, env).enabled,
        resolved_config(cli, env).mode == cli.mode,
        resolved_config(cli, env).role == cli.role,
{
}

/// A boot is on exactly when both a mode and a role are known; then it has a
/// save suffix and a window title suffix, and so a save file of its own.
/// When it is off, every setting is the default.
pub proof fn law_boot_needs_mode_and_role(cli: CliBootView, env: LocalNetDebugEnvView)
    ensures
        resolved_config(cli, env).enabled <==> (resolved_mode(cli, env) is Some && resolved_role(
            cli,
            env,
        ) is Some),
        resolved_config(cli, env).enabled ==> resolved_config(cli, env).mode is Some
            && resolved_config(cli, env).role is Some && resolved_config(cli, env).title_suffix is Some
            && save_filename_of(resolved_config(cli, env)) is Some,
        !resolved_config(cli, env).enabled ==> resolved_config(cli, env) == debug_config_default(),
        save_filename_of(debug_config_default()) is None,
        boot_incomplete_of(cli, env) ==> !resolved_config(cli, env).enabled,
{
}

/// A debug boot's decision follows its mode and role: a boot that is on,
/// not yet done, at the main menu, with a mode and role, starts exactly the
/// network of that mode in that role; once booted, it never starts again.
pub proof fn law_auto_boot_starts_once(c: LocalNetDebugConfigView, at_main_menu: bool)
    ensures
        auto_boot_plan_of(c, true, at_main_menu) == AutoBootPlan::Idle,
        c.enabled && at_main_menu && c.mode is Some && c.role is Some ==> auto_boot_plan_of(
            c,
            false,
            at_main_menu,
        ) == AutoBootPlan::Boot(boot_action_for(c.mode.unwrap(), c.role.unwrap(), c.client_id)),
        forall|a: LocalBootAction|
            auto_boot_plan_of(c, false, at_main_menu) == AutoBootPlan::Boot(a) ==> (match a {
                LocalBootAction::CoopServer | LocalBootAction::CoopHost
                | LocalBootAction::CoopClient { .. } => c.mode == Some(LocalNetDebugMode::Coop),
                _ => c.mode == Some(LocalNetDebugMode::Pvp),
            }),
{
}

/// `--server` is another name for `--host`: at any position, with the same
/// settings before it, it does exactly what `--host` does there. Followed by
/// a value (anything not starting with `--`), either one turns the boot on,
/// makes that value the host address, consumes it and changes nothing else.
pub proof fn law_server_option_names_the_host(
    c: CliBootView,
    args: Seq<Seq<char>>,
    i: int,
    client_binary: bool,
)
    requires
        0 <= i < args.len(),
        args[i] == "--server"@ || args[i] == "--host"@,
    ensures
        cli_step(c, args, i, client_binary) == cli_step(
            c,
            args.update(i, "--host"@),
            i,
            client_binary,
        ),
        i + 1 < args.len() && !has_prefix(args[i + 1], "--"@) ==> cli_step(
            c,
            args,
            i,
            client_binary,
        ) == (CliBootView { enabled: true, host_ip: Some(args[i + 1]), ..c }, true),
{
    lemma_host_options_are_distinct();
    let h = args.update(i, "--host"@);
    assert(h[i] == "--host"@);
    assert(next_value(h, i) == next_value(args, i));
}

proof fn lemma_host_options_are_distinct()
    ensures
        "--server"@ != "--coop-server"@ && "--server"@ != "--coop-host"@ && "--server"@ != "--coop-client"@ && "--server"@ != "--pvp-server"@ && "--server"@ != "--pvp-host"@ && "--server"@ != "--pvp-client"@ && "--server"@ != "--net-mode"@ && "--server"@ != "--net"@ && "--server"@ != "--role"@,
        "--host"@ != "--coop-server"@ && "--host"@ != "--coop-host"@ && "--host"@ != "--coop-client"@ && "--host"@ != "--pvp-server"@ && "--host"@ != "--pvp-host"@ && "--host"@ != "--pvp-client"@ && "--host"@ != "--net-mode"@ && "--host"@ != "--net"@ && "--host"@ != "--role"@,
{
    reveal_strlit("--server");
    reveal_strlit("--host");
    reveal_strlit("--coop-server");
    reveal_strlit("--coop-host");
    reveal_strlit("--coop-client");
    reveal_strlit("--pvp-server");
    reveal_strlit("--pvp-host");
    reveal_strlit("--pvp-client");
    reveal_strlit("--net-mode");
    reveal_strlit("--net");
    reveal_strlit("--role");
    assert("--server"@.len() != "--coop-server"@.len());
    assert("--server"@.len() != "--coop-host"@.len());
    assert("--server"@.len() != "--coop-client"@.len());
    assert("--server"@.len() != "--pvp-server"@.len());
    assert("--server"@.len() != "--pvp-host"@.len());
    assert("--server"@.len() != "--pvp-client"@.len());
    assert("--server"@.len() != "--net-mode"@.len());
    assert("--server"@.len() != "--net"@.len());
    assert("--server"@.len() != "--role"@.len());
    assert("--host"@.len() != "--coop-server"@.len());
    assert("--host"@.len() != "--coop-host"@.len());
    assert("--host"@.len() != "--coop-client"@.len());
    assert("--host"@.len() != "--pvp-server"@.len());
    assert("--host"@.len() != "--pvp-host"@.len());
    assert("--host"@.len() != "--pvp-client"@.len());
    assert("--host"@.len() != "--net-mode"@.len());
    assert("--host"@.len() != "--net"@.len());
    assert("--host"@[2] != "--role"@[2]);
}

/// Debug windows do not overlap: with `LOCAL_NET_DEBUG` on and no position
/// given, a booted server or host opens at (40, 40) on the left and a
/// client at (980, 40) on the right. A position given on the command line
/// is kept; with `LOCAL_NET_DEBUG` off and none given, there is none.
pub proof fn law_debug_windows_side_by_side(cli: CliBootView, env: LocalNetDebugEnvView)
    ensures
        ({
            let r = resolved_config(cli, env);
            &&& r.enabled && cli.window_pos is None && flag_on(env.debug) ==> r.window_pos == Some(
                if r.role == Some(LocalNetDebugRole::Client) {
                    (980i32, 40i32)
                } else {
                    (40i32, 40i32)
                },
            )
            &&& r.enabled && cli.window_pos is Some ==> r.window_pos == cli.window_pos
            &&& r.enabled && cli.window_pos is None && !flag_on(env.debug) ==> r.window_pos is None
        }),
{
}

/// Each role boots its own kind of start: a host starts a listen host, a
/// server a dedicated server, a client joins; and a coop boot starts coop,
/// a PVP boot starts PVP. So different modes or roles never start the same
/// thing.
pub proof fn law_boot_action_follows_role(c: LocalNetDebugConfigView, at_main_menu: bool)
    ensures
        forall|a: LocalBootAction|
            auto_boot_plan_of(c, false, at_main_menu) == AutoBootPlan::Boot(a) ==> {
                &&& (a == LocalBootAction::CoopHost || a == LocalBootAction::PvpHost) <==> c.role
                    == Some(LocalNetDebugRole::Host)
                &&& (a == LocalBootAction::CoopServer || a == LocalBootAction::PvpServer)
                    <==> c.role == Some(LocalNetDebugRole::Server)
                &&& (a is CoopClient || a == LocalBootAction::PvpClient) <==> c.role == Some(
                    LocalNetDebugRole::Client,
                )
                &&& (a == LocalBootAction::CoopHost || a == LocalBootAction::CoopServer
                    || a is CoopClient) <==> c.mode == Some(LocalNetDebugMode::Coop)
            },
        c.enabled && at_main_menu && c.mode == Some(LocalNetDebugMode::Pvp) && c.role == Some(
            LocalNetDebugRole::Host,
        ) ==> auto_boot_plan_of(c, false, at_main_menu) == AutoBootPlan::Boot(
            LocalBootAction::PvpHost,
        ),
        forall|m1: LocalNetDebugMode, r1: LocalNetDebugRole, m2: LocalNetDebugMode, r2: LocalNetDebugRole, id: u64|
            #![trigger boot_action_for(m1, r1, id), boot_action_for(m2, r2, id)]
            boot_action_for(m1, r1, id) == boot_action_for(m2, r2, id) ==> m1 == m2 && r1 == r2,
{
}

/// In a boot, each setting comes from the command line when given there,
/// else from the environment, else its default: the host address falls
/// back to 127.0.0.1, the client id to 0; a save suffix set in the
/// environment (not blank) wins over the command line.
pub proof fn law_settings_precedence(cli: CliBootView, env: LocalNetDebugEnvView)
    ensures
        ({
            let r = resolved_config(cli, env);
            &&& r.enabled && cli.host_ip is Some ==> r.host_ip == cli.host_ip.unwrap()
            &&& r.enabled && cli.host_ip is None && env.host is Some ==> r.host_ip
                == env.host.unwrap()
            &&& r.enabled && cli.host_ip is None && env.host is None ==> r.host_ip == "127.0.0.1"@
            &&& r.enabled && cli.client_id is Some ==> r.client_id == cli.client_id.unwrap()
            &&& r.enabled && cli.client_id is None && env.client_id is None ==> r.client_id == 0
            &&& r.enabled && cli.port is Some ==> r.port == cli.port
            &&& r.enabled && cli.port is None && env.port is None ==> r.port is None
            &&& r.enabled && env.save_suffix is Some && trimmed(env.save_suffix.unwrap()).len() > 0
                ==> r.save_suffix == env.save_suffix
            &&& r.enabled && env.save_suffix is None && cli.save_suffix is Some ==> r.save_suffix
                == cli.save_suffix
        }),
{
}

/// A coop client boot joins with the configured client id, or with the
/// default remote id when the id is 0.
pub proof fn law_coop_client_boot_carries_its_id(c: LocalNetDebugConfigView)
    requires
        c.enabled,
        c.mode == Some(LocalNetDebugMode::Coop),
        c.role == Some(LocalNetDebugRole::Client),
    ensures
        auto_boot_plan_of(c, false, true) == AutoBootPlan::Boot(
            LocalBootAction::CoopClient { client_id: if c.client_id == 0 { None } else { Some(c.client_id) } },
        ),
{
}

} // verus!
