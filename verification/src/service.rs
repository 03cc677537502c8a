//! The background service: its command line and its unit files.
use vstd::prelude::*;
use vstd::string::*;
use crate::text::{char_is_ascii_alnum, chars_of, is_ascii_alnum, push_char, push_range, to_string, trim, trim_spec};

verus! {

/// Name of the systemd user service.
pub const SERVICE_NAME: &'static str = "rtk-sync";

/// Label of the launchd agent.
pub const MACOS_LABEL: &'static str = "com.vuong.rtk-sync";

/// The launchd plist up to the program arguments.
pub const LAUNCHD_PLIST_HEAD: &'static str = "<?xml version=\"1.0\" encoding=\"UTF-8\"?>\n<!DOCTYPE plist PUBLIC \"-//Apple//DTD PLIST 1.0//EN\" \"http://www.apple.com/DTDs/PropertyList-1.0.dtd\">\n<plist version=\"1.0\">\n  <dict>\n    <key>Label</key>\n    <string>com.vuong.rtk-sync</string>\n    <key>ProgramArguments</key>\n    <array>\n";

/// The launchd plist after the program arguments.
pub const LAUNCHD_PLIST_TAIL: &'static str = "\n    </array>\n    <key>RunAtLoad</key>\n    <true/>\n    <key>KeepAlive</key>\n    <true/>\n    <key>StandardOutPath</key>\n    <string>/tmp/rtk-sync.out.log</string>\n    <key>StandardErrorPath</key>\n    <string>/tmp/rtk-sync.err.log</string>\n  </dict>\n</plist>\n";

/// The systemd unit up to the command line.
pub const SYSTEMD_UNIT_HEAD: &'static str = "[Unit]\nDescription=RTK Sync\nAfter=network-online.target\n\n[Service]\nType=simple\nExecStart=";

/// The systemd unit after the command line.
pub const SYSTEMD_UNIT_TAIL: &'static str = "\nRestart=always\nRestartSec=10\n\n[Install]\nWantedBy=default.target\n";

/// The service managers the tool can install into.
#[derive(Clone, Copy, Debug, PartialEq, Eq)]
pub enum ServicePlatform {
    /// macOS launchd agents.
    Launchd,
    /// Linux systemd user services.
    Systemd,
}

/// Why a service cannot be installed.
#[derive(Clone, Debug, PartialEq, Eq)]
pub enum ServiceError {
    /// The binary path is relative.
    NotAbsolute { binary: String },
    /// The binary does not exist.
    Missing { binary: String },
}

/// The characters of each string.
pub open spec fn views(v: Seq<String>) -> Seq<Seq<char>> {
    v.map_values(|s: String| s@)
}

/// The parts joined with `sep` between each two.
pub open spec fn join_spec(parts: Seq<Seq<char>>, sep: Seq<char>) -> Seq<char>
    decreases parts.len(),
{
    if parts.len() == 0 {
        Seq::empty()
    } else if parts.len() == 1 {
        parts[0]
    } else {
        join_spec(parts.drop_last(), sep) + sep + parts.last()
    }
}

/// The arguments the service runs the binary with.
pub open spec fn service_args_spec(binary: Seq<char>, config: Option<Seq<char>>) -> Seq<Seq<char>> {
    match config {
        Some(c) => seq![binary, "run-service"@, "--config"@, c],
        None => seq![binary, "run-service"@],
    }
}

/// XML text of one character.
pub open spec fn xml_escape_char(c: char) -> Seq<char> {
    if c == '&' {
        "&amp;"@
    } else if c == '<' {
        "&lt;"@
    } else if c == '>' {
        "&gt;"@
    } else if c == '"' {
        "&quot;"@
    } else if c == '\'' {
        "&apos;"@
    } else {
        seq![c]
    }
}

/// XML text of a string: each of `& < > " '` replaced by its entity.
pub open spec fn escape_xml_spec(s: Seq<char>) -> Seq<char>
    decreases s.len(),
{
    if s.len() == 0 {
        Seq::empty()
    } else {
        escape_xml_spec(s.drop_last()) + xml_escape_char(s.last())
    }
}

/// Characters that a systemd argument may hold unquoted.
pub open spec fn systemd_plain_char(c: char) -> bool {
    is_ascii_alnum(c) || c == '/' || c == '.' || c == '-' || c == '_' || c == ':' || c == '='
}

/// The text of one character inside single quotes, where `'` becomes `'\''`.
pub open spec fn quoted_char(c: char) -> Seq<char> {
    if c == '\'' {
        seq!['\'', '\\', '\'', '\'']
    } else {
        seq![c]
    }
}

pub open spec fn quote_body(s: Seq<char>) -> Seq<char>
    decreases s.len(),
{
    if s.len() == 0 {
        Seq::empty()
    } else {
        quote_body(s.drop_last()) + quoted_char(s.last())
    }
}

/// A systemd argument: as it is when every character is plain, else in single quotes.
pub open spec fn escape_systemd_spec(s: Seq<char>) -> Seq<char> {
    if forall|i: int| 0 <= i < s.len() ==> systemd_plain_char(#[trigger] s[i]) {
        s
    } else {
        seq!['\''] + quote_body(s) + seq!['\'']
    }
}

/// One program argument line of the launchd plist.
pub open spec fn plist_line(arg: Seq<char>) -> Seq<char> {
    "      <string>"@ + escape_xml_spec(arg) + "</string>"@
}

/// The launchd plist that runs `binary` with `config`.
pub open spec fn launchd_plist_spec(binary: Seq<char>, config: Option<Seq<char>>) -> Seq<char> {
    LAUNCHD_PLIST_HEAD@ + join_spec(service_args_spec(binary, config).map_values(|a: Seq<char>| plist_line(a)), "\n"@)
        + LAUNCHD_PLIST_TAIL@
}

/// The systemd unit that runs `binary` with `config`.
pub open spec fn systemd_service_spec(binary: Seq<char>, config: Option<Seq<char>>) -> Seq<char> {
    SYSTEMD_UNIT_HEAD@ + join_spec(service_args_spec(binary, config).map_values(|a: Seq<char>| escape_systemd_spec(a)), " "@)
        + SYSTEMD_UNIT_TAIL@
}

/// The service manager of an operating system, if the tool supports it.
pub fn service_platform(os: &str) -> (r: Option<ServicePlatform>)
    ensures
        r == (if os@ == "macos"@ {
            Some(ServicePlatform::Launchd)
        } else if os@ == "linux"@ {
            Some(ServicePlatform::Systemd)
        } else {
            None
        }),
{
    if crate::text::str_eq(os, "macos") {
        Some(ServicePlatform::Launchd)
    } else if crate::text::str_eq(os, "linux") {
        Some(ServicePlatform::Systemd)
    } else {
        None
    }
}

/// A path with neither a root nor a prefix on any platform: it does not start
/// with `/` or `\`, and holds no `:` (Windows drive prefixes).
pub open spec fn no_root_or_prefix(p: Seq<char>) -> bool {
    (p.len() == 0 || (p[0] != '/' && p[0] != '\\')) && !p.contains(':')
}

/// `std::path::Path::is_absolute`.  Claimed only that a path without a root
/// or a prefix (`no_root_or_prefix`) is not absolute: on Unix an absolute path
/// starts with the root `/`, on Windows it has a prefix (a drive `C:`, or one
/// starting with `\\`) and a root.  For other paths the answer depends on the
/// platform, and is left unsaid.
#[verifier::external_body]
fn path_is_absolute(path: &str) -> (r: bool)
    ensures
        no_root_or_prefix(path@) ==> !r,
{
    std::path::Path::new(path).is_absolute()
}

/// The binary the service runs must be an absolute path to a file that exists.
pub fn check_binary(binary: &str, is_absolute: bool, exists: bool) -> (r: Result<(), ServiceError>)
    ensures
        r is Ok <==> is_absolute && exists,
        r matches Err(ServiceError::NotAbsolute { binary: b }) ==> !is_absolute && b@ == binary@,
        r matches Err(ServiceError::Missing { binary: b }) ==> is_absolute && !exists && b@ == binary@,
{
    if !is_absolute {
        return Err(ServiceError::NotAbsolute { binary: to_string(binary) });
    }
    if !exists {
        return Err(ServiceError::Missing { binary: to_string(binary) });
    }
    Ok(())
}

/// Checks the binary the service runs; `exists` tells whether the file exists.
pub fn ensure_absolute_binary(binary: &str, exists: bool) -> (r: Result<(), ServiceError>)
    ensures
        r is Ok ==> exists,
        !exists ==> r is Err,
        r matches Err(ServiceError::NotAbsolute { binary: b }) ==> b@ == binary@,
        no_root_or_prefix(binary@) ==> r matches Err(ServiceError::NotAbsolute { .. }),
        r matches Err(ServiceError::Missing { binary: b }) ==> !exists && b@ == binary@,
{
    let absolute = path_is_absolute(binary);
    check_binary(binary, absolute, exists)
}

/// The arguments the service runs the binary with: `run-service`, and
/// `--config <path>` when a config file is given.
pub fn service_args(binary: &str, config: Option<&str>) -> (r: Vec<String>)
    ensures
        views(r@) == service_args_spec(binary@, match config { Some(c) => Some(c@), None => None }),
{
    let mut args: Vec<String> = Vec::new();
    args.push(to_string(binary));
    args.push(to_string("run-service"));
    if let Some(c) = config {
        args.push(to_string("--config"));
        args.push(to_string(c));
    }
    assert(views(args@) =~= service_args_spec(binary@, match config { Some(c) => Some(c@), None => None }));
    args
}

/// `value` with XML's special characters replaced by entities.
pub fn escape_xml(value: &str) -> (r: String)
    ensures
        r@ == escape_xml_spec(value@),
{
    let v = chars_of(value);
    let mut s = String::new();
    let mut i: usize = 0;
    while i < v.len()
        invariant
            v@ == value@,
            i <= v.len(),
            s@ == escape_xml_spec(v@.subrange(0, i as int)),
        decreases v.len() - i,
    {
        let c = v[i];
        let ghost before = s@;
        if c == '&' {
            s.append("&amp;");
        } else if c == '<' {
            s.append("&lt;");
        } else if c == '>' {
            s.append("&gt;");
        } else if c == '"' {
            s.append("&quot;");
        } else if c == '\'' {
            s.append("&apos;");
        } else {
            push_char(&mut s, c);
        }
        assert(v@.subrange(0, i + 1).drop_last() =~= v@.subrange(0, i as int));
        assert(s@ =~= before + xml_escape_char(c));
        i += 1;
    }
    assert(v@.subrange(0, v.len() as int) =~= v@);
    s
}

/// A systemd command line argument: as it is when every character is plain,
/// else single-quoted with each `'` written `'\''`.
pub fn escape_systemd_arg(value: String) -> (r: String)
    ensures
        r@ == escape_systemd_spec(value@),
{
    let v = chars_of(value.as_str());
    let mut plain: bool = true;
    let mut i: usize = 0;
    while i < v.len()
        invariant
            v@ == value@,
            i <= v.len(),
            plain == forall|j: int| 0 <= j < i ==> systemd_plain_char(#[trigger] v@[j]),
        decreases v.len() - i,
    {
        let c = v[i];
        let ok: bool = char_is_ascii_alnum(c) || c == '/' || c == '.' || c == '-' || c == '_' || c
            == ':' || c == '=';
        plain = plain && ok;
        i += 1;
    }
    if plain {
        return value;
    }
    let mut s = String::new();
    push_char(&mut s, '\'');
    let mut k: usize = 0;
    while k < v.len()
        invariant
            v@ == value@,
            k <= v.len(),
            s@ == seq!['\''] + quote_body(v@.subrange(0, k as int)),
        decreases v.len() - k,
    {
        let c = v[k];
        let ghost before = s@;
        if c == '\'' {
            push_char(&mut s, '\'');
            push_char(&mut s, '\\');
            push_char(&mut s, '\'');
            push_char(&mut s, '\'');
        } else {
            push_char(&mut s, c);
        }
        assert(v@.subrange(0, k + 1).drop_last() =~= v@.subrange(0, k as int));
        assert(s@ =~= before + quoted_char(c));
        k += 1;
    }
    assert(v@.subrange(0, v.len() as int) =~= v@);
    push_char(&mut s, '\'');
    s
}

/// The strings joined with `sep` between each two.
pub fn join(parts: &Vec<String>, sep: &str) -> (r: String)
    ensures
        r@ == join_spec(views(parts@), sep@),
{
    let mut s = String::new();
    let mut i: usize = 0;
    while i < parts.len()
        invariant
            i <= parts@.len(),
            s@ == join_spec(views(parts@.subrange(0, i as int)), sep@),
        decreases parts@.len() - i,
    {
        let ghost before = s@;
        if i > 0 {
            s.append(sep);
        }
        s.append(parts[i].as_str());
        let ghost next = views(parts@.subrange(0, i + 1));
        assert(next.drop_last() =~= views(parts@.subrange(0, i as int)));
        assert(next.last() == parts@[i as int]@);
        if i == 0 {
            assert(next.len() == 1);
            assert(before =~= Seq::<char>::empty());
            assert(s@ =~= next[0]);
        }
        i += 1;
    }
    assert(parts@.subrange(0, parts@.len() as int) =~= parts@);
    s
}

/// The launchd agent that runs the service.
pub fn launchd_plist(binary: &str, config: Option<&str>) -> (r: String)
    ensures
        r@ == launchd_plist_spec(binary@, match config { Some(c) => Some(c@), None => None }),
{
    let args = service_args(binary, config);
    let ghost argv = views(args@);
    let mut lines: Vec<String> = Vec::new();
    let mut i: usize = 0;
    while i < args.len()
        invariant
            argv == views(args@),
            i <= args@.len(),
            views(lines@) =~= argv.subrange(0, i as int).map_values(|a: Seq<char>| plist_line(a)),
        decreases args@.len() - i,
    {
        let mut line = to_string("      <string>");
        let escaped = escape_xml(args[i].as_str());
        line.append(escaped.as_str());
        line.append("</string>");
        assert(argv[i as int] == args@[i as int]@);
        assert(line@ == plist_line(argv[i as int]));
        let ghost prev = views(lines@);
        lines.push(line);
        assert(views(lines@) =~= prev.push(line@));
        i += 1;
    }
    assert(argv.subrange(0, args@.len() as int) =~= argv);
    let body = join(&lines, "\n");
    let mut s = to_string(LAUNCHD_PLIST_HEAD);
    s.append(body.as_str());
    s.append(LAUNCHD_PLIST_TAIL);
    s
}

/// The systemd user unit that runs the service.
pub fn systemd_service(binary: &str, config: Option<&str>) -> (r: String)
    ensures
        r@ == systemd_service_spec(binary@, match config { Some(c) => Some(c@), None => None }),
{
    let args = service_args(binary, config);
    let ghost argv = views(args@);
    let mut escaped: Vec<String> = Vec::new();
    let mut i: usize = 0;
    while i < args.len()
        invariant
            argv == views(args@),
            i <= args@.len(),
            views(escaped@) =~= argv.subrange(0, i as int).map_values(|a: Seq<char>| escape_systemd_spec(a)),
        decreases args@.len() - i,
    {
        let e = escape_systemd_arg(args[i].clone());
        assert(argv[i as int] == args@[i as int]@);
        let ghost prev = views(escaped@);
        escaped.push(e);
        assert(views(escaped@) =~= prev.push(e@));
        i += 1;
    }
    assert(argv.subrange(0, args@.len() as int) =~= argv);
    let body = join(&escaped, " ");
    let mut s = to_string(SYSTEMD_UNIT_HEAD);
    s.append(body.as_str());
    s.append(SYSTEMD_UNIT_TAIL);
    s
}

/// What a status command printed: its trimmed standard output, or its trimmed
/// standard error when it printed nothing on standard output; none when that is empty.
pub fn command_output_text(stdout: &str, stderr: &str) -> (r: Option<String>)
    ensures
        ({
            let text = if stdout@.len() == 0 { trim_spec(stderr@) } else { trim_spec(stdout@) };
            &&& r is None <==> text.len() == 0
            &&& r matches Some(t) ==> t@ == text
        }),
{
    let text = if stdout.is_empty() {
        trim(stderr)
    } else {
        trim(stdout)
    };
    if text.as_str().is_empty() {
        None
    } else {
        Some(text)
    }
}

/// A service manager command: the program, its arguments, and whether the
/// installation fails when it does.
#[derive(Clone, Debug)]
pub struct ServiceCommand {
    pub program: String,
    pub args: Vec<String>,
    pub require_success: bool,
}

/// The program, arguments and requirement of a command, by their characters.
pub open spec fn command_view(c: ServiceCommand) -> (Seq<char>, Seq<Seq<char>>, bool) {
    (c.program@, views(c.args@), c.require_success)
}

pub open spec fn command_views(cs: Seq<ServiceCommand>) -> Seq<(Seq<char>, Seq<Seq<char>>, bool)> {
    cs.map_values(|c: ServiceCommand| command_view(c))
}

fn command(program: &str, args: Vec<String>, require_success: bool) -> (c: ServiceCommand)
    ensures
        c.program@ == program@,
        c.args == args,
        c.require_success == require_success,
{
    ServiceCommand { program: to_string(program), args, require_success }
}

fn args2(a: &str, b: &str) -> (v: Vec<String>)
    ensures
        views(v@) == seq![a@, b@],
{
    let mut v: Vec<String> = Vec::new();
    v.push(to_string(a));
    v.push(to_string(b));
    assert(views(v@) =~= seq![a@, b@]);
    v
}

fn args4(a: &str, b: &str, c: &str, d: &str) -> (v: Vec<String>)
    ensures
        views(v@) == seq![a@, b@, c@, d@],
{
    let mut v: Vec<String> = Vec::new();
    v.push(to_string(a));
    v.push(to_string(b));
    v.push(to_string(c));
    v.push(to_string(d));
    assert(views(v@) =~= seq![a@, b@, c@, d@]);
    v
}

/// After the plist is written: unload any previous agent (allowed to fail),
/// load the plist, and start the agent.
pub fn launchd_install_commands(plist_path: &str) -> (r: Vec<ServiceCommand>)
    ensures
        command_views(r@) == seq![
            ("launchctl"@, seq!["unload"@, plist_path@], false),
            ("launchctl"@, seq!["load"@, plist_path@], true),
            ("launchctl"@, seq!["start"@, MACOS_LABEL@], true),
        ],
{
    let mut r: Vec<ServiceCommand> = Vec::new();
    r.push(command("launchctl", args2("unload", plist_path), false));
    r.push(command("launchctl", args2("load", plist_path), true));
    r.push(command("launchctl", args2("start", MACOS_LABEL), true));
    assert(command_views(r@) =~= seq![
        ("launchctl"@, seq!["unload"@, plist_path@], false),
        ("launchctl"@, seq!["load"@, plist_path@], true),
        ("launchctl"@, seq!["start"@, MACOS_LABEL@], true),
    ]);
    r
}

/// Before the plist is removed: stop and unload the agent (both allowed to fail).
pub fn launchd_uninstall_commands(plist_path: &str) -> (r: Vec<ServiceCommand>)
    ensures
        command_views(r@) == seq![
            ("launchctl"@, seq!["stop"@, MACOS_LABEL@], false),
            ("launchctl"@, seq!["unload"@, plist_path@], false),
        ],
{
    let mut r: Vec<ServiceCommand> = Vec::new();
    r.push(command("launchctl", args2("stop", MACOS_LABEL), false));
    r.push(command("launchctl", args2("unload", plist_path), false));
    assert(command_views(r@) =~= seq![
        ("launchctl"@, seq!["stop"@, MACOS_LABEL@], false),
        ("launchctl"@, seq!["unload"@, plist_path@], false),
    ]);
    r
}

/// After the unit is written: reload systemd and enable and start the service.
pub fn systemd_install_commands() -> (r: Vec<ServiceCommand>)
    ensures
        command_views(r@) == seq![
            ("systemctl"@, seq!["--user"@, "daemon-reload"@], true),
            ("systemctl"@, seq!["--user"@, "enable"@, "--now"@, SERVICE_NAME@], true),
        ],
{
    let mut r: Vec<ServiceCommand> = Vec::new();
    r.push(command("systemctl", args2("--user", "daemon-reload"), true));
    r.push(command("systemctl", args4("--user", "enable", "--now", SERVICE_NAME), true));
    assert(command_views(r@) =~= seq![
        ("systemctl"@, seq!["--user"@, "daemon-reload"@], true),
        ("systemctl"@, seq!["--user"@, "enable"@, "--now"@, SERVICE_NAME@], true),
    ]);
    r
}

/// Before the unit is removed: disable and stop the service (allowed to fail).
pub fn systemd_disable_command() -> (r: ServiceCommand)
    ensures
        command_view(r) == ("systemctl"@, seq!["--user"@, "disable"@, "--now"@, SERVICE_NAME@], false),
{
    command("systemctl", args4("--user", "disable", "--now", SERVICE_NAME), false)
}

/// After the unit is removed: reload systemd.
pub fn systemd_reload_command() -> (r: ServiceCommand)
    ensures
        command_view(r) == ("systemctl"@, seq!["--user"@, "daemon-reload"@], true),
{
    command("systemctl", args2("--user", "daemon-reload"), true)
}

/// `yes` or `no`.
pub fn yes_no(value: bool) -> (r: &'static str)
    ensures
        r@ == (if value { "yes"@ } else { "no"@ }),
{
    if value {
        "yes"
    } else {
        "no"
    }
}


/// Where the line that starts at `i` ends: the first `\n` at or after `i`,
/// else the end of the text.
pub open spec fn line_end(s: Seq<char>, i: int) -> int
    decreases s.len() - i,
{
    if i >= s.len() {
        s.len() as int
    } else if s[i] == '\n' {
        i
    } else {
        line_end(s, i + 1)
    }
}

/// The line ends no earlier than it starts and no later than the text.
proof fn lemma_line_end_bounds(s: Seq<char>, i: int)
    requires
        0 <= i <= s.len(),
    ensures
        i <= line_end(s, i) <= s.len(),
        line_end(s, i) < s.len() ==> s[line_end(s, i)] == '\n',
    decreases s.len() - i,
{
    if i < s.len() && s[i] != '\n' {
        lemma_line_end_bounds(s, i + 1);
    }
}

/// The line that starts at `i`, without its line ending: a `\n`, or a `\r\n`.
/// A `\r` that no `\n` follows stays.
pub open spec fn line_at(s: Seq<char>, i: int) -> Seq<char> {
    let e = line_end(s, i);
    let raw = s.subrange(i, e);
    if e < s.len() && raw.len() > 0 && raw.last() == '\r' {
        raw.drop_last()
    } else {
        raw
    }
}

/// The lines from position `i` on.
pub open spec fn lines_from(s: Seq<char>, i: int) -> Seq<Seq<char>>
    decreases s.len() - i,
{
    if i < 0 || i >= s.len() || line_end(s, i) < i {
        Seq::empty()
    } else if line_end(s, i) >= s.len() {
        seq![line_at(s, i)]
    } else {
        seq![line_at(s, i)].add(lines_from(s, line_end(s, i) + 1))
    }
}

/// The lines of a text, as `str::lines` gives them: split at `\n`, a `\r`
/// before the `\n` removed, and no empty line after a final `\n`.
pub open spec fn lines_spec(s: Seq<char>) -> Seq<Seq<char>> {
    lines_from(s, 0)
}

/// The last `n` items of `xs` (all of them when there are fewer).
pub open spec fn last_n<A>(xs: Seq<A>, n: nat) -> Seq<A> {
    if xs.len() <= n {
        xs
    } else {
        xs.subrange(xs.len() - n, xs.len() as int)
    }
}

/// The last `n` lines of a text, joined with `\n`.
pub open spec fn tail_lines_spec(s: Seq<char>, n: nat) -> Seq<char> {
    join_spec(last_n(lines_spec(s), n), "\n"@)
}

/// The lines of `text`.
pub fn split_lines(text: &str) -> (r: Vec<String>)
    ensures
        views(r@) == lines_spec(text@),
{
    let v = chars_of(text);
    let n: usize = v.len();
    let ghost s = text@;
    let mut out: Vec<String> = Vec::new();
    let mut i: usize = 0;
    assert(views(out@) =~= Seq::<Seq<char>>::empty());
    while i < n
        invariant
            n == v@.len(),
            v@ == s,
            s == text@,
            i <= n,
            lines_spec(s) == views(out@) + lines_from(s, i as int),
        decreases n - i,
    {
        let mut j: usize = i;
        while j < n && v[j] != '\n'
            invariant
                n == v@.len(),
                v@ == s,
                i <= j <= n,
                line_end(s, i as int) == line_end(s, j as int),
            decreases n - j,
        {
            j += 1;
        }
        assert(line_end(s, i as int) == j);
        proof {
            lemma_line_end_bounds(s, i as int);
        }
        let mut end: usize = j;
        if j < n && j > i && v[j - 1] == '\r' {
            end = j - 1;
        }
        let mut line = String::new();
        push_range(&mut line, &v, i, end);
        assert(line@ == line_at(s, i as int)) by {
            let raw = s.subrange(i as int, j as int);
            if end < j {
                assert(raw.drop_last() =~= s.subrange(i as int, end as int));
            } else {
                assert(raw =~= s.subrange(i as int, end as int));
            }
        }
        let ghost before = views(out@);
        out.push(line);
        assert(views(out@) =~= before.push(line_at(s, i as int)));
        if j < n {
            assert(lines_from(s, i as int) == seq![line_at(s, i as int)].add(lines_from(s, j + 1)));
            assert(before + lines_from(s, i as int) =~= views(out@) + lines_from(s, j + 1));
            i = j + 1;
        } else {
            assert(lines_from(s, i as int) == seq![line_at(s, i as int)]);
            assert(lines_from(s, n as int) =~= Seq::<Seq<char>>::empty());
            assert(before + lines_from(s, i as int) =~= views(out@) + lines_from(s, n as int));
            i = n;
        }
    }
    assert(lines_from(s, i as int) =~= Seq::<Seq<char>>::empty());
    assert(views(out@) + Seq::<Seq<char>>::empty() =~= views(out@));
    out
}

/// The last `count` lines of `text`, joined with `\n`: what the status
/// report shows of a log file.
pub fn tail_lines(text: &str, count: usize) -> (r: String)
    ensures
        r@ == tail_lines_spec(text@, count as nat),
{
    let lines = split_lines(text);
    let len: usize = lines.len();
    let start: usize = if len > count { len - count } else { 0 };
    let mut tail: Vec<String> = Vec::new();
    let mut k: usize = start;
    while k < len
        invariant
            len == lines@.len(),
            start <= k <= len,
            views(tail@) == views(lines@).subrange(start as int, k as int),
        decreases len - k,
    {
        let ghost before = views(tail@);
        let line = to_string(lines[k].as_str());
        tail.push(line);
        assert(views(tail@) =~= before.push(lines@[k as int]@));
        k += 1;
        assert(views(tail@) =~= views(lines@).subrange(start as int, k as int));
    }
    assert(views(lines@).subrange(start as int, len as int) =~= last_n(views(lines@), count as nat));
    join(&tail, "\n")
}

} // verus!
