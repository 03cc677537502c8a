//! Self-update: which release to fetch and where from.
use vstd::prelude::*;
use vstd::string::*;
use crate::text::{char_is_ascii_alnum, chars_of, is_ascii_alnum, str_eq, to_string};
use crate::service::views;

verus! {

/// Name of the installed binary.
pub const BIN_NAME: &'static str = "rtk-sync";

/// Why an update cannot proceed.
#[derive(Clone, Debug, PartialEq, Eq)]
pub enum UpdateError {
    /// The repository is not `owner/name` made of safe characters.
    InvalidRepo { repo: String },
    /// No release is built for this platform.
    UnsupportedPlatform { os: String, arch: String },
    /// The release archive held no binary.
    MissingBinary,
    /// A step of the installation failed; its message.
    Step(String),
    /// An outcome arrived that the installation was not waiting for.
    OutOfOrder,
}

/// Characters a repository name may hold.
pub open spec fn repo_char(c: char) -> bool {
    is_ascii_alnum(c) || c == '-' || c == '_' || c == '.' || c == '/'
}

/// How many times `c` occurs in `s`.
pub open spec fn count_char(s: Seq<char>, c: char) -> nat
    decreases s.len(),
{
    if s.len() == 0 {
        0
    } else {
        count_char(s.drop_last(), c) + if s.last() == c { 1nat } else { 0nat }
    }
}

/// A repository splits at `/` into exactly two parts, and holds only safe characters.
pub open spec fn valid_repo_spec(repo: Seq<char>) -> bool {
    count_char(repo, '/') + 1 == 2 && forall|i: int| 0 <= i < repo.len() ==> repo_char(#[trigger] repo[i])
}

/// The release target of a platform, named by its OS and architecture.
pub open spec fn release_target_spec(os: Seq<char>, arch: Seq<char>) -> Option<Seq<char>> {
    if os == "macos"@ && arch == "aarch64"@ {
        Some("aarch64-apple-darwin"@)
    } else if os == "macos"@ && arch == "x86_64"@ {
        Some("x86_64-apple-darwin"@)
    } else if os == "linux"@ && arch == "x86_64"@ {
        Some("x86_64-unknown-linux-musl"@)
    } else {
        None
    }
}

proof fn lemma_count_char_absent(s: Seq<char>, c: char)
    requires
        forall|i: int| 0 <= i < s.len() ==> s[i] != c,
    ensures
        count_char(s, c) == 0,
    decreases s.len(),
{
    if s.len() > 0 {
        lemma_count_char_absent(s.drop_last(), c);
    }
}

proof fn lemma_count_char_append(a: Seq<char>, b: Seq<char>, c: char)
    ensures
        count_char(a + b, c) == count_char(a, c) + count_char(b, c),
    decreases b.len(),
{
    if b.len() > 0 {
        lemma_count_char_append(a, b.drop_last(), c);
        assert((a + b).drop_last() =~= a + b.drop_last());
    } else {
        assert(a + b =~= a);
    }
}

/// Any `owner/name` whose two parts are made of ASCII letters of either case,
/// digits, `-`, `_` and `.` is a repository the update accepts.
pub proof fn lemma_owner_name_repo_accepted(owner: Seq<char>, name: Seq<char>)
    requires
        forall|i: int| 0 <= i < owner.len() ==> {
            let c = #[trigger] owner[i];
            ('0' <= c && c <= '9') || ('a' <= c && c <= 'z') || ('A' <= c && c <= 'Z') || c == '-' || c == '_' || c == '.'
        },
        forall|i: int| 0 <= i < name.len() ==> {
            let c = #[trigger] name[i];
            ('0' <= c && c <= '9') || ('a' <= c && c <= 'z') || ('A' <= c && c <= 'Z') || c == '-' || c == '_' || c == '.'
        },
    ensures
        valid_repo_spec(owner + "/"@ + name),
{
    reveal_strlit("/");
    let repo = owner + "/"@ + name;
    lemma_count_char_absent(owner, '/');
    lemma_count_char_absent(name, '/');
    lemma_count_char_append(owner, "/"@, '/');
    lemma_count_char_append(owner + "/"@, name, '/');
    assert(count_char("/"@, '/') == 1) by {
        reveal_strlit("/");
        assert("/"@.len() == 1);
        assert("/"@.last() == '/');
        assert("/"@.drop_last() =~= Seq::<char>::empty());
        assert(count_char(Seq::<char>::empty(), '/') == 0);
    }
    assert forall|i: int| 0 <= i < repo.len() implies repo_char(#[trigger] repo[i]) by {
        if i < owner.len() {
            assert(repo[i] == owner[i]);
        } else if i == owner.len() {
            assert(repo[i] == '/');
        } else {
            assert(repo[i] == name[i - owner.len() - 1]);
        }
    }
}

/// Accepts a GitHub repository of the form `owner/name`.
pub fn validate_repo(repo: &str) -> (r: Result<(), UpdateError>)
    ensures
        r is Ok <==> valid_repo_spec(repo@),
        // Accepted exactly when the text holds one `/`, and otherwise only ASCII
        // letters of either case, digits, `-`, `_` and `.`.
        r is Ok <==> (count_char(repo@, '/') == 1 && forall|i: int| 0 <= i < repo@.len() ==> {
            let c = #[trigger] repo@[i];
            ('0' <= c && c <= '9') || ('a' <= c && c <= 'z') || ('A' <= c && c <= 'Z')
                || c == '-' || c == '_' || c == '.' || c == '/'
        }),
        r matches Err(e) ==> e matches UpdateError::InvalidRepo { repo: bad } && bad@ == repo@,
{
    let v = chars_of(repo);
    let mut slashes: usize = 0;
    let mut safe: bool = true;
    let mut i: usize = 0;
    while i < v.len()
        invariant
            v@ == repo@,
            i <= v.len(),
            slashes == count_char(v@.subrange(0, i as int), '/'),
            slashes <= i,
            safe == forall|j: int| 0 <= j < i ==> repo_char(#[trigger] v@[j]),
        decreases v.len() - i,
    {
        let c = v[i];
        assert(v@.subrange(0, i + 1).drop_last() =~= v@.subrange(0, i as int));
        if c == '/' {
            slashes += 1;
        }
        let ok: bool = char_is_ascii_alnum(c) || c == '-' || c == '_' || c == '.' || c == '/';
        safe = safe && ok;
        i += 1;
    }
    assert(v@.subrange(0, v.len() as int) =~= v@);
    if slashes == 1 && safe {
        Ok(())
    } else {
        Err(UpdateError::InvalidRepo { repo: to_string(repo) })
    }
}

/// The release target of this platform.
pub fn release_target(os: &str, arch: &str) -> (r: Result<&'static str, UpdateError>)
    ensures
        r matches Ok(t) ==> release_target_spec(os@, arch@) == Some(t@),
        r is Err <==> release_target_spec(os@, arch@) is None,
        r matches Err(e) ==> e matches UpdateError::UnsupportedPlatform { os: o, arch: a } && o@ == os@ && a@ == arch@,
{
    if str_eq(os, "macos") && str_eq(arch, "aarch64") {
        Ok("aarch64-apple-darwin")
    } else if str_eq(os, "macos") && str_eq(arch, "x86_64") {
        Ok("x86_64-apple-darwin")
    } else if str_eq(os, "linux") && str_eq(arch, "x86_64") {
        Ok("x86_64-unknown-linux-musl")
    } else {
        Err(UpdateError::UnsupportedPlatform { os: to_string(os), arch: to_string(arch) })
    }
}

/// The release archive of a target: `rtk-sync-<target>.tar.gz`.
pub fn release_archive(target: &str) -> (r: String)
    ensures
        r@ == "rtk-sync-"@ + target@ + ".tar.gz"@,
{
    let mut s = to_string("rtk-sync-");
    s.append(target);
    s.append(".tar.gz");
    s
}

/// Where the latest release's archive is downloaded from.
pub fn release_url(repo: &str, archive: &str) -> (r: String)
    ensures
        r@ == "https://github.com/"@ + repo@ + "/releases/latest/download/"@ + archive@,
{
    let mut s = to_string("https://github.com/");
    s.append(repo);
    s.append("/releases/latest/download/");
    s.append(archive);
    s
}

/// The launchd domain of a user: `gui/<uid>`.
pub fn launchd_domain(uid: &str) -> (r: String)
    ensures
        r@ == "gui/"@ + uid@,
{
    let mut s = to_string("gui/");
    s.append(uid);
    s
}

/// A service in a user's launchd domain: `gui/<uid>/<label>`.
pub fn launchd_service_target(uid: &str, label: &str) -> (r: String)
    ensures
        r@ == "gui/"@ + uid@ + "/"@ + label@,
{
    let mut s = launchd_domain(uid);
    s.append("/");
    s.append(label);
    s
}

/// Where an installation puts things.
#[derive(Clone, Debug)]
pub struct UpdatePaths {
    /// Where the release is downloaded from.
    pub url: String,
    /// The scratch directory, and the archive and the binary in it.
    pub tmp_dir: String,
    pub archive_path: String,
    pub binary_path: String,
    /// The install directory, the binary in it, and the name it is first copied to.
    pub install_dir: String,
    pub install_path: String,
    pub new_install_path: String,
    /// The launchd service that is stopped during the installation, and its plist.
    pub service_label: String,
    pub plist_path: String,
}

/// Where an installation stands: what it waits for next.
#[derive(Clone, Copy, Debug, PartialEq, Eq, Structural)]
pub enum UpdatePhase {
    Start,
    AwaitPlistCheck,
    AwaitUserId,
    AwaitProbe,
    AwaitStopUserId,
    AwaitStop,
    AwaitDownload,
    AwaitExtract,
    AwaitCheck,
    AwaitInstallDir,
    AwaitCopy,
    AwaitRename,
    AwaitClear,
    AwaitVersion,
    AwaitStartUserId,
    AwaitStart,
    Done,
}

/// The outcome of the work that the last action asked for.
#[derive(Debug)]
pub enum UpdateEvent {
    Begin,
    /// Whether the file asked about (the plist, or the extracted binary) exists.
    Checked(bool),
    /// The user's numeric ID, as `id -u` prints it.
    UserId(Result<String, String>),
    /// Whether the probe succeeded (it could be run, with this exit status).
    Probed(Result<bool, String>),
    /// A program or a file operation finished.
    Ran(Result<(), String>),
}

/// The work the installation asks for next.
#[derive(Debug)]
pub enum UpdateAction {
    /// Tell whether the service's plist exists.
    CheckPlist { path: String },
    /// Ask for the user's numeric ID.
    GetUserId,
    /// Run a program quietly and tell whether it exited successfully.
    Probe { program: String, args: Vec<String> },
    /// Run a program; only a failure to run it counts, not its exit status.
    RunIgnoringStatus { program: String, args: Vec<String> },
    /// Run a program, which must succeed.
    Run { program: String, args: Vec<String> },
    /// Tell whether the extracted binary exists.
    CheckExtracted { path: String },
    /// Create the install directory.
    CreateInstallDir { path: String },
    /// Move the copied binary over the installed one.
    Rename { from: String, to: String },
    /// Remove the quarantine attributes from the installed binary (failures ignored).
    ClearQuarantine { path: String },
    /// The installation is over.
    Finish(Result<(), UpdateError>),
}

/// An installation of a downloaded release in progress.
#[derive(Clone, Debug)]
pub struct UpdateRun {
    pub paths: UpdatePaths,
    pub restart_service: bool,
    /// The operating system the installation runs on.
    pub os: String,
    pub phase: UpdatePhase,
    /// Whether the service was running before the installation stopped it.
    pub service_was_running: bool,
}

/// `a` runs `program` with `args`, which must succeed.
pub open spec fn runs(a: UpdateAction, program: Seq<char>, args: Seq<Seq<char>>) -> bool {
    a matches UpdateAction::Run { program: p, args: xs } && p@ == program && views(xs@) == args
}

/// The download of the release archive.
pub open spec fn downloads(a: UpdateAction, paths: UpdatePaths) -> bool {
    runs(a, "curl"@, seq!["-fsSL"@, paths.url@, "-o"@, paths.archive_path@])
}

/// The phases whose step reports through `Ran`, and where a failed step ends
/// the installation.
pub open spec fn fails_on_error(phase: UpdatePhase) -> bool {
    phase == UpdatePhase::AwaitStop || phase == UpdatePhase::AwaitDownload || phase == UpdatePhase::AwaitExtract
        || phase == UpdatePhase::AwaitInstallDir || phase == UpdatePhase::AwaitCopy
        || phase == UpdatePhase::AwaitRename || phase == UpdatePhase::AwaitVersion || phase == UpdatePhase::AwaitStart
}

impl UpdateRun {
    /// An installation on `os` that has not started.
    pub fn new(paths: UpdatePaths, restart_service: bool, os: String) -> (r: UpdateRun)
        ensures
            r.paths == paths,
            r.restart_service == restart_service,
            r.os == os,
            r.phase == UpdatePhase::Start,
            !r.service_was_running,
    {
        UpdateRun {
            paths,
            restart_service,
            os,
            phase: UpdatePhase::Start,
            service_was_running: false,
        }
    }

    fn finish(&mut self, outcome: Result<(), UpdateError>) -> (a: UpdateAction)
        ensures
            a == UpdateAction::Finish(outcome),
            final(self).phase == UpdatePhase::Done,
            final(self).paths == old(self).paths,
            final(self).restart_service == old(self).restart_service,
            final(self).os == old(self).os,
            final(self).service_was_running == old(self).service_was_running,
    {
        self.phase = UpdatePhase::Done;
        UpdateAction::Finish(outcome)
    }

    fn run(&mut self, program: &str, args: Vec<String>, next: UpdatePhase) -> (a: UpdateAction)
        ensures
            a matches UpdateAction::Run { program: p, args: xs } && p@ == program@ && xs == args,
            final(self).phase == next,
            final(self).paths == old(self).paths,
            final(self).restart_service == old(self).restart_service,
            final(self).os == old(self).os,
            final(self).service_was_running == old(self).service_was_running,
    {
        self.phase = next;
        UpdateAction::Run { program: to_string(program), args }
    }

    fn download(&mut self) -> (a: UpdateAction)
        ensures
            downloads(a, old(self).paths),
            final(self).phase == UpdatePhase::AwaitDownload,
            final(self).paths == old(self).paths,
            final(self).restart_service == old(self).restart_service,
            final(self).os == old(self).os,
            final(self).service_was_running == old(self).service_was_running,
    {
        let mut args: Vec<String> = Vec::new();
        args.push(to_string("-fsSL"));
        args.push(self.paths.url.clone());
        args.push(to_string("-o"));
        args.push(self.paths.archive_path.clone());
        assert(views(args@) =~= seq!["-fsSL"@, self.paths.url@, "-o"@, self.paths.archive_path@]);
        self.run("curl", args, UpdatePhase::AwaitDownload)
    }

    /// Takes the outcome of the last action and returns the next one.
    ///
    /// The steps are: on macOS, when the service's plist exists and
    /// `launchctl print gui/<uid>/<label>` succeeds, the service was running
    /// and is stopped with `launchctl bootout gui/<uid> <plist>`; then
    /// download, extract, check that the archive held the binary, create the
    /// install directory, copy the binary next to the installed one, move it
    /// over it, clear its quarantine, run it with `--version`, and start the
    /// service again with `launchctl bootstrap gui/<uid> <plist>` when it was
    /// running and a restart is wanted.  The user's ID is asked for (`id -u`)
    /// before each of the three `launchctl` calls.  The first failing step
    /// ends the installation.
    pub fn step(&mut self, event: UpdateEvent) -> (action: UpdateAction)
        ensures
            final(self).paths == old(self).paths,
            final(self).restart_service == old(self).restart_service,
            final(self).os == old(self).os,
            // Whether the service was running is decided before the download, and kept after.
            !(old(self).phase == UpdatePhase::Start || old(self).phase == UpdatePhase::AwaitPlistCheck
                || old(self).phase == UpdatePhase::AwaitProbe)
                ==> final(self).service_was_running == old(self).service_was_running,
            action is Finish <==> final(self).phase == UpdatePhase::Done,
            // A failed step ends the installation with its message.
            fails_on_error(old(self).phase) ==> (event matches UpdateEvent::Ran(Err(m))
                ==> action == UpdateAction::Finish(Err(UpdateError::Step(m)))),
            // Stopping the service: only on macOS, with a plist, when launchd knows the service.
            old(self).phase == UpdatePhase::Start && event is Begin ==> {
                &&& (old(self).os@ != "macos"@ ==> !final(self).service_was_running
                    && final(self).phase == UpdatePhase::AwaitDownload && downloads(action, old(self).paths))
                &&& (old(self).os@ == "macos"@ ==> final(self).phase == UpdatePhase::AwaitPlistCheck
                    && (action matches UpdateAction::CheckPlist { path } && path@ == old(self).paths.plist_path@))
            },
            old(self).phase == UpdatePhase::AwaitPlistCheck ==> (event matches UpdateEvent::Checked(exists) ==> {
                &&& (!exists ==> !final(self).service_was_running && final(self).phase == UpdatePhase::AwaitDownload
                    && downloads(action, old(self).paths))
                &&& (exists ==> final(self).phase == UpdatePhase::AwaitUserId && action is GetUserId)
            }),
            old(self).phase == UpdatePhase::AwaitUserId ==> (event matches UpdateEvent::UserId(id) ==> {
                &&& (id matches Err(m) ==> action == UpdateAction::Finish(Err(UpdateError::Step(m))))
                &&& (id matches Ok(uid) ==> final(self).phase == UpdatePhase::AwaitProbe
                    && (action matches UpdateAction::Probe { program, args } && program@ == "launchctl"@
                    && views(args@) == seq!["print"@, "gui/"@ + uid@ + "/"@ + old(self).paths.service_label@]))
            }),
            old(self).phase == UpdatePhase::AwaitProbe ==> (event matches UpdateEvent::Probed(probed) ==> {
                &&& (probed matches Err(m) ==> action == UpdateAction::Finish(Err(UpdateError::Step(m))))
                &&& (probed == Ok::<bool, String>(false) ==> !final(self).service_was_running
                    && final(self).phase == UpdatePhase::AwaitDownload && downloads(action, old(self).paths))
                &&& (probed == Ok::<bool, String>(true) ==> final(self).service_was_running
                    && final(self).phase == UpdatePhase::AwaitStopUserId && action is GetUserId)
            }),
            old(self).phase == UpdatePhase::AwaitStopUserId ==> (event matches UpdateEvent::UserId(id) ==> {
                &&& (id matches Err(m) ==> action == UpdateAction::Finish(Err(UpdateError::Step(m))))
                &&& (id matches Ok(uid) ==> final(self).phase == UpdatePhase::AwaitStop
                    && (action matches UpdateAction::RunIgnoringStatus { program, args } && program@ == "launchctl"@
                    && views(args@) == seq!["bootout"@, "gui/"@ + uid@, old(self).paths.plist_path@]))
            }),
            old(self).phase == UpdatePhase::AwaitStop ==> (event matches UpdateEvent::Ran(Ok(())) ==>
                final(self).phase == UpdatePhase::AwaitDownload && downloads(action, old(self).paths)),
            old(self).phase == UpdatePhase::AwaitDownload ==> (event matches UpdateEvent::Ran(Ok(())) ==>
                final(self).phase == UpdatePhase::AwaitExtract
                && runs(action, "tar"@, seq!["-xzf"@, old(self).paths.archive_path@, "-C"@, old(self).paths.tmp_dir@])),
            old(self).phase == UpdatePhase::AwaitExtract ==> (event matches UpdateEvent::Ran(Ok(())) ==>
                final(self).phase == UpdatePhase::AwaitCheck
                && (action matches UpdateAction::CheckExtracted { path } && path@ == old(self).paths.binary_path@)),
            old(self).phase == UpdatePhase::AwaitCheck ==> (event matches UpdateEvent::Checked(found) ==> {
                &&& (!found ==> action == UpdateAction::Finish(Err(UpdateError::MissingBinary)))
                &&& (found ==> final(self).phase == UpdatePhase::AwaitInstallDir
                    && (action matches UpdateAction::CreateInstallDir { path } && path@ == old(self).paths.install_dir@))
            }),
            old(self).phase == UpdatePhase::AwaitInstallDir ==> (event matches UpdateEvent::Ran(Ok(())) ==>
                final(self).phase == UpdatePhase::AwaitCopy
                && runs(action, "install"@, seq!["-m"@, "0755"@, old(self).paths.binary_path@, old(self).paths.new_install_path@])),
            old(self).phase == UpdatePhase::AwaitCopy ==> (event matches UpdateEvent::Ran(Ok(())) ==>
                final(self).phase == UpdatePhase::AwaitRename
                && (action matches UpdateAction::Rename { from, to } && from@ == old(self).paths.new_install_path@
                && to@ == old(self).paths.install_path@)),
            old(self).phase == UpdatePhase::AwaitRename ==> (event matches UpdateEvent::Ran(Ok(())) ==>
                final(self).phase == UpdatePhase::AwaitClear
                && (action matches UpdateAction::ClearQuarantine { path } && path@ == old(self).paths.install_path@)),
            old(self).phase == UpdatePhase::AwaitClear && event is Ran ==>
                final(self).phase == UpdatePhase::AwaitVersion
                && runs(action, old(self).paths.install_path@, seq!["--version"@]),
            // The service is started again only if it was running and a restart is wanted.
            old(self).phase == UpdatePhase::AwaitVersion ==> (event matches UpdateEvent::Ran(Ok(())) ==> {
                &&& (old(self).service_was_running && old(self).restart_service ==> final(self).phase
                    == UpdatePhase::AwaitStartUserId && action is GetUserId)
                &&& (!(old(self).service_was_running && old(self).restart_service) ==> action == UpdateAction::Finish(Ok(())))
            }),
            old(self).phase == UpdatePhase::AwaitStartUserId ==> (event matches UpdateEvent::UserId(id) ==> {
                &&& (id matches Err(m) ==> action == UpdateAction::Finish(Err(UpdateError::Step(m))))
                &&& (id matches Ok(uid) ==> final(self).phase == UpdatePhase::AwaitStart
                    && runs(action, "launchctl"@, seq!["bootstrap"@, "gui/"@ + uid@, old(self).paths.plist_path@]))
            }),
            old(self).phase == UpdatePhase::AwaitStart ==> (event matches UpdateEvent::Ran(Ok(())) ==>
                action == UpdateAction::Finish(Ok(()))),
            // Any other outcome is out of order and ends the installation.
            !((old(self).phase == UpdatePhase::Start && event is Begin)
                || (old(self).phase == UpdatePhase::AwaitPlistCheck && event is Checked)
                || ((old(self).phase == UpdatePhase::AwaitUserId || old(self).phase == UpdatePhase::AwaitStopUserId
                    || old(self).phase == UpdatePhase::AwaitStartUserId) && event is UserId)
                || (old(self).phase == UpdatePhase::AwaitProbe && event is Probed)
                || (old(self).phase == UpdatePhase::AwaitCheck && event is Checked)
                || ((fails_on_error(old(self).phase) || old(self).phase == UpdatePhase::AwaitClear) && event is Ran))
                ==> action == UpdateAction::Finish(Err(UpdateError::OutOfOrder)),
    {
        match (self.phase, event) {
            (UpdatePhase::Start, UpdateEvent::Begin) => {
                if str_eq(self.os.as_str(), "macos") {
                    self.phase = UpdatePhase::AwaitPlistCheck;
                    UpdateAction::CheckPlist { path: self.paths.plist_path.clone() }
                } else {
                    self.service_was_running = false;
                    self.download()
                }
            },
            (UpdatePhase::AwaitPlistCheck, UpdateEvent::Checked(exists)) => {
                if exists {
                    self.phase = UpdatePhase::AwaitUserId;
                    UpdateAction::GetUserId
                } else {
                    self.service_was_running = false;
                    self.download()
                }
            },
            (UpdatePhase::AwaitUserId, UpdateEvent::UserId(id)) => match id {
                Err(m) => self.finish(Err(UpdateError::Step(m))),
                Ok(uid) => {
                    let mut args: Vec<String> = Vec::new();
                    args.push(to_string("print"));
                    args.push(launchd_service_target(uid.as_str(), self.paths.service_label.as_str()));
                    assert(views(args@) =~= seq!["print"@, "gui/"@ + uid@ + "/"@ + self.paths.service_label@]);
                    self.phase = UpdatePhase::AwaitProbe;
                    UpdateAction::Probe { program: to_string("launchctl"), args }
                },
            },
            (UpdatePhase::AwaitProbe, UpdateEvent::Probed(probed)) => match probed {
                Err(m) => self.finish(Err(UpdateError::Step(m))),
                Ok(running) => {
                    if running {
                        self.service_was_running = true;
                        self.phase = UpdatePhase::AwaitStopUserId;
                        UpdateAction::GetUserId
                    } else {
                        self.service_was_running = false;
                        self.download()
                    }
                },
            },
            (UpdatePhase::AwaitStopUserId, UpdateEvent::UserId(id)) => match id {
                Err(m) => self.finish(Err(UpdateError::Step(m))),
                Ok(uid) => {
                    let mut args: Vec<String> = Vec::new();
                    args.push(to_string("bootout"));
                    args.push(launchd_domain(uid.as_str()));
                    args.push(self.paths.plist_path.clone());
                    assert(views(args@) =~= seq!["bootout"@, "gui/"@ + uid@, self.paths.plist_path@]);
                    self.phase = UpdatePhase::AwaitStop;
                    UpdateAction::RunIgnoringStatus { program: to_string("launchctl"), args }
                },
            },
            (UpdatePhase::AwaitStartUserId, UpdateEvent::UserId(id)) => match id {
                Err(m) => self.finish(Err(UpdateError::Step(m))),
                Ok(uid) => {
                    let mut args: Vec<String> = Vec::new();
                    args.push(to_string("bootstrap"));
                    args.push(launchd_domain(uid.as_str()));
                    args.push(self.paths.plist_path.clone());
                    assert(views(args@) =~= seq!["bootstrap"@, "gui/"@ + uid@, self.paths.plist_path@]);
                    self.run("launchctl", args, UpdatePhase::AwaitStart)
                },
            },
            (UpdatePhase::AwaitCheck, UpdateEvent::Checked(found)) => {
                if found {
                    self.phase = UpdatePhase::AwaitInstallDir;
                    UpdateAction::CreateInstallDir { path: self.paths.install_dir.clone() }
                } else {
                    self.finish(Err(UpdateError::MissingBinary))
                }
            },
            (UpdatePhase::AwaitClear, UpdateEvent::Ran(_)) => {
                let mut args: Vec<String> = Vec::new();
                args.push(to_string("--version"));
                assert(views(args@) =~= seq!["--version"@]);
                let program = self.paths.install_path.clone();
                self.run(program.as_str(), args, UpdatePhase::AwaitVersion)
            },
            (phase, UpdateEvent::Ran(ran)) => {
                if !(phase == UpdatePhase::AwaitStop || phase == UpdatePhase::AwaitDownload
                    || phase == UpdatePhase::AwaitExtract || phase == UpdatePhase::AwaitInstallDir
                    || phase == UpdatePhase::AwaitCopy || phase == UpdatePhase::AwaitRename
                    || phase == UpdatePhase::AwaitVersion || phase == UpdatePhase::AwaitStart) {
                    return self.finish(Err(UpdateError::OutOfOrder));
                }
                match ran {
                    Err(m) => self.finish(Err(UpdateError::Step(m))),
                    Ok(()) => {
                        if phase == UpdatePhase::AwaitStop {
                            self.download()
                        } else if phase == UpdatePhase::AwaitDownload {
                            let mut args: Vec<String> = Vec::new();
                            args.push(to_string("-xzf"));
                            args.push(self.paths.archive_path.clone());
                            args.push(to_string("-C"));
                            args.push(self.paths.tmp_dir.clone());
                            assert(views(args@) =~= seq!["-xzf"@, self.paths.archive_path@, "-C"@, self.paths.tmp_dir@]);
                            self.run("tar", args, UpdatePhase::AwaitExtract)
                        } else if phase == UpdatePhase::AwaitExtract {
                            self.phase = UpdatePhase::AwaitCheck;
                            UpdateAction::CheckExtracted { path: self.paths.binary_path.clone() }
                        } else if phase == UpdatePhase::AwaitInstallDir {
                            let mut args: Vec<String> = Vec::new();
                            args.push(to_string("-m"));
                            args.push(to_string("0755"));
                            args.push(self.paths.binary_path.clone());
                            args.push(self.paths.new_install_path.clone());
                            assert(views(args@) =~= seq!["-m"@, "0755"@, self.paths.binary_path@, self.paths.new_install_path@]);
                            self.run("install", args, UpdatePhase::AwaitCopy)
                        } else if phase == UpdatePhase::AwaitCopy {
                            self.phase = UpdatePhase::AwaitRename;
                            UpdateAction::Rename {
                                from: self.paths.new_install_path.clone(),
                                to: self.paths.install_path.clone(),
                            }
                        } else if phase == UpdatePhase::AwaitRename {
                            self.phase = UpdatePhase::AwaitClear;
                            UpdateAction::ClearQuarantine { path: self.paths.install_path.clone() }
                        } else if phase == UpdatePhase::AwaitVersion {
                            if self.service_was_running && self.restart_service {
                                self.phase = UpdatePhase::AwaitStartUserId;
                                UpdateAction::GetUserId
                            } else {
                                self.finish(Ok(()))
                            }
                        } else {
                            self.finish(Ok(()))
                        }
                    },
                }
            },
            (_, _) => self.finish(Err(UpdateError::OutOfOrder)),
        }
    }
}

} // verus!
