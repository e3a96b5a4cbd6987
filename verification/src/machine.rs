//! The install run as a step machine.
//!
//! Every decision of a run — probe order, tool fallback, the disk-image
//! mount/copy/cleanup sequence, every error message, what is printed —
//! is made here. The machine never touches the system itself: each step
//! yields one [`Action`] for the caller to perform, and the caller
//! reports back an [`Outcome`]. The caller is a thin driver; the policy
//! it follows is all in [`init`] and [`step`] and their contracts.

use vstd::prelude::*;
use vstd::pervasive::unreached;
use crate::artifact::{artifact_url_of, artifact_file_of, resolve_artifact, version, version_spec};
use crate::deps::{install_command, install_command_spec, PackageManager};
use crate::platform::{arch_class_of, classify_arch, classify_os, os_class_of, Arch, Os};
use crate::text::{concat2, concat3, concat4, concat5, join_path, path_join};

verus! {

/// What the driver reports back after performing an action.
pub enum Outcome {
    /// The action succeeded: the command exited zero, the probe found its
    /// tool, the path exists.
    Pass,
    /// The action ran and reported failure: a non-zero exit (its status
    /// display carried here), a probe that found nothing, a path that
    /// does not exist.
    Fail(String),
    /// The action could not be performed at all: a spawn or filesystem
    /// error, its display carried here.
    Crash(String),
}

/// One step of outside work the driver must perform.
pub enum Action {
    /// Print these lines to standard output.
    Say(Vec<String>),
    /// Print these lines as warnings on the diagnostic stream; the run
    /// continues.
    Warn(Vec<String>),
    /// Report whether an executable of this name is on the search path.
    Probe(String),
    /// Report whether the apt package index knows this package name.
    ProbeAptPackage(String),
    /// Report whether this path exists.
    ProbePath(String),
    /// Create this directory and any missing parents.
    EnsureDir(String),
    /// Remove this path and everything under it.
    RemovePath(String),
    /// Copy the file at `from` to `to`, overwriting any previous copy.
    CopyFile { from: String, to: String },
    /// Run this program with these arguments, wait, and report its exit.
    Run { program: String, args: Vec<String> },
    /// Terminal: the run failed; print the message on the diagnostic
    /// stream and exit non-zero.
    Fail(String),
    /// Terminal: the run succeeded and installed this executable, if the
    /// platform has a modeled install step.
    Finished { installed: Option<String> },
}

/// Where the machine stands; each phase names the action just handed to
/// the driver.
pub enum Phase {
    /// Announcing the dependency step (Linux with the dependency mode).
    DepsAnnounce,
    /// Probing for the apt-family manager.
    ProbeApt,
    /// Probing whether the audio library exists under its new name.
    ProbeAudioVariant,
    /// Probing for dnf.
    ProbeDnf,
    /// Probing for yum.
    ProbeYum,
    /// Echoing the install command about to run.
    DepsSayRun { manager: PackageManager, audio_t64: bool },
    /// Running the package manager's update-and-install command.
    DepsRun { manager: PackageManager, audio_t64: bool },
    /// Reporting that the dependencies installed.
    DepsInstalled,
    /// Warning that the install command exited non-zero.
    DepsWarnFailed,
    /// Warning that the install command could not run.
    DepsWarnCrashed { detail: String },
    /// Printing the hint that a dependency mode exists (Linux without it).
    LinuxHint,
    /// Creating the downloads directory.
    MakeDownloadsDir,
    /// Announcing the download.
    SayDownloading,
    /// Probing for curl.
    ProbeCurl,
    /// Probing for wget.
    ProbeWget,
    /// Fetching with curl (bounded retry).
    RunCurl,
    /// Fetching with wget.
    RunWget,
    /// Fetching with a scripted web request.
    RunPowershell,
    /// Disk-image install: making sure the install root exists.
    DmgEnsureHome,
    /// Disk-image install: does a stale staging directory exist?
    DmgProbeStale,
    /// Disk-image install: force-unmounting the stale staging directory.
    DmgDetachStale,
    /// Disk-image install: removing the stale staging directory.
    DmgRemoveStale,
    /// Disk-image install: creating the staging directory.
    DmgCreateMount,
    /// Disk-image install: mounting the image at the staging directory.
    DmgAttach,
    /// Disk-image install: removing the staging directory after a failed
    /// mount.
    DmgRemoveAfterAttachFail,
    /// Disk-image install: does the bundle exist inside the image?
    DmgCheckApp,
    /// Disk-image install: does a previously installed bundle exist?
    DmgCheckTarget,
    /// Disk-image install: removing the previously installed bundle.
    DmgRemoveTarget,
    /// Disk-image install: copying the bundle out of the image.
    DmgCopy,
    /// Disk-image install: does the copied bundle hold the executable?
    DmgCheckExe,
    /// Disk-image install: unmounting the staging directory; the carried
    /// result — executable path or error — surfaces after cleanup.
    DmgCleanupDetach { found: Result<String, String> },
    /// Disk-image install: removing the staging directory; the carried
    /// result surfaces next.
    DmgCleanupRemove { found: Result<String, String> },
    /// Self-contained install: creating the binaries directory.
    BinEnsure,
    /// Self-contained install: copying the artifact into place.
    BinCopy,
    /// Self-contained install: marking the copy executable.
    BinChmod,
    /// Printing the final report.
    Report { installed: Option<String> },
    /// Terminal: success.
    Done { installed: Option<String> },
    /// Terminal: failure, with the message to surface.
    Failed { message: String },
}

/// The machine: the fixed platform facts of the run, and the phase.
pub struct Install {
    pub os: Os,
    pub arch: Arch,
    pub with_deps: bool,
    pub os_name: String,
    pub arch_name: String,
    pub home: String,
    pub phase: Phase,
}

// ---------------------------------------------------------------------
// Paths under the install root.
// ---------------------------------------------------------------------

pub open spec fn downloads_dir_spec(home: Seq<char>) -> Seq<char> {
    path_join(home, "downloads"@)
}

pub open spec fn download_path_spec(home: Seq<char>, os: Os, arch: Arch) -> Seq<char> {
    path_join(downloads_dir_spec(home), artifact_file_of(os, arch))
}

pub open spec fn mount_dir_spec(home: Seq<char>) -> Seq<char> {
    path_join(home, "mount"@)
}

pub open spec fn app_target_spec(home: Seq<char>) -> Seq<char> {
    path_join(home, "BrowserOS.app"@)
}

pub open spec fn app_in_dmg_spec(home: Seq<char>) -> Seq<char> {
    path_join(mount_dir_spec(home), "BrowserOS.app"@)
}

pub open spec fn dmg_executable_spec(home: Seq<char>) -> Seq<char> {
    path_join(path_join(path_join(app_target_spec(home), "Contents"@), "MacOS"@), "BrowserOS"@)
}

pub open spec fn bin_dir_spec(home: Seq<char>) -> Seq<char> {
    path_join(home, "bin"@)
}

pub open spec fn appimage_exe_spec(home: Seq<char>) -> Seq<char> {
    path_join(bin_dir_spec(home), "BrowserOS"@)
}

// ---------------------------------------------------------------------
// Messages.
// ---------------------------------------------------------------------

pub open spec fn unsupported_platform_msg(os_name: Seq<char>, arch_name: Seq<char>) -> Seq<char> {
    "Unsupported platform for BrowserOS install: "@ + os_name + " / "@ + arch_name
}

pub open spec fn no_manager_msg() -> Seq<char> {
    "No supported package manager found (apt-get, dnf, or yum)"@
}

pub open spec fn deps_warn_crashed_msg(detail: Seq<char>) -> Seq<char> {
    "Could not run install command: "@ + detail
}

pub open spec fn mkdir_downloads_msg(dir: Seq<char>, detail: Seq<char>) -> Seq<char> {
    "Failed to create download directory "@ + dir + ": "@ + detail
}

pub open spec fn no_fetch_tool_msg() -> Seq<char> {
    "Neither curl nor wget is available in PATH"@
}

/// The download failure line: it names the URL that failed and the exit
/// status the fetch tool reported.
pub open spec fn download_failed_msg(url: Seq<char>, status: Seq<char>) -> Seq<char> {
    "Download failed for "@ + url + " (exit status: "@ + status + ")"@
}

pub open spec fn run_curl_crashed_msg(detail: Seq<char>) -> Seq<char> {
    "Failed to run curl: "@ + detail
}

pub open spec fn run_wget_crashed_msg(detail: Seq<char>) -> Seq<char> {
    "Failed to run wget: "@ + detail
}

pub open spec fn run_powershell_crashed_msg(detail: Seq<char>) -> Seq<char> {
    "Failed to run PowerShell download: "@ + detail
}

pub open spec fn prep_home_msg(home: Seq<char>, detail: Seq<char>) -> Seq<char> {
    "Failed to prepare BrowserOS directory "@ + home + ": "@ + detail
}

pub open spec fn create_mount_msg(mount: Seq<char>, detail: Seq<char>) -> Seq<char> {
    "Failed to create mount directory "@ + mount + ": "@ + detail
}

pub open spec fn mount_crashed_msg(detail: Seq<char>) -> Seq<char> {
    "Failed to mount BrowserOS DMG: "@ + detail
}

pub open spec fn mount_failed_msg() -> Seq<char> {
    "Failed to mount BrowserOS DMG"@
}

pub open spec fn app_missing_msg(mount: Seq<char>) -> Seq<char> {
    "BrowserOS.app not found in mounted DMG: "@ + mount
}

pub open spec fn remove_previous_msg(target: Seq<char>, detail: Seq<char>) -> Seq<char> {
    "Failed to remove previous BrowserOS.app at "@ + target + ": "@ + detail
}

pub open spec fn copy_failed_msg() -> Seq<char> {
    "Failed to copy BrowserOS.app from DMG"@
}

pub open spec fn copy_crashed_msg(detail: Seq<char>) -> Seq<char> {
    "Failed to copy BrowserOS.app: "@ + detail
}

pub open spec fn exe_missing_msg(exe: Seq<char>) -> Seq<char> {
    "Installed BrowserOS executable not found: "@ + exe
}

pub open spec fn bin_dir_msg(bin: Seq<char>, detail: Seq<char>) -> Seq<char> {
    "Failed to create BrowserOS bin directory "@ + bin + ": "@ + detail
}

pub open spec fn appimage_install_msg(exe: Seq<char>, detail: Seq<char>) -> Seq<char> {
    "Failed to install BrowserOS AppImage to "@ + exe + ": "@ + detail
}

pub open spec fn chmod_crashed_msg(exe: Seq<char>, detail: Seq<char>) -> Seq<char> {
    "Failed to run chmod +x on "@ + exe + ": "@ + detail
}

pub open spec fn chmod_failed_msg(exe: Seq<char>) -> Seq<char> {
    "Failed to mark BrowserOS executable as runnable: "@ + exe
}

pub open spec fn ps_script_spec(url: Seq<char>, out: Seq<char>) -> Seq<char> {
    "$ProgressPreference='SilentlyContinue'; Invoke-WebRequest -Uri '"@ + url + "' -OutFile '"@
        + out + "'"@
}

/// The detail string an outcome carries: empty on success.
pub open spec fn outcome_detail(ev: Outcome) -> Seq<char> {
    match ev {
        Outcome::Pass => Seq::<char>::empty(),
        Outcome::Fail(s) => s@,
        Outcome::Crash(s) => s@,
    }
}

pub open spec fn opt_str_eq(a: Option<String>, b: Option<String>) -> bool {
    match (a, b) {
        (Some(x), Some(y)) => x@ == y@,
        (None, None) => true,
        _ => false,
    }
}

pub open spec fn res_str_eq(a: Result<String, String>, b: Result<String, String>) -> bool {
    match (a, b) {
        (Ok(x), Ok(y)) => x@ == y@,
        (Err(x), Err(y)) => x@ == y@,
        _ => false,
    }
}

/// The final report, line by line: the downloaded artifact, then the
/// installed executable and the environment-variable hint when one was
/// installed, manual instructions on the installer platform otherwise,
/// then — on Linux without the dependency mode — the trailing reminder.
pub open spec fn report_lines_spec(m: Install, installed: Option<String>) -> Seq<Seq<char>> {
    let base = seq![
        "BrowserOS package downloaded"@,
        "  "@ + download_path_spec(m.home@, m.os, m.arch),
    ];
    let mid = match installed {
        Some(p) => seq![
            "BrowserOS executable ready:"@,
            "  "@ + p@,
            ""@,
            "Set this in your shell:"@,
            "  export AGENT_BROWSER_EXECUTABLE_PATH=\""@ + p@ + "\""@,
        ],
        None => if m.os is Windows {
            seq![
                ""@,
                "Run the downloaded installer, then set:"@,
                "  set AGENT_BROWSER_EXECUTABLE_PATH=C:\\Program Files\\BrowserOS\\BrowserOS.exe"@,
            ]
        } else {
            Seq::<Seq<char>>::empty()
        },
    };
    let tail = if m.os is Linux && !m.with_deps {
        seq![
            ""@,
            "Note: If BrowserOS fails to start due to missing shared libraries, run:"@,
            "  agent-browser install --with-deps"@,
        ]
    } else {
        Seq::<Seq<char>>::empty()
    };
    base + mid + tail
}

// ---------------------------------------------------------------------
// The transition relation and the action relation.
// ---------------------------------------------------------------------

impl Install {
    /// The fixed platform facts never change across steps.
    pub open spec fn config_kept(self, post: Install) -> bool {
        &&& post.os == self.os
        &&& post.arch == self.arch
        &&& post.with_deps == self.with_deps
        &&& post.os_name@ == self.os_name@
        &&& post.arch_name@ == self.arch_name@
        &&& post.home@ == self.home@
    }

    /// On an unsupported operating system the machine only ever stands on
    /// its terminal failure.
    pub open spec fn wf(self) -> bool {
        self.os is Other ==> self.phase is Failed
    }

    pub open spec fn is_terminal(self) -> bool {
        self.phase is Done || self.phase is Failed
    }
}

pub open spec fn is_pass(ev: Outcome) -> bool {
    ev is Pass
}

/// Which phase follows a phase, given the driver's report. This is the
/// whole decision table of the installer.
pub open spec fn phase_after(pre: Install, ev: Outcome, p: Phase) -> bool {
    let home = pre.home@;
    match pre.phase {
        Phase::DepsAnnounce => p == Phase::ProbeApt,
        Phase::ProbeApt => p == if is_pass(ev) {
            Phase::ProbeAudioVariant
        } else {
            Phase::ProbeDnf
        },
        Phase::ProbeAudioVariant => {
            &&& p matches Phase::DepsSayRun { manager, audio_t64 }
            &&& manager == PackageManager::AptGet
            &&& audio_t64 == is_pass(ev)
        },
        Phase::ProbeDnf => if is_pass(ev) {
            &&& p matches Phase::DepsSayRun { manager, audio_t64 }
            &&& manager == PackageManager::Dnf
            &&& !audio_t64
        } else {
            p == Phase::ProbeYum
        },
        Phase::ProbeYum => if is_pass(ev) {
            &&& p matches Phase::DepsSayRun { manager, audio_t64 }
            &&& manager == PackageManager::Yum
            &&& !audio_t64
        } else {
            p matches Phase::Failed { message } && message@ == no_manager_msg()
        },
        Phase::DepsSayRun { manager, audio_t64 } => {
            &&& p matches Phase::DepsRun { manager: m2, audio_t64: a2 }
            &&& m2 == manager
            &&& a2 == audio_t64
        },
        Phase::DepsRun { .. } => match ev {
            Outcome::Pass => p == Phase::DepsInstalled,
            Outcome::Fail(_) => p == Phase::DepsWarnFailed,
            Outcome::Crash(e) => p matches Phase::DepsWarnCrashed { detail } && detail@ == e@,
        },
        Phase::DepsInstalled => p == Phase::MakeDownloadsDir,
        Phase::DepsWarnFailed => p == Phase::MakeDownloadsDir,
        Phase::DepsWarnCrashed { .. } => p == Phase::MakeDownloadsDir,
        Phase::LinuxHint => p == Phase::MakeDownloadsDir,
        Phase::MakeDownloadsDir => if is_pass(ev) {
            p == Phase::SayDownloading
        } else {
            p matches Phase::Failed { message } && message@ == mkdir_downloads_msg(
                downloads_dir_spec(home),
                outcome_detail(ev),
            )
        },
        Phase::SayDownloading => p == if pre.os is Windows {
            Phase::RunPowershell
        } else {
            Phase::ProbeCurl
        },
        Phase::ProbeCurl => p == if is_pass(ev) {
            Phase::RunCurl
        } else {
            Phase::ProbeWget
        },
        Phase::ProbeWget => if is_pass(ev) {
            p == Phase::RunWget
        } else {
            p matches Phase::Failed { message } && message@ == no_fetch_tool_msg()
        },
        Phase::RunCurl => match ev {
            Outcome::Pass => p == after_download_phase(pre.os),
            Outcome::Fail(st) => p matches Phase::Failed { message } && message@
                == download_failed_msg(artifact_url_of(pre.os, pre.arch), st@),
            Outcome::Crash(e) => p matches Phase::Failed { message } && message@
                == run_curl_crashed_msg(e@),
        },
        Phase::RunWget => match ev {
            Outcome::Pass => p == after_download_phase(pre.os),
            Outcome::Fail(st) => p matches Phase::Failed { message } && message@
                == download_failed_msg(artifact_url_of(pre.os, pre.arch), st@),
            Outcome::Crash(e) => p matches Phase::Failed { message } && message@
                == run_wget_crashed_msg(e@),
        },
        Phase::RunPowershell => match ev {
            Outcome::Pass => p == after_download_phase(pre.os),
            Outcome::Fail(st) => p matches Phase::Failed { message } && message@
                == download_failed_msg(artifact_url_of(pre.os, pre.arch), st@),
            Outcome::Crash(e) => p matches Phase::Failed { message } && message@
                == run_powershell_crashed_msg(e@),
        },
        Phase::DmgEnsureHome => if is_pass(ev) {
            p == Phase::DmgProbeStale
        } else {
            p matches Phase::Failed { message } && message@ == prep_home_msg(
                home,
                outcome_detail(ev),
            )
        },
        Phase::DmgProbeStale => p == if is_pass(ev) {
            Phase::DmgDetachStale
        } else {
            Phase::DmgCreateMount
        },
        Phase::DmgDetachStale => p == Phase::DmgRemoveStale,
        Phase::DmgRemoveStale => p == Phase::DmgCreateMount,
        Phase::DmgCreateMount => if is_pass(ev) {
            p == Phase::DmgAttach
        } else {
            p matches Phase::Failed { message } && message@ == create_mount_msg(
                mount_dir_spec(home),
                outcome_detail(ev),
            )
        },
        Phase::DmgAttach => match ev {
            Outcome::Pass => p == Phase::DmgCheckApp,
            Outcome::Fail(_) => p == Phase::DmgRemoveAfterAttachFail,
            Outcome::Crash(e) => p matches Phase::Failed { message } && message@
                == mount_crashed_msg(e@),
        },
        Phase::DmgRemoveAfterAttachFail => p matches Phase::Failed { message } && message@
            == mount_failed_msg(),
        Phase::DmgCheckApp => if is_pass(ev) {
            p == Phase::DmgCheckTarget
        } else {
            &&& p matches Phase::DmgCleanupDetach { found }
            &&& found matches Err(msg)
            &&& msg@ == app_missing_msg(mount_dir_spec(home))
        },
        Phase::DmgCheckTarget => p == if is_pass(ev) {
            Phase::DmgRemoveTarget
        } else {
            Phase::DmgCopy
        },
        Phase::DmgRemoveTarget => if is_pass(ev) {
            p == Phase::DmgCopy
        } else {
            &&& p matches Phase::DmgCleanupDetach { found }
            &&& found matches Err(msg)
            &&& msg@ == remove_previous_msg(app_target_spec(home), outcome_detail(ev))
        },
        Phase::DmgCopy => match ev {
            Outcome::Pass => p == Phase::DmgCheckExe,
            Outcome::Fail(_) => {
                &&& p matches Phase::DmgCleanupDetach { found }
                &&& found matches Err(msg)
                &&& msg@ == copy_failed_msg()
            },
            Outcome::Crash(e) => {
                &&& p matches Phase::DmgCleanupDetach { found }
                &&& found matches Err(msg)
                &&& msg@ == copy_crashed_msg(e@)
            },
        },
        Phase::DmgCheckExe => if is_pass(ev) {
            &&& p matches Phase::DmgCleanupDetach { found }
            &&& found matches Ok(exe)
            &&& exe@ == dmg_executable_spec(home)
        } else {
            &&& p matches Phase::DmgCleanupDetach { found }
            &&& found matches Err(msg)
            &&& msg@ == exe_missing_msg(dmg_executable_spec(home))
        },
        Phase::DmgCleanupDetach { found } => {
            &&& p matches Phase::DmgCleanupRemove { found: f2 }
            &&& res_str_eq(found, f2)
        },
        Phase::DmgCleanupRemove { found } => match found {
            Ok(exe) => {
                &&& p matches Phase::Report { installed }
                &&& installed matches Some(q)
                &&& q@ == exe@
            },
            Err(msg) => p matches Phase::Failed { message } && message@ == msg@,
        },
        Phase::BinEnsure => if is_pass(ev) {
            p == Phase::BinCopy
        } else {
            p matches Phase::Failed { message } && message@ == bin_dir_msg(
                bin_dir_spec(home),
                outcome_detail(ev),
            )
        },
        Phase::BinCopy => if is_pass(ev) {
            p == Phase::BinChmod
        } else {
            p matches Phase::Failed { message } && message@ == appimage_install_msg(
                appimage_exe_spec(home),
                outcome_detail(ev),
            )
        },
        Phase::BinChmod => match ev {
            Outcome::Pass => {
                &&& p matches Phase::Report { installed }
                &&& installed matches Some(q)
                &&& q@ == appimage_exe_spec(home)
            },
            Outcome::Fail(_) => p matches Phase::Failed { message } && message@
                == chmod_failed_msg(appimage_exe_spec(home)),
            Outcome::Crash(e) => p matches Phase::Failed { message } && message@
                == chmod_crashed_msg(appimage_exe_spec(home), e@),
        },
        Phase::Report { installed } => {
            &&& p matches Phase::Done { installed: i2 }
            &&& opt_str_eq(installed, i2)
        },
        Phase::Done { .. } => false,
        Phase::Failed { .. } => false,
    }
}

/// Where the run continues once the artifact is on disk: the
/// platform-specific install step, or straight to the report where none
/// is modeled.
pub open spec fn after_download_phase(os: Os) -> Phase {
    match os {
        Os::MacOs => Phase::DmgEnsureHome,
        Os::Linux => Phase::BinEnsure,
        Os::Windows => Phase::Report { installed: None },
        Os::Other => Phase::Report { installed: None },
    }
}

/// What one step promises: the configuration is kept and the new phase
/// follows the decision table.
pub open spec fn next_ok(pre: Install, ev: Outcome, post: Install) -> bool {
    &&& pre.config_kept(post)
    &&& phase_after(pre, ev, post.phase)
}

/// The action a phase hands to the driver.
pub open spec fn action_ok(m: Install, a: Action) -> bool {
    let home = m.home@;
    match m.phase {
        Phase::DepsAnnounce => a matches Action::Say(l) && l.deep_view() == seq![
            "Installing system dependencies..."@,
        ],
        Phase::ProbeApt => a matches Action::Probe(n) && n@ == "apt-get"@,
        Phase::ProbeAudioVariant => a matches Action::ProbeAptPackage(n) && n@
            == "libasound2t64"@,
        Phase::ProbeDnf => a matches Action::Probe(n) && n@ == "dnf"@,
        Phase::ProbeYum => a matches Action::Probe(n) && n@ == "yum"@,
        Phase::DepsSayRun { manager, audio_t64 } => a matches Action::Say(l) && l.deep_view()
            == seq!["Running: "@ + install_command_spec(manager, audio_t64)],
        Phase::DepsRun { manager, audio_t64 } => {
            &&& a matches Action::Run { program, args }
            &&& program@ == "sh"@
            &&& args.deep_view() == seq!["-c"@, install_command_spec(manager, audio_t64)]
        },
        Phase::DepsInstalled => a matches Action::Say(l) && l.deep_view() == seq![
            "System dependencies installed"@,
        ],
        Phase::DepsWarnFailed => a matches Action::Warn(l) && l.deep_view() == seq![
            "Failed to install some dependencies. You may need to run manually with sudo."@,
        ],
        Phase::DepsWarnCrashed { detail } => a matches Action::Warn(l) && l.deep_view() == seq![
            deps_warn_crashed_msg(detail@),
        ],
        Phase::LinuxHint => a matches Action::Say(l) && l.deep_view() == seq![
            "Linux detected. If browser fails to launch, run:"@,
            "  agent-browser install --with-deps"@,
            ""@,
        ],
        Phase::MakeDownloadsDir => a matches Action::EnsureDir(p) && p@ == downloads_dir_spec(
            home,
        ),
        Phase::SayDownloading => a matches Action::Say(l) && l.deep_view() == seq![
            "Installing Downloading BrowserOS "@ + version_spec() + "..."@,
        ],
        Phase::ProbeCurl => a matches Action::Probe(n) && n@ == "curl"@,
        Phase::ProbeWget => a matches Action::Probe(n) && n@ == "wget"@,
        Phase::RunCurl => {
            &&& a matches Action::Run { program, args }
            &&& program@ == "curl"@
            &&& args.deep_view() == seq![
                "-fL"@,
                "--retry"@,
                "3"@,
                "-o"@,
                download_path_spec(home, m.os, m.arch),
                artifact_url_of(m.os, m.arch),
            ]
        },
        Phase::RunWget => {
            &&& a matches Action::Run { program, args }
            &&& program@ == "wget"@
            &&& args.deep_view() == seq![
                "-O"@,
                download_path_spec(home, m.os, m.arch),
                artifact_url_of(m.os, m.arch),
            ]
        },
        Phase::RunPowershell => {
            &&& a matches Action::Run { program, args }
            &&& program@ == "powershell"@
            &&& args.deep_view() == seq![
                "-NoProfile"@,
                "-NonInteractive"@,
                "-Command"@,
                ps_script_spec(artifact_url_of(m.os, m.arch), download_path_spec(home, m.os, m.arch)),
            ]
        },
        Phase::DmgEnsureHome => a matches Action::EnsureDir(p) && p@ == home,
        Phase::DmgProbeStale => a matches Action::ProbePath(p) && p@ == mount_dir_spec(home),
        Phase::DmgDetachStale => {
            &&& a matches Action::Run { program, args }
            &&& program@ == "hdiutil"@
            &&& args.deep_view() == seq!["detach"@, mount_dir_spec(home), "-force"@]
        },
        Phase::DmgRemoveStale => a matches Action::RemovePath(p) && p@ == mount_dir_spec(home),
        Phase::DmgCreateMount => a matches Action::EnsureDir(p) && p@ == mount_dir_spec(home),
        Phase::DmgAttach => {
            &&& a matches Action::Run { program, args }
            &&& program@ == "hdiutil"@
            &&& args.deep_view() == seq![
                "attach"@,
                "-nobrowse"@,
                "-quiet"@,
                "-mountpoint"@,
                mount_dir_spec(home),
                download_path_spec(home, m.os, m.arch),
            ]
        },
        Phase::DmgRemoveAfterAttachFail => a matches Action::RemovePath(p) && p@
            == mount_dir_spec(home),
        Phase::DmgCheckApp => a matches Action::ProbePath(p) && p@ == app_in_dmg_spec(home),
        Phase::DmgCheckTarget => a matches Action::ProbePath(p) && p@ == app_target_spec(home),
        Phase::DmgRemoveTarget => a matches Action::RemovePath(p) && p@ == app_target_spec(home),
        Phase::DmgCopy => {
            &&& a matches Action::Run { program, args }
            &&& program@ == "cp"@
            &&& args.deep_view() == seq!["-R"@, app_in_dmg_spec(home), app_target_spec(home)]
        },
        Phase::DmgCheckExe => a matches Action::ProbePath(p) && p@ == dmg_executable_spec(home),
        Phase::DmgCleanupDetach { .. } => {
            &&& a matches Action::Run { program, args }
            &&& program@ == "hdiutil"@
            &&& args.deep_view() == seq!["detach"@, mount_dir_spec(home), "-quiet"@]
        },
        Phase::DmgCleanupRemove { .. } => a matches Action::RemovePath(p) && p@ == mount_dir_spec(
            home,
        ),
        Phase::BinEnsure => a matches Action::EnsureDir(p) && p@ == bin_dir_spec(home),
        Phase::BinCopy => {
            &&& a matches Action::CopyFile { from, to }
            &&& from@ == download_path_spec(home, m.os, m.arch)
            &&& to@ == appimage_exe_spec(home)
        },
        Phase::BinChmod => {
            &&& a matches Action::Run { program, args }
            &&& program@ == "chmod"@
            &&& args.deep_view() == seq!["+x"@, appimage_exe_spec(home)]
        },
        Phase::Report { installed } => a matches Action::Say(l) && l.deep_view()
            == report_lines_spec(m, installed),
        Phase::Done { installed } => a matches Action::Finished { installed: i } && opt_str_eq(
            installed,
            i,
        ),
        Phase::Failed { message } => a matches Action::Fail(msg) && msg@ == message@,
    }
}

/// Where a fresh machine starts: the terminal failure when the operating
/// system is unsupported; the dependency step or its hint on Linux; the
/// downloads directory elsewhere.
pub open spec fn init_phase_ok(m: Install) -> bool {
    if m.os is Other {
        m.phase matches Phase::Failed { message } && message@ == unsupported_platform_msg(
            m.os_name@,
            m.arch_name@,
        )
    } else if m.os is Linux && m.with_deps {
        m.phase == Phase::DepsAnnounce
    } else if m.os is Linux {
        m.phase == Phase::LinuxHint
    } else {
        m.phase == Phase::MakeDownloadsDir
    }
}

// ---------------------------------------------------------------------
// Executable path and line builders.
// ---------------------------------------------------------------------

fn downloads_dir(home: &str) -> (r: String)
    ensures
        r@ == downloads_dir_spec(home@),
{
    join_path(home, "downloads")
}

fn mount_dir(home: &str) -> (r: String)
    ensures
        r@ == mount_dir_spec(home@),
{
    join_path(home, "mount")
}

fn app_target(home: &str) -> (r: String)
    ensures
        r@ == app_target_spec(home@),
{
    join_path(home, "BrowserOS.app")
}

fn app_in_dmg(home: &str) -> (r: String)
    ensures
        r@ == app_in_dmg_spec(home@),
{
    let md = mount_dir(home);
    join_path(md.as_str(), "BrowserOS.app")
}

fn dmg_executable(home: &str) -> (r: String)
    ensures
        r@ == dmg_executable_spec(home@),
{
    let t = app_target(home);
    let c = join_path(t.as_str(), "Contents");
    let mac = join_path(c.as_str(), "MacOS");
    join_path(mac.as_str(), "BrowserOS")
}

fn bin_dir(home: &str) -> (r: String)
    ensures
        r@ == bin_dir_spec(home@),
{
    join_path(home, "bin")
}

fn appimage_exe(home: &str) -> (r: String)
    ensures
        r@ == appimage_exe_spec(home@),
{
    let bd = bin_dir(home);
    join_path(bd.as_str(), "BrowserOS")
}

fn download_path(home: &str, os: Os, arch: Arch) -> (r: String)
    requires
        os != Os::Other,
    ensures
        r@ == download_path_spec(home@, os, arch),
{
    match resolve_artifact(os, arch) {
        Some(art) => {
            let dd = downloads_dir(home);
            join_path(dd.as_str(), art.file_name.as_str())
        },
        None => unreached(),
    }
}

fn artifact_url(os: Os, arch: Arch) -> (r: String)
    requires
        os != Os::Other,
    ensures
        r@ == artifact_url_of(os, arch),
{
    match resolve_artifact(os, arch) {
        Some(art) => art.url,
        None => unreached(),
    }
}

fn lines1(a: String) -> (v: Vec<String>)
    ensures
        v.deep_view() == seq![a@],
{
    let ghost ga = a@;
    let mut v: Vec<String> = Vec::new();
    v.push(a);
    proof {
        assert(v.deep_view() =~= seq![ga]);
    }
    v
}

fn lines2(a: String, b: String) -> (v: Vec<String>)
    ensures
        v.deep_view() == seq![a@, b@],
{
    let ghost ga = a@;
    let ghost gb = b@;
    let mut v: Vec<String> = Vec::new();
    v.push(a);
    v.push(b);
    proof {
        assert(v.deep_view() =~= seq![ga, gb]);
    }
    v
}

fn lines3(a: String, b: String, c: String) -> (v: Vec<String>)
    ensures
        v.deep_view() == seq![a@, b@, c@],
{
    let ghost ga = a@;
    let ghost gb = b@;
    let ghost gc = c@;
    let mut v: Vec<String> = Vec::new();
    v.push(a);
    v.push(b);
    v.push(c);
    proof {
        assert(v.deep_view() =~= seq![ga, gb, gc]);
    }
    v
}

fn lines4(a: String, b: String, c: String, d: String) -> (v: Vec<String>)
    ensures
        v.deep_view() == seq![a@, b@, c@, d@],
{
    let ghost ga = a@;
    let ghost gb = b@;
    let ghost gc = c@;
    let ghost gd = d@;
    let mut v: Vec<String> = Vec::new();
    v.push(a);
    v.push(b);
    v.push(c);
    v.push(d);
    proof {
        assert(v.deep_view() =~= seq![ga, gb, gc, gd]);
    }
    v
}

fn lines6(a: String, b: String, c: String, d: String, e: String, f: String) -> (v: Vec<String>)
    ensures
        v.deep_view() == seq![a@, b@, c@, d@, e@, f@],
{
    let ghost ga = a@;
    let ghost gb = b@;
    let ghost gc = c@;
    let ghost gd = d@;
    let ghost ge = e@;
    let ghost gf = f@;
    let mut v: Vec<String> = Vec::new();
    v.push(a);
    v.push(b);
    v.push(c);
    v.push(d);
    v.push(e);
    v.push(f);
    proof {
        assert(v.deep_view() =~= seq![ga, gb, gc, gd, ge, gf]);
    }
    v
}

/// The final report, built line by line.
fn report_lines(m: &Install, installed: &Option<String>) -> (v: Vec<String>)
    requires
        !(m.os is Other),
    ensures
        v.deep_view() == report_lines_spec(*m, *installed),
{
    let mut v: Vec<String> = Vec::new();
    v.push("BrowserOS package downloaded".to_owned());
    let dp = download_path(m.home.as_str(), m.os, m.arch);
    v.push(concat2("  ", dp.as_str()));
    match installed {
        Some(p) => {
            v.push("BrowserOS executable ready:".to_owned());
            v.push(concat2("  ", p.as_str()));
            v.push("".to_owned());
            v.push("Set this in your shell:".to_owned());
            v.push(concat3("  export AGENT_BROWSER_EXECUTABLE_PATH=\"", p.as_str(), "\""));
        },
        None => {
            if m.os == Os::Windows {
                v.push("".to_owned());
                v.push("Run the downloaded installer, then set:".to_owned());
                v.push(
                    "  set AGENT_BROWSER_EXECUTABLE_PATH=C:\\Program Files\\BrowserOS\\BrowserOS.exe".to_owned(),
                );
            }
        },
    }
    if m.os == Os::Linux && !m.with_deps {
        v.push("".to_owned());
        v.push("Note: If BrowserOS fails to start due to missing shared libraries, run:".to_owned());
        v.push("  agent-browser install --with-deps".to_owned());
    }
    proof {
        assert(v.deep_view() =~= report_lines_spec(*m, *installed));
    }
    v
}

// ---------------------------------------------------------------------
// The machine itself.
// ---------------------------------------------------------------------

/// The action pending in the machine's phase.
pub fn action_of(m: &Install) -> (a: Action)
    requires
        m.wf(),
    ensures
        action_ok(*m, a),
{
    match &m.phase {
        Phase::DepsAnnounce => Action::Say(lines1("Installing system dependencies...".to_owned())),
        Phase::ProbeApt => Action::Probe("apt-get".to_owned()),
        Phase::ProbeAudioVariant => Action::ProbeAptPackage("libasound2t64".to_owned()),
        Phase::ProbeDnf => Action::Probe("dnf".to_owned()),
        Phase::ProbeYum => Action::Probe("yum".to_owned()),
        Phase::DepsSayRun { manager, audio_t64 } => {
            let cmd = install_command(*manager, *audio_t64);
            Action::Say(lines1(concat2("Running: ", cmd.as_str())))
        },
        Phase::DepsRun { manager, audio_t64 } => {
            let cmd = install_command(*manager, *audio_t64);
            Action::Run { program: "sh".to_owned(), args: lines2("-c".to_owned(), cmd) }
        },
        Phase::DepsInstalled => Action::Say(lines1("System dependencies installed".to_owned())),
        Phase::DepsWarnFailed => Action::Warn(
            lines1(
                "Failed to install some dependencies. You may need to run manually with sudo.".to_owned(),
            ),
        ),
        Phase::DepsWarnCrashed { detail } => Action::Warn(
            lines1(concat2("Could not run install command: ", detail.as_str())),
        ),
        Phase::LinuxHint => Action::Say(
            lines3(
                "Linux detected. If browser fails to launch, run:".to_owned(),
                "  agent-browser install --with-deps".to_owned(),
                "".to_owned(),
            ),
        ),
        Phase::MakeDownloadsDir => Action::EnsureDir(downloads_dir(m.home.as_str())),
        Phase::SayDownloading => Action::Say(
            lines1(concat3("Installing Downloading BrowserOS ", version(), "...")),
        ),
        Phase::ProbeCurl => Action::Probe("curl".to_owned()),
        Phase::ProbeWget => Action::Probe("wget".to_owned()),
        Phase::RunCurl => {
            let dp = download_path(m.home.as_str(), m.os, m.arch);
            let url = artifact_url(m.os, m.arch);
            Action::Run {
                program: "curl".to_owned(),
                args: lines6(
                    "-fL".to_owned(),
                    "--retry".to_owned(),
                    "3".to_owned(),
                    "-o".to_owned(),
                    dp,
                    url,
                ),
            }
        },
        Phase::RunWget => {
            let dp = download_path(m.home.as_str(), m.os, m.arch);
            let url = artifact_url(m.os, m.arch);
            Action::Run {
                program: "wget".to_owned(),
                args: lines3("-O".to_owned(), dp, url),
            }
        },
        Phase::RunPowershell => {
            let dp = download_path(m.home.as_str(), m.os, m.arch);
            let url = artifact_url(m.os, m.arch);
            let script = concat5(
                "$ProgressPreference='SilentlyContinue'; Invoke-WebRequest -Uri '",
                url.as_str(),
                "' -OutFile '",
                dp.as_str(),
                "'",
            );
            Action::Run {
                program: "powershell".to_owned(),
                args: lines4(
                    "-NoProfile".to_owned(),
                    "-NonInteractive".to_owned(),
                    "-Command".to_owned(),
                    script,
                ),
            }
        },
        Phase::DmgEnsureHome => Action::EnsureDir(m.home.clone()),
        Phase::DmgProbeStale => Action::ProbePath(mount_dir(m.home.as_str())),
        Phase::DmgDetachStale => Action::Run {
            program: "hdiutil".to_owned(),
            args: lines3("detach".to_owned(), mount_dir(m.home.as_str()), "-force".to_owned()),
        },
        Phase::DmgRemoveStale => Action::RemovePath(mount_dir(m.home.as_str())),
        Phase::DmgCreateMount => Action::EnsureDir(mount_dir(m.home.as_str())),
        Phase::DmgAttach => {
            let dp = download_path(m.home.as_str(), m.os, m.arch);
            Action::Run {
                program: "hdiutil".to_owned(),
                args: lines6(
                    "attach".to_owned(),
                    "-nobrowse".to_owned(),
                    "-quiet".to_owned(),
                    "-mountpoint".to_owned(),
                    mount_dir(m.home.as_str()),
                    dp,
                ),
            }
        },
        Phase::DmgRemoveAfterAttachFail => Action::RemovePath(mount_dir(m.home.as_str())),
        Phase::DmgCheckApp => Action::ProbePath(app_in_dmg(m.home.as_str())),
        Phase::DmgCheckTarget => Action::ProbePath(app_target(m.home.as_str())),
        Phase::DmgRemoveTarget => Action::RemovePath(app_target(m.home.as_str())),
        Phase::DmgCopy => Action::Run {
            program: "cp".to_owned(),
            args: lines3(
                "-R".to_owned(),
                app_in_dmg(m.home.as_str()),
                app_target(m.home.as_str()),
            ),
        },
        Phase::DmgCheckExe => Action::ProbePath(dmg_executable(m.home.as_str())),
        Phase::DmgCleanupDetach { .. } => Action::Run {
            program: "hdiutil".to_owned(),
            args: lines3("detach".to_owned(), mount_dir(m.home.as_str()), "-quiet".to_owned()),
        },
        Phase::DmgCleanupRemove { .. } => Action::RemovePath(mount_dir(m.home.as_str())),
        Phase::BinEnsure => Action::EnsureDir(bin_dir(m.home.as_str())),
        Phase::BinCopy => Action::CopyFile {
            from: download_path(m.home.as_str(), m.os, m.arch),
            to: appimage_exe(m.home.as_str()),
        },
        Phase::BinChmod => Action::Run {
            program: "chmod".to_owned(),
            args: lines2("+x".to_owned(), appimage_exe(m.home.as_str())),
        },
        Phase::Report { installed } => Action::Say(report_lines(m, installed)),
        Phase::Done { installed } => Action::Finished {
            installed: match installed {
                Some(p) => Some(p.clone()),
                None => None,
            },
        },
        Phase::Failed { message } => Action::Fail(message.clone()),
    }
}

/// Starts a run from the platform names the process read at start, the
/// dependency-mode flag, and the install root. Hands back the machine and
/// its first pending action.
pub fn init(os_name: String, arch_name: String, with_deps: bool, home: String) -> (r: (
    Install,
    Action,
))
    ensures
        r.0.wf(),
        r.0.os == os_class_of(os_name@),
        r.0.arch == arch_class_of(arch_name@),
        r.0.with_deps == with_deps,
        r.0.os_name@ == os_name@,
        r.0.arch_name@ == arch_name@,
        r.0.home@ == home@,
        init_phase_ok(r.0),
        action_ok(r.0, r.1),
{
    let os = classify_os(os_name.as_str());
    let arch = classify_arch(arch_name.as_str());
    let phase = if os == Os::Other {
        Phase::Failed {
            message: concat4(
                "Unsupported platform for BrowserOS install: ",
                os_name.as_str(),
                " / ",
                arch_name.as_str(),
            ),
        }
    } else if os == Os::Linux && with_deps {
        Phase::DepsAnnounce
    } else if os == Os::Linux {
        Phase::LinuxHint
    } else {
        Phase::MakeDownloadsDir
    };
    let m = Install { os, arch, with_deps, os_name, arch_name, home, phase };
    let a = action_of(&m);
    (m, a)
}

/// One step: consumes the driver's report on the pending action and hands
/// back the machine in its next phase together with the next pending
/// action.
pub fn step(m: Install, ev: Outcome) -> (r: (Install, Action))
    requires
        m.wf(),
        !m.is_terminal(),
    ensures
        next_ok(m, ev, r.0),
        r.0.wf(),
        action_ok(r.0, r.1),
{
    let Install { os, arch, with_deps, os_name, arch_name, home, phase } = m;
    let next_phase: Phase = match phase {
        Phase::DepsAnnounce => Phase::ProbeApt,
        Phase::ProbeApt => match ev {
            Outcome::Pass => Phase::ProbeAudioVariant,
            _ => Phase::ProbeDnf,
        },
        Phase::ProbeAudioVariant => {
            let found = match ev {
                Outcome::Pass => true,
                _ => false,
            };
            Phase::DepsSayRun { manager: PackageManager::AptGet, audio_t64: found }
        },
        Phase::ProbeDnf => match ev {
            Outcome::Pass => Phase::DepsSayRun { manager: PackageManager::Dnf, audio_t64: false },
            _ => Phase::ProbeYum,
        },
        Phase::ProbeYum => match ev {
            Outcome::Pass => Phase::DepsSayRun { manager: PackageManager::Yum, audio_t64: false },
            _ => Phase::Failed {
                message: "No supported package manager found (apt-get, dnf, or yum)".to_owned(),
            },
        },
        Phase::DepsSayRun { manager, audio_t64 } => Phase::DepsRun { manager, audio_t64 },
        Phase::DepsRun { .. } => match ev {
            Outcome::Pass => Phase::DepsInstalled,
            Outcome::Fail(_) => Phase::DepsWarnFailed,
            Outcome::Crash(e) => Phase::DepsWarnCrashed { detail: e },
        },
        Phase::DepsInstalled => Phase::MakeDownloadsDir,
        Phase::DepsWarnFailed => Phase::MakeDownloadsDir,
        Phase::DepsWarnCrashed { .. } => Phase::MakeDownloadsDir,
        Phase::LinuxHint => Phase::MakeDownloadsDir,
        Phase::MakeDownloadsDir => match ev {
            Outcome::Pass => Phase::SayDownloading,
            Outcome::Fail(d) | Outcome::Crash(d) => {
                let dd = downloads_dir(home.as_str());
                Phase::Failed {
                    message: concat4(
                        "Failed to create download directory ",
                        dd.as_str(),
                        ": ",
                        d.as_str(),
                    ),
                }
            },
        },
        Phase::SayDownloading => if os == Os::Windows {
            Phase::RunPowershell
        } else {
            Phase::ProbeCurl
        },
        Phase::ProbeCurl => match ev {
            Outcome::Pass => Phase::RunCurl,
            _ => Phase::ProbeWget,
        },
        Phase::ProbeWget => match ev {
            Outcome::Pass => Phase::RunWget,
            _ => Phase::Failed {
                message: "Neither curl nor wget is available in PATH".to_owned(),
            },
        },
        Phase::RunCurl => match ev {
            Outcome::Pass => after_download(os),
            Outcome::Fail(st) => {
                let url = artifact_url(os, arch);
                Phase::Failed {
                    message: concat5(
                        "Download failed for ",
                        url.as_str(),
                        " (exit status: ",
                        st.as_str(),
                        ")",
                    ),
                }
            },
            Outcome::Crash(e) => Phase::Failed {
                message: concat2("Failed to run curl: ", e.as_str()),
            },
        },
        Phase::RunWget => match ev {
            Outcome::Pass => after_download(os),
            Outcome::Fail(st) => {
                let url = artifact_url(os, arch);
                Phase::Failed {
                    message: concat5(
                        "Download failed for ",
                        url.as_str(),
                        " (exit status: ",
                        st.as_str(),
                        ")",
                    ),
                }
            },
            Outcome::Crash(e) => Phase::Failed {
                message: concat2("Failed to run wget: ", e.as_str()),
            },
        },
        Phase::RunPowershell => match ev {
            Outcome::Pass => after_download(os),
            Outcome::Fail(st) => {
                let url = artifact_url(os, arch);
                Phase::Failed {
                    message: concat5(
                        "Download failed for ",
                        url.as_str(),
                        " (exit status: ",
                        st.as_str(),
                        ")",
                    ),
                }
            },
            Outcome::Crash(e) => Phase::Failed {
                message: concat2("Failed to run PowerShell download: ", e.as_str()),
            },
        },
        Phase::DmgEnsureHome => match ev {
            Outcome::Pass => Phase::DmgProbeStale,
            Outcome::Fail(d) | Outcome::Crash(d) => Phase::Failed {
                message: concat4(
                    "Failed to prepare BrowserOS directory ",
                    home.as_str(),
                    ": ",
                    d.as_str(),
                ),
            },
        },
        Phase::DmgProbeStale => match ev {
            Outcome::Pass => Phase::DmgDetachStale,
            _ => Phase::DmgCreateMount,
        },
        Phase::DmgDetachStale => Phase::DmgRemoveStale,
        Phase::DmgRemoveStale => Phase::DmgCreateMount,
        Phase::DmgCreateMount => match ev {
            Outcome::Pass => Phase::DmgAttach,
            Outcome::Fail(d) | Outcome::Crash(d) => {
                let md = mount_dir(home.as_str());
                Phase::Failed {
                    message: concat4(
                        "Failed to create mount directory ",
                        md.as_str(),
                        ": ",
                        d.as_str(),
                    ),
                }
            },
        },
        Phase::DmgAttach => match ev {
            Outcome::Pass => Phase::DmgCheckApp,
            Outcome::Fail(_) => Phase::DmgRemoveAfterAttachFail,
            Outcome::Crash(e) => Phase::Failed {
                message: concat2("Failed to mount BrowserOS DMG: ", e.as_str()),
            },
        },
        Phase::DmgRemoveAfterAttachFail => Phase::Failed {
            message: "Failed to mount BrowserOS DMG".to_owned(),
        },
        Phase::DmgCheckApp => match ev {
            Outcome::Pass => Phase::DmgCheckTarget,
            _ => {
                let md = mount_dir(home.as_str());
                Phase::DmgCleanupDetach {
                    found: Err(concat2("BrowserOS.app not found in mounted DMG: ", md.as_str())),
                }
            },
        },
        Phase::DmgCheckTarget => match ev {
            Outcome::Pass => Phase::DmgRemoveTarget,
            _ => Phase::DmgCopy,
        },
        Phase::DmgRemoveTarget => match ev {
            Outcome::Pass => Phase::DmgCopy,
            Outcome::Fail(d) | Outcome::Crash(d) => {
                let at = app_target(home.as_str());
                Phase::DmgCleanupDetach {
                    found: Err(
                        concat4(
                            "Failed to remove previous BrowserOS.app at ",
                            at.as_str(),
                            ": ",
                            d.as_str(),
                        ),
                    ),
                }
            },
        },
        Phase::DmgCopy => match ev {
            Outcome::Pass => Phase::DmgCheckExe,
            Outcome::Fail(_) => Phase::DmgCleanupDetach {
                found: Err("Failed to copy BrowserOS.app from DMG".to_owned()),
            },
            Outcome::Crash(e) => Phase::DmgCleanupDetach {
                found: Err(concat2("Failed to copy BrowserOS.app: ", e.as_str())),
            },
        },
        Phase::DmgCheckExe => {
            let exe = dmg_executable(home.as_str());
            match ev {
                Outcome::Pass => Phase::DmgCleanupDetach { found: Ok(exe) },
                _ => Phase::DmgCleanupDetach {
                    found: Err(
                        concat2("Installed BrowserOS executable not found: ", exe.as_str()),
                    ),
                },
            }
        },
        Phase::DmgCleanupDetach { found } => Phase::DmgCleanupRemove { found },
        Phase::DmgCleanupRemove { found } => match found {
            Ok(exe) => Phase::Report { installed: Some(exe) },
            Err(msg) => Phase::Failed { message: msg },
        },
        Phase::BinEnsure => match ev {
            Outcome::Pass => Phase::BinCopy,
            Outcome::Fail(d) | Outcome::Crash(d) => {
                let bd = bin_dir(home.as_str());
                Phase::Failed {
                    message: concat4(
                        "Failed to create BrowserOS bin directory ",
                        bd.as_str(),
                        ": ",
                        d.as_str(),
                    ),
                }
            },
        },
        Phase::BinCopy => match ev {
            Outcome::Pass => Phase::BinChmod,
            Outcome::Fail(d) | Outcome::Crash(d) => {
                let ex = appimage_exe(home.as_str());
                Phase::Failed {
                    message: concat4(
                        "Failed to install BrowserOS AppImage to ",
                        ex.as_str(),
                        ": ",
                        d.as_str(),
                    ),
                }
            },
        },
        Phase::BinChmod => {
            let ex = appimage_exe(home.as_str());
            match ev {
                Outcome::Pass => Phase::Report { installed: Some(ex) },
                Outcome::Fail(_) => Phase::Failed {
                    message: concat2(
                        "Failed to mark BrowserOS executable as runnable: ",
                        ex.as_str(),
                    ),
                },
                Outcome::Crash(e) => Phase::Failed {
                    message: concat4("Failed to run chmod +x on ", ex.as_str(), ": ", e.as_str()),
                },
            }
        },
        Phase::Report { installed } => Phase::Done { installed },
        Phase::Done { .. } => unreached(),
        Phase::Failed { .. } => unreached(),
    };
    let next = Install { os, arch, with_deps, os_name, arch_name, home, phase: next_phase };
    let a = action_of(&next);
    (next, a)
}

/// Where the run continues once the artifact is on disk.
fn after_download(os: Os) -> (p: Phase)
    ensures
        p == after_download_phase(os),
{
    match os {
        Os::MacOs => Phase::DmgEnsureHome,
        Os::Linux => Phase::BinEnsure,
        Os::Windows => Phase::Report { installed: None },
        Os::Other => Phase::Report { installed: None },
    }
}

} // verus!
