use browseros_install::machine::{init, step, Action, Install, Outcome};

const HOME: &str = "/home/u/.browseros";

fn start(os: &str, arch: &str, with_deps: bool) -> (Install, Action) {
    init(os.to_string(), arch.to_string(), with_deps, HOME.to_string())
}

fn expect_say(a: &Action) -> &Vec<String> {
    match a {
        Action::Say(lines) => lines,
        _ => panic!("expected a Say action"),
    }
}

fn expect_run(a: &Action) -> (&String, &Vec<String>) {
    match a {
        Action::Run { program, args } => (program, args),
        _ => panic!("expected a Run action"),
    }
}

#[test]
fn macos_arm64_full_walk() {
    // Disk-image platform, arm64, no stale staging directory, no previous
    // install; every outside step succeeds.
    let (m, a) = start("macos", "aarch64", false);
    assert!(matches!(&a, Action::EnsureDir(p) if p == "/home/u/.browseros/downloads"));
    let (m, a) = step(m, Outcome::Pass);
    assert_eq!(expect_say(&a)[0], "Installing Downloading BrowserOS 0.39.0.3...");
    let (m, a) = step(m, Outcome::Pass);
    assert!(matches!(&a, Action::Probe(n) if n == "curl"));
    let (m, a) = step(m, Outcome::Pass);
    {
        let (program, args) = expect_run(&a);
        assert_eq!(program, "curl");
        assert_eq!(
            args,
            &vec![
                "-fL".to_string(),
                "--retry".to_string(),
                "3".to_string(),
                "-o".to_string(),
                "/home/u/.browseros/downloads/BrowserOS_v0.39.0.3_arm64.dmg".to_string(),
                "http://cdn.browseros.com/releases/0.39.0.3/macos/BrowserOS_v0.39.0.3_arm64.dmg"
                    .to_string(),
            ]
        );
    }
    let (m, a) = step(m, Outcome::Pass);
    assert!(matches!(&a, Action::EnsureDir(p) if p == HOME));
    let (m, a) = step(m, Outcome::Pass);
    assert!(matches!(&a, Action::ProbePath(p) if p == "/home/u/.browseros/mount"));
    // No stale staging directory.
    let (m, a) = step(m, Outcome::Fail(String::new()));
    assert!(matches!(&a, Action::EnsureDir(p) if p == "/home/u/.browseros/mount"));
    let (m, a) = step(m, Outcome::Pass);
    {
        let (program, args) = expect_run(&a);
        assert_eq!(program, "hdiutil");
        assert_eq!(
            args,
            &vec![
                "attach".to_string(),
                "-nobrowse".to_string(),
                "-quiet".to_string(),
                "-mountpoint".to_string(),
                "/home/u/.browseros/mount".to_string(),
                "/home/u/.browseros/downloads/BrowserOS_v0.39.0.3_arm64.dmg".to_string(),
            ]
        );
    }
    let (m, a) = step(m, Outcome::Pass);
    assert!(matches!(&a, Action::ProbePath(p) if p == "/home/u/.browseros/mount/BrowserOS.app"));
    let (m, a) = step(m, Outcome::Pass);
    assert!(matches!(&a, Action::ProbePath(p) if p == "/home/u/.browseros/BrowserOS.app"));
    // No previously installed bundle.
    let (m, a) = step(m, Outcome::Fail(String::new()));
    {
        let (program, args) = expect_run(&a);
        assert_eq!(program, "cp");
        assert_eq!(
            args,
            &vec![
                "-R".to_string(),
                "/home/u/.browseros/mount/BrowserOS.app".to_string(),
                "/home/u/.browseros/BrowserOS.app".to_string(),
            ]
        );
    }
    let (m, a) = step(m, Outcome::Pass);
    assert!(
        matches!(&a, Action::ProbePath(p) if p == "/home/u/.browseros/BrowserOS.app/Contents/MacOS/BrowserOS")
    );
    let (m, a) = step(m, Outcome::Pass);
    {
        let (program, args) = expect_run(&a);
        assert_eq!(program, "hdiutil");
        assert_eq!(
            args,
            &vec![
                "detach".to_string(),
                "/home/u/.browseros/mount".to_string(),
                "-quiet".to_string(),
            ]
        );
    }
    let (m, a) = step(m, Outcome::Pass);
    assert!(matches!(&a, Action::RemovePath(p) if p == "/home/u/.browseros/mount"));
    let (m, a) = step(m, Outcome::Pass);
    {
        let lines = expect_say(&a);
        assert_eq!(lines[0], "BrowserOS package downloaded");
        assert_eq!(
            lines[1],
            "  /home/u/.browseros/downloads/BrowserOS_v0.39.0.3_arm64.dmg"
        );
        assert_eq!(lines[2], "BrowserOS executable ready:");
        assert_eq!(lines[3], "  /home/u/.browseros/BrowserOS.app/Contents/MacOS/BrowserOS");
        assert_eq!(lines[4], "");
        assert_eq!(lines[5], "Set this in your shell:");
        assert_eq!(
            lines[6],
            "  export AGENT_BROWSER_EXECUTABLE_PATH=\"/home/u/.browseros/BrowserOS.app/Contents/MacOS/BrowserOS\""
        );
        assert_eq!(lines.len(), 7);
    }
    let (_m, a) = step(m, Outcome::Pass);
    assert!(
        matches!(&a, Action::Finished { installed: Some(p) }
            if p == "/home/u/.browseros/BrowserOS.app/Contents/MacOS/BrowserOS")
    );
}

#[test]
fn macos_riscv64_falls_back_to_universal() {
    let (m, a) = start("macos", "riscv64", false);
    assert!(matches!(&a, Action::EnsureDir(_)));
    let (m, a) = step(m, Outcome::Pass);
    assert!(matches!(&a, Action::Say(_)));
    let (m, a) = step(m, Outcome::Pass);
    assert!(matches!(&a, Action::Probe(n) if n == "curl"));
    let (_m, a) = step(m, Outcome::Pass);
    let (_, args) = expect_run(&a);
    assert_eq!(
        args[4],
        "/home/u/.browseros/downloads/BrowserOS_v0.39.0.3_universal.dmg"
    );
    assert_eq!(
        args[5],
        "http://cdn.browseros.com/releases/0.39.0.3/macos/BrowserOS_v0.39.0.3_universal.dmg"
    );
}

#[test]
fn stale_staging_is_detached_and_removed_before_mount() {
    let (m, a) = start("macos", "aarch64", false);
    assert!(matches!(&a, Action::EnsureDir(_)));
    let (m, _a) = step(m, Outcome::Pass);
    let (m, a) = step(m, Outcome::Pass);
    assert!(matches!(&a, Action::Probe(_)));
    let (m, _a) = step(m, Outcome::Pass);
    let (m, a) = step(m, Outcome::Pass);
    assert!(matches!(&a, Action::EnsureDir(p) if p == HOME));
    let (m, a) = step(m, Outcome::Pass);
    assert!(matches!(&a, Action::ProbePath(p) if p == "/home/u/.browseros/mount"));
    // The staging directory from a crashed run still exists.
    let (m, a) = step(m, Outcome::Pass);
    {
        let (program, args) = expect_run(&a);
        assert_eq!(program, "hdiutil");
        assert_eq!(
            args,
            &vec![
                "detach".to_string(),
                "/home/u/.browseros/mount".to_string(),
                "-force".to_string(),
            ]
        );
    }
    // The force-unmount may fail (already cleaned up); the run tolerates it.
    let (m, a) = step(m, Outcome::Fail(String::new()));
    assert!(matches!(&a, Action::RemovePath(p) if p == "/home/u/.browseros/mount"));
    let (_m, a) = step(m, Outcome::Pass);
    assert!(matches!(&a, Action::EnsureDir(p) if p == "/home/u/.browseros/mount"));
}

#[test]
fn failed_copy_still_cleans_the_staging_directory() {
    let (m, _a) = start("macos", "aarch64", false);
    let (m, _a) = step(m, Outcome::Pass); // downloads dir made
    let (m, _a) = step(m, Outcome::Pass); // announced
    let (m, _a) = step(m, Outcome::Pass); // curl found
    let (m, _a) = step(m, Outcome::Pass); // downloaded
    let (m, _a) = step(m, Outcome::Pass); // home made
    let (m, _a) = step(m, Outcome::Fail(String::new())); // no stale staging
    let (m, _a) = step(m, Outcome::Pass); // staging made
    let (m, _a) = step(m, Outcome::Pass); // mounted
    let (m, _a) = step(m, Outcome::Pass); // bundle in image
    let (m, a) = step(m, Outcome::Fail(String::new())); // no previous bundle
    assert!(matches!(&a, Action::Run { program, .. } if program == "cp"));
    // The copy fails; cleanup must still unmount and remove the staging
    // directory before the failure surfaces.
    let (m, a) = step(m, Outcome::Fail("exit status: 1".to_string()));
    {
        let (program, args) = expect_run(&a);
        assert_eq!(program, "hdiutil");
        assert_eq!(args[0], "detach");
        assert_eq!(args[1], "/home/u/.browseros/mount");
    }
    let (m, a) = step(m, Outcome::Pass);
    assert!(matches!(&a, Action::RemovePath(p) if p == "/home/u/.browseros/mount"));
    let (_m, a) = step(m, Outcome::Pass);
    assert!(matches!(&a, Action::Fail(msg) if msg == "Failed to copy BrowserOS.app from DMG"));
}

#[test]
fn download_failure_names_url_and_status() {
    let (m, _a) = start("linux", "x86_64", false);
    let (m, _a) = step(m, Outcome::Pass); // hint printed, downloads dir next
    let (m, _a) = step(m, Outcome::Pass); // downloads dir made
    let (m, a) = step(m, Outcome::Pass); // announced
    assert!(matches!(&a, Action::Probe(n) if n == "curl"));
    let (m, a) = step(m, Outcome::Pass);
    assert!(matches!(&a, Action::Run { program, .. } if program == "curl"));
    let (_m, a) = step(m, Outcome::Fail("exit status: 7".to_string()));
    match &a {
        Action::Fail(msg) => {
            assert_eq!(
                msg,
                "Download failed for http://cdn.browseros.com/releases/0.39.0.3/linux/BrowserOS_v0.39.0.3_x64.AppImage (exit status: exit status: 7)"
            );
        },
        _ => panic!("expected the terminal failure"),
    }
}

#[test]
fn curl_missing_falls_back_to_wget() {
    let (m, _a) = start("linux", "x86_64", false);
    let (m, _a) = step(m, Outcome::Pass);
    let (m, _a) = step(m, Outcome::Pass);
    let (m, a) = step(m, Outcome::Pass);
    assert!(matches!(&a, Action::Probe(n) if n == "curl"));
    let (m, a) = step(m, Outcome::Fail(String::new()));
    assert!(matches!(&a, Action::Probe(n) if n == "wget"));
    let (_m, a) = step(m, Outcome::Pass);
    let (program, args) = expect_run(&a);
    assert_eq!(program, "wget");
    assert_eq!(
        args,
        &vec![
            "-O".to_string(),
            "/home/u/.browseros/downloads/BrowserOS_v0.39.0.3_x64.AppImage".to_string(),
            "http://cdn.browseros.com/releases/0.39.0.3/linux/BrowserOS_v0.39.0.3_x64.AppImage"
                .to_string(),
        ]
    );
}

#[test]
fn no_fetch_tool_is_a_hard_stop() {
    let (m, _a) = start("linux", "x86_64", false);
    let (m, _a) = step(m, Outcome::Pass);
    let (m, _a) = step(m, Outcome::Pass);
    let (m, _a) = step(m, Outcome::Pass);
    let (m, _a) = step(m, Outcome::Fail(String::new())); // no curl
    let (_m, a) = step(m, Outcome::Fail(String::new())); // no wget
    assert!(matches!(&a, Action::Fail(msg) if msg == "Neither curl nor wget is available in PATH"));
}

#[test]
fn unsupported_os_fails_before_any_download() {
    let (_m, a) = start("freebsd", "x86_64", false);
    // The very first action is already the terminal failure: no download
    // directory is created, no fetch tool probed.
    assert!(
        matches!(&a, Action::Fail(msg)
            if msg == "Unsupported platform for BrowserOS install: freebsd / x86_64")
    );
}

#[test]
fn no_package_manager_is_fatal_before_artifact_resolution() {
    let (m, a) = start("linux", "x86_64", true);
    assert_eq!(expect_say(&a)[0], "Installing system dependencies...");
    let (m, a) = step(m, Outcome::Pass);
    assert!(matches!(&a, Action::Probe(n) if n == "apt-get"));
    let (m, a) = step(m, Outcome::Fail(String::new()));
    assert!(matches!(&a, Action::Probe(n) if n == "dnf"));
    let (m, a) = step(m, Outcome::Fail(String::new()));
    assert!(matches!(&a, Action::Probe(n) if n == "yum"));
    let (_m, a) = step(m, Outcome::Fail(String::new()));
    assert!(
        matches!(&a, Action::Fail(msg)
            if msg == "No supported package manager found (apt-get, dnf, or yum)")
    );
}

#[test]
fn failed_dependency_install_warns_and_continues() {
    let (m, _a) = start("linux", "x86_64", true);
    let (m, a) = step(m, Outcome::Pass);
    assert!(matches!(&a, Action::Probe(n) if n == "apt-get"));
    let (m, a) = step(m, Outcome::Pass);
    assert!(matches!(&a, Action::ProbeAptPackage(n) if n == "libasound2t64"));
    // The variant probe fails: the legacy audio package name is used.
    let (m, a) = step(m, Outcome::Fail(String::new()));
    {
        let lines = expect_say(&a);
        assert!(lines[0].starts_with("Running: sudo apt-get update && sudo apt-get install -y "));
        assert!(lines[0].contains(" libasound2 "));
        assert!(!lines[0].contains("libasound2t64"));
    }
    let (m, a) = step(m, Outcome::Pass);
    {
        let (program, args) = expect_run(&a);
        assert_eq!(program, "sh");
        assert_eq!(args[0], "-c");
        assert!(args[1].starts_with("sudo apt-get update && sudo apt-get install -y "));
    }
    // The install command exits non-zero: a warning, not a stop.
    let (m, a) = step(m, Outcome::Fail("exit status: 100".to_string()));
    match &a {
        Action::Warn(lines) => {
            assert_eq!(
                lines[0],
                "Failed to install some dependencies. You may need to run manually with sudo."
            );
        },
        _ => panic!("expected a warning"),
    }
    // The run then proceeds to the download as normal.
    let (m, a) = step(m, Outcome::Pass);
    assert!(matches!(&a, Action::EnsureDir(p) if p == "/home/u/.browseros/downloads"));
    let (m, a) = step(m, Outcome::Pass);
    assert!(matches!(&a, Action::Say(_)));
    let (_m, a) = step(m, Outcome::Pass);
    assert!(matches!(&a, Action::Probe(n) if n == "curl"));
}

#[test]
fn dependency_install_crash_warns_with_detail() {
    let (m, _a) = start("linux", "x86_64", true);
    let (m, _a) = step(m, Outcome::Pass); // probe apt
    let (m, _a) = step(m, Outcome::Pass); // variant probe
    let (m, _a) = step(m, Outcome::Pass); // command echoed
    let (m, a) = step(m, Outcome::Pass); // run it
    assert!(matches!(&a, Action::Run { .. }));
    let (_m, a) = step(m, Outcome::Crash("No such file or directory".to_string()));
    match &a {
        Action::Warn(lines) => {
            assert_eq!(
                lines[0],
                "Could not run install command: No such file or directory"
            );
        },
        _ => panic!("expected a warning"),
    }
}

#[test]
fn linux_without_deps_prints_hint_and_trailing_note() {
    let (m, a) = start("linux", "x86_64", false);
    {
        let lines = expect_say(&a);
        assert_eq!(lines[0], "Linux detected. If browser fails to launch, run:");
        assert_eq!(lines[1], "  agent-browser install --with-deps");
        assert_eq!(lines[2], "");
    }
    let (m, _a) = step(m, Outcome::Pass); // downloads dir
    let (m, _a) = step(m, Outcome::Pass); // announced
    let (m, _a) = step(m, Outcome::Pass); // curl probed
    let (m, _a) = step(m, Outcome::Pass); // curl found, fetch runs
    let (m, a) = step(m, Outcome::Pass); // downloaded
    assert!(matches!(&a, Action::EnsureDir(p) if p == "/home/u/.browseros/bin"));
    let (m, a) = step(m, Outcome::Pass);
    assert!(
        matches!(&a, Action::CopyFile { from, to }
            if from == "/home/u/.browseros/downloads/BrowserOS_v0.39.0.3_x64.AppImage"
                && to == "/home/u/.browseros/bin/BrowserOS")
    );
    let (m, a) = step(m, Outcome::Pass);
    {
        let (program, args) = expect_run(&a);
        assert_eq!(program, "chmod");
        assert_eq!(args, &vec!["+x".to_string(), "/home/u/.browseros/bin/BrowserOS".to_string()]);
    }
    let (m, a) = step(m, Outcome::Pass);
    {
        let lines = expect_say(&a);
        assert_eq!(lines[0], "BrowserOS package downloaded");
        assert_eq!(lines[2], "BrowserOS executable ready:");
        assert_eq!(lines[3], "  /home/u/.browseros/bin/BrowserOS");
        // The trailing reminder prints only without the dependency mode.
        assert_eq!(
            lines[8],
            "Note: If BrowserOS fails to start due to missing shared libraries, run:"
        );
        assert_eq!(lines[9], "  agent-browser install --with-deps");
        assert_eq!(lines.len(), 10);
    }
    let (_m, a) = step(m, Outcome::Pass);
    assert!(
        matches!(&a, Action::Finished { installed: Some(p) } if p == "/home/u/.browseros/bin/BrowserOS")
    );
}

#[test]
fn chmod_failure_is_fatal() {
    let (m, _a) = start("linux", "x86_64", false);
    let (m, _a) = step(m, Outcome::Pass); // downloads dir
    let (m, _a) = step(m, Outcome::Pass); // announced
    let (m, _a) = step(m, Outcome::Pass); // curl probed
    let (m, _a) = step(m, Outcome::Pass); // fetch runs
    let (m, _a) = step(m, Outcome::Pass); // downloaded, bin dir next
    let (m, _a) = step(m, Outcome::Pass); // copied
    let (m, a) = step(m, Outcome::Pass); // chmod
    assert!(matches!(&a, Action::Run { program, .. } if program == "chmod"));
    let (_m, a) = step(m, Outcome::Fail("exit status: 1".to_string()));
    assert!(
        matches!(&a, Action::Fail(msg)
            if msg == "Failed to mark BrowserOS executable as runnable: /home/u/.browseros/bin/BrowserOS")
    );
}

#[test]
fn windows_uses_powershell_and_manual_instructions() {
    let (m, a) = start("windows", "x86_64", false);
    assert!(matches!(&a, Action::EnsureDir(p) if p == "/home/u/.browseros/downloads"));
    let (m, _a) = step(m, Outcome::Pass);
    let (m, a) = step(m, Outcome::Pass);
    {
        let (program, args) = expect_run(&a);
        assert_eq!(program, "powershell");
        assert_eq!(args[0], "-NoProfile");
        assert_eq!(args[1], "-NonInteractive");
        assert_eq!(args[2], "-Command");
        assert_eq!(
            args[3],
            "$ProgressPreference='SilentlyContinue'; Invoke-WebRequest -Uri 'http://cdn.browseros.com/releases/0.39.0.3/win/BrowserOS_v0.39.0.3_x64_installer.exe' -OutFile '/home/u/.browseros/downloads/BrowserOS_v0.39.0.3_x64_installer.exe'"
        );
    }
    let (m, a) = step(m, Outcome::Pass);
    {
        let lines = expect_say(&a);
        assert_eq!(lines[0], "BrowserOS package downloaded");
        assert_eq!(lines[2], "");
        assert_eq!(lines[3], "Run the downloaded installer, then set:");
        assert_eq!(
            lines[4],
            "  set AGENT_BROWSER_EXECUTABLE_PATH=C:\\Program Files\\BrowserOS\\BrowserOS.exe"
        );
        assert_eq!(lines.len(), 5);
    }
    let (_m, a) = step(m, Outcome::Pass);
    assert!(matches!(&a, Action::Finished { installed: None }));
}

#[test]
fn mount_failure_removes_staging_and_fails() {
    let (m, _a) = start("macos", "x86_64", false);
    let (m, _a) = step(m, Outcome::Pass);
    let (m, _a) = step(m, Outcome::Pass);
    let (m, _a) = step(m, Outcome::Pass);
    let (m, _a) = step(m, Outcome::Pass); // downloaded; home next
    let (m, _a) = step(m, Outcome::Pass); // stale probe
    let (m, a) = step(m, Outcome::Fail(String::new())); // none stale
    assert!(matches!(&a, Action::EnsureDir(p) if p == "/home/u/.browseros/mount"));
    let (m, a) = step(m, Outcome::Pass);
    assert!(matches!(&a, Action::Run { program, .. } if program == "hdiutil"));
    // The mount command exits non-zero.
    let (m, a) = step(m, Outcome::Fail("exit status: 1".to_string()));
    assert!(matches!(&a, Action::RemovePath(p) if p == "/home/u/.browseros/mount"));
    let (_m, a) = step(m, Outcome::Pass);
    assert!(matches!(&a, Action::Fail(msg) if msg == "Failed to mount BrowserOS DMG"));
}

#[test]
fn missing_bundle_in_image_cleans_up_and_fails() {
    let (m, _a) = start("macos", "aarch64", false);
    let (m, _a) = step(m, Outcome::Pass);
    let (m, _a) = step(m, Outcome::Pass);
    let (m, _a) = step(m, Outcome::Pass);
    let (m, _a) = step(m, Outcome::Pass); // downloaded; home next
    let (m, _a) = step(m, Outcome::Pass); // stale probe
    let (m, _a) = step(m, Outcome::Fail(String::new()));
    let (m, _a) = step(m, Outcome::Pass); // mounted
    let (m, a) = step(m, Outcome::Pass); // bundle probe
    assert!(matches!(&a, Action::ProbePath(p) if p == "/home/u/.browseros/mount/BrowserOS.app"));
    let (m, a) = step(m, Outcome::Fail(String::new()));
    assert!(matches!(&a, Action::Run { program, .. } if program == "hdiutil"));
    let (m, a) = step(m, Outcome::Pass);
    assert!(matches!(&a, Action::RemovePath(p) if p == "/home/u/.browseros/mount"));
    let (_m, a) = step(m, Outcome::Pass);
    assert!(
        matches!(&a, Action::Fail(msg)
            if msg == "BrowserOS.app not found in mounted DMG: /home/u/.browseros/mount")
    );
}

#[test]
fn directory_creation_failure_is_fatal_with_detail() {
    let (m, a) = start("macos", "aarch64", false);
    assert!(matches!(&a, Action::EnsureDir(_)));
    let (_m, a) = step(m, Outcome::Crash("Permission denied (os error 13)".to_string()));
    assert!(
        matches!(&a, Action::Fail(msg)
            if msg == "Failed to create download directory /home/u/.browseros/downloads: Permission denied (os error 13)")
    );
}
