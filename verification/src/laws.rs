//! Laws of the install machine, proved over its phase structure.
//!
//! The payload-free mirror of the phases lets the laws quantify over
//! whole runs: `run_kinds` lists, in order, the phases a machine enters
//! under a sequence of driver reports. Each phase pins its action
//! (`action_ok` in the machine module), so a law about the phases entered
//! is a law about the actions performed: entering `DmgDetachStale` is the
//! force-unmount, entering a cleanup-remove phase is the removal of the
//! staging directory, and so on.

use vstd::prelude::*;
use crate::machine::{download_failed_msg, init_phase_ok, next_ok, Install, Outcome, Phase};
use crate::deps::PackageManager;
use crate::platform::Os;

verus! {

/// The phases without their payloads; the cleanup phases keep whether
/// they carry a success or a failure, since that decides where they go.
#[derive(Clone, Copy, PartialEq, Eq, Structural, Debug)]
pub enum PhaseKind {
    DepsAnnounce,
    ProbeApt,
    ProbeAudioVariant,
    ProbeDnf,
    ProbeYum,
    DepsSayRun,
    DepsRun,
    DepsInstalled,
    DepsWarnFailed,
    DepsWarnCrashed,
    LinuxHint,
    MakeDownloadsDir,
    SayDownloading,
    ProbeCurl,
    ProbeWget,
    RunCurl,
    RunWget,
    RunPowershell,
    DmgEnsureHome,
    DmgProbeStale,
    DmgDetachStale,
    DmgRemoveStale,
    DmgCreateMount,
    DmgAttach,
    DmgRemoveAfterAttachFail,
    DmgCheckApp,
    DmgCheckTarget,
    DmgRemoveTarget,
    DmgCopy,
    DmgCheckExe,
    DmgCleanupDetachOk,
    DmgCleanupDetachErr,
    DmgCleanupRemoveOk,
    DmgCleanupRemoveErr,
    BinEnsure,
    BinCopy,
    BinChmod,
    Report,
    Done,
    Failed,
}

/// The three shapes of a driver report.
#[derive(Clone, Copy, PartialEq, Eq, Structural, Debug)]
pub enum EvKind {
    Pass,
    Fail,
    Crash,
}

pub open spec fn kind_of(p: Phase) -> PhaseKind {
    match p {
        Phase::DepsAnnounce => PhaseKind::DepsAnnounce,
        Phase::ProbeApt => PhaseKind::ProbeApt,
        Phase::ProbeAudioVariant => PhaseKind::ProbeAudioVariant,
        Phase::ProbeDnf => PhaseKind::ProbeDnf,
        Phase::ProbeYum => PhaseKind::ProbeYum,
        Phase::DepsSayRun { .. } => PhaseKind::DepsSayRun,
        Phase::DepsRun { .. } => PhaseKind::DepsRun,
        Phase::DepsInstalled => PhaseKind::DepsInstalled,
        Phase::DepsWarnFailed => PhaseKind::DepsWarnFailed,
        Phase::DepsWarnCrashed { .. } => PhaseKind::DepsWarnCrashed,
        Phase::LinuxHint => PhaseKind::LinuxHint,
        Phase::MakeDownloadsDir => PhaseKind::MakeDownloadsDir,
        Phase::SayDownloading => PhaseKind::SayDownloading,
        Phase::ProbeCurl => PhaseKind::ProbeCurl,
        Phase::ProbeWget => PhaseKind::ProbeWget,
        Phase::RunCurl => PhaseKind::RunCurl,
        Phase::RunWget => PhaseKind::RunWget,
        Phase::RunPowershell => PhaseKind::RunPowershell,
        Phase::DmgEnsureHome => PhaseKind::DmgEnsureHome,
        Phase::DmgProbeStale => PhaseKind::DmgProbeStale,
        Phase::DmgDetachStale => PhaseKind::DmgDetachStale,
        Phase::DmgRemoveStale => PhaseKind::DmgRemoveStale,
        Phase::DmgCreateMount => PhaseKind::DmgCreateMount,
        Phase::DmgAttach => PhaseKind::DmgAttach,
        Phase::DmgRemoveAfterAttachFail => PhaseKind::DmgRemoveAfterAttachFail,
        Phase::DmgCheckApp => PhaseKind::DmgCheckApp,
        Phase::DmgCheckTarget => PhaseKind::DmgCheckTarget,
        Phase::DmgRemoveTarget => PhaseKind::DmgRemoveTarget,
        Phase::DmgCopy => PhaseKind::DmgCopy,
        Phase::DmgCheckExe => PhaseKind::DmgCheckExe,
        Phase::DmgCleanupDetach { found } => if found is Ok {
            PhaseKind::DmgCleanupDetachOk
        } else {
            PhaseKind::DmgCleanupDetachErr
        },
        Phase::DmgCleanupRemove { found } => if found is Ok {
            PhaseKind::DmgCleanupRemoveOk
        } else {
            PhaseKind::DmgCleanupRemoveErr
        },
        Phase::BinEnsure => PhaseKind::BinEnsure,
        Phase::BinCopy => PhaseKind::BinCopy,
        Phase::BinChmod => PhaseKind::BinChmod,
        Phase::Report { .. } => PhaseKind::Report,
        Phase::Done { .. } => PhaseKind::Done,
        Phase::Failed { .. } => PhaseKind::Failed,
    }
}

pub open spec fn ev_kind(ev: Outcome) -> EvKind {
    match ev {
        Outcome::Pass => EvKind::Pass,
        Outcome::Fail(_) => EvKind::Fail,
        Outcome::Crash(_) => EvKind::Crash,
    }
}

pub open spec fn is_terminal_kind(k: PhaseKind) -> bool {
    k == PhaseKind::Done || k == PhaseKind::Failed
}

/// Where a run continues once the artifact is on disk, at the phase-kind
/// level.
pub open spec fn after_download_kind(os: Os) -> PhaseKind {
    match os {
        Os::MacOs => PhaseKind::DmgEnsureHome,
        Os::Linux => PhaseKind::BinEnsure,
        Os::Windows => PhaseKind::Report,
        Os::Other => PhaseKind::Report,
    }
}

/// The decision table at the phase-kind level: a function, since the
/// kinds carry everything a transition branches on.
pub open spec fn next_kind(os: Os, k: PhaseKind, e: EvKind) -> PhaseKind {
    match k {
        PhaseKind::DepsAnnounce => PhaseKind::ProbeApt,
        PhaseKind::ProbeApt => if e == EvKind::Pass {
            PhaseKind::ProbeAudioVariant
        } else {
            PhaseKind::ProbeDnf
        },
        PhaseKind::ProbeAudioVariant => PhaseKind::DepsSayRun,
        PhaseKind::ProbeDnf => if e == EvKind::Pass {
            PhaseKind::DepsSayRun
        } else {
            PhaseKind::ProbeYum
        },
        PhaseKind::ProbeYum => if e == EvKind::Pass {
            PhaseKind::DepsSayRun
        } else {
            PhaseKind::Failed
        },
        PhaseKind::DepsSayRun => PhaseKind::DepsRun,
        PhaseKind::DepsRun => match e {
            EvKind::Pass => PhaseKind::DepsInstalled,
            EvKind::Fail => PhaseKind::DepsWarnFailed,
            EvKind::Crash => PhaseKind::DepsWarnCrashed,
        },
        PhaseKind::DepsInstalled => PhaseKind::MakeDownloadsDir,
        PhaseKind::DepsWarnFailed => PhaseKind::MakeDownloadsDir,
        PhaseKind::DepsWarnCrashed => PhaseKind::MakeDownloadsDir,
        PhaseKind::LinuxHint => PhaseKind::MakeDownloadsDir,
        PhaseKind::MakeDownloadsDir => if e == EvKind::Pass {
            PhaseKind::SayDownloading
        } else {
            PhaseKind::Failed
        },
        PhaseKind::SayDownloading => if os is Windows {
            PhaseKind::RunPowershell
        } else {
            PhaseKind::ProbeCurl
        },
        PhaseKind::ProbeCurl => if e == EvKind::Pass {
            PhaseKind::RunCurl
        } else {
            PhaseKind::ProbeWget
        },
        PhaseKind::ProbeWget => if e == EvKind::Pass {
            PhaseKind::RunWget
        } else {
            PhaseKind::Failed
        },
        PhaseKind::RunCurl => if e == EvKind::Pass {
            after_download_kind(os)
        } else {
            PhaseKind::Failed
        },
        PhaseKind::RunWget => if e == EvKind::Pass {
            after_download_kind(os)
        } else {
            PhaseKind::Failed
        },
        PhaseKind::RunPowershell => if e == EvKind::Pass {
            after_download_kind(os)
        } else {
            PhaseKind::Failed
        },
        PhaseKind::DmgEnsureHome => if e == EvKind::Pass {
            PhaseKind::DmgProbeStale
        } else {
            PhaseKind::Failed
        },
        PhaseKind::DmgProbeStale => if e == EvKind::Pass {
            PhaseKind::DmgDetachStale
        } else {
            PhaseKind::DmgCreateMount
        },
        PhaseKind::DmgDetachStale => PhaseKind::DmgRemoveStale,
        PhaseKind::DmgRemoveStale => PhaseKind::DmgCreateMount,
        PhaseKind::DmgCreateMount => if e == EvKind::Pass {
            PhaseKind::DmgAttach
        } else {
            PhaseKind::Failed
        },
        PhaseKind::DmgAttach => match e {
            EvKind::Pass => PhaseKind::DmgCheckApp,
            EvKind::Fail => PhaseKind::DmgRemoveAfterAttachFail,
            EvKind::Crash => PhaseKind::Failed,
        },
        PhaseKind::DmgRemoveAfterAttachFail => PhaseKind::Failed,
        PhaseKind::DmgCheckApp => if e == EvKind::Pass {
            PhaseKind::DmgCheckTarget
        } else {
            PhaseKind::DmgCleanupDetachErr
        },
        PhaseKind::DmgCheckTarget => if e == EvKind::Pass {
            PhaseKind::DmgRemoveTarget
        } else {
            PhaseKind::DmgCopy
        },
        PhaseKind::DmgRemoveTarget => if e == EvKind::Pass {
            PhaseKind::DmgCopy
        } else {
            PhaseKind::DmgCleanupDetachErr
        },
        PhaseKind::DmgCopy => if e == EvKind::Pass {
            PhaseKind::DmgCheckExe
        } else {
            PhaseKind::DmgCleanupDetachErr
        },
        PhaseKind::DmgCheckExe => if e == EvKind::Pass {
            PhaseKind::DmgCleanupDetachOk
        } else {
            PhaseKind::DmgCleanupDetachErr
        },
        PhaseKind::DmgCleanupDetachOk => PhaseKind::DmgCleanupRemoveOk,
        PhaseKind::DmgCleanupDetachErr => PhaseKind::DmgCleanupRemoveErr,
        PhaseKind::DmgCleanupRemoveOk => PhaseKind::Report,
        PhaseKind::DmgCleanupRemoveErr => PhaseKind::Failed,
        PhaseKind::BinEnsure => if e == EvKind::Pass {
            PhaseKind::BinCopy
        } else {
            PhaseKind::Failed
        },
        PhaseKind::BinCopy => if e == EvKind::Pass {
            PhaseKind::BinChmod
        } else {
            PhaseKind::Failed
        },
        PhaseKind::BinChmod => if e == EvKind::Pass {
            PhaseKind::Report
        } else {
            PhaseKind::Failed
        },
        PhaseKind::Report => PhaseKind::Done,
        PhaseKind::Done => PhaseKind::Done,
        PhaseKind::Failed => PhaseKind::Failed,
    }
}

/// The kinds of the phases a machine enters, in order, under a sequence
/// of driver reports; a run stops at its first terminal phase.
pub open spec fn run_kinds(os: Os, k: PhaseKind, evs: Seq<EvKind>) -> Seq<PhaseKind>
    decreases evs.len(),
{
    if evs.len() == 0 {
        Seq::<PhaseKind>::empty()
    } else {
        let k2 = next_kind(os, k, evs[0]);
        seq![k2] + if is_terminal_kind(k2) {
            Seq::<PhaseKind>::empty()
        } else {
            run_kinds(os, k2, evs.drop_first())
        }
    }
}

/// Every concrete step refines the phase-kind table.
pub proof fn lemma_step_refines_kinds(pre: Install, ev: Outcome, post: Install)
    requires
        next_ok(pre, ev, post),
        !pre.is_terminal(),
    ensures
        kind_of(post.phase) == next_kind(pre.os, kind_of(pre.phase), ev_kind(ev)),
{
}

// ---------------------------------------------------------------------
// Priority of the package managers.
// ---------------------------------------------------------------------

/// Once past the manager probes, a run never returns to them.
pub open spec fn past_manager_probes(k: PhaseKind) -> bool {
    &&& k != PhaseKind::DepsAnnounce
    &&& k != PhaseKind::ProbeApt
    &&& k != PhaseKind::ProbeDnf
    &&& k != PhaseKind::ProbeYum
}

proof fn lemma_manager_probes_not_reentered(os: Os, k: PhaseKind, evs: Seq<EvKind>)
    requires
        past_manager_probes(k),
    ensures
        forall|j: int|
            0 <= j < run_kinds(os, k, evs).len() ==> past_manager_probes(run_kinds(os, k, evs)[j]),
    decreases evs.len(),
{
    if evs.len() > 0 {
        let k2 = next_kind(os, k, evs[0]);
        let tr = run_kinds(os, k, evs);
        assert(past_manager_probes(k2));
        if is_terminal_kind(k2) {
            assert(tr =~= seq![k2]);
        } else {
            let rest = run_kinds(os, k2, evs.drop_first());
            lemma_manager_probes_not_reentered(os, k2, evs.drop_first());
            assert(tr == seq![k2] + rest);
            assert forall|j: int| 0 <= j < tr.len() implies past_manager_probes(tr[j]) by {
                if j == 0 {
                    assert(tr[0] == k2);
                } else {
                    assert(tr[j] == rest[j - 1]);
                }
            }
        }
    }
}

/// Law: the apt-family manager wins whenever its probe succeeds. After a
/// successful apt probe the run goes straight to the audio-variant probe,
/// and never probes for dnf or yum.
pub proof fn lemma_apt_priority(os: Os, evs: Seq<EvKind>)
    requires
        evs.len() >= 1,
        evs[0] == EvKind::Pass,
    ensures
        run_kinds(os, PhaseKind::ProbeApt, evs)[0] == PhaseKind::ProbeAudioVariant,
        forall|j: int|
            0 <= j < run_kinds(os, PhaseKind::ProbeApt, evs).len() ==> {
                &&& run_kinds(os, PhaseKind::ProbeApt, evs)[j] != PhaseKind::ProbeDnf
                &&& run_kinds(os, PhaseKind::ProbeApt, evs)[j] != PhaseKind::ProbeYum
            },
{
    let tr = run_kinds(os, PhaseKind::ProbeApt, evs);
    let k2 = next_kind(os, PhaseKind::ProbeApt, evs[0]);
    assert(k2 == PhaseKind::ProbeAudioVariant);
    lemma_manager_probes_not_reentered(os, k2, evs.drop_first());
    assert forall|j: int| 0 <= j < tr.len() implies past_manager_probes(tr[j]) by {
        if j > 0 {
            assert(tr[j] == run_kinds(os, k2, evs.drop_first())[j - 1]);
        }
    }
}

/// Law: whichever report answers the audio-variant probe, the selected
/// manager is the apt family.
pub proof fn lemma_audio_probe_keeps_apt(pre: Install, ev: Outcome, post: Install)
    requires
        pre.phase is ProbeAudioVariant,
        next_ok(pre, ev, post),
    ensures
        post.phase matches Phase::DepsSayRun { manager, audio_t64 } && manager
            == PackageManager::AptGet && audio_t64 == (ev is Pass),
{
}

// ---------------------------------------------------------------------
// The staging directory of the disk-image install.
// ---------------------------------------------------------------------

/// Law: when the staging directory of a previous run still exists (the
/// probe passes), the machine force-unmounts it and removes it before it
/// attempts any new mount.
pub proof fn lemma_stale_staging_cleared_before_mount(os: Os, evs: Seq<EvKind>)
    requires
        evs.len() >= 1,
        evs[0] == EvKind::Pass,
    ensures
        run_kinds(os, PhaseKind::DmgProbeStale, evs)[0] == PhaseKind::DmgDetachStale,
        evs.len() >= 2 ==> run_kinds(os, PhaseKind::DmgProbeStale, evs)[1]
            == PhaseKind::DmgRemoveStale,
        evs.len() >= 3 ==> run_kinds(os, PhaseKind::DmgProbeStale, evs)[2]
            == PhaseKind::DmgCreateMount,
        forall|j: int|
            0 <= j < run_kinds(os, PhaseKind::DmgProbeStale, evs).len() && run_kinds(
                os,
                PhaseKind::DmgProbeStale,
                evs,
            )[j] == PhaseKind::DmgAttach ==> j >= 3,
{
    let tr = run_kinds(os, PhaseKind::DmgProbeStale, evs);
    let evs1 = evs.drop_first();
    let tr1 = run_kinds(os, PhaseKind::DmgDetachStale, evs1);
    assert(tr == seq![PhaseKind::DmgDetachStale] + tr1);
    if evs1.len() > 0 {
        let evs2 = evs1.drop_first();
        let tr2 = run_kinds(os, PhaseKind::DmgRemoveStale, evs2);
        assert(tr1 == seq![PhaseKind::DmgRemoveStale] + tr2);
        if evs2.len() > 0 {
            let evs3 = evs2.drop_first();
            let tr3 = run_kinds(os, PhaseKind::DmgCreateMount, evs3);
            assert(tr2 == seq![PhaseKind::DmgCreateMount] + tr3);
        }
    }
}

/// The phases during which the image is mounted and cleanup is still
/// owed.
pub open spec fn mounted_kind(k: PhaseKind) -> bool {
    ||| k == PhaseKind::DmgCheckApp
    ||| k == PhaseKind::DmgCheckTarget
    ||| k == PhaseKind::DmgRemoveTarget
    ||| k == PhaseKind::DmgCopy
    ||| k == PhaseKind::DmgCheckExe
    ||| k == PhaseKind::DmgCleanupDetachOk
    ||| k == PhaseKind::DmgCleanupDetachErr
}

/// Entering a cleanup-remove phase is the removal of the staging
/// directory (its action is `RemovePath` of the staging path).
pub open spec fn cleanup_remove_kind(k: PhaseKind) -> bool {
    k == PhaseKind::DmgCleanupRemoveOk || k == PhaseKind::DmgCleanupRemoveErr
}

/// Law: once the image is mounted, the machine cannot reach a terminal
/// phase — success or failure, whether the bundle copy passed or failed —
/// without first passing a phase that removes the staging directory. The
/// staging directory never leaks across invocations.
pub proof fn lemma_staging_removed_before_finish(os: Os, k: PhaseKind, evs: Seq<EvKind>)
    requires
        mounted_kind(k),
    ensures
        forall|j: int|
            0 <= j < run_kinds(os, k, evs).len() && is_terminal_kind(run_kinds(os, k, evs)[j])
                ==> exists|i: int|
                0 <= i < j && cleanup_remove_kind(run_kinds(os, k, evs)[i]),
    decreases evs.len(),
{
    let tr = run_kinds(os, k, evs);
    if evs.len() > 0 {
        let k2 = next_kind(os, k, evs[0]);
        let rest = run_kinds(os, k2, evs.drop_first());
        if cleanup_remove_kind(k2) {
            assert(tr == seq![k2] + rest);
            assert forall|j: int| 0 <= j < tr.len() && is_terminal_kind(tr[j]) implies exists|
                i: int,
            |
                0 <= i < j && cleanup_remove_kind(tr[i]) by {
                assert(j != 0);
                assert(cleanup_remove_kind(tr[0]));
            }
        } else {
            assert(mounted_kind(k2));
            assert(tr == seq![k2] + rest);
            lemma_staging_removed_before_finish(os, k2, evs.drop_first());
            assert forall|j: int| 0 <= j < tr.len() && is_terminal_kind(tr[j]) implies exists|
                i: int,
            |
                0 <= i < j && cleanup_remove_kind(tr[i]) by {
                assert(j != 0);
                assert(tr[j] == rest[j - 1]);
                let i0 = choose|i0: int| 0 <= i0 < j - 1 && cleanup_remove_kind(rest[i0]);
                assert(cleanup_remove_kind(tr[i0 + 1]));
            }
        }
    }
}

// ---------------------------------------------------------------------
// The download failure line.
// ---------------------------------------------------------------------

/// `needle` occurs in `hay` as a contiguous run.
pub open spec fn contains_seq(hay: Seq<char>, needle: Seq<char>) -> bool {
    exists|i: int|
        0 <= i <= hay.len() - needle.len() && #[trigger] hay.subrange(i, i + needle.len())
            == needle
}

/// Law: the download failure line carries the failing URL and the exit
/// status verbatim.
pub proof fn lemma_download_failure_names_url_and_status(url: Seq<char>, status: Seq<char>)
    ensures
        contains_seq(download_failed_msg(url, status), url),
        contains_seq(download_failed_msg(url, status), status),
{
    reveal_strlit("Download failed for ");
    reveal_strlit(" (exit status: ");
    reveal_strlit(")");
    let m = download_failed_msg(url, status);
    let a = "Download failed for "@.len() as int;
    let b = " (exit status: "@.len() as int;
    assert(m.subrange(a, a + url.len()) =~= url);
    assert(m.subrange(a, a + url.len()) == url);
    let c = a + url.len() + b;
    assert(m.subrange(c, c + status.len()) =~= status);
    assert(m.subrange(c, c + status.len()) == status);
}

/// Law: on an operating system outside the supported table a fresh
/// machine stands on its terminal failure at once — before any directory
/// is created or fetch tool probed — and the message names the operating
/// system and the architecture.
pub proof fn lemma_unsupported_platform_fails_at_once(m: Install)
    requires
        init_phase_ok(m),
        m.os is Other,
    ensures
        m.phase is Failed,
        m.phase matches Phase::Failed { message } && contains_seq(message@, m.os_name@)
            && contains_seq(message@, m.arch_name@),
{
    reveal_strlit("Unsupported platform for BrowserOS install: ");
    reveal_strlit(" / ");
    match m.phase {
        Phase::Failed { message } => {
            let a = "Unsupported platform for BrowserOS install: "@.len() as int;
            let b = " / "@.len() as int;
            assert(message@.subrange(a, a + m.os_name@.len()) =~= m.os_name@);
            let c = a + m.os_name@.len() + b;
            assert(message@.subrange(c, c + m.arch_name@.len()) =~= m.arch_name@);
        },
        _ => {},
    }
}

} // verus!
