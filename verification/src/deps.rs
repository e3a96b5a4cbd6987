//! The dependency resolver: which system package manager installs the
//! shared libraries the browser needs on a Linux host, and with which
//! package list and install command.
//!
//! Managers are probed in a fixed priority order — the apt family first,
//! then dnf, then yum — and the first one found wins. The apt family gets
//! one extra probe: the audio library is packaged under a new name on
//! newer releases, and the probe decides which name goes into the list.

use vstd::prelude::*;
use crate::text::{concat2, joined_spaced_spec};
use vstd::string::StringExecFns;

verus! {

/// The system package managers the resolver recognises, in priority
/// order.
#[derive(Clone, Copy, PartialEq, Eq, Structural, Debug)]
pub enum PackageManager {
    AptGet,
    Dnf,
    Yum,
}

/// No recognised package manager was found on the host.
#[derive(Clone, Copy, PartialEq, Eq, Structural, Debug)]
pub struct UnsupportedManager;

/// The apt-family package list. The audio library appears under its new
/// name exactly when the variant probe succeeded, and under its legacy
/// name otherwise.
pub open spec fn apt_packages_spec(audio_t64: bool) -> Seq<Seq<char>> {
    seq![
        "libxcb-shm0"@,
        "libx11-xcb1"@,
        "libx11-6"@,
        "libxcb1"@,
        "libxext6"@,
        "libxrandr2"@,
        "libxcomposite1"@,
        "libxcursor1"@,
        "libxdamage1"@,
        "libxfixes3"@,
        "libxi6"@,
        "libgtk-3-0"@,
        "libpangocairo-1.0-0"@,
        "libpango-1.0-0"@,
        "libatk1.0-0"@,
        "libcairo-gobject2"@,
        "libcairo2"@,
        "libgdk-pixbuf-2.0-0"@,
        "libxrender1"@,
        if audio_t64 {
            "libasound2t64"@
        } else {
            "libasound2"@
        },
        "libfreetype6"@,
        "libfontconfig1"@,
        "libdbus-1-3"@,
        "libnss3"@,
        "libnspr4"@,
        "libatk-bridge2.0-0"@,
        "libdrm2"@,
        "libxkbcommon0"@,
        "libatspi2.0-0"@,
        "libcups2"@,
        "libxshmfence1"@,
        "libgbm1"@,
    ]
}

/// The dnf package list.
pub open spec fn dnf_packages_spec() -> Seq<Seq<char>> {
    seq![
        "nss"@,
        "nspr"@,
        "atk"@,
        "at-spi2-atk"@,
        "cups-libs"@,
        "libdrm"@,
        "libXcomposite"@,
        "libXdamage"@,
        "libXrandr"@,
        "mesa-libgbm"@,
        "pango"@,
        "alsa-lib"@,
        "libxkbcommon"@,
        "libxcb"@,
        "libX11-xcb"@,
        "libX11"@,
        "libXext"@,
        "libXcursor"@,
        "libXfixes"@,
        "libXi"@,
        "gtk3"@,
        "cairo-gobject"@,
    ]
}

/// The yum package list.
pub open spec fn yum_packages_spec() -> Seq<Seq<char>> {
    seq![
        "nss"@,
        "nspr"@,
        "atk"@,
        "at-spi2-atk"@,
        "cups-libs"@,
        "libdrm"@,
        "libXcomposite"@,
        "libXdamage"@,
        "libXrandr"@,
        "mesa-libgbm"@,
        "pango"@,
        "alsa-lib"@,
        "libxkbcommon"@,
    ]
}

/// The package list a manager installs. Only the apt family carries the
/// audio-name variant.
pub open spec fn manager_packages_spec(mgr: PackageManager, audio_t64: bool) -> Seq<Seq<char>> {
    match mgr {
        PackageManager::AptGet => apt_packages_spec(audio_t64),
        PackageManager::Dnf => dnf_packages_spec(),
        PackageManager::Yum => yum_packages_spec(),
    }
}

/// The shell command that installs a package list: the apt family
/// refreshes its package index first, the others install directly.
pub open spec fn install_command_spec(mgr: PackageManager, audio_t64: bool) -> Seq<char> {
    let parts = joined_spaced_spec(manager_packages_spec(mgr, audio_t64));
    match mgr {
        PackageManager::AptGet => "sudo apt-get update && sudo apt-get install -y "@ + parts,
        PackageManager::Dnf => "sudo dnf install -y "@ + parts,
        PackageManager::Yum => "sudo yum install -y "@ + parts,
    }
}

/// The apt-family package list.
pub fn apt_packages(audio_t64: bool) -> (r: Vec<&'static str>)
    ensures
        r.deep_view() == apt_packages_spec(audio_t64),
{
    let audio: &'static str = if audio_t64 {
        "libasound2t64"
    } else {
        "libasound2"
    };
    let r: Vec<&'static str> = vec![
        "libxcb-shm0",
        "libx11-xcb1",
        "libx11-6",
        "libxcb1",
        "libxext6",
        "libxrandr2",
        "libxcomposite1",
        "libxcursor1",
        "libxdamage1",
        "libxfixes3",
        "libxi6",
        "libgtk-3-0",
        "libpangocairo-1.0-0",
        "libpango-1.0-0",
        "libatk1.0-0",
        "libcairo-gobject2",
        "libcairo2",
        "libgdk-pixbuf-2.0-0",
        "libxrender1",
        audio,
        "libfreetype6",
        "libfontconfig1",
        "libdbus-1-3",
        "libnss3",
        "libnspr4",
        "libatk-bridge2.0-0",
        "libdrm2",
        "libxkbcommon0",
        "libatspi2.0-0",
        "libcups2",
        "libxshmfence1",
        "libgbm1",
    ];
    proof {
        assert(r.deep_view() =~= apt_packages_spec(audio_t64));
    }
    r
}

/// The dnf package list.
pub fn dnf_packages() -> (r: Vec<&'static str>)
    ensures
        r.deep_view() == dnf_packages_spec(),
{
    let r: Vec<&'static str> = vec![
        "nss",
        "nspr",
        "atk",
        "at-spi2-atk",
        "cups-libs",
        "libdrm",
        "libXcomposite",
        "libXdamage",
        "libXrandr",
        "mesa-libgbm",
        "pango",
        "alsa-lib",
        "libxkbcommon",
        "libxcb",
        "libX11-xcb",
        "libX11",
        "libXext",
        "libXcursor",
        "libXfixes",
        "libXi",
        "gtk3",
        "cairo-gobject",
    ];
    proof {
        assert(r.deep_view() =~= dnf_packages_spec());
    }
    r
}

/// The yum package list.
pub fn yum_packages() -> (r: Vec<&'static str>)
    ensures
        r.deep_view() == yum_packages_spec(),
{
    let r: Vec<&'static str> = vec![
        "nss",
        "nspr",
        "atk",
        "at-spi2-atk",
        "cups-libs",
        "libdrm",
        "libXcomposite",
        "libXdamage",
        "libXrandr",
        "mesa-libgbm",
        "pango",
        "alsa-lib",
        "libxkbcommon",
    ];
    proof {
        assert(r.deep_view() =~= yum_packages_spec());
    }
    r
}

/// The package list a manager installs.
pub fn manager_packages(mgr: PackageManager, audio_t64: bool) -> (r: Vec<&'static str>)
    ensures
        r.deep_view() == manager_packages_spec(mgr, audio_t64),
{
    match mgr {
        PackageManager::AptGet => apt_packages(audio_t64),
        PackageManager::Dnf => dnf_packages(),
        PackageManager::Yum => yum_packages(),
    }
}

/// Joins package names with single spaces.
fn join_spaced(parts: &Vec<&'static str>) -> (r: String)
    ensures
        r@ == joined_spaced_spec(parts.deep_view()),
{
    let ghost dv = parts.deep_view();
    let mut s = String::new();
    let mut i: usize = 0;
    proof {
        assert(dv.take(0) =~= Seq::<Seq<char>>::empty());
    }
    while i < parts.len()
        invariant
            i <= parts.len(),
            dv == parts.deep_view(),
            dv.len() == parts@.len(),
            forall|j: int| 0 <= j < dv.len() ==> dv[j] == parts@[j]@,
            s@ == joined_spaced_spec(dv.take(i as int)),
        decreases parts.len() - i,
    {
        if i > 0 {
            s.append(" ");
        }
        s.append(parts[i]);
        proof {
            assert(dv.take(i + 1).drop_last() =~= dv.take(i as int));
            assert(dv.take(i + 1).last() == dv[i as int]);
        }
        i = i + 1;
    }
    proof {
        assert(dv.take(dv.len() as int) =~= dv);
    }
    s
}

/// The shell command that installs the packages of a manager.
pub fn install_command(mgr: PackageManager, audio_t64: bool) -> (r: String)
    ensures
        r@ == install_command_spec(mgr, audio_t64),
{
    let packages = manager_packages(mgr, audio_t64);
    let tail = join_spaced(&packages);
    match mgr {
        PackageManager::AptGet => concat2(
            "sudo apt-get update && sudo apt-get install -y ",
            tail.as_str(),
        ),
        PackageManager::Dnf => concat2("sudo dnf install -y ", tail.as_str()),
        PackageManager::Yum => concat2("sudo yum install -y ", tail.as_str()),
    }
}

/// One install plan: the manager that won the probe, its package list,
/// and the shell command that installs it.
pub struct DependencyPlan {
    pub manager: PackageManager,
    pub packages: Vec<&'static str>,
    pub install_command: String,
}

/// Selects the package manager from the three probe answers, in priority
/// order: the apt family wins whenever its probe succeeded, regardless of
/// the others; dnf wins otherwise when found; yum last. With none found
/// the resolution fails.
pub fn resolve_dependencies(apt: bool, dnf: bool, yum: bool, audio_t64: bool) -> (r: Result<
    DependencyPlan,
    UnsupportedManager,
>)
    ensures
        r is Ok <==> (apt || dnf || yum),
        r matches Ok(plan) ==> {
            &&& plan.manager == (if apt {
                PackageManager::AptGet
            } else if dnf {
                PackageManager::Dnf
            } else {
                PackageManager::Yum
            })
            &&& plan.packages.deep_view() == manager_packages_spec(plan.manager, audio_t64)
            &&& plan.install_command@ == install_command_spec(plan.manager, audio_t64)
        },
{
    let manager = if apt {
        PackageManager::AptGet
    } else if dnf {
        PackageManager::Dnf
    } else if yum {
        PackageManager::Yum
    } else {
        return Err(UnsupportedManager);
    };
    let packages = manager_packages(manager, audio_t64);
    let install_command = install_command(manager, audio_t64);
    Ok(DependencyPlan { manager, packages, install_command })
}

/// Law: the apt-family list carries the audio library under exactly one
/// of its two names — the new name when the variant probe succeeded and
/// the legacy name otherwise, never both.
pub proof fn lemma_audio_package_variant()
    ensures
        apt_packages_spec(true).contains("libasound2t64"@),
        !apt_packages_spec(true).contains("libasound2"@),
        apt_packages_spec(false).contains("libasound2"@),
        !apt_packages_spec(false).contains("libasound2t64"@),
{
    reveal_strlit("libxcb-shm0");
    reveal_strlit("libx11-xcb1");
    reveal_strlit("libx11-6");
    reveal_strlit("libxcb1");
    reveal_strlit("libxext6");
    reveal_strlit("libxrandr2");
    reveal_strlit("libxcomposite1");
    reveal_strlit("libxcursor1");
    reveal_strlit("libxdamage1");
    reveal_strlit("libxfixes3");
    reveal_strlit("libxi6");
    reveal_strlit("libgtk-3-0");
    reveal_strlit("libpangocairo-1.0-0");
    reveal_strlit("libpango-1.0-0");
    reveal_strlit("libatk1.0-0");
    reveal_strlit("libcairo-gobject2");
    reveal_strlit("libcairo2");
    reveal_strlit("libgdk-pixbuf-2.0-0");
    reveal_strlit("libxrender1");
    reveal_strlit("libasound2t64");
    reveal_strlit("libasound2");
    reveal_strlit("libfreetype6");
    reveal_strlit("libfontconfig1");
    reveal_strlit("libdbus-1-3");
    reveal_strlit("libnss3");
    reveal_strlit("libnspr4");
    reveal_strlit("libatk-bridge2.0-0");
    reveal_strlit("libdrm2");
    reveal_strlit("libxkbcommon0");
    reveal_strlit("libatspi2.0-0");
    reveal_strlit("libcups2");
    reveal_strlit("libxshmfence1");
    reveal_strlit("libgbm1");
    assert(apt_packages_spec(true)[19] == "libasound2t64"@);
    assert(apt_packages_spec(false)[19] == "libasound2"@);
    assert forall|i: int| 0 <= i < apt_packages_spec(true).len() implies apt_packages_spec(true)[i]
        != "libasound2"@ by {
        if i == 0 {
            assert(apt_packages_spec(true)[0] == "libxcb-shm0"@);
            assert(apt_packages_spec(true)[0] != "libasound2"@);
        } else if i == 1 {
            assert(apt_packages_spec(true)[1] == "libx11-xcb1"@);
            assert(apt_packages_spec(true)[1] != "libasound2"@);
        } else if i == 2 {
            assert(apt_packages_spec(true)[2] == "libx11-6"@);
            assert(apt_packages_spec(true)[2] != "libasound2"@);
        } else if i == 3 {
            assert(apt_packages_spec(true)[3] == "libxcb1"@);
            assert(apt_packages_spec(true)[3] != "libasound2"@);
        } else if i == 4 {
            assert(apt_packages_spec(true)[4] == "libxext6"@);
            assert(apt_packages_spec(true)[4] != "libasound2"@);
        } else if i == 5 {
            assert(apt_packages_spec(true)[5] == "libxrandr2"@);
            assert(("libxrandr2"@)[3] != ("libasound2"@)[3]);
            assert(apt_packages_spec(true)[5] != "libasound2"@);
        } else if i == 6 {
            assert(apt_packages_spec(true)[6] == "libxcomposite1"@);
            assert(apt_packages_spec(true)[6] != "libasound2"@);
        } else if i == 7 {
            assert(apt_packages_spec(true)[7] == "libxcursor1"@);
            assert(apt_packages_spec(true)[7] != "libasound2"@);
        } else if i == 8 {
            assert(apt_packages_spec(true)[8] == "libxdamage1"@);
            assert(apt_packages_spec(true)[8] != "libasound2"@);
        } else if i == 9 {
            assert(apt_packages_spec(true)[9] == "libxfixes3"@);
            assert(("libxfixes3"@)[3] != ("libasound2"@)[3]);
            assert(apt_packages_spec(true)[9] != "libasound2"@);
        } else if i == 10 {
            assert(apt_packages_spec(true)[10] == "libxi6"@);
            assert(apt_packages_spec(true)[10] != "libasound2"@);
        } else if i == 11 {
            assert(apt_packages_spec(true)[11] == "libgtk-3-0"@);
            assert(("libgtk-3-0"@)[3] != ("libasound2"@)[3]);
            assert(apt_packages_spec(true)[11] != "libasound2"@);
        } else if i == 12 {
            assert(apt_packages_spec(true)[12] == "libpangocairo-1.0-0"@);
            assert(apt_packages_spec(true)[12] != "libasound2"@);
        } else if i == 13 {
            assert(apt_packages_spec(true)[13] == "libpango-1.0-0"@);
            assert(apt_packages_spec(true)[13] != "libasound2"@);
        } else if i == 14 {
            assert(apt_packages_spec(true)[14] == "libatk1.0-0"@);
            assert(apt_packages_spec(true)[14] != "libasound2"@);
        } else if i == 15 {
            assert(apt_packages_spec(true)[15] == "libcairo-gobject2"@);
            assert(apt_packages_spec(true)[15] != "libasound2"@);
        } else if i == 16 {
            assert(apt_packages_spec(true)[16] == "libcairo2"@);
            assert(apt_packages_spec(true)[16] != "libasound2"@);
        } else if i == 17 {
            assert(apt_packages_spec(true)[17] == "libgdk-pixbuf-2.0-0"@);
            assert(apt_packages_spec(true)[17] != "libasound2"@);
        } else if i == 18 {
            assert(apt_packages_spec(true)[18] == "libxrender1"@);
            assert(apt_packages_spec(true)[18] != "libasound2"@);
        } else if i == 19 {
            assert(apt_packages_spec(true)[19] == "libasound2t64"@);
            assert(apt_packages_spec(true)[19] != "libasound2"@);
        } else if i == 20 {
            assert(apt_packages_spec(true)[20] == "libfreetype6"@);
            assert(apt_packages_spec(true)[20] != "libasound2"@);
        } else if i == 21 {
            assert(apt_packages_spec(true)[21] == "libfontconfig1"@);
            assert(apt_packages_spec(true)[21] != "libasound2"@);
        } else if i == 22 {
            assert(apt_packages_spec(true)[22] == "libdbus-1-3"@);
            assert(apt_packages_spec(true)[22] != "libasound2"@);
        } else if i == 23 {
            assert(apt_packages_spec(true)[23] == "libnss3"@);
            assert(apt_packages_spec(true)[23] != "libasound2"@);
        } else if i == 24 {
            assert(apt_packages_spec(true)[24] == "libnspr4"@);
            assert(apt_packages_spec(true)[24] != "libasound2"@);
        } else if i == 25 {
            assert(apt_packages_spec(true)[25] == "libatk-bridge2.0-0"@);
            assert(apt_packages_spec(true)[25] != "libasound2"@);
        } else if i == 26 {
            assert(apt_packages_spec(true)[26] == "libdrm2"@);
            assert(apt_packages_spec(true)[26] != "libasound2"@);
        } else if i == 27 {
            assert(apt_packages_spec(true)[27] == "libxkbcommon0"@);
            assert(apt_packages_spec(true)[27] != "libasound2"@);
        } else if i == 28 {
            assert(apt_packages_spec(true)[28] == "libatspi2.0-0"@);
            assert(apt_packages_spec(true)[28] != "libasound2"@);
        } else if i == 29 {
            assert(apt_packages_spec(true)[29] == "libcups2"@);
            assert(apt_packages_spec(true)[29] != "libasound2"@);
        } else if i == 30 {
            assert(apt_packages_spec(true)[30] == "libxshmfence1"@);
            assert(apt_packages_spec(true)[30] != "libasound2"@);
        } else {
            assert(i == 31);
            assert(apt_packages_spec(true)[31] == "libgbm1"@);
            assert(apt_packages_spec(true)[31] != "libasound2"@);
        }
    }
    assert forall|i: int| 0 <= i < apt_packages_spec(false).len() implies apt_packages_spec(
        false,
    )[i] != "libasound2t64"@ by {
        if i == 0 {
            assert(apt_packages_spec(false)[0] == "libxcb-shm0"@);
            assert(apt_packages_spec(false)[0] != "libasound2t64"@);
        } else if i == 1 {
            assert(apt_packages_spec(false)[1] == "libx11-xcb1"@);
            assert(apt_packages_spec(false)[1] != "libasound2t64"@);
        } else if i == 2 {
            assert(apt_packages_spec(false)[2] == "libx11-6"@);
            assert(apt_packages_spec(false)[2] != "libasound2t64"@);
        } else if i == 3 {
            assert(apt_packages_spec(false)[3] == "libxcb1"@);
            assert(apt_packages_spec(false)[3] != "libasound2t64"@);
        } else if i == 4 {
            assert(apt_packages_spec(false)[4] == "libxext6"@);
            assert(apt_packages_spec(false)[4] != "libasound2t64"@);
        } else if i == 5 {
            assert(apt_packages_spec(false)[5] == "libxrandr2"@);
            assert(apt_packages_spec(false)[5] != "libasound2t64"@);
        } else if i == 6 {
            assert(apt_packages_spec(false)[6] == "libxcomposite1"@);
            assert(apt_packages_spec(false)[6] != "libasound2t64"@);
        } else if i == 7 {
            assert(apt_packages_spec(false)[7] == "libxcursor1"@);
            assert(apt_packages_spec(false)[7] != "libasound2t64"@);
        } else if i == 8 {
            assert(apt_packages_spec(false)[8] == "libxdamage1"@);
            assert(apt_packages_spec(false)[8] != "libasound2t64"@);
        } else if i == 9 {
            assert(apt_packages_spec(false)[9] == "libxfixes3"@);
            assert(apt_packages_spec(false)[9] != "libasound2t64"@);
        } else if i == 10 {
            assert(apt_packages_spec(false)[10] == "libxi6"@);
            assert(apt_packages_spec(false)[10] != "libasound2t64"@);
        } else if i == 11 {
            assert(apt_packages_spec(false)[11] == "libgtk-3-0"@);
            assert(apt_packages_spec(false)[11] != "libasound2t64"@);
        } else if i == 12 {
            assert(apt_packages_spec(false)[12] == "libpangocairo-1.0-0"@);
            assert(apt_packages_spec(false)[12] != "libasound2t64"@);
        } else if i == 13 {
            assert(apt_packages_spec(false)[13] == "libpango-1.0-0"@);
            assert(apt_packages_spec(false)[13] != "libasound2t64"@);
        } else if i == 14 {
            assert(apt_packages_spec(false)[14] == "libatk1.0-0"@);
            assert(apt_packages_spec(false)[14] != "libasound2t64"@);
        } else if i == 15 {
            assert(apt_packages_spec(false)[15] == "libcairo-gobject2"@);
            assert(apt_packages_spec(false)[15] != "libasound2t64"@);
        } else if i == 16 {
            assert(apt_packages_spec(false)[16] == "libcairo2"@);
            assert(apt_packages_spec(false)[16] != "libasound2t64"@);
        } else if i == 17 {
            assert(apt_packages_spec(false)[17] == "libgdk-pixbuf-2.0-0"@);
            assert(apt_packages_spec(false)[17] != "libasound2t64"@);
        } else if i == 18 {
            assert(apt_packages_spec(false)[18] == "libxrender1"@);
            assert(apt_packages_spec(false)[18] != "libasound2t64"@);
        } else if i == 19 {
            assert(apt_packages_spec(false)[19] == "libasound2"@);
            assert(apt_packages_spec(false)[19] != "libasound2t64"@);
        } else if i == 20 {
            assert(apt_packages_spec(false)[20] == "libfreetype6"@);
            assert(apt_packages_spec(false)[20] != "libasound2t64"@);
        } else if i == 21 {
            assert(apt_packages_spec(false)[21] == "libfontconfig1"@);
            assert(apt_packages_spec(false)[21] != "libasound2t64"@);
        } else if i == 22 {
            assert(apt_packages_spec(false)[22] == "libdbus-1-3"@);
            assert(apt_packages_spec(false)[22] != "libasound2t64"@);
        } else if i == 23 {
            assert(apt_packages_spec(false)[23] == "libnss3"@);
            assert(apt_packages_spec(false)[23] != "libasound2t64"@);
        } else if i == 24 {
            assert(apt_packages_spec(false)[24] == "libnspr4"@);
            assert(apt_packages_spec(false)[24] != "libasound2t64"@);
        } else if i == 25 {
            assert(apt_packages_spec(false)[25] == "libatk-bridge2.0-0"@);
            assert(apt_packages_spec(false)[25] != "libasound2t64"@);
        } else if i == 26 {
            assert(apt_packages_spec(false)[26] == "libdrm2"@);
            assert(apt_packages_spec(false)[26] != "libasound2t64"@);
        } else if i == 27 {
            assert(apt_packages_spec(false)[27] == "libxkbcommon0"@);
            assert(("libxkbcommon0"@)[3] != ("libasound2t64"@)[3]);
            assert(apt_packages_spec(false)[27] != "libasound2t64"@);
        } else if i == 28 {
            assert(apt_packages_spec(false)[28] == "libatspi2.0-0"@);
            assert(("libatspi2.0-0"@)[4] != ("libasound2t64"@)[4]);
            assert(apt_packages_spec(false)[28] != "libasound2t64"@);
        } else if i == 29 {
            assert(apt_packages_spec(false)[29] == "libcups2"@);
            assert(apt_packages_spec(false)[29] != "libasound2t64"@);
        } else if i == 30 {
            assert(apt_packages_spec(false)[30] == "libxshmfence1"@);
            assert(("libxshmfence1"@)[3] != ("libasound2t64"@)[3]);
            assert(apt_packages_spec(false)[30] != "libasound2t64"@);
        } else {
            assert(i == 31);
            assert(apt_packages_spec(false)[31] == "libgbm1"@);
            assert(apt_packages_spec(false)[31] != "libasound2t64"@);
        }
    }
}

} // verus!
