use browseros_install::deps::{
    apt_packages, dnf_packages, install_command, resolve_dependencies, yum_packages,
    PackageManager,
};
use browseros_install::home::browseros_home;

#[test]
fn apt_wins_over_all_others() {
    let plan = resolve_dependencies(true, true, true, false).unwrap();
    assert_eq!(plan.manager, PackageManager::AptGet);
}

#[test]
fn dnf_wins_when_apt_absent() {
    let plan = resolve_dependencies(false, true, true, false).unwrap();
    assert_eq!(plan.manager, PackageManager::Dnf);
}

#[test]
fn yum_is_last_resort() {
    let plan = resolve_dependencies(false, false, true, false).unwrap();
    assert_eq!(plan.manager, PackageManager::Yum);
}

#[test]
fn no_manager_found_is_an_error() {
    assert!(resolve_dependencies(false, false, false, false).is_err());
}

#[test]
fn audio_variant_picks_new_name() {
    let with_new = apt_packages(true);
    assert!(with_new.contains(&"libasound2t64"));
    assert!(!with_new.contains(&"libasound2"));
    let with_legacy = apt_packages(false);
    assert!(with_legacy.contains(&"libasound2"));
    assert!(!with_legacy.contains(&"libasound2t64"));
}

#[test]
fn apt_list_has_the_full_set() {
    let v = apt_packages(false);
    assert_eq!(v.len(), 32);
    assert_eq!(v[0], "libxcb-shm0");
    assert_eq!(v[19], "libasound2");
    assert_eq!(v[31], "libgbm1");
}

#[test]
fn yum_install_command_exact() {
    assert_eq!(
        install_command(PackageManager::Yum, false),
        "sudo yum install -y nss nspr atk at-spi2-atk cups-libs libdrm libXcomposite \
         libXdamage libXrandr mesa-libgbm pango alsa-lib libxkbcommon"
    );
}

#[test]
fn dnf_install_command_exact() {
    assert_eq!(
        install_command(PackageManager::Dnf, false),
        "sudo dnf install -y nss nspr atk at-spi2-atk cups-libs libdrm libXcomposite \
         libXdamage libXrandr mesa-libgbm pango alsa-lib libxkbcommon libxcb libX11-xcb \
         libX11 libXext libXcursor libXfixes libXi gtk3 cairo-gobject"
    );
}

#[test]
fn apt_install_command_updates_first() {
    let cmd = install_command(PackageManager::AptGet, true);
    let expected_tail = apt_packages(true).join(" ");
    assert_eq!(
        cmd,
        format!("sudo apt-get update && sudo apt-get install -y {}", expected_tail)
    );
}

#[test]
fn manager_lists_match_plan() {
    let plan = resolve_dependencies(false, true, false, false).unwrap();
    assert_eq!(plan.packages, dnf_packages());
    let plan = resolve_dependencies(false, false, true, false).unwrap();
    assert_eq!(plan.packages, yum_packages());
}

#[test]
fn install_root_under_home_or_fallback() {
    assert_eq!(
        browseros_home(Some("/home/u".to_string()), "/tmp"),
        "/home/u/.browseros"
    );
    assert_eq!(browseros_home(None, "/tmp"), "/tmp/.browseros");
}

#[test]
fn install_root_from_system_has_the_suffix() {
    let r = browseros_install::home::browseros_home_from_system("/tmp");
    assert!(r.ends_with("/.browseros"));
}
