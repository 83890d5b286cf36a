use linux_details::init::Init;
use linux_details::package_manager::PackageManager;

#[test]
fn package_manager_default_is_unknown() {
    assert_eq!(PackageManager::default(), PackageManager::Unknown);
}

#[test]
fn init_default_is_unknown() {
    assert_eq!(Init::default(), Init::Unknown);
}

#[test]
fn get_init_answers_the_default() {
    assert_eq!(Init::get_init(), Init::Unknown);
}

#[test]
fn init_display_names_are_lowercased() {
    assert_eq!(Init::Launchd.display_name().as_str(), "launchd");
    assert_eq!(Init::Openrc.display_name().as_str(), "openrc");
    assert_eq!(Init::Runnit.display_name().as_str(), "runnit");
    assert_eq!(Init::Upstart.display_name().as_str(), "upstart");
    assert_eq!(Init::S6.display_name().as_str(), "s6");
    assert_eq!(Init::Systemd.display_name().as_str(), "systemd");
    assert_eq!(Init::SysV.display_name().as_str(), "sysv");
    assert_eq!(Init::Unknown.display_name().as_str(), "unknown");
}

#[test]
fn package_manager_display_names_are_lowercased() {
    assert_eq!(PackageManager::Apk.display_name().as_str(), "apk");
    assert_eq!(PackageManager::Apt.display_name().as_str(), "apt");
    assert_eq!(PackageManager::Aptitude.display_name().as_str(), "aptitude");
    assert_eq!(PackageManager::Dnf.display_name().as_str(), "dnf");
    assert_eq!(PackageManager::Yum.display_name().as_str(), "yum");
    assert_eq!(PackageManager::Zypper.display_name().as_str(), "zypper");
    assert_eq!(PackageManager::Eopkg.display_name().as_str(), "eopkg");
    assert_eq!(PackageManager::Nix.display_name().as_str(), "nix");
    assert_eq!(PackageManager::Pacman.display_name().as_str(), "pacman");
    assert_eq!(PackageManager::Portage.display_name().as_str(), "portage");
    assert_eq!(PackageManager::Flatpak.display_name().as_str(), "flatpak");
    assert_eq!(PackageManager::Snap.display_name().as_str(), "snap");
    assert_eq!(PackageManager::Unknown.display_name().as_str(), "unknown");
}

#[test]
fn supported_managers_follow_the_platform_table() {
    assert_eq!(
        PackageManager::supported_in_os_type(&"Arch".to_string()),
        vec![PackageManager::Pacman, PackageManager::Flatpak, PackageManager::Snap]
    );
    assert_eq!(
        PackageManager::supported_in_os_type(&"Alpine".to_string()),
        vec![PackageManager::Apk, PackageManager::Flatpak]
    );
    assert_eq!(
        PackageManager::supported_in_os_type(&"Debian".to_string()),
        vec![
            PackageManager::Apt,
            PackageManager::Aptitude,
            PackageManager::Flatpak,
            PackageManager::Snap,
        ]
    );
    assert_eq!(
        PackageManager::supported_in_os_type(&"Amazon".to_string()),
        vec![PackageManager::Yum]
    );
    assert_eq!(
        PackageManager::supported_in_os_type(&"Windows".to_string()),
        Vec::<PackageManager>::new()
    );
}

#[test]
fn default_manager_follows_the_primary_table() {
    assert_eq!(
        PackageManager::default_in_os_type(&"Alpine".to_string()),
        PackageManager::Apk
    );
    assert_eq!(
        PackageManager::default_in_os_type(&"Ubuntu".to_string()),
        PackageManager::Apt
    );
    assert_eq!(
        PackageManager::default_in_os_type(&"Fedora".to_string()),
        PackageManager::Dnf
    );
    assert_eq!(
        PackageManager::default_in_os_type(&"RedHatEnterprise".to_string()),
        PackageManager::Yum
    );
    assert_eq!(
        PackageManager::default_in_os_type(&"openSUSE".to_string()),
        PackageManager::Zypper
    );
    assert_eq!(
        PackageManager::default_in_os_type(&"Solus".to_string()),
        PackageManager::Eopkg
    );
    assert_eq!(
        PackageManager::default_in_os_type(&"NixOS".to_string()),
        PackageManager::Nix
    );
    assert_eq!(
        PackageManager::default_in_os_type(&"Manjaro".to_string()),
        PackageManager::Pacman
    );
    assert_eq!(
        PackageManager::default_in_os_type(&"Gentoo".to_string()),
        PackageManager::Portage
    );
    assert_eq!(
        PackageManager::default_in_os_type(&"Windows".to_string()),
        PackageManager::Unknown
    );
}

#[test]
fn available_managers_are_a_subset_of_supported() {
    let platform = "Debian".to_string();
    let supported = PackageManager::supported_in_os_type(&platform);
    let available = PackageManager::available_in_os_type(&platform);
    for pm in available {
        assert!(supported.contains(&pm));
    }
}
