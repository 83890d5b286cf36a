use linux_details::family::Family;

#[test]
fn default() {
    let package_manager = Family::default();
    assert_eq!(package_manager, Family::Unknown);
}

#[test]
fn display() {
    assert_eq!(Family::ArchBased.display_name().as_str(), "arch-based");
    assert_eq!(Family::DebianBased.display_name().as_str(), "debian-based");
    assert_eq!(Family::GentooBased.display_name().as_str(), "gentoo-based");
    assert_eq!(Family::Independent.display_name().as_str(), "independent");
    assert_eq!(Family::RedhatBased.display_name().as_str(), "redhat-based");
    assert_eq!(Family::SlackwareBased.display_name().as_str(), "slackware-based");
    assert_eq!(Family::SuseBased.display_name().as_str(), "suse-based");
    assert_eq!(Family::UbuntuBased.display_name().as_str(), "ubuntu-based");
}

#[test]
fn get_package_manager() {
    assert_eq!(Family::get_family(&"Arch".to_string()), Family::ArchBased);
    assert_eq!(Family::get_family(&"EndeavourOS".to_string()), Family::ArchBased);
    assert_eq!(Family::get_family(&"Manjaro".to_string()), Family::ArchBased);
    assert_eq!(Family::get_family(&"Debian".to_string()), Family::DebianBased);
    assert_eq!(Family::get_family(&"Raspbian".to_string()), Family::DebianBased);
    assert_eq!(Family::get_family(&"Gentoo".to_string()), Family::GentooBased);
    assert_eq!(Family::get_family(&"Alpine".to_string()), Family::Independent);
    assert_eq!(Family::get_family(&"Android".to_string()), Family::Independent);
    assert_eq!(Family::get_family(&"Linux".to_string()), Family::Independent);
    assert_eq!(Family::get_family(&"NixOS".to_string()), Family::Independent);
    assert_eq!(Family::get_family(&"Solus".to_string()), Family::Independent);
    assert_eq!(Family::get_family(&"Amazon".to_string()), Family::RedhatBased);
    assert_eq!(Family::get_family(&"CentOS".to_string()), Family::RedhatBased);
    assert_eq!(Family::get_family(&"Fedora".to_string()), Family::RedhatBased);
    assert_eq!(Family::get_family(&"OracleLinux".to_string()), Family::RedhatBased);
    assert_eq!(Family::get_family(&"RedHatEnterprise".to_string()), Family::RedhatBased);
    assert_eq!(Family::get_family(&"Redhat".to_string()), Family::RedhatBased);
    assert_eq!(Family::get_family(&"openSUSE".to_string()), Family::SuseBased);
    assert_eq!(Family::get_family(&"SUSE".to_string()), Family::SuseBased);
    assert_eq!(Family::get_family(&"Ubuntu".to_string()), Family::UbuntuBased);
    assert_eq!(Family::get_family(&"Mint".to_string()), Family::UbuntuBased);
    assert_eq!(Family::get_family(&"Pop".to_string()), Family::UbuntuBased);
}

#[test]
fn unknown_platform_gets_default_family() {
    assert_eq!(Family::get_family(&"Windows".to_string()), Family::Unknown);
    assert_eq!(Family::get_family(&"".to_string()), Family::Unknown);
}
