//! The distribution family of a Linux platform: the generated artifacts of
//! the `Family` enumeration, whose annotations declare for each family the
//! platforms it covers and, where the lowercased variant name does not fit,
//! an explicit display string.

use vstd::prelude::*;

use crate::text::text_is;

verus! {

/// A family of Linux distributions.
#[derive(Debug, Clone, Copy, PartialEq, Eq, PartialOrd, Ord, Hash, Structural)]
pub enum Family {
    Unknown,
    ArchBased,
    DebianBased,
    GentooBased,
    Independent,
    RedhatBased,
    SlackwareBased,
    SuseBased,
    UbuntuBased,
}

impl Default for Family {
    /// The default-value artifact: the variant carrying the default marker.
    fn default() -> (r: Self)
        ensures
            r == Family::Unknown,
    {
        Family::Unknown
    }
}

impl Family {
    /// The display table: the explicit override where one is declared, else
    /// the lowercased variant name.
    pub open spec fn spec_display_name(self) -> Seq<char> {
        match self {
            Family::Unknown => "unknown"@,
            Family::ArchBased => "arch-based"@,
            Family::DebianBased => "debian-based"@,
            Family::GentooBased => "gentoo-based"@,
            Family::Independent => "independent"@,
            Family::RedhatBased => "redhat-based"@,
            Family::SlackwareBased => "slackware-based"@,
            Family::SuseBased => "suse-based"@,
            Family::UbuntuBased => "ubuntu-based"@,
        }
    }

    /// The display artifact, as a plain string.
    pub fn display_name(&self) -> (r: String)
        ensures
            r@ == self.spec_display_name(),
    {
        match self {
            Family::Unknown => "unknown".to_owned(),
            Family::ArchBased => "arch-based".to_owned(),
            Family::DebianBased => "debian-based".to_owned(),
            Family::GentooBased => "gentoo-based".to_owned(),
            Family::Independent => "independent".to_owned(),
            Family::RedhatBased => "redhat-based".to_owned(),
            Family::SlackwareBased => "slackware-based".to_owned(),
            Family::SuseBased => "suse-based".to_owned(),
            Family::UbuntuBased => "ubuntu-based".to_owned(),
        }
    }

    /// The platform lookup table: the family whose annotations declare the
    /// platform; the default variant for a platform no family declares.
    pub open spec fn spec_family_of(p: Seq<char>) -> Family {
        if p == "Arch"@ || p == "EndeavourOS"@ || p == "Manjaro"@ {
            Family::ArchBased
        } else if p == "Debian"@ || p == "Raspbian"@ {
            Family::DebianBased
        } else if p == "Gentoo"@ {
            Family::GentooBased
        } else if p == "Alpine"@ || p == "Android"@ || p == "Linux"@ || p == "NixOS"@ || p
            == "Solus"@ {
            Family::Independent
        } else if p == "Amazon"@ || p == "CentOS"@ || p == "Fedora"@ || p == "OracleLinux"@ || p
            == "RedHatEnterprise"@ || p == "Redhat"@ {
            Family::RedhatBased
        } else if p == "openSUSE"@ || p == "SUSE"@ {
            Family::SuseBased
        } else if p == "Ubuntu"@ || p == "Mint"@ || p == "Pop"@ {
            Family::UbuntuBased
        } else {
            Family::Unknown
        }
    }

    /// The generated platform-to-family lookup. Total: an unknown platform
    /// resolves to the default variant.
    pub fn get_family(platform: &String) -> (r: Family)
        ensures
            r == Family::spec_family_of(platform@),
    {
        if text_is(platform, "Arch") || text_is(platform, "EndeavourOS") || text_is(
            platform,
            "Manjaro",
        ) {
            Family::ArchBased
        } else if text_is(platform, "Debian") || text_is(platform, "Raspbian") {
            Family::DebianBased
        } else if text_is(platform, "Gentoo") {
            Family::GentooBased
        } else if text_is(platform, "Alpine") || text_is(platform, "Android") || text_is(
            platform,
            "Linux",
        ) || text_is(platform, "NixOS") || text_is(platform, "Solus") {
            Family::Independent
        } else if text_is(platform, "Amazon") || text_is(platform, "CentOS") || text_is(
            platform,
            "Fedora",
        ) || text_is(platform, "OracleLinux") || text_is(platform, "RedHatEnterprise") || text_is(
            platform,
            "Redhat",
        ) {
            Family::RedhatBased
        } else if text_is(platform, "openSUSE") || text_is(platform, "SUSE") {
            Family::SuseBased
        } else if text_is(platform, "Ubuntu") || text_is(platform, "Mint") || text_is(
            platform,
            "Pop",
        ) {
            Family::UbuntuBased
        } else {
            Family::Unknown
        }
    }
}

} // verus!
