//! Package managers and their platform tables: the generated artifacts of
//! the `PackageManager` enumeration. Its annotations declare for each
//! manager the platforms it supports and the platforms it is the preferred
//! ("primary") choice for.

use vstd::prelude::*;

use crate::artifacts::executable_on_path;
use crate::text::text_is;

verus! {

/// A package manager.
#[derive(Debug, Clone, Copy, PartialEq, Eq, PartialOrd, Ord, Hash, Structural)]
pub enum PackageManager {
    Unknown,
    Apk,
    Apt,
    Aptitude,
    Dnf,
    Yum,
    Zypper,
    Eopkg,
    Nix,
    Pacman,
    Portage,
    Flatpak,
    Snap,
}

impl Default for PackageManager {
    /// The default-value artifact: the variant carrying the default marker.
    fn default() -> (r: Self)
        ensures
            r == PackageManager::Unknown,
    {
        PackageManager::Unknown
    }
}

impl PackageManager {
    /// The display table: the lowercased variant names; no variant declares
    /// an override.
    pub open spec fn spec_display_name(self) -> Seq<char> {
        match self {
            PackageManager::Unknown => "unknown"@,
            PackageManager::Apk => "apk"@,
            PackageManager::Apt => "apt"@,
            PackageManager::Aptitude => "aptitude"@,
            PackageManager::Dnf => "dnf"@,
            PackageManager::Yum => "yum"@,
            PackageManager::Zypper => "zypper"@,
            PackageManager::Eopkg => "eopkg"@,
            PackageManager::Nix => "nix"@,
            PackageManager::Pacman => "pacman"@,
            PackageManager::Portage => "portage"@,
            PackageManager::Flatpak => "flatpak"@,
            PackageManager::Snap => "snap"@,
        }
    }

    /// The display artifact, as a plain string.
    pub fn display_name(&self) -> (r: String)
        ensures
            r@ == self.spec_display_name(),
    {
        match self {
            PackageManager::Unknown => "unknown".to_owned(),
            PackageManager::Apk => "apk".to_owned(),
            PackageManager::Apt => "apt".to_owned(),
            PackageManager::Aptitude => "aptitude".to_owned(),
            PackageManager::Dnf => "dnf".to_owned(),
            PackageManager::Yum => "yum".to_owned(),
            PackageManager::Zypper => "zypper".to_owned(),
            PackageManager::Eopkg => "eopkg".to_owned(),
            PackageManager::Nix => "nix".to_owned(),
            PackageManager::Pacman => "pacman".to_owned(),
            PackageManager::Portage => "portage".to_owned(),
            PackageManager::Flatpak => "flatpak".to_owned(),
            PackageManager::Snap => "snap".to_owned(),
        }
    }

    /// The platform table: the platforms each manager's annotations declare
    /// it applicable to.
    pub open spec fn spec_supports(self, p: Seq<char>) -> bool {
        match self {
            PackageManager::Unknown => false,
            PackageManager::Apk => p == "Alpine"@,
            PackageManager::Apt => p == "Debian"@ || p == "Mint"@ || p == "Pop"@ || p
                == "Raspbian"@ || p == "Ubuntu"@,
            PackageManager::Aptitude => p == "Debian"@ || p == "Mint"@ || p == "Pop"@ || p
                == "Raspbian"@ || p == "Ubuntu"@,
            PackageManager::Dnf => p == "CentOS"@ || p == "Fedora"@,
            PackageManager::Yum => p == "Amazon"@ || p == "OracleLinux"@ || p
                == "RedHatEnterprise"@ || p == "Redhat"@,
            PackageManager::Zypper => p == "openSUSE"@ || p == "SUSE"@,
            PackageManager::Eopkg => p == "Solus"@,
            PackageManager::Nix => p == "NixOS"@,
            PackageManager::Pacman => p == "Arch"@ || p == "EndeavourOS"@ || p == "Manjaro"@,
            PackageManager::Portage => p == "Gentoo"@,
            PackageManager::Flatpak => p == "Alpine"@ || p == "Arch"@ || p == "CentOS"@ || p
                == "Debian"@ || p == "EndeavourOS"@ || p == "Fedora"@ || p == "Gentoo"@ || p
                == "Manjaro"@ || p == "Mint"@ || p == "NixOS"@ || p == "openSUSE"@ || p == "SUSE"@
                || p == "Pop"@ || p == "Raspbian"@ || p == "Solus"@ || p == "Ubuntu"@,
            PackageManager::Snap => p == "Arch"@ || p == "CentOS"@ || p == "Debian"@ || p
                == "EndeavourOS"@ || p == "Fedora"@ || p == "Manjaro"@ || p == "Mint"@ || p
                == "openSUSE"@ || p == "SUSE"@ || p == "Pop"@ || p == "Solus"@ || p == "Ubuntu"@
                || p == "RedHatEnterprise"@ || p == "Redhat"@,
        }
    }

    /// Whether this manager's annotations declare the platform.
    pub fn supports(&self, platform: &String) -> (r: bool)
        ensures
            r == self.spec_supports(platform@),
    {
        match self {
            PackageManager::Unknown => false,
            PackageManager::Apk => text_is(platform, "Alpine"),
            PackageManager::Apt => text_is(platform, "Debian") || text_is(platform, "Mint")
                || text_is(platform, "Pop") || text_is(platform, "Raspbian") || text_is(
                platform,
                "Ubuntu",
            ),
            PackageManager::Aptitude => text_is(platform, "Debian") || text_is(platform, "Mint")
                || text_is(platform, "Pop") || text_is(platform, "Raspbian") || text_is(
                platform,
                "Ubuntu",
            ),
            PackageManager::Dnf => text_is(platform, "CentOS") || text_is(platform, "Fedora"),
            PackageManager::Yum => text_is(platform, "Amazon") || text_is(platform, "OracleLinux")
                || text_is(platform, "RedHatEnterprise") || text_is(platform, "Redhat"),
            PackageManager::Zypper => text_is(platform, "openSUSE") || text_is(platform, "SUSE"),
            PackageManager::Eopkg => text_is(platform, "Solus"),
            PackageManager::Nix => text_is(platform, "NixOS"),
            PackageManager::Pacman => text_is(platform, "Arch") || text_is(platform, "EndeavourOS")
                || text_is(platform, "Manjaro"),
            PackageManager::Portage => text_is(platform, "Gentoo"),
            PackageManager::Flatpak => text_is(platform, "Alpine") || text_is(platform, "Arch")
                || text_is(platform, "CentOS") || text_is(platform, "Debian") || text_is(
                platform,
                "EndeavourOS",
            ) || text_is(platform, "Fedora") || text_is(platform, "Gentoo") || text_is(
                platform,
                "Manjaro",
            ) || text_is(platform, "Mint") || text_is(platform, "NixOS") || text_is(
                platform,
                "openSUSE",
            ) || text_is(platform, "SUSE") || text_is(platform, "Pop") || text_is(
                platform,
                "Raspbian",
            ) || text_is(platform, "Solus") || text_is(platform, "Ubuntu"),
            PackageManager::Snap => text_is(platform, "Arch") || text_is(platform, "CentOS")
                || text_is(platform, "Debian") || text_is(platform, "EndeavourOS") || text_is(
                platform,
                "Fedora",
            ) || text_is(platform, "Manjaro") || text_is(platform, "Mint") || text_is(
                platform,
                "openSUSE",
            ) || text_is(platform, "SUSE") || text_is(platform, "Pop") || text_is(
                platform,
                "Solus",
            ) || text_is(platform, "Ubuntu") || text_is(platform, "RedHatEnterprise") || text_is(
                platform,
                "Redhat",
            ),
        }
    }

    /// The variants in declaration order.
    pub open spec fn spec_all() -> Seq<PackageManager> {
        seq![
            PackageManager::Unknown,
            PackageManager::Apk,
            PackageManager::Apt,
            PackageManager::Aptitude,
            PackageManager::Dnf,
            PackageManager::Yum,
            PackageManager::Zypper,
            PackageManager::Eopkg,
            PackageManager::Nix,
            PackageManager::Pacman,
            PackageManager::Portage,
            PackageManager::Flatpak,
            PackageManager::Snap,
        ]
    }

    /// The variants in declaration order, as a vector.
    pub fn all_variants() -> (r: Vec<PackageManager>)
        ensures
            r@ == PackageManager::spec_all(),
    {
        let mut v: Vec<PackageManager> = Vec::new();
        v.push(PackageManager::Unknown);
        v.push(PackageManager::Apk);
        v.push(PackageManager::Apt);
        v.push(PackageManager::Aptitude);
        v.push(PackageManager::Dnf);
        v.push(PackageManager::Yum);
        v.push(PackageManager::Zypper);
        v.push(PackageManager::Eopkg);
        v.push(PackageManager::Nix);
        v.push(PackageManager::Pacman);
        v.push(PackageManager::Portage);
        v.push(PackageManager::Flatpak);
        v.push(PackageManager::Snap);
        proof {
            assert(v@ =~= PackageManager::spec_all());
        }
        v
    }

    /// The managers of `s` that support platform `p`, in order.
    pub open spec fn spec_supported_of(s: Seq<PackageManager>, p: Seq<char>) -> Seq<
        PackageManager,
    >
        decreases s.len(),
    {
        if s.len() == 0 {
            Seq::empty()
        } else {
            let rest = PackageManager::spec_supported_of(s.drop_last(), p);
            if s.last().spec_supports(p) {
                rest.push(s.last())
            } else {
                rest
            }
        }
    }

    /// The supported-managers table of platform `p`, in declaration order.
    pub open spec fn spec_supported(p: Seq<char>) -> Seq<PackageManager> {
        PackageManager::spec_supported_of(PackageManager::spec_all(), p)
    }

    /// The generated platform lookup: every manager whose annotations
    /// declare the platform, in declaration order; empty for an unknown
    /// platform.
    pub fn supported_in_os_type(platform: &String) -> (r: Vec<PackageManager>)
        ensures
            r@ == PackageManager::spec_supported(platform@),
            forall|a: int|
                0 <= a < r@.len() ==> (#[trigger] r@[a]).spec_supports(platform@),
    {
        let all = PackageManager::all_variants();
        let mut out: Vec<PackageManager> = Vec::new();
        let mut i: usize = 0;
        proof {
            assert(PackageManager::spec_all().take(0) =~= Seq::<PackageManager>::empty());
        }
        while i < all.len()
            invariant
                all@ == PackageManager::spec_all(),
                i <= all@.len(),
                out@ == PackageManager::spec_supported_of(
                    PackageManager::spec_all().take(i as int),
                    platform@,
                ),
            decreases all@.len() - i,
        {
            let pm = all[i];
            proof {
                assert(PackageManager::spec_all().take(i as int + 1).drop_last()
                    =~= PackageManager::spec_all().take(i as int));
                assert(PackageManager::spec_all().take(i as int + 1).last()
                    == PackageManager::spec_all()[i as int]);
            }
            if pm.supports(platform) {
                out.push(pm);
            }
            i = i + 1;
        }
        proof {
            assert(PackageManager::spec_all().take(all@.len() as int)
                =~= PackageManager::spec_all());
            lemma_supported_of_elements(PackageManager::spec_all(), platform@);
        }
        out
    }

    /// The availability-filtered lookup: the supported managers whose
    /// display name resolves to an executable on this machine's search
    /// path. Best-effort: only a sub-list of the supported managers is
    /// promised.
    pub fn available_in_os_type(platform: &String) -> (r: Vec<PackageManager>)
        ensures
            forall|a: int|
                0 <= a < r@.len() ==> (#[trigger] r@[a]).spec_supports(platform@),
    {
        let sup = PackageManager::supported_in_os_type(platform);
        let mut out: Vec<PackageManager> = Vec::new();
        let mut i: usize = 0;
        while i < sup.len()
            invariant
                i <= sup@.len(),
                forall|a: int|
                    0 <= a < sup@.len() ==> (#[trigger] sup@[a]).spec_supports(platform@),
                forall|a: int|
                    0 <= a < out@.len() ==> (#[trigger] out@[a]).spec_supports(platform@),
            decreases sup@.len() - i,
        {
            let pm = sup[i];
            let name = pm.display_name();
            if executable_on_path(&name) {
                out.push(pm);
            }
            i = i + 1;
        }
        out
    }

    /// The primary table: the manager each platform's annotations mark as
    /// preferred; the default variant for a platform none prefers.
    pub open spec fn spec_default_for(p: Seq<char>) -> PackageManager {
        if p == "Alpine"@ {
            PackageManager::Apk
        } else if p == "Debian"@ || p == "Mint"@ || p == "Pop"@ || p == "Raspbian"@ || p
            == "Ubuntu"@ {
            PackageManager::Apt
        } else if p == "CentOS"@ || p == "Fedora"@ {
            PackageManager::Dnf
        } else if p == "Amazon"@ || p == "OracleLinux"@ || p == "RedHatEnterprise"@ || p
            == "Redhat"@ {
            PackageManager::Yum
        } else if p == "openSUSE"@ || p == "SUSE"@ {
            PackageManager::Zypper
        } else if p == "Solus"@ {
            PackageManager::Eopkg
        } else if p == "NixOS"@ {
            PackageManager::Nix
        } else if p == "Arch"@ || p == "EndeavourOS"@ || p == "Manjaro"@ {
            PackageManager::Pacman
        } else if p == "Gentoo"@ {
            PackageManager::Portage
        } else {
            PackageManager::Unknown
        }
    }

    /// The generated primary lookup: the preferred manager of the platform,
    /// or the default variant when none is preferred. Total, never fails.
    pub fn default_in_os_type(platform: &String) -> (r: PackageManager)
        ensures
            r == PackageManager::spec_default_for(platform@),
    {
        if text_is(platform, "Alpine") {
            PackageManager::Apk
        } else if text_is(platform, "Debian") || text_is(platform, "Mint") || text_is(
            platform,
            "Pop",
        ) || text_is(platform, "Raspbian") || text_is(platform, "Ubuntu") {
            PackageManager::Apt
        } else if text_is(platform, "CentOS") || text_is(platform, "Fedora") {
            PackageManager::Dnf
        } else if text_is(platform, "Amazon") || text_is(platform, "OracleLinux") || text_is(
            platform,
            "RedHatEnterprise",
        ) || text_is(platform, "Redhat") {
            PackageManager::Yum
        } else if text_is(platform, "openSUSE") || text_is(platform, "SUSE") {
            PackageManager::Zypper
        } else if text_is(platform, "Solus") {
            PackageManager::Eopkg
        } else if text_is(platform, "NixOS") {
            PackageManager::Nix
        } else if text_is(platform, "Arch") || text_is(platform, "EndeavourOS") || text_is(
            platform,
            "Manjaro",
        ) {
            PackageManager::Pacman
        } else if text_is(platform, "Gentoo") {
            PackageManager::Portage
        } else {
            PackageManager::Unknown
        }
    }
}

/// Every member of a supported-managers list supports the platform.
proof fn lemma_supported_of_elements(s: Seq<PackageManager>, p: Seq<char>)
    ensures
        forall|a: int|
            0 <= a < PackageManager::spec_supported_of(s, p).len() ==> (
            #[trigger] PackageManager::spec_supported_of(s, p)[a]).spec_supports(p),
    decreases s.len(),
{
    if s.len() > 0 {
        lemma_supported_of_elements(s.drop_last(), p);
        let rest = PackageManager::spec_supported_of(s.drop_last(), p);
        let whole = PackageManager::spec_supported_of(s, p);
        assert forall|a: int| 0 <= a < whole.len() implies (#[trigger] whole[a]).spec_supports(
            p,
        ) by {
            if s.last().spec_supports(p) {
                assert(whole == rest.push(s.last()));
                if a < rest.len() {
                    assert(whole[a] == rest[a]);
                } else {
                    assert(whole[a] == s.last());
                }
            } else {
                assert(whole == rest);
            }
        }
    }
}

/// The preferred manager of a platform is supported on it: wherever the
/// primary lookup does not fall back to the default variant, its answer is
/// in the platform's supported table.
pub proof fn lemma_default_is_supported(p: Seq<char>)
    ensures
        PackageManager::spec_default_for(p) != PackageManager::Unknown
            ==> PackageManager::spec_default_for(p).spec_supports(p),
{
}

} // verus!
