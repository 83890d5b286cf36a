//! The init system of a Linux machine: the generated artifacts of the
//! `Init` enumeration. Its variants carry no platform annotations, so only
//! the default and display artifacts are meaningful.

use vstd::prelude::*;

verus! {

/// An init system.
#[derive(Debug, Clone, Copy, PartialEq, Eq, PartialOrd, Ord, Hash, Structural)]
pub enum Init {
    Unknown,
    Launchd,
    Openrc,
    Runnit,
    Upstart,
    S6,
    Systemd,
    SysV,
}

impl Default for Init {
    /// The default-value artifact: the variant carrying the default marker.
    fn default() -> (r: Self)
        ensures
            r == Init::Unknown,
    {
        Init::Unknown
    }
}

impl Init {
    /// The display table: the lowercased variant names; no variant declares
    /// an override.
    pub open spec fn spec_display_name(self) -> Seq<char> {
        match self {
            Init::Unknown => "unknown"@,
            Init::Launchd => "launchd"@,
            Init::Openrc => "openrc"@,
            Init::Runnit => "runnit"@,
            Init::Upstart => "upstart"@,
            Init::S6 => "s6"@,
            Init::Systemd => "systemd"@,
            Init::SysV => "sysv"@,
        }
    }

    /// The display artifact, as a plain string.
    pub fn display_name(&self) -> (r: String)
        ensures
            r@ == self.spec_display_name(),
    {
        match self {
            Init::Unknown => "unknown".to_owned(),
            Init::Launchd => "launchd".to_owned(),
            Init::Openrc => "openrc".to_owned(),
            Init::Runnit => "runnit".to_owned(),
            Init::Upstart => "upstart".to_owned(),
            Init::S6 => "s6".to_owned(),
            Init::Systemd => "systemd".to_owned(),
            Init::SysV => "sysv".to_owned(),
        }
    }

    /// The running machine's init system is not detected: the query always
    /// answers the default variant.
    pub fn get_init() -> (r: Self)
        ensures
            r == Init::Unknown,
    {
        Init::Unknown
    }
}

} // verus!
