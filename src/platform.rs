//! Host and target platforms, and their names for Rust and for the container engine.
use vstd::prelude::*;
use crate::text::{concat3, copy_str, str_eq};

verus! {

#[derive(Clone, Copy, Debug, PartialEq, Eq, Structural)]
pub enum OperatingSystem {
    Linux,
    MacOS,
}

#[allow(non_camel_case_types)]
#[derive(Clone, Copy, Debug, PartialEq, Eq, Structural)]
pub enum ArchType {
    X86_64,
    AARCH64,
}

#[derive(Clone, Copy, Debug, PartialEq, Eq, Structural)]
pub struct Platform {
    pub os: OperatingSystem,
    pub arch: ArchType,
}

pub open spec fn os_name(os: OperatingSystem) -> Seq<char> {
    match os {
        OperatingSystem::Linux => "linux"@,
        OperatingSystem::MacOS => "macos"@,
    }
}

pub open spec fn arch_name(arch: ArchType) -> Seq<char> {
    match arch {
        ArchType::X86_64 => "x86_64"@,
        ArchType::AARCH64 => "aarch64"@,
    }
}

pub open spec fn arch_docker_name(arch: ArchType) -> Seq<char> {
    match arch {
        ArchType::X86_64 => "amd64"@,
        ArchType::AARCH64 => "arm64"@,
    }
}

impl OperatingSystem {
    /// Images are Linux images whatever the host, so both map to `linux`.
    pub fn to_docker_target(&self) -> (r: String)
        ensures
            r@ == "linux"@,
    {
        copy_str("linux")
    }

    pub fn from_str(s: &str) -> (r: Option<OperatingSystem>)
        ensures
            s@ == "linux"@ ==> r == Some(OperatingSystem::Linux),
            s@ == "macos"@ ==> r == Some(OperatingSystem::MacOS),
            s@ != "linux"@ && s@ != "macos"@ ==> r is None,
    {
        proof {
            reveal_strlit("linux");
            reveal_strlit("macos");
            assert("linux"@[0] != "macos"@[0]);
        }
        if str_eq(s, "linux") {
            Some(OperatingSystem::Linux)
        } else if str_eq(s, "macos") {
            Some(OperatingSystem::MacOS)
        } else {
            None
        }
    }

    pub fn to_string(&self) -> (r: String)
        ensures
            r@ == os_name(*self),
    {
        match self {
            OperatingSystem::Linux => copy_str("linux"),
            OperatingSystem::MacOS => copy_str("macos"),
        }
    }
}

impl ArchType {
    pub fn to_docker_target(&self) -> (r: String)
        ensures
            r@ == arch_docker_name(*self),
    {
        match self {
            ArchType::X86_64 => copy_str("amd64"),
            ArchType::AARCH64 => copy_str("arm64"),
        }
    }

    pub fn from_str(s: &str) -> (r: Option<ArchType>)
        ensures
            s@ == "x86_64"@ ==> r == Some(ArchType::X86_64),
            s@ == "aarch64"@ ==> r == Some(ArchType::AARCH64),
            s@ != "x86_64"@ && s@ != "aarch64"@ ==> r is None,
    {
        proof {
            reveal_strlit("x86_64");
            reveal_strlit("aarch64");
            assert("x86_64"@[0] != "aarch64"@[0]);
        }
        if str_eq(s, "x86_64") {
            Some(ArchType::X86_64)
        } else if str_eq(s, "aarch64") {
            Some(ArchType::AARCH64)
        } else {
            None
        }
    }

    pub fn to_string(&self) -> (r: String)
        ensures
            r@ == arch_name(*self),
    {
        match self {
            ArchType::X86_64 => copy_str("x86_64"),
            ArchType::AARCH64 => copy_str("aarch64"),
        }
    }
}

impl Platform {
    /// A platform from its operating-system and architecture names; `None`
    /// when either is unknown.
    pub fn new(os: &str, arch: &str) -> (r: Option<Platform>)
        ensures
            match r {
                Some(p) => os_name(p.os) == os@ && arch_name(p.arch) == arch@,
                None => !(os@ == "linux"@ || os@ == "macos"@) || !(arch@ == "x86_64"@ || arch@
                    == "aarch64"@),
            },
    {
        match (OperatingSystem::from_str(os), ArchType::from_str(arch)) {
            (Some(o), Some(a)) => Some(Platform { os: o, arch: a }),
            _ => None,
        }
    }

    /// The Rust target triple, such as `x86_64-unknown-linux-gnu`.
    pub fn to_rust_target(&self) -> (r: String)
        ensures
            r@ == arch_name(self.arch) + "-unknown-"@ + os_name(self.os) + "-gnu"@,
    {
        let a = self.arch.to_string();
        let o = self.os.to_string();
        let mut r = concat3(a.as_str(), "-unknown-", o.as_str());
        r.append("-gnu");
        r
    }

    /// The container engine's platform, such as `linux/amd64`.
    pub fn to_docker_target(&self) -> (r: String)
        ensures
            r@ == "linux"@ + "/"@ + arch_docker_name(self.arch),
    {
        let o = self.os.to_docker_target();
        let a = self.arch.to_docker_target();
        concat3(o.as_str(), "/", a.as_str())
    }

    pub fn to_string(&self) -> (r: String)
        ensures
            r@ == os_name(self.os) + "-"@ + arch_name(self.arch),
    {
        let o = self.os.to_string();
        let a = self.arch.to_string();
        concat3(o.as_str(), "-", a.as_str())
    }
}

} // verus!
