//! The machine that a package is meant for.
use vstd::prelude::*;

verus! {

/// An operating system.
#[derive(Clone, Copy, Debug, PartialEq, Eq, Structural)]
pub enum Os {
    Windows,
    Linux,
    Macos,
    Other,
}

/// A processor architecture.
#[derive(Clone, Copy, Debug, PartialEq, Eq, Structural)]
pub enum Arch {
    X86_64,
    Aarch64,
    Other,
}

/// An operating system on an architecture.
#[derive(Clone, Copy, Debug, PartialEq, Eq, Structural)]
pub struct Target {
    pub os: Os,
    pub arch: Arch,
}

/// A family of targets that share the names of their libraries.
#[derive(Clone, Copy, Debug, PartialEq, Eq, Structural)]
pub enum Platform {
    Windows,
    Linux,
    Macos,
}

/// The platform of a target: Windows and Linux on any architecture, macOS on
/// Apple's own.
pub open spec fn platform_of(target: Target) -> Option<Platform> {
    match (target.os, target.arch) {
        (Os::Windows, _) => Some(Platform::Windows),
        (Os::Linux, _) => Some(Platform::Linux),
        (Os::Macos, Arch::Aarch64) => Some(Platform::Macos),
        _ => None,
    }
}

/// The name of the platform.
pub open spec fn property_of(platform: Platform) -> Seq<char> {
    match platform {
        Platform::Windows => "windows"@,
        Platform::Linux => "linux"@,
        Platform::Macos => "macos"@,
    }
}

/// The triple that bundled builds name a target by.
pub open spec fn triple_of(target: Target) -> Option<Seq<char>> {
    match (target.os, target.arch) {
        (Os::Windows, Arch::X86_64) => Some("x86_64-pc-windows-msvc"@),
        (Os::Linux, Arch::X86_64) => Some("x86_64-unknown-linux-gnu"@),
        (Os::Linux, Arch::Aarch64) => Some("aarch64-unknown-linux-gnu"@),
        (Os::Macos, Arch::Aarch64) => Some("aarch64-apple-darwin"@),
        _ => None,
    }
}

impl Target {
    /// The platform of the target, if it belongs to one.
    pub fn platform(self) -> (platform: Option<Platform>)
        ensures
            platform == platform_of(self),
    {
        match (self.os, self.arch) {
            (Os::Windows, _) => Some(Platform::Windows),
            (Os::Linux, _) => Some(Platform::Linux),
            (Os::Macos, Arch::Aarch64) => Some(Platform::Macos),
            _ => None,
        }
    }

    /// The triple of the target, if bundled builds exist for it.
    pub fn triple(self) -> (triple: Option<&'static str>)
        ensures
            (match triple {
                Some(t) => Some(t@),
                None => None,
            }) == triple_of(self),
    {
        match (self.os, self.arch) {
            (Os::Windows, Arch::X86_64) => Some("x86_64-pc-windows-msvc"),
            (Os::Linux, Arch::X86_64) => Some("x86_64-unknown-linux-gnu"),
            (Os::Linux, Arch::Aarch64) => Some("aarch64-unknown-linux-gnu"),
            (Os::Macos, Arch::Aarch64) => Some("aarch64-apple-darwin"),
            _ => None,
        }
    }
}

impl Platform {
    /// The name of the platform.
    pub fn property(self) -> (name: &'static str)
        ensures
            name@ == property_of(self),
    {
        match self {
            Platform::Windows => "windows",
            Platform::Linux => "linux",
            Platform::Macos => "macos",
        }
    }
}

} // verus!
