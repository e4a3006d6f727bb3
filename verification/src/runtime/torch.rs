//! The Torch package: its names, its libraries and its downloads.
use vstd::prelude::*;

use crate::runtime::config::{RuntimeConfig, TorchSource};
use crate::runtime::libraries::libraries;
use crate::runtime::target::{Arch, Os, Platform, Target};
use crate::text::same_text;

verus! {

/// The release of the bundled builds.
pub const RELEASE: &'static str = "v2.13.0.5";

/// The version of the official builds.
pub const OFFICIAL_VERSION: &'static str = "2.13.0";

/// A build of Torch, by the hardware it runs on. On macOS [`Torch::Cpu`] is the
/// build that runs on Metal.
#[derive(Clone, Copy, Debug, PartialEq, Eq, Hash, Structural)]
pub enum Torch {
    Cpu,
    Cuda,
    Rocm,
}

/// Why a package cannot be had.
#[derive(Clone, Copy, Debug, PartialEq, Eq, Structural)]
pub enum TorchError {
    /// The target belongs to no platform.
    NoPlatform,
    /// There is no such build for the platform.
    NoLibraries { torch: Torch, source: TorchSource, platform: Platform },
    /// There are no official builds for ROCm at all.
    NoRocmWheels,
    /// There is no official build for the target.
    NoWheel { torch: Torch, os: Os },
    /// There is no bundled build for the target.
    NoAsset { torch: Torch, os: Os },
}

/// The name of a build on an operating system.
pub open spec fn name_of(torch: Torch, os: Os) -> Seq<char> {
    match (torch, os) {
        (Torch::Cpu, Os::Macos) => "metal"@,
        (Torch::Cpu, _) => "cpu"@,
        (Torch::Cuda, _) => "cuda"@,
        (Torch::Rocm, _) => "hip"@,
    }
}

/// The operating system of a platform.
pub open spec fn os_of(platform: Platform) -> Os {
    match platform {
        Platform::Windows => Os::Windows,
        Platform::Linux => Os::Linux,
        Platform::Macos => Os::Macos,
    }
}

/// What marks the libraries of a source on a platform.
pub open spec fn library_property_of(source: TorchSource, platform: Platform) -> Seq<char> {
    match source {
        TorchSource::Bundled => crate::runtime::target::property_of(platform),
        TorchSource::Official => "official_"@ + crate::runtime::target::property_of(platform),
    }
}

/// The message of an error.
pub open spec fn message_of(error: TorchError) -> Seq<char> {
    match error {
        TorchError::NoPlatform => "Torch does not support this target"@,
        TorchError::NoLibraries { torch, source, platform } => "Torch "@ + name_of(
            torch,
            os_of(platform),
        ) + " has no "@ + library_property_of(source, platform) + " libraries"@,
        TorchError::NoRocmWheels => "official Torch wheels are not published for ROCm"@,
        TorchError::NoWheel { torch, os } => "Torch "@ + name_of(torch, os)
            + " has no official wheel for this target"@,
        TorchError::NoAsset { torch, os } => "Torch "@ + name_of(torch, os)
            + " does not support this target"@,
    }
}

/// The libraries of a build on a target, in load order.
pub open spec fn library_names_of(torch: Torch, source: TorchSource, target: Target) -> Result<
    Seq<Seq<char>>,
    TorchError,
> {
    match crate::runtime::target::platform_of(target) {
        None => Err(TorchError::NoPlatform),
        Some(platform) => match crate::runtime::libraries::libraries_of(torch, source, platform) {
            Some(names) => Ok(names),
            None => Err(TorchError::NoLibraries { torch, source, platform }),
        },
    }
}

/// The directory of the libraries inside an installed package, with a slash at
/// its end; empty where they stand at its root.
pub open spec fn library_directory_of(source: TorchSource) -> Seq<char> {
    match source {
        TorchSource::Bundled => Seq::empty(),
        TorchSource::Official => "libtorch/lib/"@,
    }
}

/// The paths of the libraries inside an installed package, in load order.
pub open spec fn library_paths_of(torch: Torch, source: TorchSource, target: Target) -> Result<
    Seq<Seq<char>>,
    TorchError,
> {
    match library_names_of(torch, source, target) {
        Ok(names) => Ok(names.map_values(|name: Seq<char>| library_directory_of(source) + name)),
        Err(error) => Err(error),
    }
}

/// The header whose presence tells that the headers of an official build are
/// installed.
pub open spec fn header() -> Seq<char> {
    "libtorch/include/torch/csrc/api/include/torch/torch.h"@
}

/// The files that an installed package must hold. An official CPU build is also
/// there to be compiled against, so it must hold its headers.
pub open spec fn required_files_of(torch: Torch, source: TorchSource, target: Target) -> Result<
    Seq<Seq<char>>,
    TorchError,
> {
    match library_paths_of(torch, source, target) {
        Ok(paths) => Ok(
            if source == TorchSource::Official && torch == Torch::Cpu {
                paths.push(header())
            } else {
                paths
            },
        ),
        Err(error) => Err(error),
    }
}

/// Whether a package in which exactly the `present` ones are files is complete.
pub open spec fn is_complete(
    torch: Torch,
    source: TorchSource,
    target: Target,
    present: Seq<Seq<char>>,
) -> bool {
    match required_files_of(torch, source, target) {
        Ok(files) => forall|i: int|
            0 <= i < files.len() ==> present.contains(#[trigger] files[i]),
        Err(_) => false,
    }
}

/// The name that official builds give a backend.
pub open spec fn wheel_backend_of(torch: Torch) -> Option<Seq<char>> {
    match torch {
        Torch::Cpu => Some("cpu"@),
        Torch::Cuda => Some("cu130"@),
        Torch::Rocm => None,
    }
}

/// The tag by which official builds name a target other than macOS.
pub open spec fn wheel_tag_of(target: Target) -> Option<Seq<char>> {
    match (target.os, target.arch) {
        (Os::Windows, Arch::X86_64) => Some("win_amd64"@),
        (Os::Linux, Arch::X86_64) => Some("manylinux_2_28_x86_64"@),
        (Os::Linux, Arch::Aarch64) => Some("manylinux_2_28_aarch64"@),
        _ => None,
    }
}

/// The URL of an official build for a backend and a tag.
pub open spec fn wheel_url_of(backend: Seq<char>, tag: Seq<char>) -> Seq<char> {
    "https://download.pytorch.org/whl/"@ + backend + "/torch-"@ + OFFICIAL_VERSION@ + "%2B"@
        + backend + "-cp312-cp312-"@ + tag + ".whl"@
}

/// The URL of the official build for macOS.
pub open spec fn macos_wheel_url() -> Seq<char> {
    "https://download.pytorch.org/whl/cpu/torch-"@ + OFFICIAL_VERSION@
        + "-cp312-cp312-macosx_14_0_arm64.whl"@
}

/// The URLs of the official build for a target.
pub open spec fn official_urls_of(torch: Torch, target: Target) -> Result<
    Seq<Seq<char>>,
    TorchError,
> {
    match wheel_backend_of(torch) {
        None => Err(TorchError::NoRocmWheels),
        Some(backend) => match wheel_tag_of(target) {
            Some(tag) => Ok(seq![wheel_url_of(backend, tag)]),
            None => if target.os == Os::Macos && target.arch == Arch::Aarch64 && torch
                == Torch::Cpu {
                Ok(seq![macos_wheel_url()])
            } else {
                Err(TorchError::NoWheel { torch, os: target.os })
            },
        },
    }
}

/// The file name of the bundled build for a target.
pub open spec fn asset_of(torch: Torch, target: Target) -> Result<Seq<char>, TorchError> {
    match crate::runtime::target::triple_of(target) {
        Some(triple) => Ok(triple + "-"@ + name_of(torch, target.os) + ".tar.gz"@),
        None => Err(TorchError::NoAsset { torch, os: target.os }),
    }
}

/// The source that a build is taken from: the configured one, but for ROCm,
/// which has no official builds.
pub open spec fn source_of(torch: Torch, config: RuntimeConfig) -> TorchSource {
    if torch == Torch::Rocm {
        TorchSource::Bundled
    } else {
        config.torch_source
    }
}

/// The same under a configuration that may have failed to load: there is no
/// source where there is no configuration.
pub open spec fn resolved_source<E>(torch: Torch, config: Result<RuntimeConfig, E>) -> Result<
    TorchSource,
    E,
> {
    match config {
        Ok(c) => Ok(source_of(torch, c)),
        Err(error) => Err(error),
    }
}

/// Whether a result holds these characters, or this error.
pub open spec fn results_spell(
    strings: Result<Vec<String>, TorchError>,
    words: Result<Seq<Seq<char>>, TorchError>,
) -> bool {
    match words {
        Ok(expected) => strings matches Ok(s) && crate::text::spell(s@, expected),
        Err(error) => strings == Err::<Vec<String>, TorchError>(error),
    }
}

impl TorchError {
    /// The message of the error.
    pub fn message(self) -> (text: String)
        ensures
            text@ == message_of(self),
    {
        match self {
            TorchError::NoPlatform => "Torch does not support this target".to_owned(),
            TorchError::NoLibraries { torch, source, platform } => {
                let mut text = "Torch ".to_owned();
                text.append(torch.name(platform_os(platform)));
                text.append(" has no ");
                text.append(&library_property(source, platform));
                text.append(" libraries");
                text
            },
            TorchError::NoRocmWheels => {
                "official Torch wheels are not published for ROCm".to_owned()
            },
            TorchError::NoWheel { torch, os } => {
                let mut text = "Torch ".to_owned();
                text.append(torch.name(os));
                text.append(" has no official wheel for this target");
                text
            },
            TorchError::NoAsset { torch, os } => {
                let mut text = "Torch ".to_owned();
                text.append(torch.name(os));
                text.append(" does not support this target");
                text
            },
        }
    }
}

fn platform_os(platform: Platform) -> (os: Os)
    ensures
        os == os_of(platform),
{
    match platform {
        Platform::Windows => Os::Windows,
        Platform::Linux => Os::Linux,
        Platform::Macos => Os::Macos,
    }
}

fn library_property(source: TorchSource, platform: Platform) -> (property: String)
    ensures
        property@ == library_property_of(source, platform),
{
    match source {
        TorchSource::Bundled => platform.property().to_owned(),
        TorchSource::Official => {
            let mut property = "official_".to_owned();
            property.append(platform.property());
            property
        },
    }
}

fn library_directory(source: TorchSource) -> (directory: String)
    ensures
        directory@ == library_directory_of(source),
{
    match source {
        TorchSource::Bundled => String::new(),
        TorchSource::Official => "libtorch/lib/".to_owned(),
    }
}

fn contains_text(strings: &Vec<String>, wanted: &str) -> (found: bool)
    ensures
        found == crate::text::texts(strings@).contains(wanted@),
{
    let mut at: usize = 0;
    while at < strings.len()
        invariant
            at <= strings@.len(),
            forall|i: int| 0 <= i < at ==> (#[trigger] strings@[i])@ != wanted@,
        decreases strings@.len() - at,
    {
        if same_text(&strings[at], wanted) {
            proof {
                assert(crate::text::texts(strings@)[at as int] == wanted@);
            }
            return true;
        }
        at += 1;
    }
    proof {
        let all = crate::text::texts(strings@);
        assert forall|i: int| 0 <= i < all.len() implies all[i] != wanted@ by {
            assert(all[i] == strings@[i]@);
        }
    }
    false
}

impl Torch {
    /// The name of the build on an operating system.
    pub fn name(self, os: Os) -> (name: &'static str)
        ensures
            name@ == name_of(self, os),
    {
        match (self, os) {
            (Torch::Cpu, Os::Macos) => "metal",
            (Torch::Cpu, _) => "cpu",
            (Torch::Cuda, _) => "cuda",
            (Torch::Rocm, _) => "hip",
        }
    }

    /// The platform's name, by which its libraries are found.
    pub fn platform_property(&self, target: Target) -> (property: Result<&'static str, TorchError>)
        ensures
            match crate::runtime::target::platform_of(target) {
                Some(platform) => property matches Ok(p) && p@
                    == crate::runtime::target::property_of(platform),
                None => property == Err::<&'static str, TorchError>(TorchError::NoPlatform),
            },
    {
        match target.platform() {
            Some(platform) => Ok(platform.property()),
            None => Err(TorchError::NoPlatform),
        }
    }

    /// The shared libraries of the build, in the order in which they are loaded.
    pub fn library_names(self, source: TorchSource, target: Target) -> (names: Result<
        Vec<&'static str>,
        TorchError,
    >)
        ensures
            match library_names_of(self, source, target) {
                Ok(expected) => names matches Ok(n) && crate::text::slices_spell(n@, expected),
                Err(error) => names == Err::<Vec<&'static str>, TorchError>(error),
            },
    {
        match target.platform() {
            None => Err(TorchError::NoPlatform),
            Some(platform) => match libraries(self, source, platform) {
                Some(names) => Ok(names),
                None => Err(TorchError::NoLibraries { torch: self, source, platform }),
            },
        }
    }

    /// The paths of the shared libraries inside an installed package, in the
    /// order in which they are loaded.
    pub fn library_paths(self, source: TorchSource, target: Target) -> (paths: Result<
        Vec<String>,
        TorchError,
    >)
        ensures
            results_spell(paths, library_paths_of(self, source, target)),
    {
        let names = match self.library_names(source, target) {
            Ok(names) => names,
            Err(error) => {
                return Err(error);
            },
        };
        let ghost expected = library_paths_of(self, source, target)->Ok_0;
        let mut paths: Vec<String> = Vec::new();
        let mut at: usize = 0;
        while at < names.len()
            invariant
                at <= names@.len(),
                expected.len() == names@.len(),
                forall|i: int|
                    0 <= i < names@.len() ==> expected[i] == library_directory_of(source) + (
                    #[trigger] names@[i])@,
                crate::text::spell(paths@, expected.take(at as int)),
            decreases names@.len() - at,
        {
            let mut path = library_directory(source);
            path.append(names[at]);
            paths.push(path);
            at += 1;
        }
        assert(expected.take(at as int) =~= expected);
        Ok(paths)
    }

    /// The files that an installed package must hold.
    pub fn required_files(self, source: TorchSource, target: Target) -> (files: Result<
        Vec<String>,
        TorchError,
    >)
        ensures
            results_spell(files, required_files_of(self, source, target)),
    {
        match self.library_paths(source, target) {
            Ok(paths) => {
                let mut files = paths;
                if source == TorchSource::Official && self == Torch::Cpu {
                    files.push("libtorch/include/torch/csrc/api/include/torch/torch.h".to_owned());
                }
                Ok(files)
            },
            Err(error) => Err(error),
        }
    }

    /// Whether an installed package is complete, given which of its files are
    /// present.
    pub fn complete(self, source: TorchSource, target: Target, present: &Vec<String>) -> (done:
        bool)
        ensures
            done == is_complete(self, source, target, crate::text::texts(present@)),
    {
        let files = match self.required_files(source, target) {
            Ok(files) => files,
            Err(_) => {
                return false;
            },
        };
        let ghost wanted = required_files_of(self, source, target)->Ok_0;
        let mut at: usize = 0;
        while at < files.len()
            invariant
                at <= files@.len(),
                crate::text::spell(files@, wanted),
                required_files_of(self, source, target) == Ok::<Seq<Seq<char>>, TorchError>(wanted),
                forall|i: int|
                    0 <= i < at ==> crate::text::texts(present@).contains(#[trigger] wanted[i]),
            decreases files@.len() - at,
        {
            if !contains_text(present, &files[at]) {
                proof {
                    let required = required_files_of(self, source, target)->Ok_0;
                    assert(!crate::text::texts(present@).contains(required[at as int]));
                }
                return false;
            }
            at += 1;
        }
        true
    }

    /// The URLs of the official build.
    pub fn official_urls(self, target: Target) -> (urls: Result<Vec<String>, TorchError>)
        ensures
            results_spell(urls, official_urls_of(self, target)),
    {
        let backend = match self {
            Torch::Cpu => "cpu",
            Torch::Cuda => "cu130",
            Torch::Rocm => {
                return Err(TorchError::NoRocmWheels);
            },
        };
        let tag = match (target.os, target.arch) {
            (Os::Windows, Arch::X86_64) => Some("win_amd64"),
            (Os::Linux, Arch::X86_64) => Some("manylinux_2_28_x86_64"),
            (Os::Linux, Arch::Aarch64) => Some("manylinux_2_28_aarch64"),
            _ => None,
        };
        let url = match tag {
            Some(tag) => {
                let mut url = "https://download.pytorch.org/whl/".to_owned();
                url.append(backend);
                url.append("/torch-");
                url.append(OFFICIAL_VERSION);
                url.append("%2B");
                url.append(backend);
                url.append("-cp312-cp312-");
                url.append(tag);
                url.append(".whl");
                url
            },
            None => {
                if target.os == Os::Macos && target.arch == Arch::Aarch64 && self == Torch::Cpu {
                    let mut url = "https://download.pytorch.org/whl/cpu/torch-".to_owned();
                    url.append(OFFICIAL_VERSION);
                    url.append("-cp312-cp312-macosx_14_0_arm64.whl");
                    url
                } else {
                    return Err(TorchError::NoWheel { torch: self, os: target.os });
                }
            },
        };
        let mut urls: Vec<String> = Vec::new();
        urls.push(url);
        Ok(urls)
    }

    /// The source that the build is taken from under a configuration, or the
    /// failure to load that configuration. ROCm has no official builds and
    /// falls back to the bundled one.
    pub fn source<E>(self, config: Result<RuntimeConfig, E>) -> (source: Result<TorchSource, E>)
        ensures
            source == resolved_source(self, config),
    {
        match config {
            Ok(config) => match (self, config.torch_source) {
                (Torch::Rocm, TorchSource::Official) => Ok(TorchSource::Bundled),
                (_, source) => Ok(source),
            },
            Err(error) => Err(error),
        }
    }

    /// The file name of the bundled build.
    pub fn asset(self, target: Target) -> (asset: Result<String, TorchError>)
        ensures
            (match asset {
                Ok(a) => Ok(a@),
                Err(error) => Err(error),
            }) == asset_of(self, target),
    {
        match target.triple() {
            Some(triple) => {
                let mut asset = triple.to_owned();
                asset.append("-");
                asset.append(self.name(target.os));
                asset.append(".tar.gz");
                Ok(asset)
            },
            None => Err(TorchError::NoAsset { torch: self, os: target.os }),
        }
    }
}

} // verus!
