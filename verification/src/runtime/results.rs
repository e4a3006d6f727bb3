//! What the results of the Torch package satisfy, said of the results
//! themselves.
use vstd::prelude::*;

use crate::runtime::config::{RuntimeConfig, TorchSource};
use crate::runtime::install::{Failure, InstallPlan, InstallStep};
use crate::runtime::package::{Component, Cuda, Hardware};
use crate::runtime::target::{Arch, Os, Platform, Target};
use crate::runtime::torch::{Torch, TorchError};

verus! {

/// Strings spell words exactly where they hold the same characters one by one.
pub proof fn law_spelling_is_exact(strings: Seq<String>, words: Seq<Seq<char>>)
    ensures
        crate::text::texts(strings).len() == strings.len(),
        forall|i: int|
            0 <= i < strings.len() ==> crate::text::texts(strings)[i] == (#[trigger] strings[i])@,
        crate::text::spell(strings, words) <==> crate::text::texts(strings) == words,
{
    let all = crate::text::texts(strings);
    if crate::text::spell(strings, words) {
        assert(all =~= words);
    }
    if all == words {
        assert forall|i: int| 0 <= i < strings.len() implies (#[trigger] strings[i])@
            == words[i] by {
            assert(all[i] == strings[i]@);
        }
    }
}

/// The same of string slices.
pub proof fn law_spelling_of_slices_is_exact(slices: Seq<&'static str>, words: Seq<Seq<char>>)
    ensures
        crate::text::slices_spell(slices, words) <==> slices.map_values(|s: &'static str| s@)
            == words,
{
    let all = slices.map_values(|s: &'static str| s@);
    if crate::text::slices_spell(slices, words) {
        assert(all =~= words);
    }
    if all == words {
        assert forall|i: int| 0 <= i < slices.len() implies (#[trigger] slices[i])@ == words[i] by {
            assert(all[i] == slices[i]@);
        }
    }
}

/// Whether a target is one that some build is made for.
pub open spec fn is_built_for(target: Target) -> bool {
    ||| target.os == Os::Linux && target.arch != Arch::Other
    ||| target.os == Os::Windows && target.arch == Arch::X86_64
    ||| target.os == Os::Macos && target.arch == Arch::Aarch64
}

/// The usual name of an architecture.
pub open spec fn arch_name(arch: Arch) -> Seq<char> {
    if arch == Arch::X86_64 {
        "x86_64"@
    } else {
        "aarch64"@
    }
}

/// Windows and Linux are platforms on every architecture, and macOS on Apple's
/// own alone. A platform goes by the name of its operating system.
pub proof fn law_platforms(target: Target)
    ensures
        crate::runtime::target::platform_of(target) == Some(Platform::Windows) <==> target.os
            == Os::Windows,
        crate::runtime::target::platform_of(target) == Some(Platform::Linux) <==> target.os
            == Os::Linux,
        crate::runtime::target::platform_of(target) == Some(Platform::Macos) <==> target.os
            == Os::Macos && target.arch == Arch::Aarch64,
        crate::runtime::target::platform_of(target) matches Some(platform)
            ==> crate::runtime::torch::os_of(platform) == target.os,
        crate::runtime::target::property_of(Platform::Windows) == "windows"@,
        crate::runtime::target::property_of(Platform::Linux) == "linux"@,
        crate::runtime::target::property_of(Platform::Macos) == "macos"@,
{
}

/// A target that some build is made for has a triple, and no other has. The
/// triple is the name of the architecture and then that of the system.
pub proof fn law_triples(target: Target)
    ensures
        crate::runtime::target::triple_of(target) is Some <==> is_built_for(target),
        crate::runtime::target::triple_of(target) matches Some(triple) ==> {
            let system = if target.os == Os::Windows {
                "-pc-windows-msvc"@
            } else if target.os == Os::Linux {
                "-unknown-linux-gnu"@
            } else {
                "-apple-darwin"@
            };
            triple == arch_name(target.arch) + system
        },
{
    reveal_strlit("x86_64");
    reveal_strlit("aarch64");
    reveal_strlit("-pc-windows-msvc");
    reveal_strlit("-unknown-linux-gnu");
    reveal_strlit("-apple-darwin");
    reveal_strlit("x86_64-pc-windows-msvc");
    reveal_strlit("x86_64-unknown-linux-gnu");
    reveal_strlit("aarch64-unknown-linux-gnu");
    reveal_strlit("aarch64-apple-darwin");
    assert("x86_64-pc-windows-msvc"@ =~= "x86_64"@ + "-pc-windows-msvc"@);
    assert("x86_64-unknown-linux-gnu"@ =~= "x86_64"@ + "-unknown-linux-gnu"@);
    assert("aarch64-unknown-linux-gnu"@ =~= "aarch64"@ + "-unknown-linux-gnu"@);
    assert("aarch64-apple-darwin"@ =~= "aarch64"@ + "-apple-darwin"@);
}

/// CUDA and ROCm builds go by one name everywhere, and the CPU build by another
/// one on macOS alone, where it runs on Metal.
pub proof fn law_names_of_builds(os: Os)
    ensures
        crate::runtime::torch::name_of(Torch::Cuda, os) == "cuda"@,
        crate::runtime::torch::name_of(Torch::Rocm, os) == "hip"@,
        crate::runtime::torch::name_of(Torch::Cpu, os) == if os == Os::Macos {
            "metal"@
        } else {
            "cpu"@
        },
{
}

/// Which builds there are: CPU builds everywhere and from both sources, CUDA
/// builds from both but not on macOS, ROCm builds from the bundle alone and not
/// on macOS.
pub proof fn law_which_builds_there_are(torch: Torch, source: TorchSource, platform: Platform)
    ensures
        crate::runtime::libraries::libraries_of(torch, source, platform) is Some <==> {
            &&& platform == Platform::Macos ==> torch == Torch::Cpu
            &&& source == TorchSource::Official ==> torch != Torch::Rocm
        },
{
}

/// The libraries of a build depend on the platform of the target alone, not on
/// its architecture. A target without a platform, and a platform without the
/// build, are told apart.
pub proof fn law_library_names(torch: Torch, source: TorchSource, target: Target)
    ensures
        (target.os == Os::Other || (target.os == Os::Macos && target.arch != Arch::Aarch64))
            <==> crate::runtime::torch::library_names_of(torch, source, target) == Err::<
            Seq<Seq<char>>,
            TorchError,
        >(TorchError::NoPlatform),
        crate::runtime::target::platform_of(target) matches Some(platform) ==> match (
            crate::runtime::libraries::libraries_of(torch, source, platform),
            crate::runtime::torch::library_names_of(torch, source, target),
        ) {
            (Some(names), Ok(found)) => found == names,
            (None, Err(error)) => error == (TorchError::NoLibraries { torch, source, platform }),
            _ => false,
        },
{
}

/// Two targets with the same operating system have the same libraries, unless
/// one of them has none.
pub proof fn law_library_names_ignore_the_architecture(
    torch: Torch,
    source: TorchSource,
    left: Target,
    right: Target,
)
    requires
        left.os == right.os,
        crate::runtime::torch::library_names_of(torch, source, left) is Ok,
        crate::runtime::torch::library_names_of(torch, source, right) is Ok,
    ensures
        crate::runtime::torch::library_names_of(torch, source, left)
            == crate::runtime::torch::library_names_of(torch, source, right),
{
}

/// Where a library stands in a package depends on the source alone: a bundled
/// build holds each of its libraries at its root, under the bare name, and an
/// official one under `libtorch/lib`. The order is the load order.
pub proof fn law_library_paths(
    torch: Torch,
    source: TorchSource,
    target: Target,
    paths: Result<Vec<String>, TorchError>,
)
    requires
        crate::runtime::torch::results_spell(
            paths,
            crate::runtime::torch::library_paths_of(torch, source, target),
        ),
    ensures
        match crate::runtime::torch::library_names_of(torch, source, target) {
            Ok(names) => {
                &&& paths is Ok
                &&& paths->Ok_0@.len() == names.len()
                &&& forall|i: int|
                    0 <= i < names.len() ==> (#[trigger] paths->Ok_0@[i])@ == if source
                        == TorchSource::Bundled {
                        names[i]
                    } else {
                        "libtorch/lib/"@ + names[i]
                    }
            },
            Err(error) => paths == Err::<Vec<String>, TorchError>(error),
        },
{
    if let Ok(names) = crate::runtime::torch::library_names_of(torch, source, target) {
        let found = paths->Ok_0@;
        assert forall|i: int| 0 <= i < names.len() implies (#[trigger] found[i])@ == if source
            == TorchSource::Bundled {
            names[i]
        } else {
            "libtorch/lib/"@ + names[i]
        } by {
            assert(Seq::<char>::empty() + names[i] =~= names[i]);
        }
    }
}

/// The paths of a bundled build are its library names.
pub proof fn law_bundled_paths_are_names(torch: Torch, target: Target)
    ensures
        crate::runtime::torch::library_paths_of(torch, TorchSource::Bundled, target)
            == crate::runtime::torch::library_names_of(torch, TorchSource::Bundled, target),
{
    let names = crate::runtime::torch::library_names_of(torch, TorchSource::Bundled, target);
    let paths = crate::runtime::torch::library_paths_of(torch, TorchSource::Bundled, target);
    if names is Ok {
        assert forall|i: int| 0 <= i < names->Ok_0.len() implies paths->Ok_0[i]
            == names->Ok_0[i] by {
            assert(Seq::<char>::empty() + names->Ok_0[i] =~= names->Ok_0[i]);
        }
        assert(paths->Ok_0 =~= names->Ok_0);
    }
}

/// The required files of a package are its libraries, and after them the header
/// where, and only where, the build is an official one for the CPU.
pub proof fn law_required_files(
    torch: Torch,
    source: TorchSource,
    target: Target,
    files: Result<Vec<String>, TorchError>,
)
    requires
        crate::runtime::torch::results_spell(
            files,
            crate::runtime::torch::required_files_of(torch, source, target),
        ),
    ensures
        match crate::runtime::torch::library_names_of(torch, source, target) {
            Ok(names) => {
                let extra: nat = if source == TorchSource::Official && torch == Torch::Cpu {
                    1
                } else {
                    0
                };
                &&& files is Ok
                &&& files->Ok_0@.len() == names.len() + extra
                &&& forall|i: int|
                    0 <= i < names.len() ==> (#[trigger] files->Ok_0@[i])@ == if source
                        == TorchSource::Bundled {
                        names[i]
                    } else {
                        "libtorch/lib/"@ + names[i]
                    }
                &&& extra == 1 ==> files->Ok_0@.last()@
                    == "libtorch/include/torch/csrc/api/include/torch/torch.h"@
            },
            Err(error) => files == Err::<Vec<String>, TorchError>(error),
        },
{
    if let Ok(names) = crate::runtime::torch::library_names_of(torch, source, target) {
        let found = files->Ok_0@;
        assert forall|i: int| 0 <= i < names.len() implies (#[trigger] found[i])@ == if source
            == TorchSource::Bundled {
            names[i]
        } else {
            "libtorch/lib/"@ + names[i]
        } by {
            assert(Seq::<char>::empty() + names[i] =~= names[i]);
        }
    }
}

/// A package is complete exactly where the build exists, each of its libraries
/// is present at its place, and, for an official CPU build and no other, the
/// header is present.
pub proof fn law_completeness(
    torch: Torch,
    source: TorchSource,
    target: Target,
    present: Seq<Seq<char>>,
)
    ensures
        crate::runtime::torch::is_complete(torch, source, target, present) <==> {
            let names = crate::runtime::torch::library_names_of(torch, source, target);
            &&& names is Ok
            &&& forall|i: int|
                0 <= i < names->Ok_0.len() ==> present.contains(
                    if source == TorchSource::Bundled {
                        #[trigger] names->Ok_0[i]
                    } else {
                        "libtorch/lib/"@ + names->Ok_0[i]
                    },
                )
            &&& source == TorchSource::Official && torch == Torch::Cpu ==> present.contains(
                "libtorch/include/torch/csrc/api/include/torch/torch.h"@,
            )
        },
{
    let names = crate::runtime::torch::library_names_of(torch, source, target);
    if names is Ok {
        let list = names->Ok_0;
        let files = crate::runtime::torch::required_files_of(torch, source, target)->Ok_0;
        let place = |name: Seq<char>|
            if source == TorchSource::Bundled {
                name
            } else {
                "libtorch/lib/"@ + name
            };
        assert forall|i: int| 0 <= i < list.len() implies #[trigger] files[i] == place(list[i]) by {
            assert(Seq::<char>::empty() + list[i] =~= list[i]);
        }
        let last = list.len() as int;
        if crate::runtime::torch::is_complete(torch, source, target, present) {
            assert forall|i: int| 0 <= i < list.len() implies present.contains(
                place(#[trigger] list[i]),
            ) by {
                assert(files[i] == place(list[i]));
                assert(present.contains(files[i]));
            }
            if source == TorchSource::Official && torch == Torch::Cpu {
                assert(present.contains(files[last]));
            }
        }
        if (forall|i: int| 0 <= i < list.len() ==> present.contains(place(#[trigger] list[i])))
            && (source == TorchSource::Official && torch == Torch::Cpu ==> present.contains(
            "libtorch/include/torch/csrc/api/include/torch/torch.h"@,
        )) {
            assert forall|i: int| 0 <= i < files.len() implies present.contains(
                #[trigger] files[i],
            ) by {
                if i < last {
                    assert(files[i] == place(list[i]));
                    assert(present.contains(place(list[i])));
                }
            }
            assert(crate::runtime::torch::is_complete(torch, source, target, present));
        }
    }
}

/// A bundled package that holds all its libraries is complete, whatever the
/// build is.
pub proof fn law_bundled_package_needs_libraries_alone(
    torch: Torch,
    target: Target,
    present: Seq<Seq<char>>,
)
    requires
        crate::runtime::torch::library_names_of(torch, TorchSource::Bundled, target) is Ok,
        forall|i: int|
            0 <= i < crate::runtime::torch::library_names_of(
                torch,
                TorchSource::Bundled,
                target,
            )->Ok_0.len() ==> present.contains(
                #[trigger] crate::runtime::torch::library_names_of(
                    torch,
                    TorchSource::Bundled,
                    target,
                )->Ok_0[i],
            ),
    ensures
        crate::runtime::torch::is_complete(torch, TorchSource::Bundled, target, present),
{
    law_completeness(torch, TorchSource::Bundled, target, present);
}

/// Official builds exist for the CPU and for CUDA on each target that builds are
/// made for, but for CUDA on macOS. There is one URL for each. It names the
/// backend twice and the target once, but for macOS, where it names neither.
/// That there are none for ROCm comes before anything else.
pub proof fn law_official_urls(
    torch: Torch,
    target: Target,
    urls: Result<Vec<String>, TorchError>,
)
    requires
        crate::runtime::torch::results_spell(
            urls,
            crate::runtime::torch::official_urls_of(torch, target),
        ),
    ensures
        urls is Ok <==> torch != Torch::Rocm && is_built_for(target) && (torch == Torch::Cuda
            ==> target.os != Os::Macos),
        torch == Torch::Rocm ==> urls == Err::<Vec<String>, TorchError>(TorchError::NoRocmWheels),
        torch != Torch::Rocm && urls is Err ==> urls == Err::<Vec<String>, TorchError>(
            TorchError::NoWheel { torch, os: target.os },
        ),
        urls matches Ok(list) ==> {
            let backend = if torch == Torch::Cuda {
                "cu130"@
            } else {
                "cpu"@
            };
            let machine = if target.os == Os::Windows {
                "win_amd64"@
            } else {
                "manylinux_2_28_"@ + arch_name(target.arch)
            };
            &&& list@.len() == 1
            &&& target.os != Os::Macos ==> list@[0]@ == "https://download.pytorch.org/whl/"@
                + backend + "/torch-2.13.0%2B"@ + backend + "-cp312-cp312-"@ + machine + ".whl"@
            &&& target.os == Os::Macos ==> list@[0]@ == "https://download.pytorch.org/whl/"@
                + backend + "/torch-2.13.0-cp312-cp312-macosx_14_0_arm64.whl"@
        },
{
    reveal_strlit("x86_64");
    reveal_strlit("aarch64");
    reveal_strlit("manylinux_2_28_");
    reveal_strlit("manylinux_2_28_x86_64");
    reveal_strlit("manylinux_2_28_aarch64");
    assert("manylinux_2_28_x86_64"@ =~= "manylinux_2_28_"@ + "x86_64"@);
    assert("manylinux_2_28_aarch64"@ =~= "manylinux_2_28_"@ + "aarch64"@);
    if let Ok(list) = crate::runtime::torch::official_urls_of(torch, target) {
        reveal_strlit("cpu");
        reveal_strlit("/torch-");
        reveal_strlit("2.13.0");
        reveal_strlit("%2B");
        reveal_strlit("/torch-2.13.0%2B");
        reveal_strlit("https://download.pytorch.org/whl/");
        reveal_strlit("https://download.pytorch.org/whl/cpu/torch-");
        reveal_strlit("-cp312-cp312-macosx_14_0_arm64.whl");
        reveal_strlit("/torch-2.13.0-cp312-cp312-macosx_14_0_arm64.whl");
        let base = "https://download.pytorch.org/whl/"@;
        let backend = crate::runtime::torch::wheel_backend_of(torch)->0;
        assert("/torch-2.13.0%2B"@ =~= "/torch-"@ + "2.13.0"@ + "%2B"@);
        assert(base + backend + "/torch-"@ + "2.13.0"@ + "%2B"@ =~= base + backend
            + "/torch-2.13.0%2B"@);
        assert("https://download.pytorch.org/whl/cpu/torch-"@ + "2.13.0"@
            + "-cp312-cp312-macosx_14_0_arm64.whl"@ =~= base + "cpu"@
            + "/torch-2.13.0-cp312-cp312-macosx_14_0_arm64.whl"@);
    }
}

/// There is a bundled build of every kind for each target that builds are made
/// for. Its asset starts with the triple of the target and ends with the name
/// of the build.
pub proof fn law_assets(torch: Torch, target: Target, asset: Result<Seq<char>, TorchError>)
    requires
        asset == crate::runtime::torch::asset_of(torch, target),
    ensures
        asset is Ok <==> is_built_for(target),
        asset is Err ==> asset == Err::<Seq<char>, TorchError>(
            TorchError::NoAsset { torch, os: target.os },
        ),
        asset matches Ok(file) ==> {
            let triple = crate::runtime::target::triple_of(target)->0;
            let name = crate::runtime::torch::name_of(torch, target.os);
            &&& triple.is_prefix_of(file)
            &&& file.skip(triple.len() as int) == "-"@ + name + ".tar.gz"@
        },
{
    if let Ok(file) = asset {
        let triple = crate::runtime::target::triple_of(target)->0;
        let name = crate::runtime::torch::name_of(torch, target.os);
        assert(triple =~= file.subrange(0, triple.len() as int));
        assert(file.skip(triple.len() as int) =~= "-"@ + name + ".tar.gz"@);
    }
}

/// The messages of all errors. One that is about a build names it, and one that
/// is about its libraries names the platform, and the source where it is not
/// the usual one.
pub proof fn law_messages(torch: Torch, platform: Platform, os: Os)
    ensures
        crate::runtime::torch::message_of(TorchError::NoPlatform)
            == "Torch does not support this target"@,
        crate::runtime::torch::message_of(TorchError::NoRocmWheels)
            == "official Torch wheels are not published for ROCm"@,
        crate::runtime::torch::message_of(TorchError::NoWheel { torch, os }) == "Torch "@
            + crate::runtime::torch::name_of(torch, os) + " has no official wheel for this target"@,
        crate::runtime::torch::message_of(TorchError::NoAsset { torch, os }) == "Torch "@
            + crate::runtime::torch::name_of(torch, os) + " does not support this target"@,
        crate::runtime::torch::message_of(
            TorchError::NoLibraries { torch, source: TorchSource::Bundled, platform },
        ) == "Torch "@ + crate::runtime::torch::name_of(
            torch,
            crate::runtime::torch::os_of(platform),
        ) + " has no "@ + crate::runtime::target::property_of(platform) + " libraries"@,
        crate::runtime::torch::message_of(
            TorchError::NoLibraries { torch, source: TorchSource::Official, platform },
        ) == "Torch "@ + crate::runtime::torch::name_of(
            torch,
            crate::runtime::torch::os_of(platform),
        ) + " has no official_"@ + crate::runtime::target::property_of(platform) + " libraries"@,
{
    reveal_strlit(" has no ");
    reveal_strlit("official_");
    reveal_strlit(" has no official_");
    let head = "Torch "@ + crate::runtime::torch::name_of(
        torch,
        crate::runtime::torch::os_of(platform),
    );
    let property = crate::runtime::target::property_of(platform);
    assert(" has no official_"@ =~= " has no "@ + "official_"@);
    assert(head + " has no "@ + ("official_"@ + property) + " libraries"@ =~= head
        + " has no official_"@ + property + " libraries"@);
}

/// A build is taken from the configured source, but for ROCm, which is always
/// taken from the bundle. Where there is no configuration, its failure is the
/// answer for every build.
pub proof fn law_sources<E>(torch: Torch, config: Result<RuntimeConfig, E>)
    ensures
        match config {
            Ok(c) => crate::runtime::torch::resolved_source(torch, config) == Ok::<TorchSource, E>(
                if torch == Torch::Rocm {
                    TorchSource::Bundled
                } else {
                    c.torch_source
                },
            ),
            Err(e) => crate::runtime::torch::resolved_source(torch, config) == Err::<TorchSource, E>(
                e,
            ),
        },
{
}

/// Whether a step is the download of that URL to a file with that suffix.
pub open spec fn fetches(step: InstallStep, address: Seq<char>, ending: Seq<char>) -> bool {
    match step {
        InstallStep::Fetch { url, suffix } => url@ == address && suffix@ == ending,
        _ => false,
    }
}

/// Whether a step unpacks by exactly these patterns.
pub open spec fn extracts(step: InstallStep, selected: Seq<Seq<char>>) -> bool {
    match step {
        InstallStep::Extract { patterns } => patterns@.map_values(|p: String| p@) == selected,
        _ => false,
    }
}

/// Whether a step renames the one directory to the other.
pub open spec fn renames(step: InstallStep, old_name: Seq<char>, new_name: Seq<char>) -> bool {
    match step {
        InstallStep::Rename { from, to } => from@ == old_name && to@ == new_name,
        _ => false,
    }
}

/// Whether a directory is exactly these three components.
pub open spec fn leads(
    directory: Seq<String>,
    store: Seq<char>,
    version: Seq<char>,
    name: Seq<char>,
) -> bool {
    &&& directory.len() == 3
    &&& directory[0]@ == store
    &&& directory[1]@ == version
    &&& directory[2]@ == name
}

proof fn lemma_one_archive(url: Seq<char>, suffix: Seq<char>, patterns: Seq<Seq<char>>)
    ensures
        ({
            let steps = crate::runtime::install::archive_steps(seq![url], suffix, patterns);
            &&& steps.len() == 2
            &&& steps[0] == (crate::runtime::install::StepView::Fetch { url, suffix })
            &&& steps[1] == (crate::runtime::install::StepView::Extract { patterns })
        }),
{
    crate::runtime::laws::law_each_archive_is_unpacked(seq![url], suffix, patterns);
    assert(seq![url][0] == url);
}

proof fn lemma_plan_is_seen(plan: InstallPlan)
    ensures
        plan@.source == plan.source,
        plan@.directory.len() == plan.directory@.len(),
        forall|i: int|
            0 <= i < plan.directory@.len() ==> plan@.directory[i] == (
            #[trigger] plan.directory@[i])@,
        plan@.steps.len() == plan.steps@.len(),
        forall|i: int|
            0 <= i < plan.steps@.len() ==> plan@.steps[i] == (#[trigger] plan.steps@[i])@,
{
}

/// The bundled build is installed below `torch`, the release and its name, in
/// two steps: its asset is downloaded from the release, and every shared
/// library in it is unpacked. It can be installed exactly where it has an asset.
pub proof fn law_bundled_installation(
    torch: Torch,
    target: Target,
    plan: Result<InstallPlan, TorchError>,
)
    requires
        crate::runtime::install::plan_result(plan) == crate::runtime::install::install_plan(
            torch,
            TorchSource::Bundled,
            target,
        ) || crate::runtime::install::plan_result(plan) == crate::runtime::install::bundled_plan(
            torch,
            target,
        ),
    ensures
        match crate::runtime::torch::asset_of(torch, target) {
            Err(error) => plan == Err::<InstallPlan, TorchError>(error),
            Ok(asset) => {
                &&& plan matches Ok(p)
                &&& p.source == TorchSource::Bundled
                &&& leads(
                    p.directory@,
                    "torch"@,
                    "v2.13.0.5"@,
                    crate::runtime::torch::name_of(torch, target.os),
                )
                &&& p.steps@.len() == 2
                &&& fetches(
                    p.steps@[0],
                    "https://github.com/koharu-rs/torch/releases/download/v2.13.0.5/"@ + asset,
                    ".tar.gz"@,
                )
                &&& extracts(
                    p.steps@[1],
                    seq!["**/*.dll"@, "**/*.dylib"@, "**/*.so"@, "**/*.so.*"@],
                )
            },
        },
{
    if let Ok(asset) = crate::runtime::torch::asset_of(torch, target) {
        reveal_strlit("https://github.com/koharu-rs/torch/releases/download/");
        reveal_strlit("v2.13.0.5");
        reveal_strlit("/");
        reveal_strlit("https://github.com/koharu-rs/torch/releases/download/v2.13.0.5/");
        assert("https://github.com/koharu-rs/torch/releases/download/v2.13.0.5/"@
            =~= "https://github.com/koharu-rs/torch/releases/download/"@ + "v2.13.0.5"@ + "/"@);
        let p = plan->Ok_0;
        lemma_one_archive(
            crate::runtime::install::release_url(asset),
            ".tar.gz"@,
            crate::runtime::install::bundled_patterns(),
        );
        lemma_plan_is_seen(p);
        assert(p@.steps[0] == p.steps@[0]@);
        assert(p@.steps[1] == p.steps@[1]@);
        assert(p@.directory[0] == p.directory@[0]@);
        assert(p@.directory[1] == p.directory@[1]@);
        assert(p@.directory[2] == p.directory@[2]@);
    }
}

/// The official build is installed below `torch-official`, the version and its
/// name, in three steps: its one wheel is downloaded, its libraries are
/// unpacked, and for the CPU also what is needed to compile against it, and at
/// the end `torch` is renamed to `libtorch`. A missing wheel comes before
/// missing libraries.
pub proof fn law_official_installation(
    torch: Torch,
    target: Target,
    plan: Result<InstallPlan, TorchError>,
)
    requires
        crate::runtime::install::plan_result(plan) == crate::runtime::install::install_plan(
            torch,
            TorchSource::Official,
            target,
        ) || crate::runtime::install::plan_result(plan) == crate::runtime::install::official_plan(
            torch,
            target,
        ),
    ensures
        match (
            crate::runtime::torch::official_urls_of(torch, target),
            crate::runtime::torch::library_names_of(torch, TorchSource::Official, target),
        ) {
            (Err(error), _) => plan == Err::<InstallPlan, TorchError>(error),
            (Ok(_), Err(error)) => plan == Err::<InstallPlan, TorchError>(error),
            (Ok(urls), Ok(names)) => {
                let libraries = names.map_values(|name: Seq<char>| "torch/lib/"@ + name);
                &&& plan matches Ok(p)
                &&& p.source == TorchSource::Official
                &&& leads(
                    p.directory@,
                    "torch-official"@,
                    "2.13.0"@,
                    crate::runtime::torch::name_of(torch, target.os),
                )
                &&& p.steps@.len() == 3
                &&& fetches(p.steps@[0], urls[0], ".whl"@)
                &&& extracts(
                    p.steps@[1],
                    if torch == Torch::Cpu {
                        libraries + seq![
                            "torch/include/**/*"@,
                            "torch/share/cmake/**/*"@,
                            "torch/lib/*.lib"@,
                        ]
                    } else {
                        libraries
                    },
                )
                &&& renames(p.steps@[2], "torch"@, "libtorch"@)
            },
        },
{
    let urls = crate::runtime::torch::official_urls_of(torch, target);
    let names = crate::runtime::torch::library_names_of(torch, TorchSource::Official, target);
    if urls is Ok && names is Ok {
        let list = urls->Ok_0;
        assert(list =~= seq![list[0]]);
        let p = plan->Ok_0;
        let patterns = crate::runtime::install::official_patterns(torch, names->Ok_0);
        lemma_one_archive(list[0], ".whl"@, patterns);
        assert(names->Ok_0.map_values(
            |name: Seq<char>| crate::runtime::install::library_pattern(name),
        ) =~= names->Ok_0.map_values(|name: Seq<char>| "torch/lib/"@ + name));
        lemma_plan_is_seen(p);
        assert(p@.steps[0] == p.steps@[0]@);
        assert(p@.steps[1] == p.steps@[1]@);
        assert(p@.steps[2] == p.steps@[2]@);
        assert(p@.directory[0] == p.directory@[0]@);
        assert(p@.directory[1] == p.directory@[1]@);
        assert(p@.directory[2] == p.directory@[2]@);
    }
}

/// Whether the steps of an official installation leave a file behind: a pattern
/// of the second step selects a path, and the third step moves that path to the
/// file.
pub open spec fn leaves_behind(steps: Seq<InstallStep>, file: Seq<char>) -> bool {
    exists|pattern: int, path: Seq<char>|
        #![trigger picks(steps[1], pattern, path), moves(steps[2], path, file)]
        picks(steps[1], pattern, path) && moves(steps[2], path, file)
}

/// Whether the pattern of that number in an unpacking step selects a path.
pub open spec fn picks(step: InstallStep, pattern: int, path: Seq<char>) -> bool {
    match step {
        InstallStep::Extract { patterns } => 0 <= pattern < patterns@.len()
            && crate::runtime::laws::selects(patterns@[pattern]@, path),
        _ => false,
    }
}

/// Whether a renaming step moves what stands at the one path to the other.
pub open spec fn moves(step: InstallStep, path: Seq<char>, file: Seq<char>) -> bool {
    match step {
        InstallStep::Rename { from, to } => {
            &&& (from@ + "/"@).is_prefix_of(path)
            &&& file == to@ + path.skip(from@.len() as int)
        },
        _ => false,
    }
}

/// The steps of an official installation leave behind every file that a
/// complete package must hold: each library, under `libtorch/lib`, and for the
/// CPU the header.
pub proof fn law_official_installation_is_complete(torch: Torch, target: Target, plan: InstallPlan)
    requires
        Ok::<crate::runtime::install::PlanView, TorchError>(plan@)
            == crate::runtime::install::install_plan(torch, TorchSource::Official, target),
    ensures
        plan.steps@.len() == 3,
        crate::runtime::torch::required_files_of(torch, TorchSource::Official, target) matches Ok(
            files,
        ) && forall|i: int| 0 <= i < files.len() ==> leaves_behind(plan.steps@, #[trigger] files[i]),
{
    law_official_installation(torch, target, Ok(plan));
    let names = crate::runtime::torch::library_names_of(
        torch,
        TorchSource::Official,
        target,
    )->Ok_0;
    let files = crate::runtime::torch::required_files_of(
        torch,
        TorchSource::Official,
        target,
    )->Ok_0;
    reveal_strlit("torch");
    reveal_strlit("libtorch");
    reveal_strlit("/");
    reveal_strlit("torch/lib/");
    reveal_strlit("libtorch/lib/");
    let patterns = plan.steps@[1]->patterns@;
    let words = patterns.map_values(|p: String| p@);
    assert(words.len() == patterns.len());
    assert forall|i: int| 0 <= i < files.len() implies leaves_behind(
        plan.steps@,
        #[trigger] files[i],
    ) by {
        if i < names.len() {
            let path = "torch/lib/"@ + names[i];
            assert(words[i] == path);
            assert(words[i] == patterns[i]@);
            assert("torch"@ + "/"@ =~= path.subrange(0, 6));
            assert("libtorch"@ + path.skip(5) =~= "libtorch/lib/"@ + names[i]);
            assert(files[i] == "libtorch/lib/"@ + names[i]);
            assert(picks(plan.steps@[1], i, path));
            assert(moves(plan.steps@[2], path, files[i]));
        } else {
            reveal_strlit("torch/include/");
            reveal_strlit("libtorch/include/torch/csrc/api/include/torch/torch.h");
            let j = names.len() as int;
            let path = "torch"@ + files[i].skip(8);
            assert(words[j] == "torch/include/**/*"@);
            assert(words[j] == patterns[j]@);
            assert("torch"@ + "/"@ =~= path.subrange(0, 6));
            assert("torch/include/"@ =~= path.subrange(0, 14));
            assert("libtorch"@ + path.skip(5) =~= files[i]);
            assert(picks(plan.steps@[1], j, path));
            assert(moves(plan.steps@[2], path, files[i]));
        }
    }
}

/// The patterns of a bundled installation select every file that a complete
/// package must hold.
pub proof fn law_bundled_installation_is_complete(torch: Torch, target: Target, plan: InstallPlan)
    requires
        Ok::<crate::runtime::install::PlanView, TorchError>(plan@)
            == crate::runtime::install::install_plan(torch, TorchSource::Bundled, target),
        crate::runtime::torch::library_names_of(torch, TorchSource::Bundled, target) is Ok,
    ensures
        plan.steps@.len() == 2,
        plan.steps@[1] is Extract,
        ({
            let patterns = plan.steps@[1]->patterns@;
            crate::runtime::torch::required_files_of(torch, TorchSource::Bundled, target) matches Ok(
                files,
            ) && forall|i: int|
                0 <= i < files.len() ==> exists|j: int|
                    0 <= j < patterns.len() && crate::runtime::laws::unpacks(
                        (#[trigger] patterns[j])@,
                        #[trigger] files[i],
                    )
        }),
{
    law_bundled_installation(torch, target, Ok(plan));
    law_bundled_paths_are_names(torch, target);
    let platform = crate::runtime::target::platform_of(target)->0;
    crate::runtime::laws::law_bundled_install_yields_libraries(torch, platform);
    let names = crate::runtime::libraries::libraries_of(torch, TorchSource::Bundled, platform)->0;
    let files = crate::runtime::torch::required_files_of(
        torch,
        TorchSource::Bundled,
        target,
    )->Ok_0;
    let patterns = plan.steps@[1]->patterns@;
    let words = patterns.map_values(|p: String| p@);
    let known = crate::runtime::install::bundled_patterns();
    assert(words =~= known);
    assert forall|i: int| 0 <= i < files.len() implies exists|j: int|
        0 <= j < patterns.len() && crate::runtime::laws::unpacks(
            (#[trigger] patterns[j])@,
            #[trigger] files[i],
        ) by {
        assert(files[i] == names[i]);
        let j = choose|j: int|
            0 <= j < known.len() && crate::runtime::laws::unpacks(
                #[trigger] known[j],
                #[trigger] names[i],
            );
        assert(words[j] == patterns[j]@);
        assert(crate::runtime::laws::unpacks(patterns[j]@, files[i]));
    }
}

/// Which build a machine gets, build by build. Metal gets the CPU build on every
/// target. Without Metal, CUDA is taken where the target has builds of every
/// kind or is Linux on ARM, ROCm only where there is no CUDA and a package for
/// it was found, and the CPU only where neither is to be had.
pub proof fn law_which_build_is_discovered<R, E>(hardware: Hardware<R, E>, target: Target)
    ensures
        ({
            let found = crate::runtime::package::discovered(hardware, target);
            let desktop = target.arch == Arch::X86_64 && (target.os == Os::Windows || target.os
                == Os::Linux);
            let arm_linux = target.arch == Arch::Aarch64 && target.os == Os::Linux;
            let rocm = hardware.rocm && hardware.rocm_package is Ok;
            &&& found == Some(Torch::Cuda) <==> !hardware.metal && hardware.cuda && (desktop
                || arm_linux)
            &&& found == Some(Torch::Rocm) <==> !hardware.metal && !hardware.cuda && rocm && desktop
            &&& found == Some(Torch::Cpu) <==> hardware.metal || (!hardware.cuda && !rocm
                && desktop)
            &&& found is None <==> !hardware.metal && !desktop && !(arm_linux && hardware.cuda)
        }),
{
}

/// Metal always gets the CPU build, and a desktop always gets some build.
pub proof fn law_some_build_is_discovered<R, E>(hardware: Hardware<R, E>, target: Target)
    ensures
        hardware.metal ==> crate::runtime::package::discovered(hardware, target) == Some(
            Torch::Cpu,
        ),
        target.arch == Arch::X86_64 && (target.os == Os::Windows || target.os == Os::Linux)
            ==> crate::runtime::package::discovered(hardware, target) is Some,
{
}

/// Two machines that support the same get the same build, whichever ROCm
/// package was found and for whatever reason none was.
pub proof fn law_discovery_ignores_which_package<R, E>(
    left: Hardware<R, E>,
    right: Hardware<R, E>,
    target: Target,
)
    requires
        left.metal == right.metal,
        left.cuda == right.cuda,
        left.rocm == right.rocm,
        left.rocm_package is Ok <==> right.rocm_package is Ok,
    ensures
        crate::runtime::package::discovered(left, target) == crate::runtime::package::discovered(
            right,
            target,
        ),
{
}

/// The CPU build depends on nothing and the CUDA build on every CUDA package
/// once, whatever the machine is. The ROCm build depends on the package that was
/// found and on nothing else, and fails where none was, with that reason.
pub proof fn law_dependencies<R, E>(
    torch: Torch,
    hardware: Hardware<R, E>,
    components: Result<Vec<Component<R>>, E>,
)
    requires
        (match components {
            Ok(c) => Ok(c@),
            Err(error) => Err(error),
        }) == crate::runtime::package::dependencies_of(torch, hardware),
    ensures
        torch == Torch::Cpu ==> (components matches Ok(c) && c@.len() == 0),
        torch == Torch::Cuda ==> (components matches Ok(c) && c@.len() == 9 && c@.no_duplicates()
            && (forall|package: Cuda| #[trigger] c@.contains(Component::<R>::Cuda(package)))),
        torch == Torch::Cuda ==> (components matches Ok(c) && (forall|i: int|
            0 <= i < 9 ==> #[trigger] c@[i] == Component::<R>::Cuda(
                crate::runtime::package::cuda_packages()[i],
            ))),
        torch == Torch::Rocm ==> match hardware.rocm_package {
            Ok(package) => components matches Ok(c) && c@ == seq![Component::<R>::Rocm(package)],
            Err(reason) => components == Err::<Vec<Component<R>>, E>(reason),
        },
{
    if torch == Torch::Cuda {
        let all = crate::runtime::package::cuda_packages();
        let c = components->Ok_0@;
        assert(c.len() == 9);
        assert(c[0] == Component::<R>::Cuda(Cuda::Runtime13));
        assert(c[1] == Component::<R>::Cuda(Cuda::JitLink13));
        assert(c[2] == Component::<R>::Cuda(Cuda::Rtc13));
        assert(c[3] == Component::<R>::Cuda(Cuda::Blas13));
        assert(c[4] == Component::<R>::Cuda(Cuda::Fft12));
        assert(c[5] == Component::<R>::Cuda(Cuda::Rand10));
        assert(c[6] == Component::<R>::Cuda(Cuda::Sparse12));
        assert(c[7] == Component::<R>::Cuda(Cuda::Solver12));
        assert(c[8] == Component::<R>::Cuda(Cuda::Dnn920));
    }
}

/// A task is next exactly where the last one succeeded and one is left, and it
/// is the first that is not done. A failure is handed on as it is.
pub proof fn law_next_task<E>(count: nat, done: nat, outcome: Result<(), E>)
    ensures
        match outcome {
            Err(e) => crate::runtime::install::next_task(count, done, outcome) == Err::<
                Option<nat>,
                E,
            >(e),
            Ok(()) => {
                let next = crate::runtime::install::next_task(count, done, outcome);
                &&& next is Ok
                &&& next->Ok_0 is Some <==> done < count
                &&& next->Ok_0 matches Some(at) ==> at == done
            },
        },
{
}

/// Libraries are loaded exactly where the installation succeeded and they are
/// known. A failed installation is what is reported, whether they are known or
/// not.
pub proof fn law_loading_follows_installation<T, E>(
    libraries: Result<T, TorchError>,
    installed: Result<(), Failure<E>>,
)
    ensures
        crate::runtime::install::loading(libraries, installed) is Ok <==> installed is Ok
            && libraries is Ok,
        installed is Ok && libraries is Ok ==> crate::runtime::install::loading(
            libraries,
            installed,
        )->Ok_0 == libraries->Ok_0,
        installed matches Err(failure) ==> crate::runtime::install::loading(libraries, installed)
            == Err::<T, Failure<E>>(failure),
        installed is Ok && libraries is Err ==> crate::runtime::install::loading(
            libraries,
            installed,
        ) == Err::<T, Failure<E>>(Failure::Torch(libraries->Err_0)),
{
}

/// As long as nothing is settled, what is loaded decides: it is the answer, and
/// it is settled where it was loaded at all.
pub proof fn law_first_load_decides<E>(loaded: Result<RuntimeConfig, E>)
    ensures
        crate::runtime::config::shared_config(None, loaded) == loaded,
        match loaded {
            Ok(config) => crate::runtime::config::settled_after(None, loaded) == Some(config),
            Err(_) => crate::runtime::config::settled_after(None, loaded) is None,
        },
{
}

/// Once something is settled, no load changes it or the answer.
pub proof fn law_settled_decides<E>(config: RuntimeConfig, loaded: Result<RuntimeConfig, E>)
    ensures
        crate::runtime::config::shared_config(Some(config), loaded) == Ok::<RuntimeConfig, E>(
            config,
        ),
        crate::runtime::config::settled_after(Some(config), loaded) == Some(config),
{
}

} // verus!
