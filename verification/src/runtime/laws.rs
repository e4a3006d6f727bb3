//! What holds of the Torch package as a whole.
use vstd::prelude::*;

use crate::runtime::config::{RuntimeConfig, TorchSource};
use crate::runtime::install::Failure;
use crate::runtime::package::Hardware;
use crate::runtime::target::{Platform, Target};
use crate::runtime::torch::{Torch, TorchError};

verus! {

/// The root library of Torch on a platform.
pub open spec fn root_library(platform: Platform) -> Seq<char> {
    match platform {
        Platform::Windows => "torch.dll"@,
        Platform::Linux => "libtorch.so"@,
        Platform::Macos => "libtorch.dylib"@,
    }
}

/// The library of this project's own bindings on a platform.
pub open spec fn binding_library(platform: Platform) -> Seq<char> {
    match platform {
        Platform::Windows => "koharu-torch.dll"@,
        Platform::Linux => "libkoharu-torch.so"@,
        Platform::Macos => "libkoharu-torch.dylib"@,
    }
}

/// Whether a pattern of the form `**/*` and an ending selects a file by its
/// name. A star at the end of the ending stands for any further characters.
pub open spec fn unpacks(pattern: Seq<char>, name: Seq<char>) -> bool {
    let ending = pattern.skip(4);
    &&& "**/*"@.is_prefix_of(pattern)
    &&& if ending.len() > 0 && ending.last() == '*' {
        exists|i: int, j: int|
            0 <= i <= j <= name.len() && #[trigger] name.subrange(i, j) == ending.drop_last()
    } else {
        ending.is_suffix_of(name)
    }
}

/// Whether a pattern of an official build selects a file by its path in the
/// archive: a library by its very path, a header by its directory.
pub open spec fn selects(pattern: Seq<char>, path: Seq<char>) -> bool {
    ||| path == pattern
    ||| {
        &&& pattern == "torch/include/**/*"@
        &&& "torch/include/"@.is_prefix_of(path)
        &&& path.len() > "torch/include/"@.len()
    }
}

/// Where a file of an archive stands after `torch` was renamed to `libtorch`.
pub open spec fn renamed(path: Seq<char>) -> Seq<char> {
    "libtorch"@ + path.skip("torch"@.len() as int)
}

/// Whether an official installation with these patterns yields a file: one of
/// them selects a path that the renaming turns into it.
pub open spec fn yields(patterns: Seq<Seq<char>>, file: Seq<char>) -> bool {
    exists|j: int, path: Seq<char>|
        0 <= j < patterns.len() && selects(#[trigger] patterns[j], path) && #[trigger] renamed(path)
            == file
}

/// ROCm always takes the bundled build, every other build takes the configured
/// source, and resolving a resolved source changes nothing.
pub proof fn law_rocm_is_always_bundled(torch: Torch, config: RuntimeConfig)
    ensures
        crate::runtime::torch::source_of(Torch::Rocm, config) == TorchSource::Bundled,
        torch != Torch::Rocm ==> crate::runtime::torch::source_of(torch, config)
            == config.torch_source,
        crate::runtime::torch::source_of(
            torch,
            RuntimeConfig { torch_source: crate::runtime::torch::source_of(torch, config) },
        ) == crate::runtime::torch::source_of(torch, config),
{
}

/// No configuration makes an installation ask for official ROCm wheels.
pub proof fn law_rocm_wheels_are_never_asked_for(
    torch: Torch,
    config: RuntimeConfig,
    target: Target,
)
    ensures
        crate::runtime::install::install_plan(
            torch,
            crate::runtime::torch::source_of(torch, config),
            target,
        ) != Err::<crate::runtime::install::PlanView, TorchError>(TorchError::NoRocmWheels),
{
}

/// Installing under a configuration is installing from the source that the
/// configuration resolves to. Where the configuration failed to load, the
/// installation fails with that very error, and nothing is planned.
pub proof fn law_install_follows_source<E>(
    torch: Torch,
    config: Result<RuntimeConfig, E>,
    target: Target,
)
    ensures
        match crate::runtime::torch::resolved_source(torch, config) {
            Ok(source) => crate::runtime::install::configured_plan(torch, config, target) == (
            match crate::runtime::install::install_plan(torch, source, target) {
                Ok(plan) => Ok(plan),
                Err(error) => Err(Failure::<E>::Torch(error)),
            }),
            Err(error) => crate::runtime::install::configured_plan(torch, config, target) == Err::<
                crate::runtime::install::PlanView,
                Failure<E>,
            >(Failure::Outside(error)),
        },
        config is Err <==> crate::runtime::torch::resolved_source(torch, config) is Err,
        config matches Ok(c) && torch == Torch::Rocm ==> crate::runtime::torch::resolved_source(
            torch,
            config,
        ) == Ok::<TorchSource, E>(TorchSource::Bundled),
        crate::runtime::install::configured_plan(torch, config, target) matches Ok(plan)
            ==> crate::runtime::torch::resolved_source(torch, config) == Ok::<TorchSource, E>(
            plan.source,
        ),
{
}

proof fn lemma_run_from<E>(
    count: nat,
    done: nat,
    outcomes: Seq<Result<(), E>>,
    failing: Option<nat>,
)
    requires
        done <= count,
        match failing {
            Some(k) => done <= k < count && outcomes[k as int] is Err && forall|i: int|
                done <= i < k ==> (#[trigger] outcomes[i]) is Ok,
            None => forall|i: int| done <= i < count ==> (#[trigger] outcomes[i]) is Ok,
        },
    ensures
        crate::runtime::install::run_from(count, done, Ok(()), outcomes) == (match failing {
            Some(k) => ((k + 1) as nat, outcomes[k as int]),
            None => (count, Ok(())),
        }),
    decreases count - done,
{
    if done < count {
        match failing {
            Some(k) => {
                if k == done {
                    reveal_with_fuel(crate::runtime::install::run_from, 2);
                } else {
                    assert(outcomes[done as int] is Ok);
                    assert(outcomes[done as int]->Ok_0 == ());
                    lemma_run_from(count, done + 1, outcomes, failing);
                }
            },
            None => {
                assert(outcomes[done as int] is Ok);
                assert(outcomes[done as int]->Ok_0 == ());
                lemma_run_from(count, done + 1, outcomes, failing);
            },
        }
    }
}

/// A run in which every task would succeed performs all of them and succeeds.
/// This holds of the steps of an installation and of the libraries to load.
pub proof fn law_run_without_failure<E>(count: nat, outcomes: Seq<Result<(), E>>)
    requires
        forall|i: int| 0 <= i < count ==> (#[trigger] outcomes[i]) is Ok,
    ensures
        crate::runtime::install::run_all(count, outcomes) == (count, Ok::<(), E>(())),
{
    lemma_run_from(count, 0, outcomes, None);
}

/// The first task that fails ends a run with its error: it is the last one
/// performed, and whatever comes after it is left alone.
pub proof fn law_first_failure_ends_a_run<E>(
    count: nat,
    outcomes: Seq<Result<(), E>>,
    failing: nat,
)
    requires
        failing < count,
        outcomes[failing as int] is Err,
        forall|i: int| 0 <= i < failing ==> (#[trigger] outcomes[i]) is Ok,
    ensures
        crate::runtime::install::run_all(count, outcomes) == (
            failing + 1,
            outcomes[failing as int],
        ),
{
    lemma_run_from(count, 0, outcomes, Some(failing));
}

/// Making a build ready for use ends at the first phase that fails, with the
/// error of that phase: the configuration, the plan, the installation, the list
/// of libraries, and then the loading. No library is loaded before all phases
/// in front of the loading succeeded.
pub proof fn law_first_failing_phase_ends_an_activation<E>(
    torch: Torch,
    config: Result<RuntimeConfig, E>,
    target: Target,
    stored: Result<(), E>,
    loads: Seq<Result<(), E>>,
)
    ensures
        ({
            let (performed, end) = crate::runtime::install::activated(
                torch,
                config,
                target,
                stored,
                loads,
            );
            let plan = crate::runtime::install::configured_plan(torch, config, target);
            &&& config matches Err(e) ==> performed == 0 && end == Err::<(), Failure<E>>(
                Failure::Outside(e),
            )
            &&& plan matches Err(f) ==> performed == 0 && end == Err::<(), Failure<E>>(f)
            &&& plan is Ok && stored is Err ==> performed == 0 && end == Err::<(), Failure<E>>(
                Failure::Outside(stored->Err_0),
            )
            &&& plan is Ok && stored is Ok ==> match crate::runtime::torch::library_paths_of(
                torch,
                plan->Ok_0.source,
                target,
            ) {
                Err(t) => performed == 0 && end == Err::<(), Failure<E>>(Failure::Torch(t)),
                Ok(paths) => {
                    let run = crate::runtime::install::run_all(paths.len(), loads);
                    &&& performed == run.0
                    &&& end is Ok <==> run.1 is Ok
                    &&& run.1 matches Err(e) ==> end == Err::<(), Failure<E>>(Failure::Outside(e))
                },
            }
        }),
{
    law_install_follows_source(torch, config, target);
}

/// A build that was discovered for a machine can be had there under every
/// configuration: what it depends on is known, its installation can be planned,
/// and so can the loading of its libraries. Metal is taken to be reported only
/// by machines for which there are builds.
pub proof fn law_discovered_builds_can_be_had<R, E>(
    hardware: Hardware<R, E>,
    target: Target,
    config: RuntimeConfig,
)
    requires
        crate::runtime::package::discovered(hardware, target) is Some,
        hardware.metal ==> crate::runtime::target::triple_of(target) is Some,
    ensures
        ({
            let torch = crate::runtime::package::discovered(hardware, target)->0;
            let source = crate::runtime::torch::source_of(torch, config);
            &&& crate::runtime::package::dependencies_of(torch, hardware) is Ok
            &&& crate::runtime::install::install_plan(torch, source, target) is Ok
            &&& crate::runtime::torch::library_paths_of(torch, source, target) is Ok
        }),
{
}

/// On a machine without Metal, a build for an accelerator is discovered only
/// where the hardware supports that accelerator.
pub proof fn law_accelerators_are_supported<R, E>(hardware: Hardware<R, E>, target: Target)
    ensures
        crate::runtime::package::discovered(hardware, target) == Some(Torch::Cuda)
            ==> hardware.cuda && !hardware.metal,
        crate::runtime::package::discovered(hardware, target) == Some(Torch::Rocm)
            ==> hardware.rocm && hardware.rocm_package is Ok && !hardware.cuda && !hardware.metal,
{
}

proof fn lemma_names_differ(left: Torch, right: Torch, target: Target)
    requires
        left != right,
    ensures
        crate::runtime::torch::name_of(left, target.os) != crate::runtime::torch::name_of(
            right,
            target.os,
        ),
{
    reveal_strlit("metal");
    reveal_strlit("cpu");
    reveal_strlit("cuda");
    reveal_strlit("hip");
    assert("metal"@.len() == 5);
    assert("cpu"@.len() == 3 && "cpu"@[0] == 'c');
    assert("cuda"@.len() == 4);
    assert("hip"@.len() == 3 && "hip"@[0] == 'h');
}

/// No two packages of a machine share a directory, so installing one never
/// touches another.
pub proof fn law_packages_stand_apart(
    left: Torch,
    left_source: TorchSource,
    right: Torch,
    right_source: TorchSource,
    target: Target,
)
    requires
        left != right || left_source != right_source,
    ensures
        crate::runtime::install::package_directory(left, left_source, target)
            != crate::runtime::install::package_directory(right, right_source, target),
{
    reveal_strlit("torch");
    reveal_strlit("torch-official");
    let one = crate::runtime::install::package_directory(left, left_source, target);
    let two = crate::runtime::install::package_directory(right, right_source, target);
    if left_source != right_source {
        assert(one[0].len() != two[0].len());
    } else {
        lemma_names_differ(left, right, target);
        assert(one[2] != two[2]);
    }
}

/// No two bundled builds for a machine share an asset.
pub proof fn law_assets_differ(left: Torch, right: Torch, target: Target)
    requires
        left != right,
        crate::runtime::target::triple_of(target) is Some,
    ensures
        crate::runtime::torch::asset_of(left, target) != crate::runtime::torch::asset_of(
            right,
            target,
        ),
{
    lemma_names_differ(left, right, target);
    let triple = crate::runtime::target::triple_of(target)->0;
    let head = triple + "-"@;
    let one = crate::runtime::torch::name_of(left, target.os);
    let two = crate::runtime::torch::name_of(right, target.os);
    let first = head + one + ".tar.gz"@;
    let second = head + two + ".tar.gz"@;
    if first == second {
        assert(first.len() == head.len() + one.len() + ".tar.gz"@.len());
        assert(second.len() == head.len() + two.len() + ".tar.gz"@.len());
        assert(one =~= first.subrange(head.len() as int, (head.len() + one.len()) as int));
        assert(two =~= second.subrange(head.len() as int, (head.len() + two.len()) as int));
    }
}

/// Every archive is unpacked right after it was fetched, and the archives come
/// in the order of their URLs.
pub proof fn law_each_archive_is_unpacked(
    urls: Seq<Seq<char>>,
    suffix: Seq<char>,
    patterns: Seq<Seq<char>>,
)
    ensures
        ({
            let steps = crate::runtime::install::archive_steps(urls, suffix, patterns);
            &&& steps.len() == 2 * urls.len()
            &&& forall|i: int|
                #![trigger urls[i]]
                0 <= i < urls.len() ==> steps[2 * i] == (
                crate::runtime::install::StepView::Fetch { url: urls[i], suffix }) && steps[2 * i
                    + 1] == (crate::runtime::install::StepView::Extract { patterns })
        }),
    decreases urls.len(),
{
    if urls.len() > 0 {
        let earlier = urls.drop_last();
        law_each_archive_is_unpacked(earlier, suffix, patterns);
        let steps = crate::runtime::install::archive_steps(urls, suffix, patterns);
        let before = crate::runtime::install::archive_steps(earlier, suffix, patterns);
        assert forall|i: int|
            #![trigger urls[i]]
            0 <= i < urls.len() implies steps[2 * i] == (
        crate::runtime::install::StepView::Fetch { url: urls[i], suffix }) && steps[2 * i + 1] == (
        crate::runtime::install::StepView::Extract { patterns }) by {
            if i < earlier.len() {
                assert(earlier[i] == urls[i]);
                assert(steps[2 * i] == before[2 * i]);
                assert(steps[2 * i + 1] == before[2 * i + 1]);
            }
        }
    }
}

/// What an official installation unpacks is what a complete package holds: each
/// required file is selected by one of the patterns, under the path that
/// becomes its own by the renaming.
pub proof fn law_official_install_yields_required_files(torch: Torch, target: Target)
    requires
        crate::runtime::torch::library_names_of(torch, TorchSource::Official, target) is Ok,
    ensures
        ({
            let names = crate::runtime::torch::library_names_of(
                torch,
                TorchSource::Official,
                target,
            )->Ok_0;
            let patterns = crate::runtime::install::official_patterns(torch, names);
            let required = crate::runtime::torch::required_files_of(
                torch,
                TorchSource::Official,
                target,
            )->Ok_0;
            forall|i: int| 0 <= i < required.len() ==> yields(patterns, #[trigger] required[i])
        }),
{
    reveal_strlit("torch");
    reveal_strlit("libtorch");
    reveal_strlit("torch/lib/");
    reveal_strlit("libtorch/lib/");
    let names = crate::runtime::torch::library_names_of(torch, TorchSource::Official, target)->Ok_0;
    let patterns = crate::runtime::install::official_patterns(torch, names);
    let required = crate::runtime::torch::required_files_of(
        torch,
        TorchSource::Official,
        target,
    )->Ok_0;
    assert forall|i: int| 0 <= i < required.len() implies yields(
        patterns,
        #[trigger] required[i],
    ) by {
        if i < names.len() {
            let path = crate::runtime::install::library_pattern(names[i]);
            assert(patterns[i] == path);
            assert(required[i] == "libtorch/lib/"@ + names[i]);
            assert(renamed(path) =~= required[i]);
            assert(selects(patterns[i], path));
        } else {
            reveal_strlit("torch/include/");
            reveal_strlit("libtorch/include/torch/csrc/api/include/torch/torch.h");
            let j = names.len() as int;
            let path = "torch"@ + crate::runtime::torch::header().skip(8);
            assert(patterns[j] == "torch/include/**/*"@);
            assert("torch/include/"@ =~= path.subrange(0, 14));
            assert(renamed(path) =~= required[i]);
            assert(selects(patterns[j], path));
        }
    }
}

proof fn lemma_dll_is_unpacked(name: Seq<char>)
    requires
        ".dll"@.is_suffix_of(name),
    ensures
        unpacks(crate::runtime::install::bundled_patterns()[0], name),
{
    reveal_strlit("**/*");
    reveal_strlit("**/*.dll");
    reveal_strlit(".dll");
    assert("**/*.dll"@.skip(4) =~= ".dll"@);
    assert("**/*"@ =~= "**/*.dll"@.subrange(0, 4));
}

proof fn lemma_dylib_is_unpacked(name: Seq<char>)
    requires
        ".dylib"@.is_suffix_of(name),
    ensures
        unpacks(crate::runtime::install::bundled_patterns()[1], name),
{
    reveal_strlit("**/*");
    reveal_strlit("**/*.dylib");
    reveal_strlit(".dylib");
    assert("**/*.dylib"@.skip(4) =~= ".dylib"@);
    assert("**/*"@ =~= "**/*.dylib"@.subrange(0, 4));
}

proof fn lemma_so_is_unpacked(name: Seq<char>)
    requires
        ".so"@.is_suffix_of(name),
    ensures
        unpacks(crate::runtime::install::bundled_patterns()[2], name),
{
    reveal_strlit("**/*");
    reveal_strlit("**/*.so");
    reveal_strlit(".so");
    assert("**/*.so"@.skip(4) =~= ".so"@);
    assert("**/*"@ =~= "**/*.so"@.subrange(0, 4));
}

proof fn lemma_versioned_so_is_unpacked(name: Seq<char>, at: int)
    requires
        0 <= at,
        at + 4 <= name.len(),
        name.subrange(at, at + 4) == ".so."@,
    ensures
        unpacks(crate::runtime::install::bundled_patterns()[3], name),
{
    reveal_strlit("**/*");
    reveal_strlit("**/*.so.*");
    reveal_strlit(".so.");
    assert("**/*.so.*"@.skip(4).drop_last() =~= ".so."@);
    assert("**/*"@ =~= "**/*.so.*"@.subrange(0, 4));
}

/// What a bundled installation unpacks is what a complete package holds: each
/// library of a bundled build is selected by one of the patterns.
pub proof fn law_bundled_install_yields_libraries(torch: Torch, platform: Platform)
    requires
        crate::runtime::libraries::libraries_of(torch, TorchSource::Bundled, platform) is Some,
    ensures
        ({
            let names = crate::runtime::libraries::libraries_of(
                torch,
                TorchSource::Bundled,
                platform,
            )->0;
            let patterns = crate::runtime::install::bundled_patterns();
            forall|i: int|
                0 <= i < names.len() ==> exists|j: int|
                    0 <= j < patterns.len() && unpacks(#[trigger] patterns[j], #[trigger] names[i])
        }),
{
    let names = crate::runtime::libraries::libraries_of(torch, TorchSource::Bundled, platform)->0;
    let patterns = crate::runtime::install::bundled_patterns();
    assert forall|i: int| 0 <= i < names.len() implies exists|j: int|
        0 <= j < patterns.len() && unpacks(#[trigger] patterns[j], #[trigger] names[i]) by {
        match platform {
            Platform::Windows => {
                reveal_strlit(".dll");
                reveal_strlit("c10.dll");
                assert(".dll"@ =~= "c10.dll"@.subrange(3, 7));
                reveal_strlit("c10_cuda.dll");
                assert(".dll"@ =~= "c10_cuda.dll"@.subrange(8, 12));
                reveal_strlit("c10_hip.dll");
                assert(".dll"@ =~= "c10_hip.dll"@.subrange(7, 11));
                reveal_strlit("caffe2_nvrtc.dll");
                assert(".dll"@ =~= "caffe2_nvrtc.dll"@.subrange(12, 16));
                reveal_strlit("koharu-torch.dll");
                assert(".dll"@ =~= "koharu-torch.dll"@.subrange(12, 16));
                reveal_strlit("libiomp5md.dll");
                assert(".dll"@ =~= "libiomp5md.dll"@.subrange(10, 14));
                reveal_strlit("torch.dll");
                assert(".dll"@ =~= "torch.dll"@.subrange(5, 9));
                reveal_strlit("torch_cpu.dll");
                assert(".dll"@ =~= "torch_cpu.dll"@.subrange(9, 13));
                reveal_strlit("torch_cuda.dll");
                assert(".dll"@ =~= "torch_cuda.dll"@.subrange(10, 14));
                reveal_strlit("torch_global_deps.dll");
                assert(".dll"@ =~= "torch_global_deps.dll"@.subrange(17, 21));
                reveal_strlit("torch_hip.dll");
                assert(".dll"@ =~= "torch_hip.dll"@.subrange(9, 13));
                lemma_dll_is_unpacked(names[i]);
                assert(unpacks(patterns[0], names[i]));
            },
            Platform::Macos => {
                reveal_strlit(".dylib");
                reveal_strlit("libc10.dylib");
                assert(".dylib"@ =~= "libc10.dylib"@.subrange(6, 12));
                reveal_strlit("libkoharu-torch.dylib");
                assert(".dylib"@ =~= "libkoharu-torch.dylib"@.subrange(15, 21));
                reveal_strlit("libtorch.dylib");
                assert(".dylib"@ =~= "libtorch.dylib"@.subrange(8, 14));
                reveal_strlit("libtorch_cpu.dylib");
                assert(".dylib"@ =~= "libtorch_cpu.dylib"@.subrange(12, 18));
                reveal_strlit("libtorch_global_deps.dylib");
                assert(".dylib"@ =~= "libtorch_global_deps.dylib"@.subrange(20, 26));
                lemma_dylib_is_unpacked(names[i]);
                assert(unpacks(patterns[1], names[i]));
            },
            Platform::Linux => {
                reveal_strlit(".so");
                reveal_strlit("libc10.so");
                assert(".so"@ =~= "libc10.so"@.subrange(6, 9));
                reveal_strlit("libc10_cuda.so");
                assert(".so"@ =~= "libc10_cuda.so"@.subrange(11, 14));
                reveal_strlit("libc10_hip.so");
                assert(".so"@ =~= "libc10_hip.so"@.subrange(10, 13));
                reveal_strlit("libcaffe2_nvrtc.so");
                assert(".so"@ =~= "libcaffe2_nvrtc.so"@.subrange(15, 18));
                reveal_strlit("libkoharu-torch.so");
                assert(".so"@ =~= "libkoharu-torch.so"@.subrange(15, 18));
                reveal_strlit("libtorch.so");
                assert(".so"@ =~= "libtorch.so"@.subrange(8, 11));
                reveal_strlit("libtorch_cpu.so");
                assert(".so"@ =~= "libtorch_cpu.so"@.subrange(12, 15));
                reveal_strlit("libtorch_cuda.so");
                assert(".so"@ =~= "libtorch_cuda.so"@.subrange(13, 16));
                reveal_strlit("libtorch_global_deps.so");
                assert(".so"@ =~= "libtorch_global_deps.so"@.subrange(20, 23));
                reveal_strlit("libtorch_hip.so");
                assert(".so"@ =~= "libtorch_hip.so"@.subrange(12, 15));
                if names[i] == "libgomp.so.1"@ {
                    reveal_strlit("libgomp.so.1");
                    reveal_strlit(".so.");
                    assert(names[i].subrange(7, 11) =~= ".so."@);
                    lemma_versioned_so_is_unpacked(names[i], 7);
                    assert(unpacks(patterns[3], names[i]));
                } else {
                    lemma_so_is_unpacked(names[i]);
                    assert(unpacks(patterns[2], names[i]));
                }
            },
        }
    }
}

/// On macOS the root library is loaded first. Elsewhere it is loaded after all
/// that it needs: last in an official build, and followed only by this
/// project's bindings in a bundled one. Those bindings are always loaded last.
pub proof fn law_load_order(torch: Torch, source: TorchSource, platform: Platform)
    requires
        crate::runtime::libraries::libraries_of(torch, source, platform) is Some,
    ensures
        ({
            let names = crate::runtime::libraries::libraries_of(torch, source, platform)->0;
            &&& platform == Platform::Macos ==> names.first() == root_library(platform)
            &&& source == TorchSource::Bundled ==> names.last() == binding_library(platform)
            &&& platform != Platform::Macos && source == TorchSource::Bundled ==> names[names.len()
                - 2] == root_library(platform)
            &&& platform != Platform::Macos && source == TorchSource::Official ==> names.last()
                == root_library(platform)
        }),
{
}

proof fn lemma_shapes_of_names()
    ensures
        "c10.dll"@.len() == 7,
        "c10.dll"@[0] == 'c',
        "c10_cuda.dll"@.len() == 12,
        "c10_cuda.dll"@[0] == 'c',
        "c10_hip.dll"@.len() == 11,
        "caffe2_nvrtc.dll"@.len() == 16,
        "caffe2_nvrtc.dll"@[0] == 'c',
        "koharu-torch.dll"@.len() == 16,
        "koharu-torch.dll"@[0] == 'k',
        "libc10.dylib"@.len() == 12,
        "libc10.dylib"@[3] == 'c',
        "libc10.so"@.len() == 9,
        "libc10.so"@[3] == 'c',
        "libc10_cuda.so"@.len() == 14,
        "libc10_hip.so"@.len() == 13,
        "libcaffe2_nvrtc.so"@.len() == 18,
        "libcaffe2_nvrtc.so"@[3] == 'c',
        "libgomp.so.1"@.len() == 12,
        "libiomp5md.dll"@.len() == 14,
        "libiomp5md.dll"@[0] == 'l',
        "libiompstubs5md.dll"@.len() == 19,
        "libkoharu-torch.dylib"@.len() == 21,
        "libkoharu-torch.so"@.len() == 18,
        "libkoharu-torch.so"@[3] == 'k',
        "libomp.dylib"@.len() == 12,
        "libomp.dylib"@[3] == 'o',
        "libshm.dylib"@.len() == 12,
        "libshm.dylib"@[3] == 's',
        "libshm.so"@.len() == 9,
        "libshm.so"@[3] == 's',
        "libtorch.dylib"@.len() == 14,
        "libtorch.so"@.len() == 11,
        "libtorch_cpu.dylib"@.len() == 18,
        "libtorch_cpu.so"@.len() == 15,
        "libtorch_cpu.so"@[9] == 'c',
        "libtorch_cuda.so"@.len() == 16,
        "libtorch_cuda_linalg.so"@.len() == 23,
        "libtorch_cuda_linalg.so"@[9] == 'c',
        "libtorch_global_deps.dylib"@.len() == 26,
        "libtorch_global_deps.so"@.len() == 23,
        "libtorch_global_deps.so"@[9] == 'g',
        "libtorch_hip.so"@.len() == 15,
        "libtorch_hip.so"@[9] == 'h',
        "libtorch_nvshmem.so"@.len() == 19,
        "shm.dll"@.len() == 7,
        "shm.dll"@[0] == 's',
        "torch.dll"@.len() == 9,
        "torch_cpu.dll"@.len() == 13,
        "torch_cpu.dll"@[6] == 'c',
        "torch_cuda.dll"@.len() == 14,
        "torch_cuda.dll"@[0] == 't',
        "torch_global_deps.dll"@.len() == 21,
        "torch_hip.dll"@.len() == 13,
        "torch_hip.dll"@[6] == 'h',
        "uv.dll"@.len() == 6,
        "zlibwapi.dll"@.len() == 12,
        "zlibwapi.dll"@[0] == 'z',
{
    reveal_strlit("c10.dll");
    reveal_strlit("c10_cuda.dll");
    reveal_strlit("c10_hip.dll");
    reveal_strlit("caffe2_nvrtc.dll");
    reveal_strlit("koharu-torch.dll");
    reveal_strlit("libc10.dylib");
    reveal_strlit("libc10.so");
    reveal_strlit("libc10_cuda.so");
    reveal_strlit("libc10_hip.so");
    reveal_strlit("libcaffe2_nvrtc.so");
    reveal_strlit("libgomp.so.1");
    reveal_strlit("libiomp5md.dll");
    reveal_strlit("libiompstubs5md.dll");
    reveal_strlit("libkoharu-torch.dylib");
    reveal_strlit("libkoharu-torch.so");
    reveal_strlit("libomp.dylib");
    reveal_strlit("libshm.dylib");
    reveal_strlit("libshm.so");
    reveal_strlit("libtorch.dylib");
    reveal_strlit("libtorch.so");
    reveal_strlit("libtorch_cpu.dylib");
    reveal_strlit("libtorch_cpu.so");
    reveal_strlit("libtorch_cuda.so");
    reveal_strlit("libtorch_cuda_linalg.so");
    reveal_strlit("libtorch_global_deps.dylib");
    reveal_strlit("libtorch_global_deps.so");
    reveal_strlit("libtorch_hip.so");
    reveal_strlit("libtorch_nvshmem.so");
    reveal_strlit("shm.dll");
    reveal_strlit("torch.dll");
    reveal_strlit("torch_cpu.dll");
    reveal_strlit("torch_cuda.dll");
    reveal_strlit("torch_global_deps.dll");
    reveal_strlit("torch_hip.dll");
    reveal_strlit("uv.dll");
    reveal_strlit("zlibwapi.dll");
}

/// No library of a build is listed twice, so none is loaded twice.
pub proof fn law_no_library_is_listed_twice(torch: Torch, source: TorchSource, platform: Platform)
    requires
        crate::runtime::libraries::libraries_of(torch, source, platform) is Some,
    ensures
        crate::runtime::libraries::libraries_of(torch, source, platform)->0.no_duplicates(),
{
    lemma_shapes_of_names();
    let names = crate::runtime::libraries::libraries_of(torch, source, platform)->0;
    assert forall|i: int, j: int| 0 <= i < j < names.len() implies names[i] != names[j] by {}
}

/// A complete package holds every library that is loaded from it.
pub proof fn law_complete_packages_can_be_loaded(
    torch: Torch,
    source: TorchSource,
    target: Target,
    present: Seq<Seq<char>>,
)
    requires
        crate::runtime::torch::is_complete(torch, source, target, present),
    ensures
        crate::runtime::torch::library_paths_of(torch, source, target) matches Ok(paths)
            && forall|i: int| 0 <= i < paths.len() ==> present.contains(#[trigger] paths[i]),
{
    let paths = crate::runtime::torch::library_paths_of(torch, source, target)->Ok_0;
    let files = crate::runtime::torch::required_files_of(torch, source, target)->Ok_0;
    assert forall|i: int| 0 <= i < paths.len() implies present.contains(#[trigger] paths[i]) by {
        assert(paths[i] == files[i]);
    }
}

/// A package that holds its required files is complete, whatever else it holds,
/// and it is no longer once one of them is missing.
pub proof fn law_complete_is_nothing_missing(
    torch: Torch,
    source: TorchSource,
    target: Target,
    present: Seq<Seq<char>>,
)
    requires
        crate::runtime::torch::required_files_of(torch, source, target) is Ok,
    ensures
        crate::runtime::torch::is_complete(torch, source, target, present) <==> (forall|
            file: Seq<char>,
        |
            crate::runtime::torch::required_files_of(torch, source, target)->Ok_0.contains(file)
                ==> #[trigger] present.contains(file)),
{
    let files = crate::runtime::torch::required_files_of(torch, source, target)->Ok_0;
    if forall|file: Seq<char>| files.contains(file) ==> #[trigger] present.contains(file) {
        assert forall|i: int| 0 <= i < files.len() implies present.contains(
            #[trigger] files[i],
        ) by {
            assert(files.contains(files[i]));
        }
    }
}

} // verus!
