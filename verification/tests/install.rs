use koharu::runtime::install::{
    libraries_after, next_library, next_step, Failure, InstallPlan, InstallStep,
};
use koharu::runtime::target::{Arch, Os, Target};
use koharu::runtime::torch::TorchError;
use koharu::{RuntimeConfig, Torch, TorchSource};

const WINDOWS: Target = Target { os: Os::Windows, arch: Arch::X86_64 };
const LINUX: Target = Target { os: Os::Linux, arch: Arch::X86_64 };
const LINUX_ARM: Target = Target { os: Os::Linux, arch: Arch::Aarch64 };
const MACOS: Target = Target { os: Os::Macos, arch: Arch::Aarch64 };
const OTHER: Target = Target { os: Os::Other, arch: Arch::Other };

fn config(torch_source: TorchSource) -> Result<RuntimeConfig, String> {
    Ok(RuntimeConfig { torch_source })
}

fn fetched(step: &InstallStep) -> (&str, &str) {
    match step {
        InstallStep::Fetch { url, suffix } => (url, suffix),
        _ => panic!("not a fetch"),
    }
}

fn extracted(step: &InstallStep) -> Vec<&str> {
    match step {
        InstallStep::Extract { patterns } => patterns.iter().map(|p| p.as_str()).collect(),
        _ => panic!("not an extraction"),
    }
}

fn renamed(step: &InstallStep) -> (&str, &str) {
    match step {
        InstallStep::Rename { from, to } => (from, to),
        _ => panic!("not a renaming"),
    }
}

fn last_patterns(plan: &InstallPlan) -> Vec<&str> {
    extracted(&plan.steps[1])
}

#[test]
fn bundled_installation() {
    let plan = Torch::Cuda.install_bundled(LINUX).unwrap();
    assert_eq!(plan.directory, ["torch", "v2.13.0.5", "cuda"]);
    assert_eq!(plan.steps.len(), 2);
    assert_eq!(
        fetched(&plan.steps[0]),
        (
            "https://github.com/koharu-rs/torch/releases/download/v2.13.0.5/x86_64-unknown-linux-gnu-cuda.tar.gz",
            ".tar.gz"
        )
    );
    assert_eq!(extracted(&plan.steps[1]), ["**/*.dll", "**/*.dylib", "**/*.so", "**/*.so.*"]);
}

#[test]
fn bundled_installation_on_macos() {
    let plan = Torch::Cpu.install_bundled(MACOS).unwrap();
    assert_eq!(plan.directory, ["torch", "v2.13.0.5", "metal"]);
    assert!(fetched(&plan.steps[0]).0.ends_with("/aarch64-apple-darwin-metal.tar.gz"));
}

#[test]
fn bundled_installation_needs_an_asset() {
    let error = Torch::Cpu.install_bundled(OTHER).unwrap_err();
    assert_eq!(error, TorchError::NoAsset { torch: Torch::Cpu, os: Os::Other });
}

#[test]
fn official_cpu_installation() {
    let plan = Torch::Cpu.install_official(MACOS).unwrap();
    assert_eq!(plan.directory, ["torch-official", "2.13.0", "metal"]);
    assert_eq!(plan.steps.len(), 3);
    assert_eq!(
        fetched(&plan.steps[0]),
        (
            "https://download.pytorch.org/whl/cpu/torch-2.13.0-cp312-cp312-macosx_14_0_arm64.whl",
            ".whl"
        )
    );
    assert_eq!(
        extracted(&plan.steps[1]),
        [
            "torch/lib/libtorch.dylib",
            "torch/lib/libshm.dylib",
            "torch/lib/libtorch_global_deps.dylib",
            "torch/lib/libtorch_cpu.dylib",
            "torch/lib/libc10.dylib",
            "torch/lib/libomp.dylib",
            "torch/include/**/*",
            "torch/share/cmake/**/*",
            "torch/lib/*.lib",
        ]
    );
    assert_eq!(renamed(&plan.steps[2]), ("torch", "libtorch"));
}

#[test]
fn official_cuda_installation_takes_libraries_alone() {
    let plan = Torch::Cuda.install_official(WINDOWS).unwrap();
    assert_eq!(plan.directory, ["torch-official", "2.13.0", "cuda"]);
    let patterns = last_patterns(&plan);
    assert_eq!(patterns.len(), 12);
    assert_eq!(patterns[0], "torch/lib/libiomp5md.dll");
    assert_eq!(patterns[11], "torch/lib/torch.dll");
}

#[test]
fn official_installation_reports_missing_wheels_first() {
    assert_eq!(Torch::Rocm.install_official(LINUX).unwrap_err(), TorchError::NoRocmWheels);
    assert_eq!(Torch::Rocm.install_official(OTHER).unwrap_err(), TorchError::NoRocmWheels);
    let expected = TorchError::NoWheel { torch: Torch::Cuda, os: Os::Macos };
    assert_eq!(Torch::Cuda.install_official(MACOS).unwrap_err(), expected);
}

#[test]
fn source_decides_the_installation() {
    let bundled = Torch::Cpu.install_with(TorchSource::Bundled, LINUX).unwrap();
    assert_eq!(bundled.directory[0], "torch");
    assert_eq!(bundled.source, TorchSource::Bundled);
    let official = Torch::Cpu.install_with(TorchSource::Official, LINUX).unwrap();
    assert_eq!(official.directory[0], "torch-official");
    assert_eq!(official.source, TorchSource::Official);
}

#[test]
fn rocm_is_installed_from_the_bundled_build() {
    let plan = Torch::Rocm.install(config(TorchSource::Official), LINUX).unwrap();
    assert_eq!(plan.directory, ["torch", "v2.13.0.5", "hip"]);
    let plan = Torch::Cuda.install(config(TorchSource::Official), LINUX_ARM).unwrap();
    assert_eq!(plan.directory, ["torch-official", "2.13.0", "cuda"]);
}

#[test]
fn no_configuration_asks_for_rocm_wheels() {
    for torch in [Torch::Cpu, Torch::Cuda, Torch::Rocm] {
        for source in [TorchSource::Bundled, TorchSource::Official] {
            for target in [WINDOWS, LINUX, LINUX_ARM, MACOS, OTHER] {
                match torch.install(config(source), target) {
                    Err(Failure::Torch(error)) => assert_ne!(error, TorchError::NoRocmWheels),
                    Err(Failure::Outside(_)) => panic!("the configuration is known"),
                    Ok(_) => (),
                }
            }
        }
    }
}

#[test]
fn packages_stand_apart() {
    let mut directories = Vec::new();
    for torch in [Torch::Cpu, Torch::Cuda, Torch::Rocm] {
        for source in [TorchSource::Bundled, TorchSource::Official] {
            if let Ok(plan) = torch.install_with(source, LINUX) {
                assert!(!directories.contains(&plan.directory));
                directories.push(plan.directory);
            }
        }
    }
    assert_eq!(directories.len(), 5);
}

#[test]
fn official_patterns_yield_the_required_files() {
    for torch in [Torch::Cpu, Torch::Cuda] {
        for target in [WINDOWS, LINUX] {
            let plan = torch.install_official(target).unwrap();
            let patterns = last_patterns(&plan);
            for file in torch.required_files(TorchSource::Official, target).unwrap() {
                let path = file.replacen("libtorch", "torch", 1);
                let selected = patterns.contains(&path.as_str())
                    || (patterns.contains(&"torch/include/**/*") && path.starts_with("torch/include/"));
                assert!(selected);
            }
        }
    }
}

#[test]
fn bundled_patterns_yield_the_libraries() {
    for torch in [Torch::Cpu, Torch::Cuda, Torch::Rocm] {
        for target in [WINDOWS, LINUX, MACOS] {
            if let Ok(names) = torch.library_names(TorchSource::Bundled, target) {
                for name in names {
                    let ending = [".dll", ".dylib", ".so"].iter().any(|e| name.ends_with(e));
                    assert!(ending || name.contains(".so."));
                }
            }
        }
    }
}

#[test]
fn activation_installs_and_loads() {
    let activation = Torch::Cpu.activate(config(TorchSource::Official), LINUX).unwrap();
    assert_eq!(activation.source, TorchSource::Official);
    assert_eq!(activation.install.unwrap().directory[0], "torch-official");
    let libraries = activation.libraries.unwrap();
    assert_eq!(libraries[0], "libtorch/lib/libgomp.so.1");
    assert_eq!(libraries.len(), 6);
    assert!(!activation.global);
}

#[test]
fn activation_of_rocm_uses_the_bundled_build() {
    let activation = Torch::Rocm.activate(config(TorchSource::Official), WINDOWS).unwrap();
    assert_eq!(activation.source, TorchSource::Bundled);
    assert_eq!(activation.install.unwrap().directory, ["torch", "v2.13.0.5", "hip"]);
    let libraries = activation.libraries.unwrap();
    assert_eq!(libraries[0], "c10.dll");
    assert_eq!(libraries[7], "koharu-torch.dll");
}

#[test]
fn phases_of_an_activation_fail_on_their_own() {
    let activation = Torch::Cuda.activate(config(TorchSource::Bundled), MACOS).unwrap();
    assert!(activation.install.is_ok());
    let error = activation.libraries.unwrap_err();
    assert_eq!(error.message(), "Torch cuda has no macos libraries");
    let activation = Torch::Cpu.activate(config(TorchSource::Bundled), OTHER).unwrap();
    assert_eq!(
        activation.install.unwrap_err().message(),
        "Torch cpu does not support this target"
    );
}

#[test]
fn installing_under_a_configuration_follows_its_source() {
    for torch in [Torch::Cpu, Torch::Cuda, Torch::Rocm] {
        for torch_source in [TorchSource::Bundled, TorchSource::Official] {
            for target in [WINDOWS, LINUX, LINUX_ARM, MACOS, OTHER] {
                let source = torch.source(config(torch_source)).unwrap();
                let direct = torch.install_with(source, target);
                match (torch.install(config(torch_source), target), direct) {
                    (Ok(one), Ok(two)) => {
                        assert_eq!(one.source, source);
                        assert_eq!(format!("{one:?}"), format!("{two:?}"));
                    }
                    (Err(Failure::Torch(one)), Err(two)) => assert_eq!(one, two),
                    _ => panic!("the two differ"),
                }
            }
        }
    }
}

#[test]
fn nothing_is_planned_without_a_configuration() {
    for torch in [Torch::Cpu, Torch::Cuda, Torch::Rocm] {
        for target in [LINUX, OTHER] {
            match torch.install(Err("unreadable"), target) {
                Err(Failure::Outside(error)) => assert_eq!(error, "unreadable"),
                _ => panic!("not the failure of the configuration"),
            }
            assert_eq!(torch.activate(Err("unreadable"), target).unwrap_err(), "unreadable");
        }
    }
}

/// Performs the steps of a plan, of which the one at `failing` fails, and
/// returns which were performed and how it ended.
fn run(plan: &InstallPlan, failing: Option<usize>) -> (Vec<usize>, Result<(), usize>) {
    let mut performed = Vec::new();
    let mut outcome = Ok(());
    loop {
        match next_step(plan, performed.len(), outcome) {
            Ok(Some(at)) => {
                performed.push(at);
                outcome = if Some(at) == failing { Err(at) } else { Ok(()) };
            }
            Ok(None) => return (performed, Ok(())),
            Err(error) => return (performed, Err(error)),
        }
    }
}

#[test]
fn all_steps_are_performed_in_order() {
    let plan = Torch::Cpu.install_official(LINUX).unwrap();
    assert_eq!(run(&plan, None), (vec![0, 1, 2], Ok(())));
    let plan = Torch::Cuda.install_bundled(WINDOWS).unwrap();
    assert_eq!(run(&plan, None), (vec![0, 1], Ok(())));
}

#[test]
fn first_failing_step_ends_an_installation() {
    let plan = Torch::Cpu.install_official(LINUX).unwrap();
    assert_eq!(run(&plan, Some(0)), (vec![0], Err(0)));
    assert_eq!(run(&plan, Some(1)), (vec![0, 1], Err(1)));
    assert_eq!(run(&plan, Some(2)), (vec![0, 1, 2], Err(2)));
    assert_eq!(next_step(&plan, 3, Err("late")), Err("late"));
    assert_eq!(next_step(&plan, 9, Ok::<(), ()>(())), Ok(None));
}

#[test]
fn first_library_that_fails_ends_the_loading() {
    let libraries = Torch::Cpu.library_paths(TorchSource::Bundled, MACOS).unwrap();
    assert_eq!(next_library(&libraries, 0, Ok::<(), ()>(())), Ok(Some(0)));
    assert_eq!(next_library(&libraries, 4, Ok::<(), ()>(())), Ok(Some(4)));
    assert_eq!(next_library(&libraries, 5, Ok::<(), ()>(())), Ok(None));
    assert_eq!(next_library(&libraries, 2, Err("missing")), Err("missing"));
    assert_eq!(next_library(&Vec::new(), 0, Ok::<(), ()>(())), Ok(None));
}

#[test]
fn libraries_are_loaded_only_after_the_installation() {
    let paths = || Ok(vec!["a".to_string(), "b".to_string()]);
    let unknown = || Err(TorchError::NoPlatform);
    let done: Result<(), Failure<&str>> = Ok(());
    assert_eq!(libraries_after(paths(), done).unwrap(), ["a", "b"]);
    let done: Result<(), Failure<&str>> = Ok(());
    assert!(matches!(
        libraries_after(unknown(), done),
        Err(Failure::Torch(TorchError::NoPlatform))
    ));
    for libraries in [paths(), unknown()] {
        let failed = Err(Failure::Outside("disk full"));
        assert!(matches!(
            libraries_after(libraries, failed),
            Err(Failure::Outside("disk full"))
        ));
    }
}
