use koharu::runtime::package::{Component, Cuda, Hardware, PACKAGE_NAME};
use koharu::runtime::target::{Arch, Os, Target};
use koharu::{RuntimeConfig, Torch, TorchSource};

const WINDOWS: Target = Target { os: Os::Windows, arch: Arch::X86_64 };
const WINDOWS_ARM: Target = Target { os: Os::Windows, arch: Arch::Aarch64 };
const LINUX: Target = Target { os: Os::Linux, arch: Arch::X86_64 };
const LINUX_ARM: Target = Target { os: Os::Linux, arch: Arch::Aarch64 };
const MACOS: Target = Target { os: Os::Macos, arch: Arch::Aarch64 };
const OTHER: Target = Target { os: Os::Other, arch: Arch::X86_64 };

type Machine = Hardware<&'static str, String>;

fn machine(metal: bool, cuda: bool, rocm: bool, package: Option<&'static str>) -> Machine {
    Hardware { metal, cuda, rocm, rocm_package: package.ok_or("unknown device".to_string()) }
}

#[test]
fn package_is_named() {
    assert_eq!(PACKAGE_NAME, "Torch");
}

#[test]
fn metal_comes_first() {
    for target in [MACOS, LINUX, LINUX_ARM, OTHER] {
        let found = Torch::discover(&machine(true, true, true, Some("gfx")), target);
        assert_eq!(found, Some(Torch::Cpu));
    }
}

#[test]
fn arm_linux_takes_cuda_or_nothing() {
    let found = Torch::discover(&machine(false, true, false, None), LINUX_ARM);
    assert_eq!(found, Some(Torch::Cuda));
    let found = Torch::discover(&machine(false, false, true, Some("gfx")), LINUX_ARM);
    assert_eq!(found, None);
}

#[test]
fn other_targets_take_nothing() {
    for target in [MACOS, WINDOWS_ARM, OTHER] {
        let found = Torch::discover(&machine(false, true, true, Some("gfx")), target);
        assert_eq!(found, None);
    }
}

#[test]
fn desktop_targets_choose_the_best_accelerator() {
    for target in [WINDOWS, LINUX] {
        let discover = |m: Machine| Torch::discover(&m, target);
        assert_eq!(discover(machine(false, true, true, Some("gfx"))), Some(Torch::Cuda));
        assert_eq!(discover(machine(false, false, true, Some("gfx"))), Some(Torch::Rocm));
        assert_eq!(discover(machine(false, false, true, None)), Some(Torch::Cpu));
        assert_eq!(discover(machine(false, false, false, Some("gfx"))), Some(Torch::Cpu));
        assert_eq!(discover(machine(false, false, false, None)), Some(Torch::Cpu));
    }
}

#[test]
fn cpu_depends_on_nothing() {
    let components = Torch::Cpu.dependencies(machine(false, true, true, None)).unwrap();
    assert!(components.is_empty());
}

#[test]
fn cuda_depends_on_its_packages() {
    let components = Torch::Cuda.dependencies(machine(false, true, false, None)).unwrap();
    let packages: Vec<Cuda> = components
        .into_iter()
        .map(|component| match component {
            Component::Cuda(package) => package,
            Component::Rocm(_) => panic!("a ROCm package"),
        })
        .collect();
    assert_eq!(
        packages,
        [
            Cuda::Runtime13,
            Cuda::JitLink13,
            Cuda::Rtc13,
            Cuda::Blas13,
            Cuda::Fft12,
            Cuda::Rand10,
            Cuda::Sparse12,
            Cuda::Solver12,
            Cuda::Dnn920,
        ]
    );
}

#[test]
fn rocm_depends_on_the_discovered_package() {
    let components = Torch::Rocm.dependencies(machine(false, false, true, Some("gfx"))).unwrap();
    assert_eq!(components.len(), 1);
    assert!(matches!(components[0], Component::Rocm("gfx")));
    let error = Torch::Rocm.dependencies(machine(false, false, true, None)).unwrap_err();
    assert_eq!(error, "unknown device");
}

#[test]
fn discovered_builds_can_be_had() {
    let flags = [false, true];
    for target in [WINDOWS, WINDOWS_ARM, LINUX, LINUX_ARM, MACOS, OTHER] {
        for source in [TorchSource::Bundled, TorchSource::Official] {
            for (cuda, rocm) in flags.iter().flat_map(|c| flags.iter().map(move |r| (*c, *r))) {
                for (metal, package) in [(target == MACOS, None), (false, Some("gfx"))] {
                    let hardware = || machine(metal, cuda, rocm, package);
                    if let Some(torch) = Torch::discover(&hardware(), target) {
                        let config = || Ok::<_, String>(RuntimeConfig { torch_source: source });
                        assert!(torch.dependencies(hardware()).is_ok());
                        assert!(torch.install(config(), target).is_ok());
                        assert!(torch.activate(config(), target).unwrap().libraries.is_ok());
                    }
                }
            }
        }
    }
}
