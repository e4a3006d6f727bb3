use koharu::runtime::target::{Arch, Os, Platform, Target};
use koharu::runtime::torch::TorchError;
use koharu::{RuntimeConfig, Torch, TorchSource};

const WINDOWS: Target = Target { os: Os::Windows, arch: Arch::X86_64 };
const WINDOWS_ARM: Target = Target { os: Os::Windows, arch: Arch::Aarch64 };
const LINUX: Target = Target { os: Os::Linux, arch: Arch::X86_64 };
const LINUX_ARM: Target = Target { os: Os::Linux, arch: Arch::Aarch64 };
const MACOS: Target = Target { os: Os::Macos, arch: Arch::Aarch64 };
const MACOS_INTEL: Target = Target { os: Os::Macos, arch: Arch::X86_64 };
const OTHER: Target = Target { os: Os::Other, arch: Arch::X86_64 };

fn joined(torch: Torch, source: TorchSource, target: Target) -> String {
    torch.library_names(source, target).unwrap().join(",")
}

#[test]
fn bundled_cpu_libraries() {
    assert_eq!(
        joined(Torch::Cpu, TorchSource::Bundled, WINDOWS),
        "libiomp5md.dll,c10.dll,torch_global_deps.dll,torch_cpu.dll,torch.dll,koharu-torch.dll"
    );
    assert_eq!(
        joined(Torch::Cpu, TorchSource::Bundled, LINUX),
        "libgomp.so.1,libc10.so,libtorch_global_deps.so,libtorch_cpu.so,libtorch.so,libkoharu-torch.so"
    );
    assert_eq!(
        joined(Torch::Cpu, TorchSource::Bundled, MACOS),
        "libtorch.dylib,libtorch_global_deps.dylib,libtorch_cpu.dylib,libc10.dylib,libkoharu-torch.dylib"
    );
}

#[test]
fn official_cpu_libraries() {
    assert_eq!(
        joined(Torch::Cpu, TorchSource::Official, WINDOWS),
        "libiomp5md.dll,libiompstubs5md.dll,uv.dll,c10.dll,torch_global_deps.dll,torch_cpu.dll,shm.dll,torch.dll"
    );
    assert_eq!(
        joined(Torch::Cpu, TorchSource::Official, LINUX),
        "libgomp.so.1,libc10.so,libshm.so,libtorch_global_deps.so,libtorch_cpu.so,libtorch.so"
    );
    assert_eq!(
        joined(Torch::Cpu, TorchSource::Official, MACOS),
        "libtorch.dylib,libshm.dylib,libtorch_global_deps.dylib,libtorch_cpu.dylib,libc10.dylib,libomp.dylib"
    );
}

#[test]
fn bundled_cuda_libraries() {
    assert_eq!(
        joined(Torch::Cuda, TorchSource::Bundled, WINDOWS),
        "c10.dll,c10_cuda.dll,caffe2_nvrtc.dll,torch_global_deps.dll,torch_cpu.dll,torch_cuda.dll,torch.dll,koharu-torch.dll"
    );
    assert_eq!(
        joined(Torch::Cuda, TorchSource::Bundled, LINUX),
        "libc10.so,libc10_cuda.so,libcaffe2_nvrtc.so,libtorch_global_deps.so,libtorch_cpu.so,libtorch_cuda.so,libtorch.so,libkoharu-torch.so"
    );
}

#[test]
fn official_cuda_libraries() {
    assert_eq!(
        joined(Torch::Cuda, TorchSource::Official, WINDOWS),
        "libiomp5md.dll,libiompstubs5md.dll,zlibwapi.dll,uv.dll,c10.dll,c10_cuda.dll,caffe2_nvrtc.dll,torch_global_deps.dll,torch_cpu.dll,torch_cuda.dll,shm.dll,torch.dll"
    );
    assert_eq!(
        joined(Torch::Cuda, TorchSource::Official, LINUX),
        "libgomp.so.1,libc10.so,libc10_cuda.so,libcaffe2_nvrtc.so,libshm.so,libtorch_global_deps.so,libtorch_cpu.so,libtorch_cuda.so,libtorch_nvshmem.so,libtorch_cuda_linalg.so,libtorch.so"
    );
}

#[test]
fn bundled_rocm_libraries() {
    assert_eq!(
        joined(Torch::Rocm, TorchSource::Bundled, WINDOWS),
        "c10.dll,c10_hip.dll,caffe2_nvrtc.dll,torch_global_deps.dll,torch_cpu.dll,torch_hip.dll,torch.dll,koharu-torch.dll"
    );
    assert_eq!(
        joined(Torch::Rocm, TorchSource::Bundled, LINUX),
        "libc10.so,libc10_hip.so,libcaffe2_nvrtc.so,libtorch_global_deps.so,libtorch_cpu.so,libtorch_hip.so,libtorch.so,libkoharu-torch.so"
    );
}

#[test]
fn libraries_do_not_depend_on_the_architecture() {
    for torch in [Torch::Cpu, Torch::Cuda, Torch::Rocm] {
        for (one, two) in [(WINDOWS, WINDOWS_ARM), (LINUX, LINUX_ARM)] {
            let source = TorchSource::Bundled;
            assert_eq!(joined(torch, source, one), joined(torch, source, two));
        }
    }
}

#[test]
fn missing_libraries_are_reported() {
    let source = TorchSource::Official;
    let error = Torch::Rocm.library_names(source, LINUX).unwrap_err();
    let expected = TorchError::NoLibraries { torch: Torch::Rocm, source, platform: Platform::Linux };
    assert_eq!(error, expected);
    assert_eq!(error.message(), "Torch hip has no official_linux libraries");
    let error = Torch::Rocm.library_names(source, WINDOWS).unwrap_err();
    assert_eq!(error.message(), "Torch hip has no official_windows libraries");
    let error = Torch::Cuda.library_names(TorchSource::Bundled, MACOS).unwrap_err();
    assert_eq!(error.message(), "Torch cuda has no macos libraries");
    let error = Torch::Cuda.library_names(source, MACOS).unwrap_err();
    assert_eq!(error.message(), "Torch cuda has no official_macos libraries");
}

#[test]
fn unsupported_targets_have_no_libraries() {
    for target in [MACOS_INTEL, OTHER] {
        for source in [TorchSource::Bundled, TorchSource::Official] {
            let error = Torch::Cpu.library_names(source, target).unwrap_err();
            assert_eq!(error, TorchError::NoPlatform);
            assert_eq!(error.message(), "Torch does not support this target");
        }
        assert_eq!(Torch::Cuda.platform_property(target), Err(TorchError::NoPlatform));
    }
}

#[test]
fn platforms_have_names() {
    assert_eq!(Torch::Cpu.platform_property(WINDOWS), Ok("windows"));
    assert_eq!(Torch::Cpu.platform_property(WINDOWS_ARM), Ok("windows"));
    assert_eq!(Torch::Cuda.platform_property(LINUX_ARM), Ok("linux"));
    assert_eq!(Torch::Rocm.platform_property(MACOS), Ok("macos"));
}

#[test]
fn builds_have_names() {
    assert_eq!(Torch::Cpu.name(Os::Macos), "metal");
    assert_eq!(Torch::Cpu.name(Os::Linux), "cpu");
    assert_eq!(Torch::Cuda.name(Os::Windows), "cuda");
    assert_eq!(Torch::Rocm.name(Os::Linux), "hip");
}

#[test]
fn official_wheels() {
    let url = |torch: Torch, target: Target| torch.official_urls(target).unwrap();
    assert_eq!(
        url(Torch::Cpu, WINDOWS),
        ["https://download.pytorch.org/whl/cpu/torch-2.13.0%2Bcpu-cp312-cp312-win_amd64.whl"]
    );
    assert_eq!(
        url(Torch::Cuda, WINDOWS),
        ["https://download.pytorch.org/whl/cu130/torch-2.13.0%2Bcu130-cp312-cp312-win_amd64.whl"]
    );
    assert_eq!(
        url(Torch::Cuda, LINUX),
        ["https://download.pytorch.org/whl/cu130/torch-2.13.0%2Bcu130-cp312-cp312-manylinux_2_28_x86_64.whl"]
    );
    assert_eq!(
        url(Torch::Cpu, LINUX_ARM),
        ["https://download.pytorch.org/whl/cpu/torch-2.13.0%2Bcpu-cp312-cp312-manylinux_2_28_aarch64.whl"]
    );
    assert_eq!(
        url(Torch::Cpu, MACOS),
        ["https://download.pytorch.org/whl/cpu/torch-2.13.0-cp312-cp312-macosx_14_0_arm64.whl"]
    );
}

#[test]
fn missing_wheels_are_reported() {
    for target in [WINDOWS, LINUX, MACOS, OTHER] {
        let error = Torch::Rocm.official_urls(target).unwrap_err();
        assert_eq!(error, TorchError::NoRocmWheels);
        assert_eq!(error.message(), "official Torch wheels are not published for ROCm");
    }
    let error = Torch::Cuda.official_urls(MACOS).unwrap_err();
    assert_eq!(error, TorchError::NoWheel { torch: Torch::Cuda, os: Os::Macos });
    assert_eq!(error.message(), "Torch cuda has no official wheel for this target");
    let error = Torch::Cpu.official_urls(MACOS_INTEL).unwrap_err();
    assert_eq!(error.message(), "Torch metal has no official wheel for this target");
    let error = Torch::Cpu.official_urls(WINDOWS_ARM).unwrap_err();
    assert_eq!(error.message(), "Torch cpu has no official wheel for this target");
}

#[test]
fn bundled_assets() {
    let asset = |torch: Torch, target: Target| torch.asset(target).unwrap();
    assert_eq!(asset(Torch::Cuda, WINDOWS), "x86_64-pc-windows-msvc-cuda.tar.gz");
    assert_eq!(asset(Torch::Rocm, LINUX), "x86_64-unknown-linux-gnu-hip.tar.gz");
    assert_eq!(asset(Torch::Cpu, LINUX), "x86_64-unknown-linux-gnu-cpu.tar.gz");
    assert_eq!(asset(Torch::Cuda, LINUX_ARM), "aarch64-unknown-linux-gnu-cuda.tar.gz");
    assert_eq!(asset(Torch::Cpu, MACOS), "aarch64-apple-darwin-metal.tar.gz");
}

#[test]
fn missing_assets_are_reported() {
    let error = Torch::Cuda.asset(WINDOWS_ARM).unwrap_err();
    assert_eq!(error, TorchError::NoAsset { torch: Torch::Cuda, os: Os::Windows });
    assert_eq!(error.message(), "Torch cuda does not support this target");
    let error = Torch::Cpu.asset(MACOS_INTEL).unwrap_err();
    assert_eq!(error.message(), "Torch metal does not support this target");
    assert!(Torch::Rocm.asset(OTHER).is_err());
}

#[test]
fn assets_of_a_target_differ() {
    for target in [WINDOWS, LINUX, LINUX_ARM, MACOS] {
        let assets = [Torch::Cpu, Torch::Cuda, Torch::Rocm].map(|t| t.asset(target).unwrap());
        assert_ne!(assets[0], assets[1]);
        assert_ne!(assets[0], assets[2]);
        assert_ne!(assets[1], assets[2]);
    }
}

#[test]
fn rocm_falls_back_to_the_bundled_build() {
    let resolve = |torch: Torch, torch_source: TorchSource| {
        torch.source(Ok::<_, String>(RuntimeConfig { torch_source })).unwrap()
    };
    assert_eq!(resolve(Torch::Rocm, TorchSource::Official), TorchSource::Bundled);
    assert_eq!(resolve(Torch::Rocm, TorchSource::Bundled), TorchSource::Bundled);
    for torch in [Torch::Cpu, Torch::Cuda] {
        assert_eq!(resolve(torch, TorchSource::Official), TorchSource::Official);
        assert_eq!(resolve(torch, TorchSource::Bundled), TorchSource::Bundled);
    }
}

#[test]
fn no_source_without_a_configuration() {
    for torch in [Torch::Cpu, Torch::Cuda, Torch::Rocm] {
        assert_eq!(torch.source(Err("unreadable")), Err("unreadable"));
    }
}

#[test]
fn paths_of_libraries() {
    let bundled = Torch::Cpu.library_paths(TorchSource::Bundled, MACOS).unwrap();
    assert_eq!(
        bundled,
        ["libtorch.dylib", "libtorch_global_deps.dylib", "libtorch_cpu.dylib", "libc10.dylib", "libkoharu-torch.dylib"]
    );
    let official = Torch::Cpu.library_paths(TorchSource::Official, LINUX).unwrap();
    assert_eq!(official.len(), 6);
    assert_eq!(official[0], "libtorch/lib/libgomp.so.1");
    assert_eq!(official[5], "libtorch/lib/libtorch.so");
    let error = Torch::Cpu.library_paths(TorchSource::Official, OTHER).unwrap_err();
    assert_eq!(error, TorchError::NoPlatform);
}

#[test]
fn only_official_cpu_builds_need_headers() {
    let header = "libtorch/include/torch/csrc/api/include/torch/torch.h".to_string();
    let files = |torch: Torch, source: TorchSource| torch.required_files(source, LINUX).unwrap();
    let official = files(Torch::Cpu, TorchSource::Official);
    assert_eq!(official.len(), 7);
    assert_eq!(official[6], header);
    assert!(!files(Torch::Cpu, TorchSource::Bundled).contains(&header));
    assert!(!files(Torch::Cuda, TorchSource::Official).contains(&header));
    assert_eq!(files(Torch::Cuda, TorchSource::Official).len(), 11);
}

#[test]
fn package_is_complete_with_all_its_files() {
    for (torch, source) in [
        (Torch::Cpu, TorchSource::Bundled),
        (Torch::Cpu, TorchSource::Official),
        (Torch::Cuda, TorchSource::Official),
        (Torch::Rocm, TorchSource::Bundled),
    ] {
        let mut files = torch.required_files(source, LINUX).unwrap();
        assert!(torch.complete(source, LINUX, &files));
        files.insert(0, "unrelated".to_string());
        assert!(torch.complete(source, LINUX, &files));
        for at in 1..files.len() {
            let mut fewer = files.clone();
            fewer.remove(at);
            assert!(!torch.complete(source, LINUX, &fewer));
        }
    }
}

#[test]
fn package_that_does_not_exist_is_never_complete() {
    let files = vec!["libtorch.dylib".to_string()];
    assert!(!Torch::Cuda.complete(TorchSource::Bundled, MACOS, &files));
    assert!(!Torch::Rocm.complete(TorchSource::Official, LINUX, &Vec::new()));
    assert!(!Torch::Cpu.complete(TorchSource::Bundled, OTHER, &Vec::new()));
}

#[test]
fn load_order() {
    let first = |target| Torch::Cpu.library_names(TorchSource::Bundled, target).unwrap()[0];
    assert_eq!(first(MACOS), "libtorch.dylib");
    let official = Torch::Cpu.library_names(TorchSource::Official, MACOS).unwrap();
    assert_eq!(official[0], "libtorch.dylib");
    for torch in [Torch::Cpu, Torch::Cuda, Torch::Rocm] {
        let names = torch.library_names(TorchSource::Bundled, WINDOWS).unwrap();
        assert_eq!(names[names.len() - 2..], ["torch.dll", "koharu-torch.dll"]);
        let names = torch.library_names(TorchSource::Bundled, LINUX).unwrap();
        assert_eq!(names[names.len() - 2..], ["libtorch.so", "libkoharu-torch.so"]);
    }
    for torch in [Torch::Cpu, Torch::Cuda] {
        let names = torch.library_names(TorchSource::Official, LINUX).unwrap();
        assert_eq!(names.last(), Some(&"libtorch.so"));
    }
}

#[test]
fn no_library_is_listed_twice() {
    for torch in [Torch::Cpu, Torch::Cuda, Torch::Rocm] {
        for source in [TorchSource::Bundled, TorchSource::Official] {
            for target in [WINDOWS, LINUX, MACOS] {
                if let Ok(names) = torch.library_names(source, target) {
                    for (at, name) in names.iter().enumerate() {
                        assert!(!names[..at].contains(name));
                    }
                }
            }
        }
    }
}
