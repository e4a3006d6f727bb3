//! The shared libraries of each Torch build, in the order in which they are
//! loaded.
use vstd::prelude::*;

use crate::runtime::config::TorchSource;
use crate::runtime::target::Platform;
use crate::runtime::torch::Torch;

verus! {

/// The libraries of a build, in load order; nothing where there is no such
/// build. On macOS the root library comes first, so that the loader resolves
/// the weak C++ symbols of Torch inside one private image group.
pub open spec fn libraries_of(torch: Torch, source: TorchSource, platform: Platform) -> Option<
    Seq<Seq<char>>,
> {
    match (torch, source, platform) {
        (Torch::Cpu, TorchSource::Bundled, Platform::Windows) => Some(
            seq![
                "libiomp5md.dll"@,
                "c10.dll"@,
                "torch_global_deps.dll"@,
                "torch_cpu.dll"@,
                "torch.dll"@,
                "koharu-torch.dll"@,
            ],
        ),
        (Torch::Cpu, TorchSource::Bundled, Platform::Linux) => Some(
            seq![
                "libgomp.so.1"@,
                "libc10.so"@,
                "libtorch_global_deps.so"@,
                "libtorch_cpu.so"@,
                "libtorch.so"@,
                "libkoharu-torch.so"@,
            ],
        ),
        (Torch::Cpu, TorchSource::Bundled, Platform::Macos) => Some(
            seq![
                "libtorch.dylib"@,
                "libtorch_global_deps.dylib"@,
                "libtorch_cpu.dylib"@,
                "libc10.dylib"@,
                "libkoharu-torch.dylib"@,
            ],
        ),
        (Torch::Cpu, TorchSource::Official, Platform::Windows) => Some(
            seq![
                "libiomp5md.dll"@,
                "libiompstubs5md.dll"@,
                "uv.dll"@,
                "c10.dll"@,
                "torch_global_deps.dll"@,
                "torch_cpu.dll"@,
                "shm.dll"@,
                "torch.dll"@,
            ],
        ),
        (Torch::Cpu, TorchSource::Official, Platform::Linux) => Some(
            seq![
                "libgomp.so.1"@,
                "libc10.so"@,
                "libshm.so"@,
                "libtorch_global_deps.so"@,
                "libtorch_cpu.so"@,
                "libtorch.so"@,
            ],
        ),
        (Torch::Cpu, TorchSource::Official, Platform::Macos) => Some(
            seq![
                "libtorch.dylib"@,
                "libshm.dylib"@,
                "libtorch_global_deps.dylib"@,
                "libtorch_cpu.dylib"@,
                "libc10.dylib"@,
                "libomp.dylib"@,
            ],
        ),
        (Torch::Cuda, TorchSource::Bundled, Platform::Windows) => Some(
            seq![
                "c10.dll"@,
                "c10_cuda.dll"@,
                "caffe2_nvrtc.dll"@,
                "torch_global_deps.dll"@,
                "torch_cpu.dll"@,
                "torch_cuda.dll"@,
                "torch.dll"@,
                "koharu-torch.dll"@,
            ],
        ),
        (Torch::Cuda, TorchSource::Bundled, Platform::Linux) => Some(
            seq![
                "libc10.so"@,
                "libc10_cuda.so"@,
                "libcaffe2_nvrtc.so"@,
                "libtorch_global_deps.so"@,
                "libtorch_cpu.so"@,
                "libtorch_cuda.so"@,
                "libtorch.so"@,
                "libkoharu-torch.so"@,
            ],
        ),
        (Torch::Cuda, TorchSource::Official, Platform::Windows) => Some(
            seq![
                "libiomp5md.dll"@,
                "libiompstubs5md.dll"@,
                "zlibwapi.dll"@,
                "uv.dll"@,
                "c10.dll"@,
                "c10_cuda.dll"@,
                "caffe2_nvrtc.dll"@,
                "torch_global_deps.dll"@,
                "torch_cpu.dll"@,
                "torch_cuda.dll"@,
                "shm.dll"@,
                "torch.dll"@,
            ],
        ),
        (Torch::Cuda, TorchSource::Official, Platform::Linux) => Some(
            seq![
                "libgomp.so.1"@,
                "libc10.so"@,
                "libc10_cuda.so"@,
                "libcaffe2_nvrtc.so"@,
                "libshm.so"@,
                "libtorch_global_deps.so"@,
                "libtorch_cpu.so"@,
                "libtorch_cuda.so"@,
                "libtorch_nvshmem.so"@,
                "libtorch_cuda_linalg.so"@,
                "libtorch.so"@,
            ],
        ),
        (Torch::Rocm, TorchSource::Bundled, Platform::Windows) => Some(
            seq![
                "c10.dll"@,
                "c10_hip.dll"@,
                "caffe2_nvrtc.dll"@,
                "torch_global_deps.dll"@,
                "torch_cpu.dll"@,
                "torch_hip.dll"@,
                "torch.dll"@,
                "koharu-torch.dll"@,
            ],
        ),
        (Torch::Rocm, TorchSource::Bundled, Platform::Linux) => Some(
            seq![
                "libc10.so"@,
                "libc10_hip.so"@,
                "libcaffe2_nvrtc.so"@,
                "libtorch_global_deps.so"@,
                "libtorch_cpu.so"@,
                "libtorch_hip.so"@,
                "libtorch.so"@,
                "libkoharu-torch.so"@,
            ],
        ),
        _ => None,
    }
}

/// The libraries of a build, in load order.
pub fn libraries(torch: Torch, source: TorchSource, platform: Platform) -> (names: Option<
    Vec<&'static str>,
>)
    ensures
        match libraries_of(torch, source, platform) {
            Some(expected) => names matches Some(n) && crate::text::slices_spell(n@, expected),
            None => names is None,
        },
{
    match (torch, source, platform) {
        (Torch::Cpu, TorchSource::Bundled, Platform::Windows) => Some(
            vec![
                "libiomp5md.dll",
                "c10.dll",
                "torch_global_deps.dll",
                "torch_cpu.dll",
                "torch.dll",
                "koharu-torch.dll",
            ],
        ),
        (Torch::Cpu, TorchSource::Bundled, Platform::Linux) => Some(
            vec![
                "libgomp.so.1",
                "libc10.so",
                "libtorch_global_deps.so",
                "libtorch_cpu.so",
                "libtorch.so",
                "libkoharu-torch.so",
            ],
        ),
        (Torch::Cpu, TorchSource::Bundled, Platform::Macos) => Some(
            vec![
                "libtorch.dylib",
                "libtorch_global_deps.dylib",
                "libtorch_cpu.dylib",
                "libc10.dylib",
                "libkoharu-torch.dylib",
            ],
        ),
        (Torch::Cpu, TorchSource::Official, Platform::Windows) => Some(
            vec![
                "libiomp5md.dll",
                "libiompstubs5md.dll",
                "uv.dll",
                "c10.dll",
                "torch_global_deps.dll",
                "torch_cpu.dll",
                "shm.dll",
                "torch.dll",
            ],
        ),
        (Torch::Cpu, TorchSource::Official, Platform::Linux) => Some(
            vec![
                "libgomp.so.1",
                "libc10.so",
                "libshm.so",
                "libtorch_global_deps.so",
                "libtorch_cpu.so",
                "libtorch.so",
            ],
        ),
        (Torch::Cpu, TorchSource::Official, Platform::Macos) => Some(
            vec![
                "libtorch.dylib",
                "libshm.dylib",
                "libtorch_global_deps.dylib",
                "libtorch_cpu.dylib",
                "libc10.dylib",
                "libomp.dylib",
            ],
        ),
        (Torch::Cuda, TorchSource::Bundled, Platform::Windows) => Some(
            vec![
                "c10.dll",
                "c10_cuda.dll",
                "caffe2_nvrtc.dll",
                "torch_global_deps.dll",
                "torch_cpu.dll",
                "torch_cuda.dll",
                "torch.dll",
                "koharu-torch.dll",
            ],
        ),
        (Torch::Cuda, TorchSource::Bundled, Platform::Linux) => Some(
            vec![
                "libc10.so",
                "libc10_cuda.so",
                "libcaffe2_nvrtc.so",
                "libtorch_global_deps.so",
                "libtorch_cpu.so",
                "libtorch_cuda.so",
                "libtorch.so",
                "libkoharu-torch.so",
            ],
        ),
        (Torch::Cuda, TorchSource::Official, Platform::Windows) => Some(
            vec![
                "libiomp5md.dll",
                "libiompstubs5md.dll",
                "zlibwapi.dll",
                "uv.dll",
                "c10.dll",
                "c10_cuda.dll",
                "caffe2_nvrtc.dll",
                "torch_global_deps.dll",
                "torch_cpu.dll",
                "torch_cuda.dll",
                "shm.dll",
                "torch.dll",
            ],
        ),
        (Torch::Cuda, TorchSource::Official, Platform::Linux) => Some(
            vec![
                "libgomp.so.1",
                "libc10.so",
                "libc10_cuda.so",
                "libcaffe2_nvrtc.so",
                "libshm.so",
                "libtorch_global_deps.so",
                "libtorch_cpu.so",
                "libtorch_cuda.so",
                "libtorch_nvshmem.so",
                "libtorch_cuda_linalg.so",
                "libtorch.so",
            ],
        ),
        (Torch::Rocm, TorchSource::Bundled, Platform::Windows) => Some(
            vec![
                "c10.dll",
                "c10_hip.dll",
                "caffe2_nvrtc.dll",
                "torch_global_deps.dll",
                "torch_cpu.dll",
                "torch_hip.dll",
                "torch.dll",
                "koharu-torch.dll",
            ],
        ),
        (Torch::Rocm, TorchSource::Bundled, Platform::Linux) => Some(
            vec![
                "libc10.so",
                "libc10_hip.so",
                "libcaffe2_nvrtc.so",
                "libtorch_global_deps.so",
                "libtorch_cpu.so",
                "libtorch_hip.so",
                "libtorch.so",
                "libkoharu-torch.so",
            ],
        ),
        _ => None,
    }
}

} // verus!
