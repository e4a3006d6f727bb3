//! Which Torch build suits a machine, and what that build depends on.
use vstd::prelude::*;

use crate::runtime::target::{Arch, Os, Target};
use crate::runtime::torch::Torch;

verus! {

/// The name of the package.
pub const PACKAGE_NAME: &'static str = "Torch";

/// The CUDA packages that Torch depends on.
#[derive(Clone, Copy, Debug, PartialEq, Eq, Structural)]
pub enum Cuda {
    Runtime13,
    JitLink13,
    Rtc13,
    Blas13,
    Fft12,
    Rand10,
    Sparse12,
    Solver12,
    Dnn920,
}

/// A package that another one depends on. `R` is the type of ROCm packages.
#[derive(Debug)]
pub enum Component<R> {
    Cuda(Cuda),
    Rocm(R),
}

/// What is known of a machine's hardware: which accelerators it supports, and
/// the ROCm package that was discovered for it, or why there is none.
#[derive(Debug)]
pub struct Hardware<R, E> {
    pub metal: bool,
    pub cuda: bool,
    pub rocm: bool,
    pub rocm_package: Result<R, E>,
}

/// Whether builds for several accelerators exist for a target.
pub open spec fn has_every_build(target: Target) -> bool {
    target.arch == Arch::X86_64 && (target.os == Os::Windows || target.os == Os::Linux)
}

/// The build that suits a machine. Metal comes first. Linux on ARM takes CUDA
/// or nothing. Where every build exists, CUDA comes before ROCm, ROCm is taken
/// only where a package for it was discovered, and the CPU is left otherwise.
pub open spec fn discovered<R, E>(hardware: Hardware<R, E>, target: Target) -> Option<Torch> {
    if hardware.metal {
        Some(Torch::Cpu)
    } else if target.os == Os::Linux && target.arch == Arch::Aarch64 {
        if hardware.cuda {
            Some(Torch::Cuda)
        } else {
            None
        }
    } else if !has_every_build(target) {
        None
    } else if hardware.cuda {
        Some(Torch::Cuda)
    } else if hardware.rocm && hardware.rocm_package is Ok {
        Some(Torch::Rocm)
    } else {
        Some(Torch::Cpu)
    }
}

/// The CUDA packages that Torch depends on, in order.
pub open spec fn cuda_packages() -> Seq<Cuda> {
    seq![
        Cuda::Runtime13,
        Cuda::JitLink13,
        Cuda::Rtc13,
        Cuda::Blas13,
        Cuda::Fft12,
        Cuda::Rand10,
        Cuda::Sparse12,
        Cuda::Solver12,
        Cuda::Dnn920,
    ]
}

/// What a build depends on. Only that of ROCm rests on the machine, and only it
/// can fail, with the reason why no ROCm package was discovered.
pub open spec fn dependencies_of<R, E>(torch: Torch, hardware: Hardware<R, E>) -> Result<
    Seq<Component<R>>,
    E,
> {
    match torch {
        Torch::Cpu => Ok(Seq::empty()),
        Torch::Rocm => match hardware.rocm_package {
            Ok(package) => Ok(seq![Component::Rocm(package)]),
            Err(error) => Err(error),
        },
        Torch::Cuda => Ok(cuda_packages().map_values(|package: Cuda| Component::<R>::Cuda(package))),
    }
}

impl Torch {
    /// Finds the build that suits a machine.
    pub fn discover<R, E>(hardware: &Hardware<R, E>, target: Target) -> (torch: Option<Self>)
        ensures
            torch == discovered(*hardware, target),
    {
        if hardware.metal {
            return Some(Torch::Cpu);
        }
        if target.os == Os::Linux && target.arch == Arch::Aarch64 {
            return if hardware.cuda {
                Some(Torch::Cuda)
            } else {
                None
            };
        }
        if target.arch != Arch::X86_64 || (target.os != Os::Windows && target.os != Os::Linux) {
            return None;
        }
        if hardware.cuda {
            return Some(Torch::Cuda);
        }
        if hardware.rocm && hardware.rocm_package.is_ok() {
            return Some(Torch::Rocm);
        }
        Some(Torch::Cpu)
    }

    /// The packages that the build depends on.
    pub fn dependencies<R, E>(self, hardware: Hardware<R, E>) -> (components: Result<
        Vec<Component<R>>,
        E,
    >)
        ensures
            (match components {
                Ok(c) => Ok(c@),
                Err(error) => Err(error),
            }) == dependencies_of(self, hardware),
    {
        match self {
            Torch::Cpu => Ok(Vec::new()),
            Torch::Rocm => match hardware.rocm_package {
                Ok(package) => {
                    let mut components: Vec<Component<R>> = Vec::new();
                    components.push(Component::Rocm(package));
                    assert(components@ =~= seq![Component::Rocm(package)]);
                    Ok(components)
                },
                Err(error) => Err(error),
            },
            Torch::Cuda => {
                let packages: [Cuda; 9] = [
                    Cuda::Runtime13,
                    Cuda::JitLink13,
                    Cuda::Rtc13,
                    Cuda::Blas13,
                    Cuda::Fft12,
                    Cuda::Rand10,
                    Cuda::Sparse12,
                    Cuda::Solver12,
                    Cuda::Dnn920,
                ];
                assert(packages@ =~= cuda_packages());
                let mut components: Vec<Component<R>> = Vec::new();
                let mut at: usize = 0;
                while at < 9
                    invariant
                        at <= 9,
                        packages@ == cuda_packages(),
                        components@.len() == at,
                        forall|i: int|
                            0 <= i < at ==> (#[trigger] components@[i]) == Component::<R>::Cuda(
                                cuda_packages()[i],
                            ),
                    decreases 9 - at,
                {
                    components.push(Component::Cuda(packages[at]));
                    at += 1;
                }
                assert(components@ =~= cuda_packages().map_values(
                    |package: Cuda| Component::<R>::Cuda(package),
                ));
                Ok(components)
            },
        }
    }
}

} // verus!
