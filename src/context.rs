//! Choosing the adapter to open a device on.
use gfx_hal::adapter::DeviceType;
use vstd::prelude::*;

verus! {

#[verifier::external_type_specification]
pub struct ExDeviceType(DeviceType);

/// An adapter that the instance enumerated: its kind, and whether one of its
/// queue families is graphics-capable and can present to the target surface.
#[derive(Debug)]
pub struct AdapterCandidate {
    pub device_type: DeviceType,
    pub supports_surface: bool,
}

/// Preference rank of an adapter kind, lower is better: discrete GPU, then
/// integrated, then virtual, then CPU, then any other.
pub open spec fn rank(t: DeviceType) -> nat {
    match t {
        DeviceType::DiscreteGpu => 0,
        DeviceType::IntegratedGpu => 1,
        DeviceType::VirtualGpu => 2,
        DeviceType::Cpu => 3,
        DeviceType::Other => 4,
    }
}

fn device_rank(t: &DeviceType) -> (r: u8)
    ensures
        r as nat == rank(*t),
{
    match t {
        DeviceType::DiscreteGpu => 0,
        DeviceType::IntegratedGpu => 1,
        DeviceType::VirtualGpu => 2,
        DeviceType::Cpu => 3,
        DeviceType::Other => 4,
    }
}

/// Candidate `k` is usable and ranks strictly better than every usable
/// candidate before it and no worse than every usable candidate after it.
pub open spec fn is_preferred(adapters: Seq<AdapterCandidate>, k: int) -> bool {
    &&& 0 <= k < adapters.len()
    &&& adapters[k].supports_surface
    &&& forall|j: int|
        0 <= j < adapters.len() && #[trigger] adapters[j].supports_surface ==> (if j < k {
            rank(adapters[k].device_type) < rank(adapters[j].device_type)
        } else {
            rank(adapters[k].device_type) <= rank(adapters[j].device_type)
        })
}

/// The index of the adapter to use: among those that can present to the
/// surface, the best-ranked kind, the first in enumeration order among equals;
/// `None` where no adapter can present to the surface.
pub fn get_preferred_adapter(adapters: &[AdapterCandidate]) -> (r: Option<usize>)
    ensures
        r matches Some(k) ==> is_preferred(adapters@, k as int),
        r is None <==> forall|j: int| 0 <= j < adapters@.len() ==> !(#[trigger] adapters@[j]).supports_surface,
{
    let n = adapters.len();
    let mut best: Option<usize> = None;
    let mut best_rank: u8 = 0;
    let mut i: usize = 0;
    while i < n
        invariant
            n == adapters@.len(),
            i <= n,
            best is None <==> forall|j: int| 0 <= j < i ==> !(#[trigger] adapters@[j]).supports_surface,
            best matches Some(k) ==> {
                &&& k < i
                &&& adapters@[k as int].supports_surface
                &&& best_rank as nat == rank(adapters@[k as int].device_type)
                &&& forall|j: int|
                    0 <= j < i && #[trigger] adapters@[j].supports_surface ==> (if j < k {
                        rank(adapters@[k as int].device_type) < rank(adapters@[j].device_type)
                    } else {
                        rank(adapters@[k as int].device_type) <= rank(adapters@[j].device_type)
                    })
            },
        decreases n - i,
    {
        let a = &adapters[i];
        if a.supports_surface {
            let r = device_rank(&a.device_type);
            match best {
                None => {
                    best = Some(i);
                    best_rank = r;
                },
                Some(_) => if r < best_rank {
                    best = Some(i);
                    best_rank = r;
                },
            }
        }
        i = i + 1;
    }
    best
}

} // verus!
