use vstd::prelude::*;

use crate::error::SetupError;
use crate::extensions::{
    check_extensions_supported, get_device_extension_names, offers_all,
    required_device_extensions,
};
use crate::swapchain::SwapChainSupportDetails;

verus! {

/// Raw value of `VK_QUEUE_GRAPHICS_BIT`.
pub const QUEUE_GRAPHICS_BIT: u32 = 1;


/// `i` is the first queue family that can present to the surface.
pub open spec fn is_first_present(support: Seq<bool>, i: int) -> bool {
    &&& 0 <= i < support.len()
    &&& support[i]
    &&& forall|j: int| 0 <= j < i ==> !(#[trigger] support[j])
}

/// The queue families an adapter uses for drawing and for presenting.
#[derive(Clone, Copy, Debug, PartialEq, Eq, Structural)]
pub struct QueueFamilyIndicies {
    /// The graphics queue family index, if one is available
    pub graphics_family: Option<usize>,
    /// The family able to present to the surface, if one is available
    pub present_family: Option<usize>,
}

impl QueueFamilyIndicies {
    pub open spec fn spec_is_complete(&self) -> bool {
        self.graphics_family.is_some() && self.present_family.is_some()
    }

    /// True if all queue families are available for this physical device.
    pub fn is_complete(&self) -> (r: bool)
        ensures
            r == self.spec_is_complete(),
    {
        self.graphics_family.is_some() && self.present_family.is_some()
    }

    /// The graphics and present family indices, or which of them is missing.
    pub fn require_complete(&self) -> (r: Result<(usize, usize), SetupError>)
        ensures
            match self.graphics_family {
                None => r == Err::<(usize, usize), SetupError>(SetupError::NoGraphicsQueue),
                Some(g) => match self.present_family {
                    None => r == Err::<(usize, usize), SetupError>(SetupError::NoPresentQueue),
                    Some(p) => r == Ok::<(usize, usize), SetupError>((g, p)),
                },
            },
    {
        match self.graphics_family {
            None => Err(SetupError::NoGraphicsQueue),
            Some(g) => match self.present_family {
                None => Err(SetupError::NoPresentQueue),
                Some(p) => Ok((g, p)),
            },
        }
    }

    pub open spec fn spec_unique_families(&self) -> Seq<usize> {
        let g = self.graphics_family.unwrap();
        let p = self.present_family.unwrap();
        if g == p {
            seq![g]
        } else {
            seq![g, p]
        }
    }

    /// The distinct families to create queues on: the graphics family, then the present
    /// family when it differs.
    pub fn unique_queue_families(&self) -> (r: Vec<usize>)
        requires
            self.spec_is_complete(),
        ensures
            r@ == self.spec_unique_families(),
    {
        let g = self.graphics_family.unwrap();
        let p = self.present_family.unwrap();
        let mut families: Vec<usize> = Vec::new();
        families.push(g);
        if g != p {
            families.push(p);
        }
        assert(families@ =~= self.spec_unique_families());
        families
    }
}

/// Finds the first queue family that accepts draw commands and the first that can present,
/// from each family's raw queue flags and whether it supports presenting to the surface.
pub fn find_queue_families(queue_flags: &Vec<u32>, present_support: &Vec<bool>) -> (r:
    QueueFamilyIndicies)
    ensures
        match r.graphics_family {
            Some(i) => is_first_with(queue_flags@, QUEUE_GRAPHICS_BIT, i as int),
            None => forall|j: int|
                0 <= j < queue_flags@.len() ==> !has_flag(
                    #[trigger] queue_flags@[j],
                    QUEUE_GRAPHICS_BIT,
                ),
        },
        match r.present_family {
            Some(i) => is_first_present(present_support@, i as int),
            None => forall|j: int| 0 <= j < present_support@.len() ==> !(#[trigger] present_support@[j]),
        },
{
    QueueFamilyIndicies {
        graphics_family: queue_family_index_for(queue_flags, QUEUE_GRAPHICS_BIT),
        present_family: first_present_family(present_support),
    }
}

pub open spec fn has_flag(flags: u32, flag: u32) -> bool {
    flags & flag == flag
}

/// `i` is the first queue family whose flags contain `flag`.
pub open spec fn is_first_with(queue_flags: Seq<u32>, flag: u32, i: int) -> bool {
    &&& 0 <= i < queue_flags.len()
    &&& has_flag(queue_flags[i], flag)
    &&& forall|j: int| 0 <= j < i ==> !has_flag(#[trigger] queue_flags[j], flag)
}

/// The first queue family whose flags contain `flag`.
pub fn queue_family_index_for(queue_flags: &Vec<u32>, flag: u32) -> (r: Option<usize>)
    ensures
        match r {
            Some(i) => is_first_with(queue_flags@, flag, i as int),
            None => forall|j: int|
                0 <= j < queue_flags@.len() ==> !has_flag(#[trigger] queue_flags@[j], flag),
        },
{
    let mut i: usize = 0;
    while i < queue_flags.len()
        invariant
            i <= queue_flags@.len(),
            forall|j: int| 0 <= j < i ==> !has_flag(#[trigger] queue_flags@[j], flag),
        decreases queue_flags@.len() - i,
    {
        if queue_flags[i] & flag == flag {
            return Some(i);
        }
        i = i + 1;
    }
    None
}

/// Some queue family has every bit of `flag`.
pub fn queue_family_supports(queue_flags: &Vec<u32>, flag: u32) -> (r: bool)
    ensures
        r == exists|j: int| 0 <= j < queue_flags@.len() && has_flag(#[trigger] queue_flags@[j], flag),
{
    queue_family_index_for(queue_flags, flag).is_some()
}

fn first_present_family(present_support: &Vec<bool>) -> (r: Option<usize>)
    ensures
        match r {
            Some(i) => is_first_present(present_support@, i as int),
            None => forall|j: int| 0 <= j < present_support@.len() ==> !(#[trigger] present_support@[j]),
        },
{
    let mut k: usize = 0;
    while k < present_support.len()
        invariant
            k <= present_support@.len(),
            forall|j: int| 0 <= j < k ==> !(#[trigger] present_support@[j]),
        decreases present_support@.len() - k,
    {
        if present_support[k] {
            return Some(k);
        }
        k = k + 1;
    }
    None
}

/// What is known of one adapter together with the window surface: its queue families,
/// the device extensions it offers, and what the surface offers a swapchain on it.
pub struct PhysicalDeviceSurface {
    queue_families: QueueFamilyIndicies,
    extension_names: Vec<String>,
    swapchain_support_details: SwapChainSupportDetails,
}

impl PhysicalDeviceSurface {
    pub closed spec fn families(&self) -> QueueFamilyIndicies {
        self.queue_families
    }

    pub closed spec fn extensions(&self) -> Seq<String> {
        self.extension_names@
    }

    pub closed spec fn details(&self) -> SwapChainSupportDetails {
        self.swapchain_support_details
    }

    pub fn new(
        queue_families: QueueFamilyIndicies,
        extension_names: Vec<String>,
        swapchain_support_details: SwapChainSupportDetails,
    ) -> (r: Self)
        ensures
            r.families() == queue_families,
            r.extensions() == extension_names@,
            r.details() == swapchain_support_details,
    {
        PhysicalDeviceSurface { queue_families, extension_names, swapchain_support_details }
    }

    /// Complete queue families, every required device extension, and at least one surface
    /// format and one present mode.
    pub open spec fn spec_is_suitable(&self) -> bool {
        &&& self.families().spec_is_complete()
        &&& offers_all(self.extensions(), required_device_extensions())
        &&& self.details().spec_supports_swapchain()
    }

    pub fn is_suitable(&self) -> (r: bool)
        ensures
            r == self.spec_is_suitable(),
    {
        let required = get_device_extension_names();
        let supports_extensions = check_extensions_supported(&self.extension_names, &required);
        let mut swap_chain_supported = false;
        if supports_extensions {
            swap_chain_supported = self.swapchain_support_details.supports_swapchain();
        }
        self.queue_families.is_complete() && supports_extensions && swap_chain_supported
    }

    pub fn get_queue_family_indicies(&self) -> (r: &QueueFamilyIndicies)
        ensures
            *r == self.families(),
    {
        &self.queue_families
    }

    pub fn get_swapchain_support_details(&self) -> (r: &SwapChainSupportDetails)
        ensures
            *r == self.details(),
    {
        &self.swapchain_support_details
    }
}

/// `i` is the first suitable candidate.
pub open spec fn is_first_suitable(candidates: Seq<PhysicalDeviceSurface>, i: int) -> bool {
    &&& 0 <= i < candidates.len()
    &&& candidates[i].spec_is_suitable()
    &&& forall|j: int| 0 <= j < i ==> !(#[trigger] candidates[j]).spec_is_suitable()
}

/// Selects the first suitable adapter, in the order the backend enumerated them.
pub fn pick_physical_device(candidates: &Vec<PhysicalDeviceSurface>) -> (r: Result<
    usize,
    SetupError,
>)
    ensures
        match r {
            Ok(i) => is_first_suitable(candidates@, i as int),
            Err(e) => e == SetupError::NoSuitableAdapter && forall|j: int|
                0 <= j < candidates@.len() ==> !(#[trigger] candidates@[j]).spec_is_suitable(),
        },
{
    let mut i: usize = 0;
    while i < candidates.len()
        invariant
            i <= candidates@.len(),
            forall|j: int| 0 <= j < i ==> !(#[trigger] candidates@[j]).spec_is_suitable(),
        decreases candidates@.len() - i,
    {
        if candidates[i].is_suitable() {
            return Ok(i);
        }
        i = i + 1;
    }
    Err(SetupError::NoSuitableAdapter)
}

} // verus!
