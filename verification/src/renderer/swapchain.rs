use vstd::prelude::*;

use crate::graphics::base::has_bits;

verus! {

/// `VK_SURFACE_TRANSFORM_IDENTITY_BIT_KHR`.
pub const SURFACE_TRANSFORM_IDENTITY_BIT: u32 = 0x1;

/// `VK_PRESENT_MODE_IMMEDIATE_KHR`.
pub const PRESENT_MODE_IMMEDIATE: i32 = 0;

/// `VK_PRESENT_MODE_MAILBOX_KHR`.
pub const PRESENT_MODE_MAILBOX: i32 = 1;

/// `VK_PRESENT_MODE_FIFO_KHR`.
pub const PRESENT_MODE_FIFO: i32 = 2;

/// A surface format: a `VkFormat` and a `VkColorSpaceKHR`.
#[derive(PartialEq, Eq, Structural, Debug, Clone, Copy)]
pub struct SurfaceFormat {
    pub format: i32,
    pub color_space: i32,
}

/// The number of swapchain images to ask for: one more than the minimum, but no more
/// than the maximum when the surface has one (a maximum of 0 means none).
pub open spec fn spec_swapchain_image_count(min_image_count: u32, max_image_count: u32) -> int {
    if max_image_count > 0 && min_image_count + 1 > max_image_count {
        max_image_count as int
    } else {
        min_image_count + 1
    }
}

pub fn swapchain_image_count(min_image_count: u32, max_image_count: u32) -> (r: u32)
    requires
        min_image_count < u32::MAX,
    ensures
        r == spec_swapchain_image_count(min_image_count, max_image_count),
{
    let mut image_count = min_image_count + 1;
    if max_image_count > 0 && image_count > max_image_count {
        image_count = max_image_count;
    }
    image_count
}

/// The pre-transform: the identity when the surface supports it, the current
/// transform otherwise.
pub fn choose_pre_transform(supported_transforms: u32, current_transform: u32) -> (r: u32)
    ensures
        r == if has_bits(supported_transforms, SURFACE_TRANSFORM_IDENTITY_BIT) {
            SURFACE_TRANSFORM_IDENTITY_BIT
        } else {
            current_transform
        },
{
    if supported_transforms & SURFACE_TRANSFORM_IDENTITY_BIT == SURFACE_TRANSFORM_IDENTITY_BIT {
        SURFACE_TRANSFORM_IDENTITY_BIT
    } else {
        current_transform
    }
}

/// The present mode to use among those the surface offers: mailbox if offered, else
/// immediate if offered, else FIFO (which every surface supports).
pub open spec fn spec_present_mode(present_modes: Seq<i32>) -> i32 {
    if present_modes.contains(PRESENT_MODE_MAILBOX) {
        PRESENT_MODE_MAILBOX
    } else if present_modes.contains(PRESENT_MODE_IMMEDIATE) {
        PRESENT_MODE_IMMEDIATE
    } else {
        PRESENT_MODE_FIFO
    }
}

pub fn get_present_mode(present_modes: &Vec<i32>) -> (r: i32)
    ensures
        r == spec_present_mode(present_modes@),
{
    let mut present_mode = PRESENT_MODE_FIFO;
    let mut i: usize = 0;
    while i < present_modes.len()
        invariant
            i <= present_modes@.len(),
            !present_modes@.subrange(0, i as int).contains(PRESENT_MODE_MAILBOX),
            present_mode == if present_modes@.subrange(0, i as int).contains(
                PRESENT_MODE_IMMEDIATE,
            ) {
                PRESENT_MODE_IMMEDIATE
            } else {
                PRESENT_MODE_FIFO
            },
        decreases present_modes@.len() - i,
    {
        let pm = present_modes[i];
        let ghost before = present_modes@.subrange(0, i as int);
        assert(present_modes@.subrange(0, i + 1) =~= before.push(pm));
        if pm == PRESENT_MODE_MAILBOX {
            assert(present_modes@[i as int] == PRESENT_MODE_MAILBOX);
            return pm;
        } else if pm == PRESENT_MODE_IMMEDIATE {
            present_mode = pm;
        }
        proof {
            let after = present_modes@.subrange(0, i + 1);
            assert(after.contains(PRESENT_MODE_IMMEDIATE) <==> (before.contains(
                PRESENT_MODE_IMMEDIATE,
            ) || pm == PRESENT_MODE_IMMEDIATE)) by {
                if after.contains(PRESENT_MODE_IMMEDIATE) {
                    let k = choose|k: int| 0 <= k < after.len() && after[k] == PRESENT_MODE_IMMEDIATE;
                    if k < i {
                        assert(before[k] == PRESENT_MODE_IMMEDIATE);
                    }
                }
                if before.contains(PRESENT_MODE_IMMEDIATE) {
                    let k = choose|k: int| 0 <= k < before.len() && before[k] == PRESENT_MODE_IMMEDIATE;
                    assert(after[k] == PRESENT_MODE_IMMEDIATE);
                }
                if pm == PRESENT_MODE_IMMEDIATE {
                    assert(after[i as int] == PRESENT_MODE_IMMEDIATE);
                }
            }
            assert(!after.contains(PRESENT_MODE_MAILBOX)) by {
                if after.contains(PRESENT_MODE_MAILBOX) {
                    let k = choose|k: int| 0 <= k < after.len() && after[k] == PRESENT_MODE_MAILBOX;
                    if k < i {
                        assert(before[k] == PRESENT_MODE_MAILBOX);
                    }
                }
            }
        }
        i = i + 1;
    }
    assert(present_modes@.subrange(0, i as int) =~= present_modes@);
    present_mode
}

/// The surface format to use: the first one the surface offers.
pub fn get_surface_format(surface_formats: &Vec<SurfaceFormat>) -> (r: SurfaceFormat)
    requires
        surface_formats@.len() > 0,
    ensures
        r == surface_formats@[0],
{
    surface_formats[0]
}


/// The present mode chosen is always one the surface offers, or FIFO (which every
/// surface supports); mailbox is chosen whenever it is offered, immediate only when it
/// is offered and mailbox is not, and FIFO when neither is offered.
pub proof fn lemma_present_mode_preference(present_modes: Seq<i32>)
    ensures
        present_modes.contains(PRESENT_MODE_MAILBOX) ==> spec_present_mode(present_modes)
            == PRESENT_MODE_MAILBOX,
        spec_present_mode(present_modes) == PRESENT_MODE_IMMEDIATE ==> present_modes.contains(
            PRESENT_MODE_IMMEDIATE,
        ) && !present_modes.contains(PRESENT_MODE_MAILBOX),
        !present_modes.contains(PRESENT_MODE_MAILBOX) && present_modes.contains(
            PRESENT_MODE_IMMEDIATE,
        ) ==> spec_present_mode(present_modes) == PRESENT_MODE_IMMEDIATE,
        !present_modes.contains(PRESENT_MODE_MAILBOX) && !present_modes.contains(
            PRESENT_MODE_IMMEDIATE,
        ) ==> spec_present_mode(present_modes) == PRESENT_MODE_FIFO,
        spec_present_mode(present_modes) != PRESENT_MODE_FIFO ==> present_modes.contains(
            spec_present_mode(present_modes),
        ),
{
}

/// Offering mailbox as well always leads to mailbox, and the order in which the modes
/// are offered does not matter.
pub proof fn lemma_present_mode_offers(a: Seq<i32>, b: Seq<i32>)
    ensures
        spec_present_mode(a.push(PRESENT_MODE_MAILBOX)) == PRESENT_MODE_MAILBOX,
        spec_present_mode(seq![PRESENT_MODE_MAILBOX] + a) == PRESENT_MODE_MAILBOX,
        spec_present_mode(a + b) == spec_present_mode(b + a),
{
    assert(a.push(PRESENT_MODE_MAILBOX)[a.len() as int] == PRESENT_MODE_MAILBOX);
    assert((seq![PRESENT_MODE_MAILBOX] + a)[0] == PRESENT_MODE_MAILBOX);
    assert forall|m: i32| (a + b).contains(m) <==> (b + a).contains(m) by {
        if (a + b).contains(m) {
            let k = choose|k: int| 0 <= k < (a + b).len() && (a + b)[k] == m;
            if k < a.len() {
                assert((b + a)[b.len() + k] == m);
            } else {
                assert((b + a)[k - a.len()] == m);
            }
        }
        if (b + a).contains(m) {
            let k = choose|k: int| 0 <= k < (b + a).len() && (b + a)[k] == m;
            if k < b.len() {
                assert((a + b)[a.len() + k] == m);
            } else {
                assert((a + b)[k - b.len()] == m);
            }
        }
    }
    assert((a + b).contains(PRESENT_MODE_MAILBOX) == (b + a).contains(PRESENT_MODE_MAILBOX));
    assert((a + b).contains(PRESENT_MODE_IMMEDIATE) == (b + a).contains(PRESENT_MODE_IMMEDIATE));
}

} // verus!
