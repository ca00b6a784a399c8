use vstd::prelude::*;

use crate::error::HobbyError;

verus! {

/// How many frames may be in flight at once.
pub const FRAMES_IN_FLIGHT: u32 = 2;

/// `VK_ERROR_OUT_OF_DATE_KHR`.
pub const ERROR_OUT_OF_DATE: i32 = -1000001004;

/// `VK_SUBOPTIMAL_KHR`.
pub const SUBOPTIMAL: i32 = 1000001003;

/// The number of memory types a physical device describes.
pub const MAX_MEMORY_TYPES: usize = 32;

/// Whether bit `i` of `x` is set.
pub open spec fn bit_set(x: u32, i: u32) -> bool {
    x & (1u32 << i) != 0
}

/// Whether memory type `i`, with property flags `flags`, is allowed by the filter and
/// has every required property.
pub open spec fn memory_type_matches(type_filter: u32, flags: u32, required: u32, i: int) -> bool {
    bit_set(type_filter, i as u32) && flags & required == required
}

/// Finds the first memory type that the filter allows and that has the required
/// properties; `memory_type_flags[i]` are the property flags of memory type `i`.
pub fn find_memory_type(type_filter: u32, memory_type_flags: &Vec<u32>, required_properties: u32)
    -> (r: Result<u32, HobbyError>)
    requires
        memory_type_flags@.len() <= MAX_MEMORY_TYPES,
    ensures
        match r {
            Ok(i) => {
                &&& i < memory_type_flags@.len()
                &&& memory_type_matches(
                    type_filter,
                    memory_type_flags@[i as int],
                    required_properties,
                    i as int,
                )
                &&& forall|j: int|
                    0 <= j < i ==> !memory_type_matches(
                        type_filter,
                        #[trigger] memory_type_flags@[j],
                        required_properties,
                        j,
                    )
            },
            Err(e) => {
                &&& e == HobbyError::NoSuitableMemoryType {
                    type_filter,
                    required_properties,
                }
                &&& forall|j: int|
                    0 <= j < memory_type_flags@.len() ==> !memory_type_matches(
                        type_filter,
                        #[trigger] memory_type_flags@[j],
                        required_properties,
                        j,
                    )
            },
        },
{
    let mut i: usize = 0;
    while i < memory_type_flags.len()
        invariant
            i <= memory_type_flags@.len(),
            memory_type_flags@.len() <= MAX_MEMORY_TYPES,
            forall|j: int|
                0 <= j < i ==> !memory_type_matches(
                    type_filter,
                    #[trigger] memory_type_flags@[j],
                    required_properties,
                    j,
                ),
        decreases memory_type_flags@.len() - i,
    {
        let bit = 1u32 << (i as u32);
        if (type_filter & bit) > 0 && memory_type_flags[i] & required_properties
            == required_properties {
            return Ok(i as u32);
        }
        i = i + 1;
    }
    Err(HobbyError::NoSuitableMemoryType { type_filter, required_properties })
}

/// What to do after asking for the next swapchain image.
#[derive(PartialEq, Eq, Structural, Debug, Clone, Copy)]
pub enum AcquireOutcome {
    /// Record and submit the frame for this image.
    Render(u32),
    /// The swapchain is out of date: rebuild it and skip this frame.
    RecreateSwapchain,
}

/// Decides on the result of acquiring a swapchain image: the image index, or the
/// Vulkan result code of the failure.
pub fn on_acquire(result: Result<u32, i32>) -> (r: Result<AcquireOutcome, HobbyError>)
    ensures
        match result {
            Ok(index) => r == Ok::<AcquireOutcome, HobbyError>(AcquireOutcome::Render(index)),
            Err(code) => if code == ERROR_OUT_OF_DATE {
                r == Ok::<AcquireOutcome, HobbyError>(AcquireOutcome::RecreateSwapchain)
            } else {
                r == Err::<AcquireOutcome, HobbyError>(HobbyError::AcquireImageFailed)
            },
        },
{
    match result {
        Ok(index) => Ok(AcquireOutcome::Render(index)),
        Err(code) => if code == ERROR_OUT_OF_DATE {
            Ok(AcquireOutcome::RecreateSwapchain)
        } else {
            Err(HobbyError::AcquireImageFailed)
        },
    }
}

/// Decides on the result of presenting: whether the swapchain must be rebuilt. It is
/// when the window was resized, or when presentation reports the swapchain out of date
/// or suboptimal; any other failure is an error.
pub fn on_present(result: Result<bool, i32>, is_resized: bool) -> (r: Result<bool, HobbyError>)
    ensures
        match result {
            Ok(_) => r == Ok::<bool, HobbyError>(is_resized),
            Err(code) => if code == ERROR_OUT_OF_DATE || code == SUBOPTIMAL {
                r == Ok::<bool, HobbyError>(true)
            } else {
                r == Err::<bool, HobbyError>(HobbyError::QueuePresentFailed)
            },
        },
{
    match result {
        Ok(_) => Ok(is_resized),
        Err(code) => if code == ERROR_OUT_OF_DATE || code == SUBOPTIMAL {
            Ok(true)
        } else {
            Err(HobbyError::QueuePresentFailed)
        },
    }
}

/// The frame slot that follows `current`.
pub open spec fn spec_next_frame(current: u32) -> u32 {
    ((current + 1) % (FRAMES_IN_FLIGHT as int)) as u32
}

/// Advances to the next frame slot.
pub fn next_frame(current: u32) -> (r: u32)
    requires
        current < FRAMES_IN_FLIGHT,
    ensures
        r == spec_next_frame(current),
        r < FRAMES_IN_FLIGHT,
{
    (current + 1) % FRAMES_IN_FLIGHT
}

/// Frame slots are used in turn: from any slot, advancing stays among the slots, moves
/// to another slot, and comes back after `FRAMES_IN_FLIGHT` steps.
pub proof fn lemma_frames_cycle(current: u32)
    requires
        current < FRAMES_IN_FLIGHT,
    ensures
        spec_next_frame(current) < FRAMES_IN_FLIGHT,
        spec_next_frame(current) != current,
        spec_next_frame(spec_next_frame(current)) == current,
{
}

} // verus!
