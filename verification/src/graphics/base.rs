use vstd::prelude::*;

use crate::error::HobbyError;
use crate::search::{first_true, is_first_true};

verus! {

/// `VK_QUEUE_GRAPHICS_BIT`.
pub const QUEUE_GRAPHICS_BIT: u32 = 0x1;

/// `VK_DEBUG_REPORT_INFORMATION_BIT_EXT`.
pub const DEBUG_REPORT_INFORMATION_BIT: u32 = 0x1;

/// `VK_DEBUG_REPORT_WARNING_BIT_EXT`.
pub const DEBUG_REPORT_WARNING_BIT: u32 = 0x2;

/// `VK_DEBUG_REPORT_PERFORMANCE_WARNING_BIT_EXT`.
pub const DEBUG_REPORT_PERFORMANCE_WARNING_BIT: u32 = 0x4;

/// `VK_DEBUG_REPORT_ERROR_BIT_EXT`.
pub const DEBUG_REPORT_ERROR_BIT: u32 = 0x8;

/// `VK_DEBUG_REPORT_DEBUG_BIT_EXT`.
pub const DEBUG_REPORT_DEBUG_BIT: u32 = 0x10;

/// Whether a flag word holds every bit of `bits`.
pub open spec fn has_bits(flags: u32, bits: u32) -> bool {
    flags & bits == bits
}

/// A request for `queue_count` queues of one queue family.
pub struct QueueRequest {
    pub queue_family_index: u32,
    pub queue_count: u32,
}

/// The queues the logical device is created with: two queues of the one family when
/// graphics and presentation share it, one queue of each family otherwise.
pub fn queue_create_plan(graphics_queue_family: u32, present_queue_family: u32) -> (r: Vec<
    QueueRequest,
>)
    ensures
        graphics_queue_family == present_queue_family ==> r@.len() == 1
            && r@[0].queue_family_index == graphics_queue_family && r@[0].queue_count == 2,
        graphics_queue_family != present_queue_family ==> r@.len() == 2
            && r@[0].queue_family_index == graphics_queue_family && r@[0].queue_count == 1
            && r@[1].queue_family_index == present_queue_family && r@[1].queue_count == 1,
{
    let mut requests: Vec<QueueRequest> = Vec::new();
    if graphics_queue_family == present_queue_family {
        requests.push(QueueRequest { queue_family_index: graphics_queue_family, queue_count: 2 });
    } else {
        requests.push(QueueRequest { queue_family_index: graphics_queue_family, queue_count: 1 });
        requests.push(QueueRequest { queue_family_index: present_queue_family, queue_count: 1 });
    }
    requests
}

/// Whether `i` is the first family whose flags include graphics.
pub open spec fn is_first_graphics_family(queue_flags: Seq<u32>, i: int) -> bool {
    &&& 0 <= i < queue_flags.len()
    &&& has_bits(queue_flags[i], QUEUE_GRAPHICS_BIT)
    &&& forall|j: int| 0 <= j < i ==> !has_bits(queue_flags[j], QUEUE_GRAPHICS_BIT)
}

/// The first queue family (given by its flags) that supports graphics.
pub fn get_graphics_queue_family(queue_flags: &Vec<u32>) -> (r: Result<u32, HobbyError>)
    requires
        queue_flags@.len() <= u32::MAX,
    ensures
        match r {
            Ok(i) => is_first_graphics_family(queue_flags@, i as int),
            Err(e) => e == HobbyError::NoGraphicsQueueFamily && forall|j: int|
                0 <= j < queue_flags@.len() ==> !has_bits(queue_flags@[j], QUEUE_GRAPHICS_BIT),
        },
{
    let mut i: usize = 0;
    while i < queue_flags.len()
        invariant
            i <= queue_flags@.len(),
            queue_flags@.len() <= u32::MAX,
            forall|j: int| 0 <= j < i ==> !has_bits(queue_flags@[j], QUEUE_GRAPHICS_BIT),
        decreases queue_flags@.len() - i,
    {
        if queue_flags[i] & QUEUE_GRAPHICS_BIT == QUEUE_GRAPHICS_BIT {
            return Ok(i as u32);
        }
        i = i + 1;
    }
    Err(HobbyError::NoGraphicsQueueFamily)
}

/// The first queue family that can present to the surface; `surface_support[i]`
/// tells whether family `i` can.
pub fn get_present_queue_family(surface_support: &Vec<bool>) -> (r: Result<u32, HobbyError>)
    requires
        surface_support@.len() <= u32::MAX,
    ensures
        match r {
            Ok(i) => is_first_true(surface_support@, i as int),
            Err(e) => e == HobbyError::NoPresentQueueFamily && forall|j: int|
                0 <= j < surface_support@.len() ==> !surface_support@[j],
        },
{
    match first_true(surface_support) {
        Some(i) => Ok(i as u32),
        None => Err(HobbyError::NoPresentQueueFamily),
    }
}

/// The log level a validation message is written at.
#[derive(PartialEq, Eq, Structural, Debug, Clone, Copy)]
pub enum LogLevel {
    Error,
    Warn,
    Info,
    Debug,
}

/// The level a debug report message with these flags is logged at, if any:
/// information and performance warnings as info, then warnings, debug messages
/// and errors, in that order of precedence.
pub open spec fn spec_debug_report_level(flags: u32) -> Option<LogLevel> {
    if has_bits(flags, DEBUG_REPORT_INFORMATION_BIT) || has_bits(
        flags,
        DEBUG_REPORT_PERFORMANCE_WARNING_BIT,
    ) {
        Some(LogLevel::Info)
    } else if has_bits(flags, DEBUG_REPORT_WARNING_BIT) {
        Some(LogLevel::Warn)
    } else if has_bits(flags, DEBUG_REPORT_DEBUG_BIT) {
        Some(LogLevel::Debug)
    } else if has_bits(flags, DEBUG_REPORT_ERROR_BIT) {
        Some(LogLevel::Error)
    } else {
        None
    }
}

/// Decides how the validation callback logs a message with these flags.
pub fn debug_report_level(flags: u32) -> (r: Option<LogLevel>)
    ensures
        r == spec_debug_report_level(flags),
{
    if flags & DEBUG_REPORT_INFORMATION_BIT == DEBUG_REPORT_INFORMATION_BIT || flags
        & DEBUG_REPORT_PERFORMANCE_WARNING_BIT == DEBUG_REPORT_PERFORMANCE_WARNING_BIT {
        Some(LogLevel::Info)
    } else if flags & DEBUG_REPORT_WARNING_BIT == DEBUG_REPORT_WARNING_BIT {
        Some(LogLevel::Warn)
    } else if flags & DEBUG_REPORT_DEBUG_BIT == DEBUG_REPORT_DEBUG_BIT {
        Some(LogLevel::Debug)
    } else if flags & DEBUG_REPORT_ERROR_BIT == DEBUG_REPORT_ERROR_BIT {
        Some(LogLevel::Error)
    } else {
        None
    }
}


/// How a validation message is logged, bit by bit: information or performance-warning
/// messages at the info level; otherwise warnings at the warn level, then debug messages
/// at the debug level, then errors at the error level; messages with none of these bits
/// are not logged. Bits outside these five change nothing.
pub proof fn lemma_debug_report_levels(flags: u32)
    ensures
        (flags & 0x1u32 != 0 || flags & 0x4u32 != 0) ==> spec_debug_report_level(flags) == Some(
            LogLevel::Info,
        ),
        (flags & 0x1u32 == 0 && flags & 0x4u32 == 0 && flags & 0x2u32 != 0)
            ==> spec_debug_report_level(flags) == Some(LogLevel::Warn),
        (flags & 0x1u32 == 0 && flags & 0x4u32 == 0 && flags & 0x2u32 == 0 && flags & 0x10u32
            != 0) ==> spec_debug_report_level(flags) == Some(LogLevel::Debug),
        (flags & 0x1u32 == 0 && flags & 0x4u32 == 0 && flags & 0x2u32 == 0 && flags & 0x10u32
            == 0 && flags & 0x8u32 != 0) ==> spec_debug_report_level(flags) == Some(
            LogLevel::Error,
        ),
        flags & 0x1fu32 == 0 ==> spec_debug_report_level(flags) is None,
        spec_debug_report_level(flags) == spec_debug_report_level(flags & 0x1fu32),
{
    let masked = flags & 0x1fu32;
    assert(
        (flags & 0x1u32 == 0x1u32 <==> flags & 0x1u32 != 0)
        && (flags & 0x2u32 == 0x2u32 <==> flags & 0x2u32 != 0)
        && (flags & 0x4u32 == 0x4u32 <==> flags & 0x4u32 != 0)
        && (flags & 0x8u32 == 0x8u32 <==> flags & 0x8u32 != 0)
        && (flags & 0x10u32 == 0x10u32 <==> flags & 0x10u32 != 0)
        && (flags & 0x1fu32 == 0 ==> flags & 0x1u32 == 0 && flags & 0x2u32 == 0
            && flags & 0x4u32 == 0 && flags & 0x8u32 == 0 && flags & 0x10u32 == 0)
    ) by (bit_vector);
    assert(
        masked == flags & 0x1fu32 ==> (masked & 0x1u32 == flags & 0x1u32)
        && (masked & 0x2u32 == flags & 0x2u32) && (masked & 0x4u32 == flags & 0x4u32)
        && (masked & 0x8u32 == flags & 0x8u32) && (masked & 0x10u32 == flags & 0x10u32)
    ) by (bit_vector);
}

} // verus!
