//! Sizing the process-identifier enumeration. The enumeration call fills a
//! caller-supplied buffer and reports only how many bytes it wrote; a full
//! buffer may mean more processes exist than fit, so the scan grows the
//! buffer and retries instead of silently truncating.

use vstd::prelude::*;

verus! {

/// Bytes one process identifier takes in the enumeration buffer.
pub const PROCESS_ID_BYTES: u32 = 4;

/// Largest identifier capacity the scan will ask for; doubling stops here
/// so that the byte size stays well inside the call's 32-bit limit.
pub const MAX_ENUM_CAPACITY: u32 = 0x0100_0000;

/// What to do after one enumeration call: retry with a larger buffer, or
/// accept the identifiers that were written.
#[derive(Clone, Copy, Debug, PartialEq, Eq, Structural)]
pub enum EnumStep {
    Grow { new_capacity: u32 },
    Done { count: u32 },
}

/// The step after an enumeration call into a buffer of `capacity`
/// identifiers that reported `bytes_returned` bytes written: grow and
/// retry on a full buffer while growing is possible, else accept
/// `bytes_returned / 4` identifiers.
pub open spec fn spec_enum_step(capacity: u32, bytes_returned: u32) -> EnumStep {
    if bytes_returned == capacity * PROCESS_ID_BYTES && capacity < MAX_ENUM_CAPACITY {
        EnumStep::Grow {
            new_capacity: if 2 * capacity <= MAX_ENUM_CAPACITY {
                (2 * capacity) as u32
            } else {
                MAX_ENUM_CAPACITY
            },
        }
    } else {
        EnumStep::Done { count: (bytes_returned / PROCESS_ID_BYTES) as u32 }
    }
}

/// Decides whether one enumeration call filled its buffer and must be
/// retried with a larger one. A `Grow` step always asks for a strictly
/// larger capacity, still within bounds, so retries terminate.
pub fn enum_buffer_step(capacity: u32, bytes_returned: u32) -> (r: EnumStep)
    requires
        1 <= capacity <= MAX_ENUM_CAPACITY,
        bytes_returned <= capacity * PROCESS_ID_BYTES,
    ensures
        r == spec_enum_step(capacity, bytes_returned),
        r matches EnumStep::Grow { new_capacity } ==> capacity < new_capacity
            <= MAX_ENUM_CAPACITY,
        r matches EnumStep::Done { count } ==> count <= capacity,
{
    if bytes_returned == capacity * PROCESS_ID_BYTES && capacity < MAX_ENUM_CAPACITY {
        let doubled = if capacity <= MAX_ENUM_CAPACITY / 2 {
            2 * capacity
        } else {
            MAX_ENUM_CAPACITY
        };
        EnumStep::Grow { new_capacity: doubled }
    } else {
        EnumStep::Done { count: bytes_returned / PROCESS_ID_BYTES }
    }
}

} // verus!
