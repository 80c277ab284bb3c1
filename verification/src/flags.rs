//! Bit-set enumerations for feature negotiation with the remote service.
//!
//! `SourceType` says what kind of thing may be captured; `CursorMode` says
//! how the pointer is represented in the stream. Both are small bit sets
//! over `u32`, combinable with `union`; the remote service reports which
//! bits it supports and the caller narrows to a subset before starting.

use vstd::prelude::*;

verus! {

/// The kinds of source a capture may draw from.
///
/// Use `MONITOR` to capture from a screen, `WINDOW` to capture a single
/// window, or `all()` to capture either.
#[derive(Debug, Clone, Copy, PartialEq, Eq, Structural)]
pub struct SourceType {
    pub bits: u32,
}

impl SourceType {
    /// Capture from a whole monitor.
    #[allow(non_snake_case)]
    pub fn MONITOR() -> (r: SourceType)
        ensures
            r.bits == 0b00001u32,
            r.wf(),
    {
        proof {
            assert(0b00001u32 & 0b00011u32 == 0b00001u32) by (bit_vector);
        }
        SourceType { bits: 0b00001 }
    }

    /// Capture from a single window.
    #[allow(non_snake_case)]
    pub fn WINDOW() -> (r: SourceType)
        ensures
            r.bits == 0b00010u32,
            r.wf(),
    {
        proof {
            assert(0b00010u32 & 0b00011u32 == 0b00010u32) by (bit_vector);
        }
        SourceType { bits: 0b00010 }
    }

    /// True when only known source-type bits are set.
    pub open spec fn wf(self) -> bool {
        self.bits & 0b00011u32 == self.bits
    }

    /// What `from_bits_truncate` builds: the known bits of the word.
    pub open spec fn from_bits_truncate_spec(bits: u32) -> SourceType {
        SourceType { bits: bits & 0b00011u32 }
    }

    /// Every source type at once.
    pub fn all() -> (r: SourceType)
        ensures
            r.bits == 0b00011u32,
            r.wf(),
    {
        proof {
            assert(0b00011u32 & 0b00011u32 == 0b00011u32) by (bit_vector);
        }
        SourceType { bits: 0b00011 }
    }

    /// The raw bit pattern, as sent to and received from the remote service.
    pub fn bits(&self) -> (r: u32)
        ensures
            r == self.bits,
    {
        self.bits
    }

    /// The set holding every known bit of `bits`; unknown bits are dropped.
    pub fn from_bits_truncate(bits: u32) -> (r: SourceType)
        ensures
            r == SourceType::from_bits_truncate_spec(bits),
            r.wf(),
    {
        proof {
            assert((bits & 0b00011u32) & 0b00011u32 == bits & 0b00011u32) by (bit_vector);
        }
        SourceType { bits: bits & 0b00011 }
    }

    /// The union of the two sets.
    pub fn union(self, other: SourceType) -> (r: SourceType)
        ensures
            r.bits == self.bits | other.bits,
    {
        SourceType { bits: self.bits | other.bits }
    }
}

/// Encoding a well-formed source-type set to its bit word and decoding the
/// word again gives back the same set: the wire representation loses
/// nothing.
pub proof fn lemma_source_type_round_trip(s: SourceType)
    requires
        s.wf(),
    ensures
        SourceType::from_bits_truncate_spec(s.bits) == s,
{
}

/// How the pointer is represented in the captured stream.
///
/// `HIDDEN` leaves the cursor out, `EMBEDDED` paints it into the frames,
/// `METADATA` delivers its position as side-channel events.
#[derive(Debug, Clone, Copy, PartialEq, Eq, Structural)]
pub struct CursorMode {
    pub bits: u32,
}

impl CursorMode {
    /// The cursor is not part of the stream. This is the default.
    #[allow(non_snake_case)]
    pub fn HIDDEN() -> (r: CursorMode)
        ensures
            r.bits == 0b00001u32,
            r.wf(),
    {
        proof {
            assert(0b00001u32 & 0b00111u32 == 0b00001u32) by (bit_vector);
        }
        CursorMode { bits: 0b00001 }
    }

    /// The cursor is painted into the video frames.
    #[allow(non_snake_case)]
    pub fn EMBEDDED() -> (r: CursorMode)
        ensures
            r.bits == 0b00010u32,
            r.wf(),
    {
        proof {
            assert(0b00010u32 & 0b00111u32 == 0b00010u32) by (bit_vector);
        }
        CursorMode { bits: 0b00010 }
    }

    /// The cursor position is delivered as metadata events.
    #[allow(non_snake_case)]
    pub fn METADATA() -> (r: CursorMode)
        ensures
            r.bits == 0b00100u32,
            r.wf(),
    {
        proof {
            assert(0b00100u32 & 0b00111u32 == 0b00100u32) by (bit_vector);
        }
        CursorMode { bits: 0b00100 }
    }

    /// True when only known cursor-mode bits are set.
    pub open spec fn wf(self) -> bool {
        self.bits & 0b00111u32 == self.bits
    }

    /// What `from_bits_truncate` builds: the known bits of the word.
    pub open spec fn from_bits_truncate_spec(bits: u32) -> CursorMode {
        CursorMode { bits: bits & 0b00111u32 }
    }

    /// The raw bit pattern, as sent to and received from the remote service.
    pub fn bits(&self) -> (r: u32)
        ensures
            r == self.bits,
    {
        self.bits
    }

    /// The set holding every known bit of `bits`; unknown bits are dropped.
    pub fn from_bits_truncate(bits: u32) -> (r: CursorMode)
        ensures
            r == CursorMode::from_bits_truncate_spec(bits),
            r.wf(),
    {
        proof {
            assert((bits & 0b00111u32) & 0b00111u32 == bits & 0b00111u32) by (bit_vector);
        }
        CursorMode { bits: bits & 0b00111 }
    }

    /// The union of the two sets.
    pub fn union(self, other: CursorMode) -> (r: CursorMode)
        ensures
            r.bits == self.bits | other.bits,
    {
        CursorMode { bits: self.bits | other.bits }
    }
}

/// Encoding a well-formed cursor-mode set to its bit word and decoding the
/// word again gives back the same set.
pub proof fn lemma_cursor_mode_round_trip(m: CursorMode)
    requires
        m.wf(),
    ensures
        CursorMode::from_bits_truncate_spec(m.bits) == m,
{
}

} // verus!
