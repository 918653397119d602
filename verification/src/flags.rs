//! Status flags delivered to the audio callback, and behaviour flags given
//! when a stream is opened.  Both decode native bitmasks by truncation:
//! unknown bits are discarded, never an error.

use vstd::prelude::*;

verus! {

/// Indicates that the callback has inserted one or more zeroes since not
/// enough input data was available.
pub const INPUT_UNDERFLOW: u64 = 0x1;

/// Indicates that the callback has discarded some input data.
pub const INPUT_OVERFLOW: u64 = 0x2;

/// Indicates that extra data was inserted in the output since there was not
/// enough available.
pub const OUTPUT_UNDERFLOW: u64 = 0x4;

/// Indicates that certain output data was discarded since there was no room.
pub const OUTPUT_OVERFLOW: u64 = 0x8;

/// Some or all of the output data will be used to prime the stream; input
/// data may be zero.
pub const PRIMING_OUTPUT: u64 = 0x10;

/// Every status bit the callback flags understand.
pub const CALLBACK_FLAGS_MASK: u64 = 0x1f;

/// Flags indicating the status of one callback invocation, decoded from the
/// native bitmask with unknown bits discarded.
#[derive(Clone, Copy, Debug, PartialEq, Eq, Structural)]
pub struct StreamCallbackFlags {
    /// The decoded bits; only bits of [`CALLBACK_FLAGS_MASK`] are ever set.
    pub bits: u64,
}

impl StreamCallbackFlags {
    /// A well-formed value holds known status bits only.
    pub open spec fn wf(self) -> bool {
        self.bits & CALLBACK_FLAGS_MASK == self.bits
    }

    /// No status condition set.
    pub fn empty() -> (r: StreamCallbackFlags)
        ensures
            r.bits == 0,
            r.wf(),
    {
        let r = StreamCallbackFlags { bits: 0 };
        proof {
            assert(0u64 & CALLBACK_FLAGS_MASK == 0u64) by (bit_vector);
        }
        r
    }

    /// Decodes a native status bitmask, keeping exactly the known bits: the
    /// truncating decode, not an error on unknown bits.
    pub fn from_bits_truncate(bits: u64) -> (r: StreamCallbackFlags)
        ensures
            r.bits == bits & CALLBACK_FLAGS_MASK,
            r.wf(),
    {
        let r = StreamCallbackFlags { bits: bits & CALLBACK_FLAGS_MASK };
        proof {
            assert((bits & 0x1fu64) & 0x1fu64 == bits & 0x1fu64) by (bit_vector);
        }
        r
    }

    /// Whether the input-underflow condition is set.
    pub fn input_underflow(&self) -> (r: bool)
        ensures
            r == (self.bits & INPUT_UNDERFLOW != 0),
    {
        self.bits & INPUT_UNDERFLOW != 0
    }

    /// Whether the input-overflow condition is set.
    pub fn input_overflow(&self) -> (r: bool)
        ensures
            r == (self.bits & INPUT_OVERFLOW != 0),
    {
        self.bits & INPUT_OVERFLOW != 0
    }

    /// Whether the output-underflow condition is set.
    pub fn output_underflow(&self) -> (r: bool)
        ensures
            r == (self.bits & OUTPUT_UNDERFLOW != 0),
    {
        self.bits & OUTPUT_UNDERFLOW != 0
    }

    /// Whether the output-overflow condition is set.
    pub fn output_overflow(&self) -> (r: bool)
        ensures
            r == (self.bits & OUTPUT_OVERFLOW != 0),
    {
        self.bits & OUTPUT_OVERFLOW != 0
    }

    /// Whether the priming-output condition is set.
    pub fn priming_output(&self) -> (r: bool)
        ensures
            r == (self.bits & PRIMING_OUTPUT != 0),
    {
        self.bits & PRIMING_OUTPUT != 0
    }
}

/// The truncating decode keeps each known status bit exactly as the native
/// mask had it: a condition reads as set after decoding if and only if its
/// bit was set in the mask, and unrecognised bits are dropped.
pub proof fn lemma_truncating_decode_is_exact(mask: u64)
    ensures
        (mask & CALLBACK_FLAGS_MASK) & INPUT_UNDERFLOW == mask & INPUT_UNDERFLOW,
        (mask & CALLBACK_FLAGS_MASK) & INPUT_OVERFLOW == mask & INPUT_OVERFLOW,
        (mask & CALLBACK_FLAGS_MASK) & OUTPUT_UNDERFLOW == mask & OUTPUT_UNDERFLOW,
        (mask & CALLBACK_FLAGS_MASK) & OUTPUT_OVERFLOW == mask & OUTPUT_OVERFLOW,
        (mask & CALLBACK_FLAGS_MASK) & PRIMING_OUTPUT == mask & PRIMING_OUTPUT,
        (mask & CALLBACK_FLAGS_MASK) & !CALLBACK_FLAGS_MASK == 0,
{
    assert((mask & 0x1fu64) & 0x1u64 == mask & 0x1u64) by (bit_vector);
    assert((mask & 0x1fu64) & 0x2u64 == mask & 0x2u64) by (bit_vector);
    assert((mask & 0x1fu64) & 0x4u64 == mask & 0x4u64) by (bit_vector);
    assert((mask & 0x1fu64) & 0x8u64 == mask & 0x8u64) by (bit_vector);
    assert((mask & 0x1fu64) & 0x10u64 == mask & 0x10u64) by (bit_vector);
    assert((mask & 0x1fu64) & !0x1fu64 == 0u64) by (bit_vector);
}

/// Disable clipping of out of range samples.
pub const CLIP_OFF: u64 = 0x1;

/// Disable dithering.
pub const DITHER_OFF: u64 = 0x2;

/// Request that a full duplex stream will not discard overflowed input
/// samples; frames per buffer must then be left unspecified.
pub const NEVER_DROP_INPUT: u64 = 0x4;

/// Call the stream callback to fill initial output buffers, rather than
/// priming the buffers with silence.
pub const PRIME_OUTPUT_BUFFERS_USING_STREAM_CALLBACK: u64 = 0x8;

/// Range reserved for platform specific flags; not all of the upper bits need
/// to be set at the same time.
pub const PLATFORM_SPECIFIC: u64 = 0xFFFF0000;

/// Every behaviour bit the stream flags understand.
pub const STREAM_FLAGS_MASK: u64 = 0xFFFF000F;

/// Flags used to control the behaviour of a stream, given at open time.
#[derive(Clone, Copy, Debug, PartialEq, Eq, Structural)]
pub struct StreamFlags {
    /// The encoded bits; only bits of [`STREAM_FLAGS_MASK`] are ever set.
    pub bits: u64,
}

impl StreamFlags {
    /// A well-formed value holds known behaviour bits only.
    pub open spec fn wf(self) -> bool {
        self.bits & STREAM_FLAGS_MASK == self.bits
    }

    /// The default behaviour: no flag set.
    pub fn empty() -> (r: StreamFlags)
        ensures
            r.bits == 0,
            r.wf(),
    {
        let r = StreamFlags { bits: 0 };
        proof {
            assert(0u64 & STREAM_FLAGS_MASK == 0u64) by (bit_vector);
        }
        r
    }

    /// Decodes a behaviour bitmask, keeping exactly the known bits.
    pub fn from_bits_truncate(bits: u64) -> (r: StreamFlags)
        ensures
            r.bits == bits & STREAM_FLAGS_MASK,
            r.wf(),
    {
        let r = StreamFlags { bits: bits & STREAM_FLAGS_MASK };
        proof {
            assert((bits & 0xFFFF000Fu64) & 0xFFFF000Fu64 == bits & 0xFFFF000Fu64) by (bit_vector);
        }
        r
    }

    /// The union of two flag values.
    pub fn union(self, other: StreamFlags) -> (r: StreamFlags)
        ensures
            r.bits == self.bits | other.bits,
            self.wf() && other.wf() ==> r.wf(),
    {
        let r = StreamFlags { bits: self.bits | other.bits };
        proof {
            let a = self.bits;
            let b = other.bits;
            assert((a & 0xFFFF000Fu64 == a && b & 0xFFFF000Fu64 == b) ==> ((a | b) & 0xFFFF000Fu64
                == (a | b))) by (bit_vector);
        }
        r
    }
}

} // verus!
