//! The closed set of sample encodings a stream can carry, and the bound
//! polymorphism that selects the matching native format tag per element type.

use vstd::prelude::*;

use vstd::layout::size_of;

verus! {

/// The sample encodings the engine understands.  Each maps to a fixed native
/// bitmask constant and a fixed byte width.
///
/// `Float32` tags 32-bit IEEE-754 samples.  Buffers of that element type are
/// handled by unverified callers; the verified core carries the tag itself
/// like any other.
#[derive(Clone, Copy, Debug, PartialEq, Eq, Structural)]
pub enum SampleFormat {
    Float32,
    Int32,
    Int16,
    Int8,
    UInt8,
}

impl SampleFormat {
    /// The native bitmask constant of this encoding.  The constants are
    /// mutually exclusive bit flags.
    pub open spec fn spec_flag(self) -> u64 {
        match self {
            SampleFormat::Float32 => 0x1,
            SampleFormat::Int32 => 0x2,
            SampleFormat::Int16 => 0x8,
            SampleFormat::Int8 => 0x10,
            SampleFormat::UInt8 => 0x20,
        }
    }

    /// The width of one sample of this encoding, in bytes.
    pub open spec fn spec_width(self) -> u32 {
        match self {
            SampleFormat::Float32 => 4,
            SampleFormat::Int32 => 4,
            SampleFormat::Int16 => 2,
            SampleFormat::Int8 => 1,
            SampleFormat::UInt8 => 1,
        }
    }

    /// The native bitmask constant of this encoding.
    pub fn flag(self) -> (r: u64)
        ensures
            r == self.spec_flag(),
    {
        match self {
            SampleFormat::Float32 => 0x1,
            SampleFormat::Int32 => 0x2,
            SampleFormat::Int16 => 0x8,
            SampleFormat::Int8 => 0x10,
            SampleFormat::UInt8 => 0x20,
        }
    }

    /// The width of one sample of this encoding, in bytes.  This is the
    /// engine's own size report for the format, stated as the fixed table the
    /// engine documents.
    pub fn sample_size(self) -> (r: u32)
        ensures
            r == self.spec_width(),
    {
        match self {
            SampleFormat::Float32 => 4,
            SampleFormat::Int32 => 4,
            SampleFormat::Int16 => 2,
            SampleFormat::Int8 => 1,
            SampleFormat::UInt8 => 1,
        }
    }

    /// The encoding a native bitmask constant denotes, or `None` for any
    /// value that is not exactly one known constant.
    pub fn from_flag(flag: u64) -> (r: Option<SampleFormat>)
        ensures
            r matches Some(f) ==> f.spec_flag() == flag,
            r is None ==> forall|f: SampleFormat| f.spec_flag() != flag,
    {
        if flag == 0x1 {
            Some(SampleFormat::Float32)
        } else if flag == 0x2 {
            Some(SampleFormat::Int32)
        } else if flag == 0x8 {
            Some(SampleFormat::Int16)
        } else if flag == 0x10 {
            Some(SampleFormat::Int8)
        } else if flag == 0x20 {
            Some(SampleFormat::UInt8)
        } else {
            assert(forall|f: SampleFormat| f.spec_flag() != flag) by {
                assert(SampleFormat::Float32.spec_flag() == 0x1);
                assert(SampleFormat::Int32.spec_flag() == 0x2);
                assert(SampleFormat::Int16.spec_flag() == 0x8);
                assert(SampleFormat::Int8.spec_flag() == 0x10);
                assert(SampleFormat::UInt8.spec_flag() == 0x20);
            }
            None
        }
    }
}

/// Types that are allowed to be used as samples in a stream.
///
/// The set is closed: it is implemented here for exactly the integer sample
/// encodings the engine supports, and should not be implemented elsewhere, as
/// the format tag and silence level would not be the correct ones.  Each
/// implementation carries a proof that the tag's reported byte width equals
/// the in-memory size of the element type, so a native/runtime size mismatch
/// is ruled out for every type in the set.
pub trait SampleType: Sized + Copy {
    /// The encoding that tags buffers of this element type.
    spec fn spec_format() -> SampleFormat;

    /// The sample value that carries silence for this encoding.
    spec fn spec_silence() -> Self;

    /// Should return the native format flag which corresponds to the type.
    fn sample_format() -> (r: u64)
        ensures
            r == Self::spec_format().spec_flag(),
    ;

    /// The encoding that tags buffers of this element type.
    fn format() -> (r: SampleFormat)
        ensures
            r == Self::spec_format(),
    ;

    /// The sample value that carries silence for this encoding.
    fn silence() -> (r: Self)
        ensures
            r == Self::spec_silence(),
    ;

    /// The format tag's reported byte width equals the in-memory size of the
    /// element type itself.
    proof fn size_matches()
        ensures
            Self::spec_format().spec_width() == size_of::<Self>(),
    ;
}

impl SampleType for i32 {
    open spec fn spec_format() -> SampleFormat {
        SampleFormat::Int32
    }

    open spec fn spec_silence() -> i32 {
        0
    }

    fn sample_format() -> u64 {
        0x2
    }

    fn format() -> SampleFormat {
        SampleFormat::Int32
    }

    fn silence() -> i32 {
        0
    }

    proof fn size_matches() {
        broadcast use vstd::layout::layout_of_primitives;

    }
}

impl SampleType for i16 {
    open spec fn spec_format() -> SampleFormat {
        SampleFormat::Int16
    }

    open spec fn spec_silence() -> i16 {
        0
    }

    fn sample_format() -> u64 {
        0x8
    }

    fn format() -> SampleFormat {
        SampleFormat::Int16
    }

    fn silence() -> i16 {
        0
    }

    proof fn size_matches() {
        broadcast use vstd::layout::layout_of_primitives;

    }
}

impl SampleType for i8 {
    open spec fn spec_format() -> SampleFormat {
        SampleFormat::Int8
    }

    open spec fn spec_silence() -> i8 {
        0
    }

    fn sample_format() -> u64 {
        0x10
    }

    fn format() -> SampleFormat {
        SampleFormat::Int8
    }

    fn silence() -> i8 {
        0
    }

    proof fn size_matches() {
        broadcast use vstd::layout::layout_of_primitives;

    }
}

impl SampleType for u8 {
    open spec fn spec_format() -> SampleFormat {
        SampleFormat::UInt8
    }

    /// Unsigned 8-bit samples centre on the midpoint of their range, so
    /// silence is 128, not 0.
    open spec fn spec_silence() -> u8 {
        128
    }

    fn sample_format() -> u64 {
        0x20
    }

    fn format() -> SampleFormat {
        SampleFormat::UInt8
    }

    fn silence() -> u8 {
        128
    }

    proof fn size_matches() {
        broadcast use vstd::layout::layout_of_primitives;

    }
}

} // verus!
