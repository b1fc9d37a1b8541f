use vstd::prelude::*;

verus! {

/// Bits that no CAN frame identifier may set: identifiers have 29 bits.
const INVALID_BIT_MASK: u32 = 0xE000_0000;

/// The largest value a 29-bit (extended) frame identifier can take.
pub const MAX_EXTENDED_FRAME_ID: u32 = 0x1FFF_FFFF;

/// A value is a frame identifier when it fits in 29 bits.
pub open spec fn is_frame_id_value(value: u32) -> bool {
    value <= MAX_EXTENDED_FRAME_ID
}

/// A CAN frame identifier of at most 29 bits.
#[derive(Debug, Copy, Clone, PartialEq, Eq)]
pub struct FrameId {
    id: u32,
}

impl View for FrameId {
    type V = u32;

    closed spec fn view(&self) -> u32 {
        self.id
    }
}

impl FrameId {
    #[verifier::type_invariant]
    closed spec fn fits_29_bits(self) -> bool {
        is_frame_id_value(self.id)
    }

    /// The identifier as a number.
    pub fn get_id(&self) -> (id: u32)
        ensures
            id == self@,
            is_frame_id_value(id),
    {
        proof {
            use_type_invariant(self);
        }
        self.id
    }
}

/// The masked test that `try_from` performs is the 29-bit bound.
proof fn lemma_mask_is_bound(value: u32)
    ensures
        (value & INVALID_BIT_MASK == 0) == is_frame_id_value(value),
{
    assert((value & 0xE000_0000u32 == 0) == (value <= 0x1FFF_FFFFu32)) by (bit_vector);
}

impl TryFrom<u32> for FrameId {
    type Error = FrameIdError;

    fn try_from(value: u32) -> (res: Result<Self, Self::Error>) {
        proof {
            lemma_mask_is_bound(value);
        }
        if value & INVALID_BIT_MASK != 0 {
            Err(FrameIdError::OutOfRange)
        } else {
            Ok(FrameId { id: value })
        }
    }
}

impl vstd::std_specs::convert::TryFromSpecImpl<u32> for FrameId {
    open spec fn obeys_try_from_spec() -> bool {
        true
    }

    open spec fn try_from_spec(v: u32) -> Result<Self, Self::Error> {
        if is_frame_id_value(v) {
            Ok(frame_id_of(v))
        } else {
            Err(FrameIdError::OutOfRange)
        }
    }
}

/// The frame identifier whose value is `v`.
pub closed spec fn frame_id_of(v: u32) -> FrameId {
    FrameId { id: v }
}

/// Reading back the identifier made from a value gives that value.
pub proof fn lemma_frame_id_of_view(v: u32)
    ensures
        frame_id_of(v)@ == v,
{
}

/// `try_from` accepts exactly the values below 2^29, and the identifier it
/// makes reads back as the value it was made from.
pub proof fn lemma_try_from_accepts_29_bits(v: u32)
    ensures
        (<FrameId as vstd::std_specs::convert::TryFromSpec<u32>>::try_from_spec(v) is Ok) == (v
            < 0x2000_0000),
        <FrameId as vstd::std_specs::convert::TryFromSpec<u32>>::try_from_spec(v) matches Ok(f)
            ==> f@ == v,
        v >= 0x2000_0000 ==> <FrameId as vstd::std_specs::convert::TryFromSpec<
            u32,
        >>::try_from_spec(v) == Err::<FrameId, FrameIdError>(FrameIdError::OutOfRange),
{
}

/// The transmission formats of a CAN frame.
#[derive(Debug, Copy, Clone, PartialEq, Eq)]
pub enum FrameFormat {
    StandardCan,
    StandardCanFd,
    ExtendedCan,
    ExtendedCanFd,
    J1939,
    CANopen,
}

/// Why a value is not a frame identifier.
#[derive(Debug, PartialEq, Eq)]
pub enum FrameIdError {
    OutOfRange,
}

} // verus!
