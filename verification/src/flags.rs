use vstd::prelude::*;

verus! {

// Flag fields are stored as plain masked integers.  Decoding keeps only the
// bits that belong to a defined flag, exactly as the original
// truncating-conversion did; naming individual flags is presentation work
// and stays outside the decoder.
/// Every defined contents flag: bits 0 through 29 and bit 31.
pub const CONTENTS_FLAGS_MASK: u32 = 0xBFFF_FFFF;

/// Every defined surface flag: bits 0 through 15.
pub const SURFACE_FLAGS_MASK: u32 = 0xFFFF;

/// Every defined displacement-triangle flag: bits 0 through 4.
pub const DISP_TRI_FLAGS_MASK: u16 = 0x1F;

/// Contents flags of a leaf, a brush or a displacement, as a masked bit set.
#[derive(Debug, Clone, Copy, PartialEq, Eq, Structural)]
pub struct ContentsFlags {
    pub bits: u32,
}

/// Surface flags of a texture-info record, as a masked bit set.
#[derive(Debug, Clone, Copy, PartialEq, Eq, Structural)]
pub struct SurfaceFlags {
    pub bits: u32,
}

/// Flags of one displacement triangle, as a masked bit set.
#[derive(Debug, Clone, Copy, PartialEq, Eq, Structural)]
pub struct DispTriFlags {
    pub bits: u16,
}

/// The contents flags kept from a raw field: undefined bits are dropped.
pub open spec fn spec_contents_from_bits(bits: u32) -> ContentsFlags {
    ContentsFlags { bits: bits & CONTENTS_FLAGS_MASK }
}

/// The surface flags kept from a raw field: undefined bits are dropped.
pub open spec fn spec_surface_from_bits(bits: u32) -> SurfaceFlags {
    SurfaceFlags { bits: bits & SURFACE_FLAGS_MASK }
}

/// The displacement-triangle flags kept from a raw field.
pub open spec fn spec_disp_tri_from_bits(bits: u16) -> DispTriFlags {
    DispTriFlags { bits: bits & DISP_TRI_FLAGS_MASK }
}

impl ContentsFlags {
    /// Keep the defined flag bits of a raw field and drop the rest.
    pub fn from_bits_truncate(bits: u32) -> (r: ContentsFlags)
        ensures
            r == spec_contents_from_bits(bits),
    {
        ContentsFlags { bits: bits & CONTENTS_FLAGS_MASK }
    }
}

impl SurfaceFlags {
    /// Keep the defined flag bits of a raw field and drop the rest.
    pub fn from_bits_truncate(bits: u32) -> (r: SurfaceFlags)
        ensures
            r == spec_surface_from_bits(bits),
    {
        SurfaceFlags { bits: bits & SURFACE_FLAGS_MASK }
    }
}

impl DispTriFlags {
    /// Keep the defined flag bits of a raw field and drop the rest.
    pub fn from_bits_truncate(bits: u16) -> (r: DispTriFlags)
        ensures
            r == spec_disp_tri_from_bits(bits),
    {
        DispTriFlags { bits: bits & DISP_TRI_FLAGS_MASK }
    }
}

} // verus!
