use vstd::prelude::*;
use crate::error::Error;

verus! {

/// One of the hardware texture units a texture can occupy while active.
/// The native API names at most sixteen of them symbolically, so that is the
/// range this type covers.
#[derive(Debug, Copy, Clone, Hash, PartialEq, Eq, Structural)]
pub enum TextureUnit {
    Texture0,
    Texture1,
    Texture2,
    Texture3,
    Texture4,
    Texture5,
    Texture6,
    Texture7,
    Texture8,
    Texture9,
    Texture10,
    Texture11,
    Texture12,
    Texture13,
    Texture14,
    Texture15,
}

/// Walks the texture units in ascending order.
pub struct TextureUnitIter {
    current_unit: u8,
}

/// The number of texture units this library can name.
pub const NUM_TEXTURE_UNITS: usize = 16;

impl TextureUnit {
    /// The unit's position in the context's occupancy vector.
    pub open spec fn index(self) -> int {
        match self {
            TextureUnit::Texture0 => 0,
            TextureUnit::Texture1 => 1,
            TextureUnit::Texture2 => 2,
            TextureUnit::Texture3 => 3,
            TextureUnit::Texture4 => 4,
            TextureUnit::Texture5 => 5,
            TextureUnit::Texture6 => 6,
            TextureUnit::Texture7 => 7,
            TextureUnit::Texture8 => 8,
            TextureUnit::Texture9 => 9,
            TextureUnit::Texture10 => 10,
            TextureUnit::Texture11 => 11,
            TextureUnit::Texture12 => 12,
            TextureUnit::Texture13 => 13,
            TextureUnit::Texture14 => 14,
            TextureUnit::Texture15 => 15,
        }
    }

    /// The unit a slot index corresponds to, if any.
    pub open spec fn spec_from_index(idx: int) -> Option<TextureUnit> {
        if idx == 0 { Some(TextureUnit::Texture0) }
        else if idx == 1 { Some(TextureUnit::Texture1) }
        else if idx == 2 { Some(TextureUnit::Texture2) }
        else if idx == 3 { Some(TextureUnit::Texture3) }
        else if idx == 4 { Some(TextureUnit::Texture4) }
        else if idx == 5 { Some(TextureUnit::Texture5) }
        else if idx == 6 { Some(TextureUnit::Texture6) }
        else if idx == 7 { Some(TextureUnit::Texture7) }
        else if idx == 8 { Some(TextureUnit::Texture8) }
        else if idx == 9 { Some(TextureUnit::Texture9) }
        else if idx == 10 { Some(TextureUnit::Texture10) }
        else if idx == 11 { Some(TextureUnit::Texture11) }
        else if idx == 12 { Some(TextureUnit::Texture12) }
        else if idx == 13 { Some(TextureUnit::Texture13) }
        else if idx == 14 { Some(TextureUnit::Texture14) }
        else if idx == 15 { Some(TextureUnit::Texture15) }
        else { None }
    }

    pub fn iter() -> (r: TextureUnitIter)
        ensures
            r.position() == 0,
    {
        TextureUnitIter { current_unit: 0 }
    }

    /// The unit for a slot index of the occupancy vector; fails when the
    /// index is past the last unit this library can name.
    pub fn try_from(idx: usize) -> (r: Result<TextureUnit, Error>)
        ensures
            match r {
                Ok(unit) => Self::spec_from_index(idx as int) == Some(unit),
                Err(e) => idx >= NUM_TEXTURE_UNITS && e == Error::InvalidTextureUnit(idx),
            },
    {
        match idx {
            0 => Ok(TextureUnit::Texture0),
            1 => Ok(TextureUnit::Texture1),
            2 => Ok(TextureUnit::Texture2),
            3 => Ok(TextureUnit::Texture3),
            4 => Ok(TextureUnit::Texture4),
            5 => Ok(TextureUnit::Texture5),
            6 => Ok(TextureUnit::Texture6),
            7 => Ok(TextureUnit::Texture7),
            8 => Ok(TextureUnit::Texture8),
            9 => Ok(TextureUnit::Texture9),
            10 => Ok(TextureUnit::Texture10),
            11 => Ok(TextureUnit::Texture11),
            12 => Ok(TextureUnit::Texture12),
            13 => Ok(TextureUnit::Texture13),
            14 => Ok(TextureUnit::Texture14),
            15 => Ok(TextureUnit::Texture15),
            _ => Err(Error::InvalidTextureUnit(idx)),
        }
    }

    /// The unit's slot index as an executable value.
    pub fn index_usize(&self) -> (r: usize)
        ensures
            r as int == self.index(),
            r < NUM_TEXTURE_UNITS,
    {
        match self {
            TextureUnit::Texture0 => 0,
            TextureUnit::Texture1 => 1,
            TextureUnit::Texture2 => 2,
            TextureUnit::Texture3 => 3,
            TextureUnit::Texture4 => 4,
            TextureUnit::Texture5 => 5,
            TextureUnit::Texture6 => 6,
            TextureUnit::Texture7 => 7,
            TextureUnit::Texture8 => 8,
            TextureUnit::Texture9 => 9,
            TextureUnit::Texture10 => 10,
            TextureUnit::Texture11 => 11,
            TextureUnit::Texture12 => 12,
            TextureUnit::Texture13 => 13,
            TextureUnit::Texture14 => 14,
            TextureUnit::Texture15 => 15,
        }
    }
}

impl TextureUnitIter {
    /// How far the walk has come.
    pub closed spec fn position(self) -> int {
        self.current_unit as int
    }

    /// Hands out the unit at the current position and advances, or reports
    /// the end of the range.
    pub fn next(&mut self) -> (r: Option<TextureUnit>)
        ensures
            match r {
                Some(unit) => {
                    &&& TextureUnit::spec_from_index(old(self).position()) == Some(unit)
                    &&& final(self).position() == old(self).position() + 1
                },
                None => {
                    &&& old(self).position() >= NUM_TEXTURE_UNITS
                    &&& *final(self) == *old(self)
                },
            },
    {
        if self.current_unit >= 16 {
            return None;
        }
        let unit = match self.current_unit {
            0 => TextureUnit::Texture0,
            1 => TextureUnit::Texture1,
            2 => TextureUnit::Texture2,
            3 => TextureUnit::Texture3,
            4 => TextureUnit::Texture4,
            5 => TextureUnit::Texture5,
            6 => TextureUnit::Texture6,
            7 => TextureUnit::Texture7,
            8 => TextureUnit::Texture8,
            9 => TextureUnit::Texture9,
            10 => TextureUnit::Texture10,
            11 => TextureUnit::Texture11,
            12 => TextureUnit::Texture12,
            13 => TextureUnit::Texture13,
            14 => TextureUnit::Texture14,
            _ => TextureUnit::Texture15,
        };
        self.current_unit = self.current_unit + 1;
        Some(unit)
    }
}

} // verus!
