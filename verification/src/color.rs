//! The palette: which byte stands for which colour, and how a colour is
//! put on screen.

use vstd::prelude::*;

use crate::fault::Fault;

verus! {

/// A colour of the fixed palette. `Transparent` is no colour of its own:
/// drawing it leaves the pixel as it was.
#[derive(Debug, Copy, Clone, PartialEq, Eq, Structural)]
pub enum Colour {
    Black,
    White,
    Gray,
    Red,
    Green,
    Blue,
    DarkRed,
    DarkGreen,
    DarkBlue,
    Cyan,
    Orange,
    Yellow,
    Brown,
    Purple,
    Pink,
    LightGray,
    Transparent,
}

impl Colour {
    /// The colour that a byte of a program stands for, if any.
    pub open spec fn decode(num: u8) -> Option<Colour> {
        if num == 0x00 {
            Some(Colour::Black)
        } else if num == 0xff {
            Some(Colour::White)
        } else if num == 0x0f {
            Some(Colour::Gray)
        } else if num == 0x1f {
            Some(Colour::LightGray)
        } else if num == 0x0a {
            Some(Colour::DarkRed)
        } else if num == 0x1a {
            Some(Colour::Red)
        } else if num == 0x0b {
            Some(Colour::DarkGreen)
        } else if num == 0x1b {
            Some(Colour::Green)
        } else if num == 0x0c {
            Some(Colour::DarkBlue)
        } else if num == 0x1c {
            Some(Colour::Blue)
        } else if num == 0x2c {
            Some(Colour::Cyan)
        } else if num == 0xab {
            Some(Colour::Yellow)
        } else if num == 0xfa {
            Some(Colour::Orange)
        } else if num == 0x30 {
            Some(Colour::Brown)
        } else if num == 0xac {
            Some(Colour::Purple)
        } else if num == 0xbf {
            Some(Colour::Pink)
        } else if num == 0x99 {
            Some(Colour::Transparent)
        } else {
            None
        }
    }

    /// The colour as `0xRRGGBB`.
    pub open spec fn spec_rgb(self) -> u32 {
        match self {
            Colour::Black => 0x000000,
            Colour::White => 0xfcfcfc,
            Colour::Gray => 0x7c7c7c,
            Colour::Red => 0xc70039,
            Colour::Green => 0x3cff00,
            Colour::Blue => 0x00bbff,
            Colour::DarkRed => 0xa81000,
            Colour::DarkGreen => 0x007800,
            Colour::DarkBlue => 0x0058f8,
            Colour::Cyan => 0x00fcfc,
            Colour::Orange => 0xff5733,
            Colour::Yellow => 0xf8b800,
            Colour::Brown => 0x7e4100,
            Colour::Purple => 0xa600ff,
            Colour::Pink => 0xff0074,
            Colour::LightGray => 0xbcbcbc,
            Colour::Transparent => 0x999999,
        }
    }

    /// The pixel of the colour: red, green, blue, then an alpha that is
    /// always fully opaque.
    pub open spec fn spec_rgba(self) -> Seq<u8> {
        seq![
            (self.spec_rgb() / 0x10000) as u8,
            (self.spec_rgb() / 0x100 % 0x100) as u8,
            (self.spec_rgb() % 0x100) as u8,
            0xffu8,
        ]
    }

    /// The colour as `0xRRGGBB`.
    #[verifier::when_used_as_spec(spec_rgb)]
    pub fn rgb(self) -> (value: u32)
        ensures
            value == self.spec_rgb(),
            value <= 0xffffff,
    {
        match self {
            Colour::Black => 0x000000,
            Colour::White => 0xfcfcfc,
            Colour::Gray => 0x7c7c7c,
            Colour::Red => 0xc70039,
            Colour::Green => 0x3cff00,
            Colour::Blue => 0x00bbff,
            Colour::DarkRed => 0xa81000,
            Colour::DarkGreen => 0x007800,
            Colour::DarkBlue => 0x0058f8,
            Colour::Cyan => 0x00fcfc,
            Colour::Orange => 0xff5733,
            Colour::Yellow => 0xf8b800,
            Colour::Brown => 0x7e4100,
            Colour::Purple => 0xa600ff,
            Colour::Pink => 0xff0074,
            Colour::LightGray => 0xbcbcbc,
            Colour::Transparent => 0x999999,
        }
    }

    /// Encodes the colour as the four bytes of a pixel.
    pub fn into_rgba(self) -> (pixel: [u8; 4])
        ensures
            pixel@ == self.spec_rgba(),
            pixel[3] == 0xff,
    {
        let value = self.rgb();
        let pixel = [(value / 0x10000) as u8, (value / 0x100 % 0x100) as u8, (value % 0x100) as u8, 0xff];
        assert(pixel@ =~= self.spec_rgba());
        pixel
    }

    /// Decodes a colour byte of a program. A byte that stands for no
    /// colour is a fault; no colour is ever made up in its place.
    pub fn from_hex(num: u8) -> (colour: Result<Colour, Fault>)
        ensures
            colour == match Colour::decode(num) {
                Some(c) => Ok::<Colour, Fault>(c),
                None => Err(Fault::UnknownColorCode(num)),
            },
    {
        match num {
            0x00 => Ok(Colour::Black),
            0xff => Ok(Colour::White),
            0x0f => Ok(Colour::Gray),
            0x1f => Ok(Colour::LightGray),
            0x0a => Ok(Colour::DarkRed),
            0x1a => Ok(Colour::Red),
            0x0b => Ok(Colour::DarkGreen),
            0x1b => Ok(Colour::Green),
            0x0c => Ok(Colour::DarkBlue),
            0x1c => Ok(Colour::Blue),
            0x2c => Ok(Colour::Cyan),
            0xab => Ok(Colour::Yellow),
            0xfa => Ok(Colour::Orange),
            0x30 => Ok(Colour::Brown),
            0xac => Ok(Colour::Purple),
            0xbf => Ok(Colour::Pink),
            0x99 => Ok(Colour::Transparent),
            any => Err(Fault::UnknownColorCode(any)),
        }
    }
}

/// Whatever byte a colour was decoded from, its pixel is fully opaque.
pub proof fn lemma_decoded_pixel_is_opaque(num: u8)
    requires
        Colour::decode(num) is Some,
    ensures
        Colour::decode(num)->Some_0.spec_rgba().len() == 4,
        Colour::decode(num)->Some_0.spec_rgba()[3] == 0xff,
{
}

} // verus!
