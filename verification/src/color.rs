//! Plain RGBA colors. The shell paints with framework colors whose channels
//! are floats in `[0, 1]`; this crate keeps its own 8-bit representation so
//! that contracts can speak of exact channel values, and the shell converts
//! by dividing by 255.

use vstd::prelude::*;

verus! {

/// An RGBA color with 8-bit channels.
#[derive(Clone, Copy, Debug, PartialEq, Eq, Structural)]
pub struct Rgba {
    pub red: u8,
    pub green: u8,
    pub blue: u8,
    pub alpha: u8,
}

impl Rgba {
    /// Builds a fully opaque color from its three channels.
    pub fn opaque(red: u8, green: u8, blue: u8) -> (c: Rgba)
        ensures
            c == (Rgba { red, green, blue, alpha: 255 }),
    {
        Rgba { red, green, blue, alpha: 255 }
    }
}

pub open spec fn spec_white() -> Rgba {
    Rgba { red: 255, green: 255, blue: 255, alpha: 255 }
}

#[verifier::when_used_as_spec(spec_white)]
pub fn white() -> (c: Rgba)
    ensures
        c == spec_white(),
{
    Rgba { red: 255, green: 255, blue: 255, alpha: 255 }
}

pub open spec fn spec_black() -> Rgba {
    Rgba { red: 0, green: 0, blue: 0, alpha: 255 }
}

#[verifier::when_used_as_spec(spec_black)]
pub fn black() -> (c: Rgba)
    ensures
        c == spec_black(),
{
    Rgba { red: 0, green: 0, blue: 0, alpha: 255 }
}

pub open spec fn spec_red() -> Rgba {
    Rgba { red: 255, green: 0, blue: 0, alpha: 255 }
}

#[verifier::when_used_as_spec(spec_red)]
pub fn red() -> (c: Rgba)
    ensures
        c == spec_red(),
{
    Rgba { red: 255, green: 0, blue: 0, alpha: 255 }
}

pub open spec fn spec_green() -> Rgba {
    Rgba { red: 0, green: 255, blue: 0, alpha: 255 }
}

#[verifier::when_used_as_spec(spec_green)]
pub fn green() -> (c: Rgba)
    ensures
        c == spec_green(),
{
    Rgba { red: 0, green: 255, blue: 0, alpha: 255 }
}

pub open spec fn spec_blue() -> Rgba {
    Rgba { red: 0, green: 0, blue: 255, alpha: 255 }
}

#[verifier::when_used_as_spec(spec_blue)]
pub fn blue() -> (c: Rgba)
    ensures
        c == spec_blue(),
{
    Rgba { red: 0, green: 0, blue: 255, alpha: 255 }
}

pub open spec fn spec_aqua() -> Rgba {
    Rgba { red: 0, green: 255, blue: 255, alpha: 255 }
}

#[verifier::when_used_as_spec(spec_aqua)]
pub fn aqua() -> (c: Rgba)
    ensures
        c == spec_aqua(),
{
    Rgba { red: 0, green: 255, blue: 255, alpha: 255 }
}

pub open spec fn spec_maroon() -> Rgba {
    Rgba { red: 128, green: 0, blue: 0, alpha: 255 }
}

#[verifier::when_used_as_spec(spec_maroon)]
pub fn maroon() -> (c: Rgba)
    ensures
        c == spec_maroon(),
{
    Rgba { red: 128, green: 0, blue: 0, alpha: 255 }
}

pub open spec fn spec_orange() -> Rgba {
    Rgba { red: 255, green: 165, blue: 0, alpha: 255 }
}

#[verifier::when_used_as_spec(spec_orange)]
pub fn orange() -> (c: Rgba)
    ensures
        c == spec_orange(),
{
    Rgba { red: 255, green: 165, blue: 0, alpha: 255 }
}

pub open spec fn spec_navy() -> Rgba {
    Rgba { red: 0, green: 0, blue: 128, alpha: 255 }
}

#[verifier::when_used_as_spec(spec_navy)]
pub fn navy() -> (c: Rgba)
    ensures
        c == spec_navy(),
{
    Rgba { red: 0, green: 0, blue: 128, alpha: 255 }
}

pub open spec fn spec_magenta() -> Rgba {
    Rgba { red: 255, green: 0, blue: 255, alpha: 255 }
}

#[verifier::when_used_as_spec(spec_magenta)]
pub fn magenta() -> (c: Rgba)
    ensures
        c == spec_magenta(),
{
    Rgba { red: 255, green: 0, blue: 255, alpha: 255 }
}

} // verus!
