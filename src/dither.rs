use vstd::prelude::*;

verus! {

/// How the dither pattern is laid out.
#[derive(Debug, Copy, Clone, PartialEq, Eq, Hash)]
pub enum DitherMode {
    Disabled,
    Perlin,
    Radial,
    Manhattan,
    Chebyshev,
}

impl DitherMode {
    /// The shader definition that selects this mode; none when disabled.
    pub fn shader_def(self) -> (r: Result<&'static str, ()>)
        ensures
            self == DitherMode::Disabled <==> r.is_err(),
            self == DitherMode::Perlin ==> r.unwrap()@ == "DITHER_PERLIN"@,
            self == DitherMode::Radial ==> r.unwrap()@ == "DITHER_RADIAL"@,
            self == DitherMode::Manhattan ==> r.unwrap()@ == "DITHER_MANHATTAN"@,
            self == DitherMode::Chebyshev ==> r.unwrap()@ == "DITHER_CHEBYSHEV"@,
    {
        match self {
            DitherMode::Disabled => Err(()),
            DitherMode::Perlin => Ok("DITHER_PERLIN"),
            DitherMode::Radial => Ok("DITHER_RADIAL"),
            DitherMode::Manhattan => Ok("DITHER_MANHATTAN"),
            DitherMode::Chebyshev => Ok("DITHER_CHEBYSHEV"),
        }
    }
}

impl Default for DitherMode {
    fn default() -> (r: DitherMode)
        ensures
            r == DitherMode::Disabled,
    {
        DitherMode::Disabled
    }
}

} // verus!
