use vstd::prelude::*;

verus! {

/// Side of a random-noise image when none is asked for.
pub const ART_DEFAULT_SIDE: u32 = 400;

/// Side of a fractal image when none is asked for.
pub const FRACTAL_DEFAULT_SIDE: u32 = 800;

/// Query parameters of the image endpoints.
pub struct ArtParams {
    pub width: Option<u32>,
    pub height: Option<u32>,
    pub seed: Option<u64>,
}

fn side_or(side: Option<u32>, default: u32) -> (r: u32)
    ensures
        r == match side {
            Some(v) => v,
            None => default,
        },
{
    match side {
        Some(v) => v,
        None => default,
    }
}

impl ArtParams {
    /// Width and height of a random-noise image.
    pub fn art_size(&self) -> (r: (u32, u32))
        ensures
            r.0 == match self.width {
                Some(v) => v,
                None => ART_DEFAULT_SIDE,
            },
            r.1 == match self.height {
                Some(v) => v,
                None => ART_DEFAULT_SIDE,
            },
    {
        (side_or(self.width, ART_DEFAULT_SIDE), side_or(self.height, ART_DEFAULT_SIDE))
    }

    /// Width and height of a fractal image.
    pub fn fractal_size(&self) -> (r: (u32, u32))
        ensures
            r.0 == match self.width {
                Some(v) => v,
                None => FRACTAL_DEFAULT_SIDE,
            },
            r.1 == match self.height {
                Some(v) => v,
                None => FRACTAL_DEFAULT_SIDE,
            },
    {
        (side_or(self.width, FRACTAL_DEFAULT_SIDE), side_or(self.height, FRACTAL_DEFAULT_SIDE))
    }
}

} // verus!
