use vstd::prelude::*;

verus! {

/// The colouring algorithms, in the order in which they are cycled through.
#[derive(Debug, Clone, Copy, PartialEq, Eq, Structural)]
pub enum ColorAlg {
    DEFAULT,
    LCH,
    HSV,
    HSL,
    BW,
}

impl ColorAlg {
    /// The algorithm that follows `self` in the cycle
    /// `DEFAULT -> LCH -> HSV -> HSL -> BW -> DEFAULT`.
    pub open spec fn spec_next(self) -> ColorAlg {
        match self {
            ColorAlg::DEFAULT => ColorAlg::LCH,
            ColorAlg::LCH => ColorAlg::HSV,
            ColorAlg::HSV => ColorAlg::HSL,
            ColorAlg::HSL => ColorAlg::BW,
            ColorAlg::BW => ColorAlg::DEFAULT,
        }
    }

    pub fn next(&self) -> (r: ColorAlg)
        ensures
            r == self.spec_next(),
    {
        match self {
            ColorAlg::DEFAULT => ColorAlg::LCH,
            ColorAlg::LCH => ColorAlg::HSV,
            ColorAlg::HSV => ColorAlg::HSL,
            ColorAlg::HSL => ColorAlg::BW,
            ColorAlg::BW => ColorAlg::DEFAULT,
        }
    }
}

/// Advancing the colouring five times comes back to where it started, and no
/// fewer steps do.
pub proof fn lemma_color_cycle_closes(c: ColorAlg)
    ensures
        c.spec_next().spec_next().spec_next().spec_next().spec_next() == c,
        c.spec_next() != c,
        c.spec_next().spec_next() != c,
        c.spec_next().spec_next().spec_next() != c,
        c.spec_next().spec_next().spec_next().spec_next() != c,
{
}

} // verus!
