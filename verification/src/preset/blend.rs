//! Blending preset modes.
//!
//! Each preset is a fixed [`Blend`] value, defined once as a spec constant
//! and produced by a matching executable constructor.  The constructor's
//! contract pins the result to the spec constant, so repeated calls agree
//! exactly: installing a preset into a draw state and re-reading it yields
//! the documented equation and factor pairs, byte for byte.

use vstd::prelude::*;

use crate::state::{Blend, BlendChannel, BlendValue, Equation, Factor};

verus! {

/// The blend value of the `replace` preset: both channels pass the source
/// through.
pub open spec fn spec_replace() -> Blend {
    Blend {
        color: BlendChannel {
            equation: Equation::Add,
            source: Factor::One,
            destination: Factor::Zero,
        },
        alpha: BlendChannel {
            equation: Equation::Add,
            source: Factor::One,
            destination: Factor::Zero,
        },
    }
}

/// The blend value of the `add` preset: both channels sum source and
/// destination with unit weights.
pub open spec fn spec_add() -> Blend {
    Blend {
        color: BlendChannel {
            equation: Equation::Add,
            source: Factor::One,
            destination: Factor::One,
        },
        alpha: BlendChannel {
            equation: Equation::Add,
            source: Factor::One,
            destination: Factor::One,
        },
    }
}

/// The blend value of the `multiply` preset: each channel weights the
/// source by the value already in the destination.
pub open spec fn spec_multiply() -> Blend {
    Blend {
        color: BlendChannel {
            equation: Equation::Add,
            source: Factor::ZeroPlus(BlendValue::DestColor),
            destination: Factor::Zero,
        },
        alpha: BlendChannel {
            equation: Equation::Add,
            source: Factor::ZeroPlus(BlendValue::DestAlpha),
            destination: Factor::Zero,
        },
    }
}

/// The blend value of the `alpha` preset: the color channel mixes by the
/// source alpha, the alpha channel sums with unit weights.
pub open spec fn spec_alpha() -> Blend {
    Blend {
        color: BlendChannel {
            equation: Equation::Add,
            source: Factor::ZeroPlus(BlendValue::SourceAlpha),
            destination: Factor::OneMinus(BlendValue::SourceAlpha),
        },
        alpha: BlendChannel {
            equation: Equation::Add,
            source: Factor::One,
            destination: Factor::One,
        },
    }
}

/// The blend value of the `invert` preset: the color channel subtracts the
/// source-weighted destination from the constant color, the alpha channel
/// keeps the destination alpha.
pub open spec fn spec_invert() -> Blend {
    Blend {
        color: BlendChannel {
            equation: Equation::Sub,
            source: Factor::ZeroPlus(BlendValue::ConstColor),
            destination: Factor::ZeroPlus(BlendValue::SourceColor),
        },
        alpha: BlendChannel {
            equation: Equation::Add,
            source: Factor::Zero,
            destination: Factor::One,
        },
    }
}

/// When combining two fragments, choose the source value.
pub fn replace() -> (r: Blend)
    ensures
        r == spec_replace(),
{
    Blend {
        color: BlendChannel {
            equation: Equation::Add,
            source: Factor::One,
            destination: Factor::Zero,
        },
        alpha: BlendChannel {
            equation: Equation::Add,
            source: Factor::One,
            destination: Factor::Zero,
        },
    }
}

/// When combining two fragments, add their values together, saturating at
/// the maximum representable value.
pub fn add() -> (r: Blend)
    ensures
        r == spec_add(),
{
    Blend {
        color: BlendChannel {
            equation: Equation::Add,
            source: Factor::One,
            destination: Factor::One,
        },
        alpha: BlendChannel {
            equation: Equation::Add,
            source: Factor::One,
            destination: Factor::One,
        },
    }
}

/// When combining two fragments, multiply their values together.
pub fn multiply() -> (r: Blend)
    ensures
        r == spec_multiply(),
{
    Blend {
        color: BlendChannel {
            equation: Equation::Add,
            source: Factor::ZeroPlus(BlendValue::DestColor),
            destination: Factor::Zero,
        },
        alpha: BlendChannel {
            equation: Equation::Add,
            source: Factor::ZeroPlus(BlendValue::DestAlpha),
            destination: Factor::Zero,
        },
    }
}

/// When combining two fragments, add the value of the source times its
/// alpha channel with the value of the destination multiplied by the
/// inverse of the source alpha channel.  Has the usual transparency
/// effect: mixes the two colors using a fraction of each one specified by
/// the alpha of the source.
pub fn alpha() -> (r: Blend)
    ensures
        r == spec_alpha(),
{
    Blend {
        color: BlendChannel {
            equation: Equation::Add,
            source: Factor::ZeroPlus(BlendValue::SourceAlpha),
            destination: Factor::OneMinus(BlendValue::SourceAlpha),
        },
        alpha: BlendChannel {
            equation: Equation::Add,
            source: Factor::One,
            destination: Factor::One,
        },
    }
}

/// When combining two fragments, subtract the destination color from a
/// constant color using the source color as weight.  Has an invert effect
/// with the constant color as base and the source color controlling
/// displacement from the base color.  A white source color and a white
/// constant value result in a plain invert.  The output alpha is the same
/// as the destination alpha.
pub fn invert() -> (r: Blend)
    ensures
        r == spec_invert(),
{
    Blend {
        color: BlendChannel {
            equation: Equation::Sub,
            source: Factor::ZeroPlus(BlendValue::ConstColor),
            destination: Factor::ZeroPlus(BlendValue::SourceColor),
        },
        alpha: BlendChannel {
            equation: Equation::Add,
            source: Factor::Zero,
            destination: Factor::One,
        },
    }
}

} // verus!
