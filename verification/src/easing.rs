//! The easing-function registry.
//!
//! Each easing function names an interpolation curve for the scripted
//! entrance animation. The curve is baked into the compute program at build
//! time: the symbol returned by [`EasingFunction::symbol`] is injected as a
//! build-time definition when the program is compiled, so changing the
//! easing function requires rebuilding the program and its buffer pair.

use vstd::prelude::*;

verus! {

/// The closed set of interpolation curves available for scripted animation.
#[derive(Clone, Copy, Debug, PartialEq, Eq, Structural)]
pub enum EasingFunction {
    SineEaseInOut,
    BackEaseInOut,
    QuadEaseInOut,
    BackEaseOut,
    ElasticEaseOut,
}

/// The build-time symbol that selects each curve in the compute program.
pub open spec fn easing_symbol_spec(e: EasingFunction) -> Seq<char> {
    match e {
        EasingFunction::SineEaseInOut => "sine_ease_in_out"@,
        EasingFunction::BackEaseInOut => "back_ease_in_out"@,
        EasingFunction::QuadEaseInOut => "quad_ease_in_out"@,
        EasingFunction::BackEaseOut => "back_ease_out"@,
        EasingFunction::ElasticEaseOut => "elastic_ease_out"@,
    }
}

impl EasingFunction {
    /// The symbol to define when compiling the compute program for this curve.
    pub fn symbol(&self) -> (r: &'static str)
        ensures
            r@ == easing_symbol_spec(*self),
    {
        match self {
            EasingFunction::SineEaseInOut => "sine_ease_in_out",
            EasingFunction::BackEaseInOut => "back_ease_in_out",
            EasingFunction::QuadEaseInOut => "quad_ease_in_out",
            EasingFunction::BackEaseOut => "back_ease_out",
            EasingFunction::ElasticEaseOut => "elastic_ease_out",
        }
    }

    /// Enumerates every curve the registry offers.
    pub fn registry() -> (v: Vec<EasingFunction>)
        ensures
            v@ == seq![
                EasingFunction::SineEaseInOut,
                EasingFunction::BackEaseInOut,
                EasingFunction::QuadEaseInOut,
                EasingFunction::BackEaseOut,
                EasingFunction::ElasticEaseOut,
            ],
    {
        vec![
            EasingFunction::SineEaseInOut,
            EasingFunction::BackEaseInOut,
            EasingFunction::QuadEaseInOut,
            EasingFunction::BackEaseOut,
            EasingFunction::ElasticEaseOut,
        ]
    }
}

impl Default for EasingFunction {
    /// The curve used when the engine is created without an explicit choice.
    fn default() -> (e: Self)
        ensures
            e == EasingFunction::SineEaseInOut,
    {
        EasingFunction::SineEaseInOut
    }
}

} // verus!
