//! Scene elements: a closed set of geometry variants.

use vstd::prelude::*;

verus! {

/// The one geometry payload there is so far. It holds nothing.
#[derive(Clone, Copy, Debug, PartialEq, Eq, Structural)]
pub struct Plane {}

/// A scene element. Both variants carry the same payload: the variant is
/// all that tells one element from another.
#[derive(Clone, Copy, Debug, PartialEq, Eq, Structural)]
pub enum Element {
    Plane(Plane),
    Sphere(Plane),
}

impl Element {
    /// Draws the element. No variant submits any geometry yet; the match
    /// names every variant, so a new one has to be given its arm here.
    pub fn draw(&self) {
        match self {
            Element::Plane(_) => {},
            Element::Sphere(_) => {},
        }
    }
}

} // verus!
