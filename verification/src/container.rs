use vstd::prelude::*;

verus! {

/// A widget that takes up all the space its parent offers and draws nothing.
/// It is used to push its siblings apart inside a flex container.
#[derive(Copy, Clone, Debug)]
pub struct Spacer {}

} // verus!
