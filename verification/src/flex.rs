use vstd::prelude::*;

verus! {

/// The direction in which a flex container places its children.
#[derive(PartialEq, Eq, Structural, Copy, Clone, Debug)]
pub enum Axis {
    /// Place items in a row. The main axis is the `x` axis, and the cross
    /// axis is the `y` axis.
    Horizontal,
    /// Place items in a column. The main axis is the `y` axis, and the cross
    /// axis is the `x` axis.
    Vertical,
}

impl Default for Axis {
    /// A flex container is vertical unless told otherwise.
    fn default() -> (r: Axis)
        ensures
            r == Axis::Vertical,
    {
        Axis::Vertical
    }
}

/// How the children of a flex container are aligned along the main axis.
/// For a vertical container this is their vertical position, for a
/// horizontal container their horizontal position.
#[derive(PartialEq, Eq, Structural, Copy, Clone, Debug)]
pub enum MainAxisAlignment {
    Start,
    End,
    Center,
    SpaceEvenly,
    SpaceAround,
    SpaceBetween,
}

impl Default for MainAxisAlignment {
    /// Children are packed at the start of the main axis unless told otherwise.
    fn default() -> (r: MainAxisAlignment)
        ensures
            r == MainAxisAlignment::Start,
    {
        MainAxisAlignment::Start
    }
}

/// How the children of a flex container are aligned along the cross axis.
/// For a vertical container this is their horizontal position, for a
/// horizontal container their vertical position.
#[derive(Copy, Clone, Debug)]
pub enum CrossAxisAlignment {
    /// Push children to the start of the container.
    Start,
    /// Push children to the end of the container.
    End,
    /// Stretch children to fill the container.
    Stretch,
    /// Position children in the center.
    Center,
}

impl Default for CrossAxisAlignment {
    /// Children sit at the start of the cross axis unless told otherwise.
    fn default() -> (r: CrossAxisAlignment)
        ensures
            r == CrossAxisAlignment::Start,
    {
        CrossAxisAlignment::Start
    }
}

/// How large a flex container is along its main axis.
#[derive(PartialEq, Eq, Structural, Copy, Clone, Debug)]
pub enum MainAxisSize {
    /// Stretch to fill the container.
    Max,
    /// Shrink to fit the children.
    Min,
}

impl Default for MainAxisSize {
    /// A flex container shrinks to fit its children unless told otherwise.
    fn default() -> (r: MainAxisSize)
        ensures
            r == MainAxisSize::Min,
    {
        MainAxisSize::Min
    }
}

impl Axis {
    /// The component of the pair `(x, y)` that lies along this axis.
    pub open spec fn main_of<T>(self, x: T, y: T) -> T {
        match self {
            Axis::Horizontal => x,
            Axis::Vertical => y,
        }
    }

    /// The component of the pair `(x, y)` that lies across this axis.
    pub open spec fn cross_of<T>(self, x: T, y: T) -> T {
        match self {
            Axis::Horizontal => y,
            Axis::Vertical => x,
        }
    }

    /// The pair `(x, y)` whose component along this axis is `main` and whose
    /// component across it is `cross`.
    pub open spec fn pair_of<T>(self, main: T, cross: T) -> (T, T) {
        match self {
            Axis::Horizontal => (main, cross),
            Axis::Vertical => (cross, main),
        }
    }

    /// Picks the component of `(x, y)` that lies along the main axis: `x` for a
    /// row, `y` for a column. A flex container uses it to read the main-axis
    /// part of a size or of a pair of constraints.
    pub fn main_axis<T>(self, x: T, y: T) -> (r: T)
        ensures
            r == self.main_of(x, y),
    {
        match self {
            Axis::Horizontal => x,
            Axis::Vertical => y,
        }
    }

    /// Picks the component of `(x, y)` that lies across the main axis: `y` for
    /// a row, `x` for a column.
    pub fn cross_axis<T>(self, x: T, y: T) -> (r: T)
        ensures
            r == self.cross_of(x, y),
    {
        match self {
            Axis::Horizontal => y,
            Axis::Vertical => x,
        }
    }

    /// Builds the `(x, y)` pair from a main-axis and a cross-axis component:
    /// `(main, cross)` for a row, `(cross, main)` for a column.
    pub fn align_to_axis<T>(self, main: T, cross: T) -> (r: (T, T))
        ensures
            r == self.pair_of(main, cross),
    {
        match self {
            Axis::Horizontal => (main, cross),
            Axis::Vertical => (cross, main),
        }
    }
}

/// Reading back the main-axis and cross-axis components of a pair built from
/// them gives the two components that went in, for either axis.
pub proof fn lemma_align_then_read<T>(axis: Axis, main: T, cross: T)
    ensures
        ({
            let (x, y) = axis.pair_of(main, cross);
            axis.main_of(x, y) == main && axis.cross_of(x, y) == cross
        }),
{
}

/// Splitting a pair into its main-axis and cross-axis components and building
/// a pair from them again gives back the pair, for either axis.
pub proof fn lemma_read_then_align<T>(axis: Axis, x: T, y: T)
    ensures
        axis.pair_of(axis.main_of(x, y), axis.cross_of(x, y)) == (x, y),
{
}

/// The two axes are each other's cross axis: the main-axis component for one
/// axis is the cross-axis component for the other.
pub proof fn lemma_axes_swap<T>(x: T, y: T)
    ensures
        Axis::Horizontal.main_of(x, y) == Axis::Vertical.cross_of(x, y),
        Axis::Vertical.main_of(x, y) == Axis::Horizontal.cross_of(x, y),
{
}

} // verus!
