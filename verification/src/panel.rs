//! How a display controller is set up for the panel that is wired to it.
use mipidsi::options::{Orientation as MipiOrientation, Rotation};
use vstd::prelude::*;

verus! {

/// How the picture lies on the panel: a clockwise rotation in degrees, and
/// whether the picture is mirrored.
#[derive(Clone, Copy, Debug, PartialEq, Eq, Structural)]
pub struct Orientation {
    pub degrees: i32,
    pub mirrored: bool,
}

/// Flips an `mipidsi` `Orientation` with `flip_horizontal`: it mirrors the
/// picture, and where the picture stands on its side it also turns it by half a
/// circle. The precondition admits the four angles that `mipidsi` has.
#[verifier::external_body]
fn flip_orientation(degrees: i32, mirrored: bool) -> (flipped: (i32, bool))
    requires
        degrees == 0 || degrees == 90 || degrees == 180 || degrees == 270,
    ensures
        flipped.0 == if degrees == 90 {
            270
        } else if degrees == 270 {
            90
        } else {
            degrees as int
        },
        flipped.1 == !mirrored,
{
    let rotation = Rotation::try_from_degree(degrees).unwrap();
    let flipped = MipiOrientation { rotation, mirrored }.flip_horizontal();
    (flipped.rotation.degree(), flipped.mirrored)
}

impl Orientation {
    /// The rotation is a quarter, half or three quarters of a circle, or none.
    pub open spec fn wf(self) -> bool {
        self.degrees == 0 || self.degrees == 90 || self.degrees == 180 || self.degrees == 270
    }

    /// The picture stands on its side.
    pub open spec fn is_vertical(self) -> bool {
        self.degrees == 90 || self.degrees == 270
    }

    /// The orientation with left and right exchanged.
    pub open spec fn flipped(self) -> Orientation {
        Orientation {
            degrees: if self.is_vertical() {
                (360 - self.degrees) as i32
            } else {
                self.degrees
            },
            mirrored: !self.mirrored,
        }
    }

    /// Neither rotated nor mirrored.
    pub fn upright() -> (orientation: Orientation)
        ensures
            orientation.wf(),
            orientation == (Orientation { degrees: 0, mirrored: false }),
    {
        Orientation { degrees: 0, mirrored: false }
    }

    /// Exchanges left and right.
    pub fn flip_horizontal(self) -> (orientation: Orientation)
        requires
            self.wf(),
        ensures
            orientation.wf(),
            orientation == self.flipped(),
            orientation.mirrored != self.mirrored,
            self.degrees == 0 || self.degrees == 180 ==> orientation.degrees == self.degrees,
            self.degrees == 90 || self.degrees == 270 ==> orientation.degrees + self.degrees == 360,
    {
        let (degrees, mirrored) = flip_orientation(self.degrees, self.mirrored);
        Orientation { degrees, mirrored }
    }
}

/// Flipping mirrors the picture. One that lies flat keeps its rotation, one that
/// stands on its side is turned to the other side.
pub proof fn law_flip_mirrors(orientation: Orientation)
    requires
        orientation.degrees == 0 || orientation.degrees == 90 || orientation.degrees == 180
            || orientation.degrees == 270,
    ensures
        orientation.wf(),
        orientation.flipped().wf(),
        orientation.flipped().mirrored != orientation.mirrored,
        orientation.degrees == 0 || orientation.degrees == 180 ==> orientation.flipped().degrees
            == orientation.degrees,
        orientation.degrees == 90 || orientation.degrees == 270 ==> orientation.flipped().degrees
            + orientation.degrees == 360,
{
}

/// Flipping twice gives the orientation back.
pub proof fn law_flip_undoes_flip(orientation: Orientation)
    requires
        orientation.wf(),
    ensures
        orientation.flipped().wf(),
        orientation.flipped().flipped() == orientation,
{
}

/// What a display controller is told about the panel before the first picture.
#[derive(Clone, Copy, Debug, PartialEq, Eq, Structural)]
pub struct PanelSetup {
    /// Columns and rows of the panel.
    pub width: u16,
    pub height: u16,
    /// Where the panel begins in the controller's memory.
    pub offset_x: u16,
    pub offset_y: u16,
    /// The panel takes blue first.
    pub bgr: bool,
    /// The panel shows inverted colours.
    pub inverted: bool,
    pub orientation: Orientation,
}

impl PanelSetup {
    /// The panel is not empty and lies inside a controller memory of `columns`
    /// by `rows` pixels.
    pub open spec fn fits(self, columns: int, rows: int) -> bool {
        &&& self.orientation.wf()
        &&& 0 < self.width
        &&& 0 < self.height
        &&& self.offset_x + self.width <= columns
        &&& self.offset_y + self.height <= rows
    }
}

} // verus!
