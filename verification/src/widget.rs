//! What the layout and composition engine asks of every widget.

use vstd::prelude::*;

use crate::coordinates::{Coordinates, Position, Size};
use crate::render::clear_text;

verus! {

/// A drawable component that the layout engine places and resizes, and whose
/// output the composition engine collects.
///
/// A widget caches what it last drew in its draw list. Moving or resizing it
/// by `set_size` or `set_position` leaves the draw list as it is;
/// `set_coordinates` and `refresh` draw it anew.
pub trait Widget {
    /// The viewport that the widget was last given.
    spec fn coordinates(&self) -> Coordinates;

    /// The cached output of the last refresh.
    spec fn drawlist(&self) -> Seq<char>;

    /// What a refresh draws for the widget as it is now.
    spec fn rendering(&self) -> Seq<char>;

    /// The extent of the viewport.
    fn get_size(&self) -> (size: &Size)
        ensures
            *size == self.coordinates().size,
    ;

    /// Gives the viewport another extent. The widget is not drawn anew.
    fn set_size(&mut self, size: Size)
        ensures
            final(self).coordinates() == (Coordinates {
                size,
                position: old(self).coordinates().position,
            }),
            final(self).drawlist() == old(self).drawlist(),
    ;

    /// The origin of the viewport.
    fn get_position(&self) -> (position: &Position)
        ensures
            *position == self.coordinates().position,
    ;

    /// Moves the viewport to another origin. The widget is not drawn anew.
    fn set_position(&mut self, position: Position)
        ensures
            final(self).coordinates() == (Coordinates {
                size: old(self).coordinates().size,
                position,
            }),
            final(self).drawlist() == old(self).drawlist(),
    ;

    /// Origin and extent of the viewport together.
    fn get_coordinates(&self) -> (coordinates: &Coordinates)
        ensures
            *coordinates == self.coordinates(),
    ;

    /// Replaces origin and extent in one step and draws the widget anew at
    /// once.
    fn set_coordinates(&mut self, coordinates: &Coordinates)
        ensures
            final(self).coordinates() == *coordinates,
            final(self).drawlist() == final(self).rendering(),
    ;

    /// The title bar of the widget.
    fn render_header(&self) -> String;

    /// Draws the widget anew into its draw list. What it holds and where it
    /// sits stay as they are, so a second refresh draws the same again.
    fn refresh(&mut self)
        ensures
            final(self).coordinates() == old(self).coordinates(),
            final(self).rendering() == old(self).rendering(),
            final(self).drawlist() == old(self).rendering(),
    ;

    /// A copy of the draw list; nothing is drawn anew.
    fn get_drawlist(&self) -> (out: String)
        ensures
            out@ == self.drawlist(),
    ;

    /// The control sequence that erases the viewport of the widget.
    fn get_clearlist(&self) -> (out: String)
        ensures
            out@ == clear_text(self.coordinates()),
    ;
}

} // verus!
