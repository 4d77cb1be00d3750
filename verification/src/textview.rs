//! The text viewer: a widget that shows the first lines of a text.

use vstd::prelude::*;
use vstd::std_specs::cmp::PartialEqSpecImpl;

use crate::coordinates::{Coordinates, Position, Size};
use crate::lines::{expand_line, expand_lines, expand_tabs, lemma_expanded_is_tab_free, tab_free};
use crate::render::{
    clear_region, lemma_rows_drawn, render, render_text, row_fragments, row_text, visible_rows,
};
use crate::widget::Widget;

verus! {

/// A widget that shows the lines of a text, from the first line on, as far as
/// its viewport reaches.
///
/// The line store is filled once, when the viewer is made, and never changes
/// afterwards. The buffer holds what the last refresh drew.
pub struct TextView {
    lines: Vec<String>,
    buffer: String,
    coordinates: Coordinates,
}

/// What a `TextView` holds, as plain values.
pub struct TextViewModel {
    /// The line store, in source order.
    pub lines: Seq<Seq<char>>,
    /// The output of the last refresh; empty before the first one.
    pub buffer: Seq<char>,
    /// The viewport that the layout engine last assigned.
    pub coordinates: Coordinates,
}

impl TextViewModel {
    /// What a refresh draws in this state.
    pub open spec fn rendering(self) -> Seq<char> {
        render_text(self.lines, self.coordinates)
    }

    /// The state after a refresh: the buffer is replaced, nothing else moves.
    pub open spec fn refreshed(self) -> TextViewModel {
        TextViewModel { buffer: self.rendering(), ..self }
    }

    /// The state with another viewport and the buffer not yet redrawn.
    pub open spec fn with_coordinates(self, coordinates: Coordinates) -> TextViewModel {
        TextViewModel { coordinates, ..self }
    }

    /// No stored line holds a tab character.
    pub open spec fn tabs_expanded(self) -> bool {
        forall|i: int| 0 <= i < self.lines.len() ==> tab_free(#[trigger] self.lines[i])
    }
}

impl View for TextView {
    type V = TextViewModel;

    closed spec fn view(&self) -> TextViewModel {
        TextViewModel {
            lines: self.lines.deep_view(),
            buffer: self.buffer@,
            coordinates: self.coordinates,
        }
    }
}

impl TextView {
    /// Every viewer keeps its lines free of tabs.
    #[verifier::type_invariant]
    spec fn inv(&self) -> bool {
        forall|i: int| 0 <= i < self.lines@.len() ==> tab_free(#[trigger] self.lines@[i]@)
    }

    /// A viewer of the source lines `source`, not yet laid out and not yet
    /// drawn. Each line is stored with its tabs expanded to spaces.
    pub fn new_from_lines(source: &Vec<String>) -> (tv: TextView)
        ensures
            tv@ == (TextViewModel {
                lines: expand_lines(source.deep_view()),
                buffer: Seq::empty(),
                coordinates: Coordinates::empty(),
            }),
            tv@.tabs_expanded(),
    {
        let mut lines: Vec<String> = Vec::new();
        for i in 0..source.len()
            invariant
                lines.deep_view() == expand_lines(source.deep_view().take(i as int)),
        {
            let line = expand_line(source[i].as_str());
            let ghost before = lines.deep_view();
            let ghost expanded = line@;
            lines.push(line);
            proof {
                assert(expand_lines(source.deep_view().take(i + 1)) =~= expand_lines(
                    source.deep_view().take(i as int),
                ).push(expanded));
                assert(lines.deep_view() =~= before.push(expanded));
            }
        }
        proof {
            assert(source.deep_view().take(source.len() as int) =~= source.deep_view());
            assert forall|i: int| 0 <= i < lines@.len() implies tab_free(#[trigger] lines@[i]@) by {
                assert(lines@[i]@ == lines.deep_view()[i]);
                lemma_expanded_is_tab_free(source.deep_view()[i]);
            }
        }
        TextView { lines, buffer: String::new(), coordinates: Coordinates::new() }
    }

    /// The line store.
    pub fn lines(&self) -> (lines: &Vec<String>)
        ensures
            lines.deep_view() == self@.lines,
            self@.tabs_expanded(),
    {
        proof {
            use_type_invariant(self);
        }
        &self.lines
    }
}

/// Whether two line stores hold the same lines in the same order.
fn same_lines(a: &Vec<String>, b: &Vec<String>) -> (same: bool)
    ensures
        same == (a.deep_view() == b.deep_view()),
{
    if a.len() != b.len() {
        assert(a.deep_view().len() != b.deep_view().len());
        return false;
    }
    let mut i: usize = 0;
    while i < a.len()
        invariant
            a.len() == b.len(),
            i <= a.len(),
            forall|k: int| 0 <= k < i ==> a.deep_view()[k] == b.deep_view()[k],
        decreases a.len() - i,
    {
        if !(a[i] == b[i]) {
            assert(a.deep_view()[i as int] != b.deep_view()[i as int]);
            return false;
        }
        i += 1;
    }
    assert(a.deep_view() =~= b.deep_view());
    true
}

impl PartialEq for TextView {
    /// Two viewers are equal when they hold the same lines, the same buffer
    /// and the same coordinates.
    fn eq(&self, other: &TextView) -> (same: bool) {
        self.coordinates == other.coordinates && self.buffer == other.buffer && same_lines(
            &self.lines,
            &other.lines,
        )
    }
}

impl PartialEqSpecImpl for TextView {
    open spec fn obeys_eq_spec() -> bool {
        true
    }

    open spec fn eq_spec(&self, other: &TextView) -> bool {
        self@ == other@
    }
}

impl Widget for TextView {
    open spec fn coordinates(&self) -> Coordinates {
        self@.coordinates
    }

    open spec fn drawlist(&self) -> Seq<char> {
        self@.buffer
    }

    open spec fn rendering(&self) -> Seq<char> {
        self@.rendering()
    }

    fn get_size(&self) -> (size: &Size) {
        &self.coordinates.size
    }

    fn set_size(&mut self, size: Size)
        ensures
            final(self)@ == old(self)@.with_coordinates(
                Coordinates { size, position: old(self)@.coordinates.position },
            ),
    {
        proof {
            use_type_invariant(&*self);
        }
        self.coordinates.size = size;
    }

    fn get_position(&self) -> (position: &Position) {
        &self.coordinates.position
    }

    fn set_position(&mut self, position: Position)
        ensures
            final(self)@ == old(self)@.with_coordinates(
                Coordinates { size: old(self)@.coordinates.size, position },
            ),
    {
        proof {
            use_type_invariant(&*self);
        }
        self.coordinates.position = position;
    }

    fn get_coordinates(&self) -> (coordinates: &Coordinates) {
        &self.coordinates
    }

    fn set_coordinates(&mut self, coordinates: &Coordinates)
        ensures
            final(self)@ == old(self)@.with_coordinates(*coordinates).refreshed(),
    {
        proof {
            use_type_invariant(&*self);
        }
        self.coordinates = *coordinates;
        self.refresh();
    }

    /// A text viewer has no title bar: its header is empty.
    fn render_header(&self) -> (out: String)
        ensures
            out@ == Seq::<char>::empty(),
    {
        String::new()
    }

    fn refresh(&mut self)
        ensures
            final(self)@ == old(self)@.refreshed(),
    {
        proof {
            use_type_invariant(&*self);
        }
        self.buffer = render(&self.lines, &self.coordinates);
    }

    fn get_drawlist(&self) -> (out: String) {
        self.buffer.clone()
    }

    fn get_clearlist(&self) -> (out: String) {
        clear_region(&self.coordinates)
    }
}

/// Drawing again what has not changed gives the same output again: the
/// buffer after a refresh depends on the line store and the coordinates
/// alone, so a second refresh leaves the widget as the first one left it.
pub proof fn lemma_refresh_idempotent(a: TextViewModel, b: TextViewModel)
    requires
        a.lines == b.lines,
        a.coordinates == b.coordinates,
    ensures
        a.refreshed().buffer == b.refreshed().buffer,
        a.refreshed().refreshed() == a.refreshed(),
{
}

/// Setting the same coordinates once more changes nothing.
pub proof fn lemma_set_coordinates_idempotent(a: TextViewModel, c: Coordinates)
    ensures
        a.with_coordinates(c).refreshed().with_coordinates(c).refreshed() == a.with_coordinates(
            c,
        ).refreshed(),
{
}

/// Tabs are expanded when the viewer is made, before any line is cut to the
/// width of a viewport: a row shows the beginning of the expanded line, not
/// the expansion of the beginning of the source line.
pub proof fn lemma_tabs_expand_before_clamping(source: Seq<Seq<char>>, c: Coordinates, i: int)
    requires
        0 <= i < visible_rows(source.len(), c),
    ensures
        row_fragments(expand_lines(source), c)[i] == row_text(
            c,
            i as nat,
            expand_tabs(source[i]),
        ),
{
    lemma_rows_drawn(expand_lines(source), c);
}

} // verus!
