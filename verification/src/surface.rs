//! A model of the external text-editing surface and of the registry the
//! controller looks surfaces up in.
//!
//! The controller never owns a surface: it holds a handle (an index into the
//! registry) and a lookup may find the slot empty — the surface is gone,
//! which every operation treats as an ordinary no-op, never an error.

use vstd::prelude::*;
use crate::state::{CursorShape, KeymapLayer};

verus! {

/// A row/column position in the surface's text.
#[derive(Clone, Copy, Debug, PartialEq, Eq, Structural)]
pub struct Position {
    pub row: usize,
    pub col: usize,
}

/// One selection: an anchor (`tail`), a moving end (`head`), and a
/// remembered goal column for vertical movement. A collapsed selection has
/// `tail == head`.
#[derive(Clone, Copy, Debug, PartialEq, Eq)]
pub struct Selection {
    pub tail: Position,
    pub head: Position,
    pub goal: Option<usize>,
}

/// Whether the surface is a full editor or a restricted single-line input.
/// Modal settings are only pushed into full surfaces.
#[derive(Clone, Copy, Debug, PartialEq, Eq, Structural)]
pub enum SurfaceKind {
    Full,
    SingleLine,
}

/// The per-surface state the modal core reads and writes: the settings the
/// reconciliation step pushes in, the selections mode switches adjust, and
/// the line lengths that clamping is measured against.
#[derive(Debug, PartialEq, Eq)]
#[verifier::ext_equal]
pub struct Surface {
    pub kind: SurfaceKind,
    pub cursor_shape: CursorShape,
    pub clip_at_line_ends: bool,
    pub input_enabled: bool,
    pub line_mode: bool,
    pub context_layer: Option<KeymapLayer>,
    /// Whether the controller currently holds the subscription to this
    /// surface's lifecycle and focus events. The subscription is owned
    /// exclusively by the controller and released whenever it rebinds.
    pub subscribed: bool,
    pub selections: Vec<Selection>,
    pub line_lengths: Vec<usize>,
}

impl Surface {
    /// A surface in its non-modal default configuration.
    pub open spec fn spec_unhooked(self) -> Surface {
        Surface {
            cursor_shape: CursorShape::Bar,
            clip_at_line_ends: false,
            input_enabled: true,
            line_mode: false,
            context_layer: None,
            ..self
        }
    }
}

/// The nearest valid position at or leftward of `p`, never past the end of
/// its line; in restrictive clip mode, never past the last character.
pub open spec fn spec_clip_left(lines: Seq<usize>, clip_at_line_ends: bool, p: Position) -> Position {
    if lines.len() == 0 {
        Position { row: 0, col: 0 }
    } else {
        let row = if p.row < lines.len() { p.row } else { (lines.len() - 1) as usize };
        let len = lines[row as int];
        let max_col: usize = if clip_at_line_ends && len > 0 { (len - 1) as usize } else { len };
        let col = if p.col < max_col { p.col } else { max_col };
        Position { row, col }
    }
}

/// Clamp `p` to the nearest valid position leftward, as `spec_clip_left`
/// says.
pub fn clip_left(lines: &Vec<usize>, clip_at_line_ends: bool, p: Position) -> (q: Position)
    ensures
        q == spec_clip_left(lines@, clip_at_line_ends, p),
{
    if lines.len() == 0 {
        Position { row: 0, col: 0 }
    } else {
        let row = if p.row < lines.len() { p.row } else { lines.len() - 1 };
        let len = lines[row];
        let max_col = if clip_at_line_ends && len > 0 { len - 1 } else { len };
        let col = if p.col < max_col { p.col } else { max_col };
        Position { row, col }
    }
}

/// The registry surfaces are looked up in. A handle is an index; a slot
/// holds `None` once its surface is gone.
#[derive(Debug)]
#[verifier::ext_equal]
pub struct Registry {
    pub surfaces: Vec<Option<Surface>>,
}

impl Registry {
    /// Whether handle `id` currently resolves to a surface.
    pub open spec fn spec_has(self, id: usize) -> bool {
        id < self.surfaces@.len() && self.surfaces@[id as int] is Some
    }

    /// The surface handle `id` resolves to.
    pub open spec fn spec_at(self, id: usize) -> Surface
        recommends
            self.spec_has(id),
    {
        self.surfaces@[id as int]->0
    }

    /// Remove the surface behind handle `id` from its slot, to mutate it and
    /// put it back. The slot keeps its place, so every other handle stays
    /// valid.
    pub fn take(&mut self, id: usize) -> (s: Option<Surface>)
        requires
            id < old(self).surfaces@.len(),
        ensures
            s == old(self).surfaces@[id as int],
            final(self).surfaces@ == old(self).surfaces@.update(id as int, None::<Surface>),
    {
        let s = self.surfaces.remove(id);
        self.surfaces.insert(id, None);
        proof {
            assert(self.surfaces@ =~= old(self).surfaces@.update(id as int, None::<Surface>));
        }
        s
    }

    /// Put a surface back into slot `id`.
    pub fn put(&mut self, id: usize, s: Option<Surface>)
        requires
            id < old(self).surfaces@.len(),
        ensures
            final(self).surfaces@ == old(self).surfaces@.update(id as int, s),
    {
        self.surfaces.remove(id);
        self.surfaces.insert(id, s);
        proof {
            assert(self.surfaces@ =~= old(self).surfaces@.update(id as int, s));
        }
    }
}

/// The global command-visibility filter: while the modal system is
/// disabled, the commands of the modal namespace are filtered out of
/// command palettes and search.
#[derive(Clone, Copy, Debug, PartialEq, Eq, Structural)]
pub struct CommandFilter {
    pub modal_commands_filtered: bool,
}

} // verus!
