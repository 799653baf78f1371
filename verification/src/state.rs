//! Modes, pending operators, and the derived presentation facts that the
//! settings-reconciliation step pushes into the bound surface.

use vstd::prelude::*;

verus! {

/// The active input mode. Exactly one mode is active at a time.
#[derive(Clone, Copy, Debug, PartialEq, Eq, Structural)]
pub enum Mode {
    Normal,
    Insert,
    Visual { line: bool },
}

impl Default for Mode {
    fn default() -> (m: Mode)
        ensures
            m == Mode::Normal,
    {
        Mode::Normal
    }
}

/// A pending command component awaiting completion by a motion or a
/// literal-character argument.
///
/// `Number` accumulates a decimal count prefix digit by digit; `FindForward`,
/// `FindBackward` and `Replace` wait for the next raw character; the domain
/// operators wait for a motion or text object.
#[derive(Clone, Copy, Debug, PartialEq, Eq, Structural)]
pub enum Operator {
    Number(usize),
    Delete,
    Change,
    Yank,
    Replace,
    FindForward { before: bool },
    FindBackward { after: bool },
}

impl Operator {
    /// Whether this operator is itself waiting for the next raw character
    /// (so an unrelated keystroke must not discard it: that keystroke IS
    /// the argument).
    pub open spec fn spec_awaits_raw_input(self) -> bool {
        self is FindForward || self is FindBackward || self is Replace
    }

    pub fn awaits_raw_input(&self) -> (r: bool)
        ensures
            r == self.spec_awaits_raw_input(),
    {
        matches!(self, Operator::FindForward { .. } | Operator::FindBackward { .. } | Operator::Replace)
    }
}

/// The shape the surface renders the cursor with.
#[derive(Clone, Copy, Debug, PartialEq, Eq, Structural)]
pub enum CursorShape {
    Bar,
    Block,
    Underscore,
    Hollow,
}

/// The named keymap context layer derived from the current mode and the
/// active operator; downstream keymap resolution selects bindings from it.
#[derive(Clone, Copy, Debug, PartialEq, Eq)]
pub struct KeymapLayer {
    pub mode: Mode,
    pub operator: Option<Operator>,
}

/// A mode-switch request carrying the target mode.
#[derive(Clone, Copy, Debug, PartialEq, Eq, Structural)]
pub struct SwitchMode(pub Mode);

/// An operator-push request carrying the operator value.
#[derive(Clone, Copy, Debug, PartialEq, Eq, Structural)]
pub struct PushOperator(pub Operator);

/// A numeric-digit request carrying one decimal digit of a count prefix.
#[derive(Clone, Copy, Debug, PartialEq, Eq, Structural)]
pub struct Number(pub u8);

/// The current mode together with the stack of pending operators.
/// The top of the stack (its last element) is the active operator.
#[derive(Debug, PartialEq, Eq)]
pub struct VimState {
    pub mode: Mode,
    pub operator_stack: Vec<Operator>,
}

impl VimState {
    /// The default state: normal mode, nothing pending.
    pub open spec fn spec_is_default(self) -> bool {
        self.mode == Mode::Normal && self.operator_stack@ == Seq::<Operator>::empty()
    }

    /// The active operator is the top of the stack, read without popping.
    pub open spec fn spec_active_operator(self) -> Option<Operator> {
        if self.operator_stack@.len() > 0 {
            Some(self.operator_stack@.last())
        } else {
            None
        }
    }

    /// The cursor shape the bound surface should render in this mode.
    pub open spec fn spec_cursor_shape(self) -> CursorShape {
        match self.mode {
            Mode::Normal => CursorShape::Block,
            Mode::Insert => CursorShape::Bar,
            Mode::Visual { .. } => CursorShape::Block,
        }
    }

    pub fn cursor_shape(&self) -> (r: CursorShape)
        ensures
            r == self.spec_cursor_shape(),
    {
        match self.mode {
            Mode::Normal => CursorShape::Block,
            Mode::Insert => CursorShape::Bar,
            Mode::Visual { .. } => CursorShape::Block,
        }
    }

    /// Whether the current mode requires every selection to be collapsed
    /// (empty). Only visual mode keeps non-empty selections.
    pub open spec fn spec_empty_selections_only(self) -> bool {
        !(self.mode is Visual)
    }

    pub fn empty_selections_only(&self) -> (r: bool)
        ensures
            r == self.spec_empty_selections_only(),
    {
        !matches!(self.mode, Mode::Visual { .. })
    }

    /// Whether cursor motions clip at the last character of a line rather
    /// than allowing one-past-end. Restrictive clipping applies in normal
    /// mode only: insert and visual modes may sit one past the end.
    pub open spec fn spec_clip_at_line_end(self) -> bool {
        !(self.mode is Insert || self.mode is Visual)
    }

    pub fn clip_at_line_end(&self) -> (r: bool)
        ensures
            r == self.spec_clip_at_line_end(),
    {
        !matches!(self.mode, Mode::Insert | Mode::Visual { .. })
    }

    /// Whether raw keyboard input is intercepted by the modal system rather
    /// than forwarded to the buffer: every mode but insert is fully
    /// modal-controlled.
    pub open spec fn spec_vim_controlled(self) -> bool {
        !(self.mode is Insert)
    }

    pub fn vim_controlled(&self) -> (r: bool)
        ensures
            r == self.spec_vim_controlled(),
    {
        !matches!(self.mode, Mode::Insert)
    }

    /// Whether the surface must render and operate its selections in
    /// whole-line mode: true exactly in line-wise visual mode.
    pub open spec fn spec_line_mode(self) -> bool {
        self.mode == (Mode::Visual { line: true })
    }

    pub fn line_mode(&self) -> (r: bool)
        ensures
            r == self.spec_line_mode(),
    {
        matches!(self.mode, Mode::Visual { line: true })
    }

    /// The keymap context layer derived from the mode and the active
    /// operator.
    pub open spec fn spec_keymap_context_layer(self) -> KeymapLayer {
        KeymapLayer { mode: self.mode, operator: self.spec_active_operator() }
    }

    pub fn keymap_context_layer(&self) -> (r: KeymapLayer)
        ensures
            r == self.spec_keymap_context_layer(),
    {
        let operator: Option<Operator> = if self.operator_stack.len() > 0 {
            Some(self.operator_stack[self.operator_stack.len() - 1])
        } else {
            None
        };
        KeymapLayer { mode: self.mode, operator }
    }
}

impl Default for VimState {
    fn default() -> (s: VimState)
        ensures
            s.mode == Mode::Normal,
            s.operator_stack@ == Seq::<Operator>::empty(),
    {
        VimState { mode: Mode::Normal, operator_stack: Vec::new() }
    }
}

} // verus!
