//! The modal controller: owns the mode and the operator stack, binds to at
//! most one surface at a time through a registry handle, and reconciles the
//! surface's settings after every transition.

use vstd::prelude::*;
use vstd::pervasive::VecAdditionalExecFns;
use crate::state::{CursorShape, Mode, Number, Operator, VimState};
use crate::surface::{clip_left, spec_clip_left, CommandFilter, Registry, Selection, Surface, SurfaceKind};

verus! {

/// The modal controller. It never owns the surface it drives: it keeps a
/// handle into the registry, and every lookup may find the surface gone.
#[derive(Debug)]
pub struct Vim {
    pub enabled: bool,
    pub state: VimState,
    pub active_editor: Option<usize>,
}

/// What intercepted raw text resolves to: the command the surrounding layer
/// must carry out on the surface, with the pending composition it completes
/// already consumed from the stack.
#[derive(Debug, PartialEq, Eq)]
pub enum TextDispatch {
    /// The text was dropped: it was empty, or no operator was waiting for a
    /// raw-character argument.
    Ignored,
    /// A forward character-search motion for `text`, landing before or on
    /// the match per `before`, repeated `times` times.
    MotionFindForward { before: bool, text: String, times: usize },
    /// A backward character-search motion for `text`, landing after or on
    /// the match per `after`, repeated `times` times.
    MotionFindBackward { after: bool, text: String, times: usize },
    /// Replace the character(s) at the cursor(s) with `text`, `times` times.
    ReplaceAtCursor { text: String, times: usize },
    /// Replace the contents of the current selections with `text`, in
    /// whole-line fashion per `line`.
    ReplaceSelections { text: String, line: bool },
}

/// The count carried by a `Number` operator.
pub open spec fn spec_number_value(op: Operator) -> usize
    recommends
        op is Number,
{
    match op {
        Operator::Number(n) => n,
        _ => 0,
    }
}

/// The operator stack after one digit of a count prefix: a digit extends an
/// active `Number` in place of nesting a second one.
pub open spec fn spec_stack_after_digit(st: Seq<Operator>, d: u8) -> Seq<Operator> {
    if st.len() > 0 && st.last() is Number {
        st.drop_last().push(Operator::Number((spec_number_value(st.last()) * 10 + d) as usize))
    } else {
        st.push(Operator::Number(d as usize))
    }
}

/// Extending the active count by one digit must not overflow the machine
/// integer it is accumulated in.
pub open spec fn spec_digit_fits(st: Seq<Operator>, d: u8) -> bool {
    st.len() > 0 && st.last() is Number ==> spec_number_value(st.last()) * 10 + d <= usize::MAX
}

/// The repeat count an operation consumes: the value of an active `Number`,
/// or one repetition when no explicit count was given.
pub open spec fn spec_count_of(st: Seq<Operator>) -> usize {
    if st.len() > 0 && st.last() is Number {
        spec_number_value(st.last())
    } else {
        1
    }
}

/// The operator stack after the optional leading count was consumed.
pub open spec fn spec_stack_after_count(st: Seq<Operator>) -> Seq<Operator> {
    if st.len() > 0 && st.last() is Number {
        st.drop_last()
    } else {
        st
    }
}

/// The settings a surface carries after reconciliation: while the modal
/// system is enabled and the surface is a full editor, the settings derived
/// from the current state; otherwise the non-modal defaults. Selections,
/// line lengths and the surface kind are never touched by reconciliation.
pub open spec fn spec_synced_surface(enabled: bool, st: VimState, s: Surface) -> Surface {
    if enabled && s.kind == SurfaceKind::Full {
        Surface {
            cursor_shape: st.spec_cursor_shape(),
            clip_at_line_ends: st.spec_clip_at_line_end(),
            input_enabled: !st.spec_vim_controlled(),
            line_mode: st.spec_line_mode(),
            context_layer: Some(st.spec_keymap_context_layer()),
            ..s
        }
    } else {
        s.spec_unhooked()
    }
}

/// How a mode switch relates the bound surface before and after, on top of
/// the reconciled settings `s1`: with `leave_selections` the selections are
/// untouched; otherwise each one is adjusted around its clamped head, under
/// the clip mode the switch itself just established.
pub open spec fn spec_adjust_rel(st: VimState, leave_selections: bool, s1: Surface, s2: Surface) -> bool {
    if leave_selections {
        s2 == s1
    } else {
        &&& s2.kind == s1.kind
        &&& s2.cursor_shape == s1.cursor_shape
        &&& s2.clip_at_line_ends == s1.clip_at_line_ends
        &&& s2.input_enabled == s1.input_enabled
        &&& s2.line_mode == s1.line_mode
        &&& s2.context_layer == s1.context_layer
        &&& s2.subscribed == s1.subscribed
        &&& s2.line_lengths@ == s1.line_lengths@
        &&& s2.selections@.len() == s1.selections@.len()
        &&& forall|i: int|
            0 <= i < s1.selections@.len() ==> s2.selections@[i] == spec_adjusted_selection(
                st,
                s1.line_lengths@,
                s1.clip_at_line_ends,
                s1.selections@[i],
            )
    }
}

/// How rebinding relates one registry slot before (`a`) and after (`b`):
/// the newly bound surface acquires the subscription and is reconciled at
/// once, the previously bound surface has its subscription released, and
/// every other surface is untouched.
pub open spec fn spec_rebound_slot(
    enabled: bool,
    st: VimState,
    old_binding: Option<usize>,
    new_binding: Option<usize>,
    j: int,
    a: Surface,
    b: Surface,
) -> bool {
    if new_binding == Some(j as usize) {
        b == spec_synced_surface(enabled, st, Surface { subscribed: true, ..a })
    } else if old_binding == Some(j as usize) {
        b == Surface { subscribed: false, ..a }
    } else {
        b == a
    }
}

/// One selection after a mode switch adjusted it: the head is clamped
/// leftward; a mode that requires collapsed selections collapses the whole
/// selection to that clamped head, any other mode only moves the head there.
pub open spec fn spec_adjusted_selection(
    st: VimState,
    lines: Seq<usize>,
    clip_at_line_ends: bool,
    sel: Selection,
) -> Selection {
    let h = spec_clip_left(lines, clip_at_line_ends, sel.head);
    if st.spec_empty_selections_only() {
        Selection { tail: h, head: h, goal: sel.goal }
    } else {
        Selection { tail: sel.tail, head: h, goal: sel.goal }
    }
}

/// Reconciliation overwrites exactly what reconciliation derives: syncing a
/// surface that was already synced (under any earlier state) is the same as
/// syncing the underlying surface once.
pub proof fn lemma_synced_surface_stable(enabled: bool, st1: VimState, st2: VimState, s: Surface)
    ensures
        spec_synced_surface(enabled, st2, spec_synced_surface(enabled, st1, s))
            == spec_synced_surface(enabled, st2, s),
{
    assert(spec_synced_surface(enabled, st2, spec_synced_surface(enabled, st1, s))
        =~= spec_synced_surface(enabled, st2, s));
}

impl Vim {
    /// A controller in its default configuration: disabled, normal mode,
    /// no pending operator, no bound surface.
    pub open spec fn spec_is_default(self) -> bool {
        &&& !self.enabled
        &&& self.state.spec_is_default()
        &&& self.active_editor is None
    }

    /// Whether the controller's handle currently resolves to a surface.
    pub open spec fn spec_has_bound(self, r: Registry) -> bool {
        self.active_editor is Some && r.spec_has(self.active_editor->0)
    }

    /// The handle of the bound surface.
    pub open spec fn spec_bound_id(self) -> usize
        recommends
            self.active_editor is Some,
    {
        self.active_editor->0
    }

    /// How one reconciliation pass relates the registry before and after:
    /// the bound surface carries the synced settings, every other slot is
    /// untouched, and a gone or unbound surface leaves the registry as it
    /// was.
    pub open spec fn spec_synced_registry(self, old_r: Registry, new_r: Registry) -> bool {
        if self.spec_has_bound(old_r) {
            new_r.surfaces@ == old_r.surfaces@.update(
                self.spec_bound_id() as int,
                Some(spec_synced_surface(self.enabled, self.state, old_r.spec_at(self.spec_bound_id()))),
            )
        } else {
            new_r.surfaces@ == old_r.surfaces@
        }
    }

    /// How a whole mode switch relates the registry before and after:
    /// the bound surface carries the reconciled settings and (unless told to
    /// leave them) the adjusted selections; every other slot is untouched.
    pub open spec fn spec_switched_registry(
        self,
        leave_selections: bool,
        old_r: Registry,
        new_r: Registry,
    ) -> bool {
        if self.spec_has_bound(old_r) {
            let id = self.spec_bound_id() as int;
            let s1 = spec_synced_surface(self.enabled, self.state, old_r.spec_at(self.spec_bound_id()));
            &&& new_r.surfaces@.len() == old_r.surfaces@.len()
            &&& forall|j: int|
                0 <= j < old_r.surfaces@.len() && j != id ==> new_r.surfaces@[j]
                    == old_r.surfaces@[j]
            &&& new_r.surfaces@[id] is Some
            &&& spec_adjust_rel(self.state, leave_selections, s1, new_r.surfaces@[id]->0)
        } else {
            new_r.surfaces@ == old_r.surfaces@
        }
    }

    /// One reconciliation pass over registry and command filter together.
    pub open spec fn spec_sync_applied(
        self,
        old_r: Registry,
        new_r: Registry,
        new_f: CommandFilter,
    ) -> bool {
        &&& new_f.modal_commands_filtered == !self.enabled
        &&& self.spec_synced_registry(old_r, new_r)
    }

    /// The default controller: disabled, default state, nothing bound.
    pub fn new() -> (v: Vim)
        ensures
            v.spec_is_default(),
    {
        Vim { enabled: false, state: VimState::default(), active_editor: None }
    }

    /// The active operator: the top of the stack, copied out, not popped.
    pub fn active_operator(&self) -> (op: Option<Operator>)
        ensures
            op == self.state.spec_active_operator(),
    {
        if self.state.operator_stack.len() > 0 {
            Some(self.state.operator_stack[self.state.operator_stack.len() - 1])
        } else {
            None
        }
    }

    /// Reconcile the external state with the controller's: update the
    /// command filter, and push the derived settings into the bound surface
    /// (or reset it to the non-modal defaults while disabled or restricted).
    /// Idempotent: a second pass with the same state changes nothing.
    pub fn sync_vim_settings(&self, r: &mut Registry, f: &mut CommandFilter)
        ensures
            self.spec_sync_applied(*old(r), *final(r), *final(f)),
    {
        f.modal_commands_filtered = !self.enabled;
        if let Some(id) = self.active_editor {
            if id < r.surfaces.len() {
                let slot = r.take(id);
                match slot {
                    Some(mut s) => {
                        if self.enabled && matches!(s.kind, SurfaceKind::Full) {
                            s.cursor_shape = self.state.cursor_shape();
                            s.clip_at_line_ends = self.state.clip_at_line_end();
                            s.input_enabled = !self.state.vim_controlled();
                            s.line_mode = self.state.line_mode();
                            s.context_layer = Some(self.state.keymap_context_layer());
                        } else {
                            unhook_vim_settings(&mut s);
                        }
                        proof {
                            assert(s =~= spec_synced_surface(
                                self.enabled,
                                self.state,
                                old(r).surfaces@[id as int]->0,
                            ));
                        }
                        r.put(id, Some(s));
                        proof {
                            assert(r.surfaces@ =~= old(r).surfaces@.update(
                                id as int,
                                Some(spec_synced_surface(
                                    self.enabled,
                                    self.state,
                                    old(r).surfaces@[id as int]->0,
                                )),
                            ));
                        }
                    },
                    None => {
                        r.put(id, None);
                        proof {
                            assert(r.surfaces@ =~= old(r).surfaces@);
                        }
                    },
                }
            }
        }
    }

    /// Append an operator to the stack. Composition legality is the
    /// caller's responsibility; nothing is validated here.
    pub fn push_operator(&mut self, operator: Operator, r: &mut Registry, f: &mut CommandFilter)
        ensures
            final(self).enabled == old(self).enabled,
            final(self).active_editor == old(self).active_editor,
            final(self).state.mode == old(self).state.mode,
            final(self).state.operator_stack@ == old(self).state.operator_stack@.push(operator),
            final(self).spec_sync_applied(*old(r), *final(r), *final(f)),
    {
        self.state.operator_stack.push(operator);
        self.sync_vim_settings(r, f);
    }

    /// Feed one decimal digit of a count prefix: while the active operator
    /// is a `Number`, the digit extends it in base ten; otherwise it starts
    /// a fresh count.
    pub fn push_number(&mut self, n: &Number, r: &mut Registry, f: &mut CommandFilter)
        requires
            spec_digit_fits(old(self).state.operator_stack@, n.0),
        ensures
            final(self).enabled == old(self).enabled,
            final(self).active_editor == old(self).active_editor,
            final(self).state.mode == old(self).state.mode,
            final(self).state.operator_stack@ == spec_stack_after_digit(
                old(self).state.operator_stack@,
                n.0,
            ),
            final(self).spec_sync_applied(*old(r), *final(r), *final(f)),
    {
        let active = self.active_operator();
        if let Some(Operator::Number(current)) = active {
            let ghost r0 = *r;
            self.pop_operator(r, f);
            let ghost r1 = *r;
            let ghost popped_state = self.state;
            self.push_operator(Operator::Number(current * 10 + n.0 as usize), r, f);
            proof {
                if self.spec_has_bound(r0) {
                    let id = self.spec_bound_id() as int;
                    let s0 = r0.spec_at(self.spec_bound_id());
                    assert(r1.surfaces@[id] == Some(spec_synced_surface(self.enabled, popped_state, s0)));
                    lemma_synced_surface_stable(self.enabled, popped_state, self.state, s0);
                    assert(r.surfaces@ =~= r0.surfaces@.update(
                        id,
                        Some(spec_synced_surface(self.enabled, self.state, s0)),
                    ));
                } else {
                    assert(r.surfaces@ == r0.surfaces@);
                }
            }
        } else {
            self.push_operator(Operator::Number(n.0 as usize), r, f);
        }
    }

    /// Remove and return the active operator. Popping an empty stack is an
    /// upstream configuration bug, never a recoverable condition, so an
    /// operator must be pending.
    pub fn pop_operator(&mut self, r: &mut Registry, f: &mut CommandFilter) -> (op: Operator)
        requires
            old(self).state.operator_stack@.len() > 0,
        ensures
            op == old(self).state.operator_stack@.last(),
            final(self).enabled == old(self).enabled,
            final(self).active_editor == old(self).active_editor,
            final(self).state.mode == old(self).state.mode,
            final(self).state.operator_stack@ == old(self).state.operator_stack@.drop_last(),
            final(self).spec_sync_applied(*old(r), *final(r), *final(f)),
    {
        let op = self.state.operator_stack.pop().unwrap();
        self.sync_vim_settings(r, f);
        op
    }

    /// Consume the optional leading repeat count: the value of an active
    /// `Number` operator, or one repetition — leaving everything untouched —
    /// when none is pending.
    pub fn pop_number_operator(&mut self, r: &mut Registry, f: &mut CommandFilter) -> (times: usize)
        ensures
            final(self).enabled == old(self).enabled,
            final(self).active_editor == old(self).active_editor,
            final(self).state.mode == old(self).state.mode,
            times == spec_count_of(old(self).state.operator_stack@),
            final(self).state.operator_stack@ == spec_stack_after_count(
                old(self).state.operator_stack@,
            ),
            old(self).state.spec_active_operator() matches Some(op) && op is Number
                ==> final(self).spec_sync_applied(*old(r), *final(r), *final(f)),
            !(old(self).state.spec_active_operator() matches Some(op) && op is Number) ==> {
                &&& *final(self) == *old(self)
                &&& *final(r) == *old(r)
                &&& *final(f) == *old(f)
            },
    {
        let active = self.active_operator();
        if let Some(Operator::Number(number)) = active {
            self.pop_operator(r, f);
            number
        } else {
            1
        }
    }

    /// Switch to `mode`. Switching always cancels any in-progress composed
    /// command (the stack is cleared whatever it held), reconciles the
    /// surface's settings, and then — unless `leave_selections` — adjusts
    /// every selection of the bound surface around its clamped head.
    pub fn switch_mode(
        &mut self,
        mode: Mode,
        leave_selections: bool,
        r: &mut Registry,
        f: &mut CommandFilter,
    )
        ensures
            final(self).enabled == old(self).enabled,
            final(self).active_editor == old(self).active_editor,
            final(self).state.mode == mode,
            final(self).state.operator_stack@ == Seq::<Operator>::empty(),
            final(f).modal_commands_filtered == !old(self).enabled,
            final(self).spec_switched_registry(leave_selections, *old(r), *final(r)),
    {
        self.state.mode = mode;
        self.state.operator_stack = Vec::new();

        // Reconcile the surface's settings (clip mode among them) first:
        // the selection adjustment below clamps under the new clip mode.
        self.sync_vim_settings(r, f);

        if leave_selections {
            return;
        }

        let ghost r1 = *r;
        if let Some(id) = self.active_editor {
            if id < r.surfaces.len() {
                let slot = r.take(id);
                match slot {
                    Some(mut s) => {
                        adjust_selections(&self.state, &mut s);
                        r.put(id, Some(s));
                        proof {
                            if self.spec_has_bound(*old(r)) {
                                assert(r.surfaces@ =~= r1.surfaces@.update(id as int, Some(s)));
                            }
                        }
                    },
                    None => {
                        r.put(id, None);
                        proof {
                            assert(r.surfaces@ =~= r1.surfaces@);
                        }
                    },
                }
            }
        }
    }

    /// Set whether the modal system is enabled. A call that does not change
    /// the flag is a complete no-op. A genuine transition replaces the whole
    /// state with a fresh default; transitioning to enabled additionally
    /// switches to normal mode (collapsing selections); and the external
    /// state is always reconciled afterward.
    pub fn set_enabled(&mut self, enabled: bool, r: &mut Registry, f: &mut CommandFilter)
        ensures
            final(self).enabled == enabled,
            final(self).active_editor == old(self).active_editor,
            old(self).enabled == enabled ==> {
                &&& *final(self) == *old(self)
                &&& *final(r) == *old(r)
                &&& *final(f) == *old(f)
            },
            old(self).enabled != enabled ==> {
                &&& final(self).state.mode == Mode::Normal
                &&& final(self).state.operator_stack@ == Seq::<Operator>::empty()
                &&& final(f).modal_commands_filtered == !enabled
                &&& if enabled {
                    final(self).spec_switched_registry(false, *old(r), *final(r))
                } else {
                    final(self).spec_synced_registry(*old(r), *final(r))
                }
            },
    {
        if self.enabled != enabled {
            self.enabled = enabled;
            self.state = VimState::default();
            if enabled {
                self.switch_mode(Mode::Normal, false, r, f);
                let ghost r1 = *r;
                self.sync_vim_settings(r, f);
                proof {
                    if self.spec_has_bound(*old(r)) {
                        let id = self.spec_bound_id() as int;
                        let s1 = spec_synced_surface(
                            self.enabled,
                            self.state,
                            old(r).spec_at(self.spec_bound_id()),
                        );
                        let s2 = r1.surfaces@[id]->0;
                        // The mode switch left the bound surface already
                        // carrying the reconciled settings, so the final
                        // reconciliation pass rewrites it with itself.
                        assert(spec_synced_surface(self.enabled, self.state, s2) =~= s2);
                        assert(r.surfaces@ =~= r1.surfaces@);
                    } else {
                        assert(r.surfaces@ == r1.surfaces@);
                    }
                }
            } else {
                self.sync_vim_settings(r, f);
            }
        }
    }

    /// The designated cancel action. Outside plain normal mode — another
    /// mode, or any operator pending — it returns to normal mode, collapsing
    /// selections, and reports the keystroke consumed; in plain normal mode
    /// it reports `false` so the cancel propagates to the surface instead.
    pub fn cancel(&mut self, r: &mut Registry, f: &mut CommandFilter) -> (handled: bool)
        ensures
            handled == (!(old(self).state.mode is Normal)
                || old(self).state.spec_active_operator() is Some),
            final(self).enabled == old(self).enabled,
            final(self).active_editor == old(self).active_editor,
            handled ==> {
                &&& final(self).state.mode == Mode::Normal
                &&& final(self).state.operator_stack@ == Seq::<Operator>::empty()
                &&& final(f).modal_commands_filtered == !old(self).enabled
                &&& final(self).spec_switched_registry(false, *old(r), *final(r))
            },
            !handled ==> {
                &&& *final(self) == *old(self)
                &&& *final(r) == *old(r)
                &&& *final(f) == *old(f)
            },
    {
        let pending = self.active_operator();
        if !matches!(self.state.mode, Mode::Normal) || pending.is_some() {
            self.switch_mode(Mode::Normal, false, r, f);
            true
        } else {
            false
        }
    }

    /// Rebind the controller to another surface, or to none: release the
    /// subscription held with the old handle, acquire one on the new
    /// surface, and reconcile it at once.
    #[verifier::rlimit(60)]
    pub fn bind_surface(&mut self, editor: Option<usize>, r: &mut Registry, f: &mut CommandFilter)
        ensures
            final(self).enabled == old(self).enabled,
            final(self).state == old(self).state,
            final(self).active_editor == editor,
            final(f).modal_commands_filtered == !old(self).enabled,
            final(r).surfaces@.len() == old(r).surfaces@.len(),
            forall|j: int|
                0 <= j < old(r).surfaces@.len() ==> ((final(r).surfaces@[j] is Some) <==> (
                old(r).surfaces@[j] is Some)),
            forall|j: int|
                0 <= j < old(r).surfaces@.len() && old(r).surfaces@[j] is Some
                    ==> spec_rebound_slot(
                    old(self).enabled,
                    old(self).state,
                    old(self).active_editor,
                    editor,
                    j,
                    old(r).surfaces@[j]->0,
                    final(r).surfaces@[j]->0,
                ),
    {
        // Release the subscription that came with the old handle.
        if let Some(old_id) = self.active_editor {
            if old_id < r.surfaces.len() {
                let slot = r.take(old_id);
                match slot {
                    Some(mut s) => {
                        s.subscribed = false;
                        r.put(old_id, Some(s));
                    },
                    None => {
                        r.put(old_id, None);
                        proof {
                            assert(r.surfaces@ =~= old(r).surfaces@);
                        }
                    },
                }
            }
        }
        let ghost r1 = *r;

        self.active_editor = editor;

        // Acquire the subscription on the newly bound surface.
        if let Some(id) = self.active_editor {
            if id < r.surfaces.len() {
                let slot = r.take(id);
                match slot {
                    Some(mut s) => {
                        s.subscribed = true;
                        r.put(id, Some(s));
                    },
                    None => {
                        r.put(id, None);
                        proof {
                            assert(r.surfaces@ =~= r1.surfaces@);
                        }
                    },
                }
            }
        }
        let ghost r2 = *r;

        self.sync_vim_settings(r, f);

        proof {
            assert forall|j: int|
                0 <= j < old(r).surfaces@.len() && old(r).surfaces@[j] is Some
                    implies spec_rebound_slot(
                    self.enabled,
                    self.state,
                    old(self).active_editor,
                    editor,
                    j,
                    old(r).surfaces@[j]->0,
                    r.surfaces@[j]->0,
                ) by {
                let a = old(r).surfaces@[j]->0;
                if editor == Some(j as usize) {
                    assert(r2.surfaces@[j] is Some);
                    assert(r2.surfaces@[j]->0 =~= Surface { subscribed: true, ..r1.surfaces@[j]->0 });
                    assert(r.surfaces@[j] == Some(spec_synced_surface(
                        self.enabled,
                        self.state,
                        r2.surfaces@[j]->0,
                    )));
                    assert(r2.surfaces@[j]->0 =~= (Surface { subscribed: true, ..a }));
                } else if old(self).active_editor == Some(j as usize) {
                    assert(r.surfaces@[j] == r2.surfaces@[j]);
                    assert(r2.surfaces@[j] == r1.surfaces@[j]);
                    assert(r1.surfaces@[j]->0 =~= (Surface { subscribed: false, ..a }));
                } else {
                    assert(r.surfaces@[j] == old(r).surfaces@[j]);
                }
            }
        }
    }

    /// Consume a completed pending operator together with the optional
    /// count beneath it: pop the operator, then the count.
    fn pop_pending_with_count(&mut self, r: &mut Registry, f: &mut CommandFilter) -> (times: usize)
        requires
            old(self).state.operator_stack@.len() > 0,
        ensures
            final(self).enabled == old(self).enabled,
            final(self).active_editor == old(self).active_editor,
            final(self).state.mode == old(self).state.mode,
            times == spec_count_of(old(self).state.operator_stack@.drop_last()),
            final(self).state.operator_stack@ == spec_stack_after_count(
                old(self).state.operator_stack@.drop_last(),
            ),
            final(self).spec_sync_applied(*old(r), *final(r), *final(f)),
    {
        let ghost r0 = *r;
        self.pop_operator(r, f);
        let ghost r1 = *r;
        let ghost popped_state = self.state;
        let times = self.pop_number_operator(r, f);
        proof {
            if popped_state.spec_active_operator() matches Some(op) && op is Number {
                if self.spec_has_bound(r0) {
                    let id = self.spec_bound_id() as int;
                    let s0 = r0.spec_at(self.spec_bound_id());
                    assert(r1.surfaces@[id] == Some(spec_synced_surface(self.enabled, popped_state, s0)));
                    lemma_synced_surface_stable(self.enabled, popped_state, self.state, s0);
                    assert(r.surfaces@ =~= r0.surfaces@.update(
                        id,
                        Some(spec_synced_surface(self.enabled, self.state, s0)),
                    ));
                } else {
                    assert(r.surfaces@ == r0.surfaces@);
                }
            }
        }
        times
    }

    /// Redirect literal text that the surface intercepted instead of
    /// inserting: resolve it strictly against the active operator. A find
    /// operator becomes a character-search motion, a replace operator a
    /// replace command for the current mode (abandoning the operator in a
    /// mode replace cannot apply to), and anything else drops the text.
    pub fn active_editor_input_ignored(
        &mut self,
        text: String,
        r: &mut Registry,
        f: &mut CommandFilter,
    ) -> (d: TextDispatch)
        ensures
            final(self).enabled == old(self).enabled,
            final(self).active_editor == old(self).active_editor,
            final(self).state.mode == old(self).state.mode,
            ({
                let stack = old(self).state.operator_stack@;
                let unchanged = {
                    &&& *final(self) == *old(self)
                    &&& *final(r) == *old(r)
                    &&& *final(f) == *old(f)
                };
                if text@.len() == 0 {
                    d == TextDispatch::Ignored && unchanged
                } else {
                    match old(self).state.spec_active_operator() {
                        Some(Operator::FindForward { before }) => {
                            &&& d matches TextDispatch::MotionFindForward { before: b, text: t, times }
                                && b == before && t@ == text@ && times == spec_count_of(stack.drop_last())
                            &&& final(self).state.operator_stack@ == spec_stack_after_count(stack.drop_last())
                            &&& final(self).spec_sync_applied(*old(r), *final(r), *final(f))
                        },
                        Some(Operator::FindBackward { after }) => {
                            &&& d matches TextDispatch::MotionFindBackward { after: a, text: t, times }
                                && a == after && t@ == text@ && times == spec_count_of(stack.drop_last())
                            &&& final(self).state.operator_stack@ == spec_stack_after_count(stack.drop_last())
                            &&& final(self).spec_sync_applied(*old(r), *final(r), *final(f))
                        },
                        Some(Operator::Replace) => {
                            match old(self).state.mode {
                                Mode::Normal => {
                                    &&& d matches TextDispatch::ReplaceAtCursor { text: t, times }
                                        && t@ == text@ && times == spec_count_of(stack.drop_last())
                                    &&& final(self).state.operator_stack@ == spec_stack_after_count(stack.drop_last())
                                    &&& final(self).spec_sync_applied(*old(r), *final(r), *final(f))
                                },
                                Mode::Visual { line } => {
                                    &&& d matches TextDispatch::ReplaceSelections { text: t, line: l }
                                        && t@ == text@ && l == line
                                    &&& final(self).state.operator_stack@ == stack.drop_last()
                                    &&& final(self).spec_sync_applied(*old(r), *final(r), *final(f))
                                },
                                _ => {
                                    &&& d == TextDispatch::Ignored
                                    &&& final(self).state.operator_stack@ == Seq::<Operator>::empty()
                                    &&& final(self).spec_sync_applied(*old(r), *final(r), *final(f))
                                },
                            }
                        },
                        _ => d == TextDispatch::Ignored && unchanged,
                    }
                }
            }),
    {
        if text.as_str().is_empty() {
            return TextDispatch::Ignored;
        }

        let active = self.active_operator();
        match active {
            Some(Operator::FindForward { before }) => {
                let times = self.pop_pending_with_count(r, f);
                TextDispatch::MotionFindForward { before, text, times }
            },
            Some(Operator::FindBackward { after }) => {
                let times = self.pop_pending_with_count(r, f);
                TextDispatch::MotionFindBackward { after, text, times }
            },
            Some(Operator::Replace) => {
                match self.state.mode {
                    Mode::Normal => {
                        let times = self.pop_pending_with_count(r, f);
                        TextDispatch::ReplaceAtCursor { text, times }
                    },
                    Mode::Visual { line } => {
                        self.pop_operator(r, f);
                        TextDispatch::ReplaceSelections { text, line }
                    },
                    // A replace operator pending in any other mode is an
                    // otherwise-unreachable state: abandon it and recover.
                    _ => {
                        self.clear_operator(r, f);
                        TextDispatch::Ignored
                    },
                }
            },
            _ => TextDispatch::Ignored,
        }
    }

    /// Abandon any pending composition: empty the stack and reconcile.
    pub fn clear_operator(&mut self, r: &mut Registry, f: &mut CommandFilter)
        ensures
            final(self).enabled == old(self).enabled,
            final(self).active_editor == old(self).active_editor,
            final(self).state.mode == old(self).state.mode,
            final(self).state.operator_stack@ == Seq::<Operator>::empty(),
            final(self).spec_sync_applied(*old(r), *final(r), *final(f)),
    {
        self.state.operator_stack = Vec::new();
        self.sync_vim_settings(r, f);
    }
}

impl Default for Vim {
    fn default() -> (v: Vim)
        ensures
            v.spec_is_default(),
    {
        Vim::new()
    }
}

/// Adjust every selection of `s` for the freshly switched state `st`: clamp
/// each head leftward under the surface's current clip mode; collapse the
/// whole selection to that head when the new mode requires empty selections,
/// otherwise only move the head there. Nothing else on the surface changes.
pub fn adjust_selections(st: &VimState, s: &mut Surface)
    ensures
        final(s).kind == old(s).kind,
        final(s).cursor_shape == old(s).cursor_shape,
        final(s).clip_at_line_ends == old(s).clip_at_line_ends,
        final(s).input_enabled == old(s).input_enabled,
        final(s).line_mode == old(s).line_mode,
        final(s).context_layer == old(s).context_layer,
        final(s).subscribed == old(s).subscribed,
        final(s).line_lengths@ == old(s).line_lengths@,
        final(s).selections@.len() == old(s).selections@.len(),
        forall|i: int|
            0 <= i < old(s).selections@.len() ==> final(s).selections@[i]
                == spec_adjusted_selection(
                *st,
                old(s).line_lengths@,
                old(s).clip_at_line_ends,
                old(s).selections@[i],
            ),
{
    let n = s.selections.len();
    let empty_only = st.empty_selections_only();
    let mut i: usize = 0;
    while i < n
        invariant
            i <= n,
            n == s.selections@.len(),
            empty_only == st.spec_empty_selections_only(),
            s.kind == old(s).kind,
            s.cursor_shape == old(s).cursor_shape,
            s.clip_at_line_ends == old(s).clip_at_line_ends,
            s.input_enabled == old(s).input_enabled,
            s.line_mode == old(s).line_mode,
            s.context_layer == old(s).context_layer,
            s.subscribed == old(s).subscribed,
            s.line_lengths@ == old(s).line_lengths@,
            s.selections@.len() == old(s).selections@.len(),
            forall|j: int|
                0 <= j < i ==> s.selections@[j] == spec_adjusted_selection(
                    *st,
                    old(s).line_lengths@,
                    old(s).clip_at_line_ends,
                    old(s).selections@[j],
                ),
            forall|j: int| i <= j < n ==> s.selections@[j] == old(s).selections@[j],
        decreases n - i,
    {
        let sel = s.selections[i];
        let h = clip_left(&s.line_lengths, s.clip_at_line_ends, sel.head);
        let adjusted = if empty_only {
            Selection { tail: h, head: h, goal: sel.goal }
        } else {
            Selection { tail: sel.tail, head: h, goal: sel.goal }
        };
        s.selections.set(i, adjusted);
        i += 1;
    }
}

/// Reset a surface to its non-modal defaults: default cursor shape, no
/// clipping at line ends, input forwarded, line-selection mode off, and the
/// keymap context layer removed.
pub fn unhook_vim_settings(s: &mut Surface)
    ensures
        *final(s) == old(s).spec_unhooked(),
{
    s.cursor_shape = CursorShape::Bar;
    s.clip_at_line_ends = false;
    s.input_enabled = true;
    s.line_mode = false;
    s.context_layer = None;
}

} // verus!
