//! Laws of the composition protocol that span several operations.

use vstd::prelude::*;
use crate::controller::{
    spec_adjusted_selection, spec_count_of, spec_digit_fits, spec_rebound_slot,
    spec_stack_after_count, spec_stack_after_digit, spec_synced_surface, Vim,
};
use crate::state::{Operator, VimState};
use crate::surface::{spec_clip_left, Position, Registry, Selection, Surface};

verus! {

/// Clamping is idempotent: a position that was already clamped leftward is
/// left where it is.
pub proof fn lemma_clip_left_idempotent(lines: Seq<usize>, clip_at_line_ends: bool, p: Position)
    ensures
        spec_clip_left(lines, clip_at_line_ends, spec_clip_left(lines, clip_at_line_ends, p))
            == spec_clip_left(lines, clip_at_line_ends, p),
{
}

/// Adjusting a selection for a mode switch is idempotent: the second pass
/// finds the head already clamped (and the selection already collapsed,
/// when the mode requires it) and changes nothing.
pub proof fn lemma_adjusted_selection_idempotent(
    st: VimState,
    lines: Seq<usize>,
    clip_at_line_ends: bool,
    sel: Selection,
)
    ensures
        spec_adjusted_selection(
            st,
            lines,
            clip_at_line_ends,
            spec_adjusted_selection(st, lines, clip_at_line_ends, sel),
        ) == spec_adjusted_selection(st, lines, clip_at_line_ends, sel),
{
    lemma_clip_left_idempotent(lines, clip_at_line_ends, sel.head);
}

/// Whether two surfaces are observably the same: every setting and every
/// selection equal. (Value equality of the surfaces themselves would say
/// more than an observer can see.)
pub open spec fn spec_surface_like(a: Surface, b: Surface) -> bool {
    &&& a.kind == b.kind
    &&& a.cursor_shape == b.cursor_shape
    &&& a.clip_at_line_ends == b.clip_at_line_ends
    &&& a.input_enabled == b.input_enabled
    &&& a.line_mode == b.line_mode
    &&& a.context_layer == b.context_layer
    &&& a.subscribed == b.subscribed
    &&& a.selections@ == b.selections@
    &&& a.line_lengths@ == b.line_lengths@
}

/// Law: switching modes is idempotent — a second switch to the same target,
/// with no intervening input, finds the surface already reconciled and
/// every selection already adjusted, and leaves every surface of the
/// registry observably as the first switch left it.
pub proof fn lemma_switch_mode_idempotent(v: Vim, r0: Registry, r1: Registry, r2: Registry)
    requires
        v.spec_switched_registry(false, r0, r1),
        v.spec_switched_registry(false, r1, r2),
    ensures
        r2.surfaces@.len() == r1.surfaces@.len(),
        forall|j: int|
            0 <= j < r1.surfaces@.len() ==> (r2.surfaces@[j] is Some <==> r1.surfaces@[j] is Some),
        forall|j: int|
            0 <= j < r1.surfaces@.len() && r1.surfaces@[j] is Some ==> spec_surface_like(
                r2.surfaces@[j]->0,
                r1.surfaces@[j]->0,
            ),
{
    if v.spec_has_bound(r0) {
        let id = v.spec_bound_id() as int;
        let s0 = r0.spec_at(v.spec_bound_id());
        let s1 = spec_synced_surface(v.enabled, v.state, s0);
        let t1 = r1.surfaces@[id]->0;
        let s2 = spec_synced_surface(v.enabled, v.state, t1);
        let t2 = r2.surfaces@[id]->0;
        assert(v.spec_has_bound(r1));
        assert(r1.spec_at(v.spec_bound_id()) == t1);
        assert(s2 =~= t1);
        assert(t2.selections@.len() == t1.selections@.len());
        assert forall|i: int| 0 <= i < t2.selections@.len() implies t2.selections@[i]
            == t1.selections@[i] by {
            assert(t2.selections@[i] == spec_adjusted_selection(
                v.state,
                s2.line_lengths@,
                s2.clip_at_line_ends,
                s2.selections@[i],
            ));
            assert(s2.selections@[i] == t1.selections@[i]);
            assert(t1.selections@[i] == spec_adjusted_selection(
                v.state,
                s1.line_lengths@,
                s1.clip_at_line_ends,
                s1.selections@[i],
            ));
            lemma_adjusted_selection_idempotent(
                v.state,
                s1.line_lengths@,
                s1.clip_at_line_ends,
                s1.selections@[i],
            );
        }
        assert(t2.selections@ =~= t1.selections@);
        assert(spec_surface_like(t2, t1));
    }
}

/// The subscription discipline: among the surfaces still present, exactly
/// the one the controller is bound to holds its subscription.
pub open spec fn spec_subscription_exclusive(v: Vim, r: Registry) -> bool {
    forall|j: int|
        0 <= j < r.surfaces@.len() && r.surfaces@[j] is Some ==> (r.surfaces@[j]->0.subscribed
            <==> v.active_editor == Some(j as usize))
}

/// Law: rebinding keeps the subscription exclusive — the old subscription
/// is released with the old handle and exactly the newly bound surface
/// holds one afterward, whatever surface was bound before.
pub proof fn lemma_rebind_keeps_subscription_exclusive(
    v0: Vim,
    v1: Vim,
    editor: Option<usize>,
    r0: Registry,
    r1: Registry,
)
    requires
        spec_subscription_exclusive(v0, r0),
        v1.active_editor == editor,
        r1.surfaces@.len() == r0.surfaces@.len(),
        forall|j: int|
            0 <= j < r0.surfaces@.len() ==> ((r1.surfaces@[j] is Some) <==> (
            r0.surfaces@[j] is Some)),
        forall|j: int|
            0 <= j < r0.surfaces@.len() && r0.surfaces@[j] is Some ==> spec_rebound_slot(
                v0.enabled,
                v0.state,
                v0.active_editor,
                editor,
                j,
                r0.surfaces@[j]->0,
                r1.surfaces@[j]->0,
            ),
    ensures
        spec_subscription_exclusive(v1, r1),
{
    assert forall|j: int|
        0 <= j < r1.surfaces@.len() && r1.surfaces@[j] is Some implies (
    r1.surfaces@[j]->0.subscribed <==> v1.active_editor == Some(j as usize)) by {
        let a = r0.surfaces@[j]->0;
        let b = r1.surfaces@[j]->0;
        if editor == Some(j as usize) {
            // Reconciliation never touches the subscription, so the newly
            // acquired one is still held.
            assert(b.subscribed == spec_synced_surface(
                v0.enabled,
                v0.state,
                Surface { subscribed: true, ..a },
            ).subscribed);
        }
    }
}

/// Law: while the modal system is disabled, reconciliation resets the bound
/// surface's line-selection flag (with the rest of the non-modal defaults),
/// whatever state was active before.
pub proof fn lemma_disabled_sync_clears_line_mode(st: VimState, s: Surface)
    ensures
        !spec_synced_surface(false, st, s).line_mode,
        spec_synced_surface(false, st, s) == s.spec_unhooked(),
{
}

/// The operator stack after a sequence of count digits was fed in, first
/// digit first, with no intervening operator push.
pub open spec fn spec_stack_after_digits(st: Seq<Operator>, ds: Seq<u8>) -> Seq<Operator>
    decreases ds.len(),
{
    if ds.len() == 0 {
        st
    } else {
        spec_stack_after_digits(spec_stack_after_digit(st, ds.first()), ds.drop_first())
    }
}

/// The base-10 value of a digit sequence, most significant digit first.
pub open spec fn spec_decimal_value(ds: Seq<u8>) -> nat
    decreases ds.len(),
{
    if ds.len() == 0 {
        0
    } else {
        spec_decimal_value(ds.drop_last()) * 10 + ds.last() as nat
    }
}

/// Feeding digits one by one is feeding them all but the last, then the
/// last.
proof fn lemma_stack_after_digits_snoc(st: Seq<Operator>, ds: Seq<u8>, d: u8)
    ensures
        spec_stack_after_digits(st, ds.push(d)) == spec_stack_after_digit(
            spec_stack_after_digits(st, ds),
            d,
        ),
    decreases ds.len(),
{
    if ds.len() == 0 {
        assert(ds.push(d).first() == d);
        assert(ds.push(d).drop_first() =~= Seq::<u8>::empty());
        assert(spec_stack_after_digits(st, ds.push(d)) == spec_stack_after_digits(
            spec_stack_after_digit(st, d),
            Seq::<u8>::empty(),
        ));
    } else {
        assert(ds.push(d).first() == ds.first());
        assert(ds.push(d).drop_first() =~= ds.drop_first().push(d));
        lemma_stack_after_digits_snoc(spec_stack_after_digit(st, ds.first()), ds.drop_first(), d);
    }
}

/// Law: digits fed in sequence with no intervening operator push accumulate
/// into a single `Number` operator holding their base-10 value. Starting
/// from an empty stack, the stack afterward holds exactly that operator —
/// so each step's accumulation fits the machine integer, consuming the
/// count returns the base-10 value, and the stack is left empty.
pub proof fn lemma_count_prefix_accumulates(ds: Seq<u8>)
    requires
        ds.len() > 0,
        forall|i: int| 0 <= i < ds.len() ==> ds[i] < 10,
        spec_decimal_value(ds) <= usize::MAX,
    ensures
        spec_stack_after_digits(Seq::<Operator>::empty(), ds) == seq![
            Operator::Number(spec_decimal_value(ds) as usize),
        ],
        spec_digit_fits(spec_stack_after_digits(Seq::<Operator>::empty(), ds.drop_last()), ds.last()),
        spec_count_of(spec_stack_after_digits(Seq::<Operator>::empty(), ds))
            == spec_decimal_value(ds),
        spec_stack_after_count(spec_stack_after_digits(Seq::<Operator>::empty(), ds))
            == Seq::<Operator>::empty(),
    decreases ds.len(),
{
    let prefix = ds.drop_last();
    assert(ds =~= prefix.push(ds.last()));
    lemma_stack_after_digits_snoc(Seq::<Operator>::empty(), prefix, ds.last());
    if prefix.len() == 0 {
        assert(spec_stack_after_digits(Seq::<Operator>::empty(), prefix)
            == Seq::<Operator>::empty());
        assert(spec_decimal_value(prefix) == 0);
    } else {
        assert(spec_decimal_value(prefix) <= spec_decimal_value(prefix) * 10 + ds.last());
        lemma_count_prefix_accumulates(prefix);
    }
    assert(spec_stack_after_digits(Seq::<Operator>::empty(), ds)
        =~= seq![Operator::Number(spec_decimal_value(ds) as usize)]);
    assert(spec_stack_after_count(spec_stack_after_digits(Seq::<Operator>::empty(), ds))
        =~= Seq::<Operator>::empty());
}

} // verus!
