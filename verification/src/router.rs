//! The keystroke router: a pre-dispatch observer that decides, per
//! keystroke, whether an in-progress pending operator must be discarded
//! because the keystroke was consumed by neither the modal system nor the
//! designated cancel action.

use vstd::prelude::*;
use crate::controller::Vim;
use crate::state::Operator;
use crate::surface::{CommandFilter, Registry};

verus! {

/// The final dispatch outcome of one keystroke, as the router observes it:
/// who, if anybody, handled it.
#[derive(Clone, Copy, Debug, PartialEq, Eq, Structural)]
pub enum KeystrokeHandler {
    /// An action of the modal namespace itself.
    ModalAction,
    /// The designated cancel action of the surface's own namespace (itself
    /// how other modes return to normal, handled elsewhere).
    EditorCancel,
    /// Any other action.
    OtherAction,
}

impl Vim {
    /// Observe one keystroke's final dispatch outcome. Always returns
    /// `true`: the router never suppresses dispatch, it only reacts. A
    /// keystroke consumed by the modal system or by the cancel action leaves
    /// any pending operator valid. An unrelated keystroke discards the
    /// pending operator — except one that is itself awaiting a raw-character
    /// argument, since the very next unhandled keystroke IS that argument.
    pub fn observe_keystrokes(
        &mut self,
        handled_by: Option<KeystrokeHandler>,
        r: &mut Registry,
        f: &mut CommandFilter,
    ) -> (cont: bool)
        ensures
            cont,
            final(self).enabled == old(self).enabled,
            final(self).active_editor == old(self).active_editor,
            final(self).state.mode == old(self).state.mode,
            ({
                let consumed = handled_by matches Some(h) && (h is ModalAction
                    || h is EditorCancel);
                let unchanged = {
                    &&& *final(self) == *old(self)
                    &&& *final(r) == *old(r)
                    &&& *final(f) == *old(f)
                };
                if consumed {
                    unchanged
                } else {
                    match old(self).state.spec_active_operator() {
                        Some(op) => if op.spec_awaits_raw_input() {
                            unchanged
                        } else {
                            &&& final(self).state.operator_stack@ == Seq::<Operator>::empty()
                            &&& final(self).spec_sync_applied(*old(r), *final(r), *final(f))
                        },
                        None => unchanged,
                    }
                }
            }),
    {
        if let Some(h) = handled_by {
            if matches!(h, KeystrokeHandler::ModalAction | KeystrokeHandler::EditorCancel) {
                return true;
            }
        }

        let active = self.active_operator();
        match active {
            Some(op) => {
                if !op.awaits_raw_input() {
                    self.clear_operator(r, f);
                }
            },
            None => {},
        }
        true
    }
}

} // verus!
