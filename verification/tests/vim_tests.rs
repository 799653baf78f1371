use vim::controller::{TextDispatch, Vim};
use vim::router::KeystrokeHandler;
use vim::state::{CursorShape, KeymapLayer, Mode, Number, Operator, PushOperator, SwitchMode, VimState};
use vim::surface::{
    clip_left, CommandFilter, Position, Registry, Selection, Surface, SurfaceKind,
};

fn full_surface() -> Surface {
    Surface {
        kind: SurfaceKind::Full,
        cursor_shape: CursorShape::Bar,
        clip_at_line_ends: false,
        input_enabled: true,
        line_mode: false,
        context_layer: None,
        subscribed: false,
        selections: vec![Selection {
            tail: Position { row: 0, col: 0 },
            head: Position { row: 0, col: 0 },
            goal: None,
        }],
        line_lengths: vec![8, 5, 0],
    }
}

fn harness() -> (Vim, Registry, CommandFilter) {
    let mut vim = Vim::new();
    let mut registry = Registry { surfaces: vec![Some(full_surface())] };
    let mut filter = CommandFilter { modal_commands_filtered: true };
    vim.bind_surface(Some(0), &mut registry, &mut filter);
    vim.set_enabled(true, &mut registry, &mut filter);
    (vim, registry, filter)
}

fn surface(registry: &Registry) -> &Surface {
    registry.surfaces[0].as_ref().unwrap()
}

#[test]
fn count_digits_accumulate_into_one_number() {
    let (mut vim, mut r, mut f) = harness();
    vim.push_number(&Number(1), &mut r, &mut f);
    vim.push_number(&Number(2), &mut r, &mut f);
    vim.push_number(&Number(3), &mut r, &mut f);
    assert_eq!(vim.active_operator(), Some(Operator::Number(123)));
    assert_eq!(vim.state.operator_stack.len(), 1);
    let times = vim.pop_number_operator(&mut r, &mut f);
    assert_eq!(times, 123);
    assert!(vim.state.operator_stack.is_empty());
}

#[test]
fn digit_after_other_operator_starts_fresh_count() {
    let (mut vim, mut r, mut f) = harness();
    vim.push_number(&Number(2), &mut r, &mut f);
    vim.push_operator(Operator::Delete, &mut r, &mut f);
    vim.push_number(&Number(3), &mut r, &mut f);
    assert_eq!(
        vim.state.operator_stack,
        vec![Operator::Number(2), Operator::Delete, Operator::Number(3)]
    );
}

#[test]
fn pop_number_on_empty_stack_returns_one_without_mutation() {
    let (mut vim, mut r, mut f) = harness();
    let before_surface = full_surface_synced_normal();
    assert_eq!(surface(&r), &before_surface);
    let times = vim.pop_number_operator(&mut r, &mut f);
    assert_eq!(times, 1);
    assert!(vim.state.operator_stack.is_empty());
    assert_eq!(surface(&r), &before_surface);
}

#[test]
fn pop_number_with_non_number_active_returns_one_without_mutation() {
    let (mut vim, mut r, mut f) = harness();
    vim.push_operator(Operator::Delete, &mut r, &mut f);
    let times = vim.pop_number_operator(&mut r, &mut f);
    assert_eq!(times, 1);
    assert_eq!(vim.active_operator(), Some(Operator::Delete));
    assert_eq!(vim.state.operator_stack.len(), 1);
}

#[test]
fn pop_operator_returns_the_top() {
    let (mut vim, mut r, mut f) = harness();
    vim.push_operator(Operator::Yank, &mut r, &mut f);
    vim.push_operator(Operator::Change, &mut r, &mut f);
    assert_eq!(vim.pop_operator(&mut r, &mut f), Operator::Change);
    assert_eq!(vim.pop_operator(&mut r, &mut f), Operator::Yank);
    assert!(vim.state.operator_stack.is_empty());
}

#[test]
fn switch_mode_clears_the_operator_stack() {
    let (mut vim, mut r, mut f) = harness();
    vim.push_number(&Number(4), &mut r, &mut f);
    vim.push_operator(Operator::Delete, &mut r, &mut f);
    vim.switch_mode(Mode::Insert, false, &mut r, &mut f);
    assert!(vim.state.operator_stack.is_empty());
    assert_eq!(vim.state.mode, Mode::Insert);

    vim.push_operator(Operator::Replace, &mut r, &mut f);
    vim.switch_mode(Mode::Visual { line: false }, true, &mut r, &mut f);
    assert!(vim.state.operator_stack.is_empty());
}

#[test]
fn switch_to_collapsing_mode_collapses_each_selection_to_clamped_head() {
    let (mut vim, mut r, mut f) = harness();
    vim.switch_mode(Mode::Visual { line: false }, true, &mut r, &mut f);
    r.surfaces[0].as_mut().unwrap().selections = vec![
        Selection {
            tail: Position { row: 0, col: 1 },
            head: Position { row: 0, col: 20 },
            goal: Some(20),
        },
        Selection {
            tail: Position { row: 1, col: 0 },
            head: Position { row: 9, col: 9 },
            goal: None,
        },
    ];
    // Normal mode requires collapsed selections and clips at line ends:
    // line 0 has length 8, so the clamped head is column 7; the second
    // selection's head row is clamped to the last line, which is empty.
    vim.switch_mode(Mode::Normal, false, &mut r, &mut f);
    let sels = &surface(&r).selections;
    assert_eq!(sels[0].head, Position { row: 0, col: 7 });
    assert_eq!(sels[0].tail, Position { row: 0, col: 7 });
    assert_eq!(sels[0].goal, Some(20));
    assert_eq!(sels[1].head, Position { row: 2, col: 0 });
    assert_eq!(sels[1].tail, Position { row: 2, col: 0 });
}

#[test]
fn switch_to_visual_moves_heads_but_keeps_tails() {
    let (mut vim, mut r, mut f) = harness();
    r.surfaces[0].as_mut().unwrap().selections = vec![Selection {
        tail: Position { row: 0, col: 1 },
        head: Position { row: 0, col: 20 },
        goal: None,
    }];
    // Visual mode keeps non-empty selections and does not clip at line
    // ends: the head clamps to one past the last character (column 8).
    vim.switch_mode(Mode::Visual { line: false }, false, &mut r, &mut f);
    let sels = &surface(&r).selections;
    assert_eq!(sels[0].tail, Position { row: 0, col: 1 });
    assert_eq!(sels[0].head, Position { row: 0, col: 8 });
}

#[test]
fn switch_mode_with_leave_selections_leaves_them_untouched() {
    let (mut vim, mut r, mut f) = harness();
    let wild = vec![Selection {
        tail: Position { row: 7, col: 70 },
        head: Position { row: 8, col: 80 },
        goal: Some(3),
    }];
    r.surfaces[0].as_mut().unwrap().selections = wild.clone();
    vim.switch_mode(Mode::Normal, true, &mut r, &mut f);
    assert_eq!(surface(&r).selections, wild);
}

fn full_surface_synced_normal() -> Surface {
    // What the harness surface looks like right after enabling: normal
    // mode settings pushed in, the subscription acquired by the binding,
    // the initial selection already collapsed.
    Surface {
        cursor_shape: CursorShape::Block,
        clip_at_line_ends: true,
        input_enabled: false,
        line_mode: false,
        context_layer: Some(KeymapLayer { mode: Mode::Normal, operator: None }),
        subscribed: true,
        ..full_surface()
    }
}

#[test]
fn set_enabled_again_is_a_complete_no_op() {
    let (mut vim, mut r, mut f) = harness();
    vim.push_operator(Operator::Delete, &mut r, &mut f);
    let mut expected = full_surface_synced_normal();
    expected.context_layer = Some(KeymapLayer {
        mode: Mode::Normal,
        operator: Some(Operator::Delete),
    });
    assert_eq!(surface(&r), &expected);
    vim.set_enabled(true, &mut r, &mut f);
    assert!(vim.enabled);
    assert_eq!(vim.state.mode, Mode::Normal);
    assert_eq!(vim.active_operator(), Some(Operator::Delete));
    assert_eq!(surface(&r), &expected);
    assert!(!f.modal_commands_filtered);
}

#[test]
fn disable_in_visual_line_mode_resets_state_and_line_mode() {
    let (mut vim, mut r, mut f) = harness();
    vim.switch_mode(Mode::Visual { line: true }, true, &mut r, &mut f);
    assert!(surface(&r).line_mode);
    vim.set_enabled(false, &mut r, &mut f);
    assert_eq!(vim.state.mode, Mode::Normal);
    assert!(vim.state.operator_stack.is_empty());
    let s = surface(&r);
    assert!(!s.line_mode);
    assert_eq!(s.cursor_shape, CursorShape::Bar);
    assert!(!s.clip_at_line_ends);
    assert!(s.input_enabled);
    assert_eq!(s.context_layer, None);
    assert!(f.modal_commands_filtered);
}

#[test]
fn enabling_from_disabled_default_lands_in_normal_mode() {
    let mut vim = Vim::new();
    let mut r = Registry { surfaces: vec![Some(full_surface())] };
    let mut f = CommandFilter { modal_commands_filtered: true };
    vim.bind_surface(Some(0), &mut r, &mut f);
    vim.set_enabled(true, &mut r, &mut f);
    assert_eq!(vim.state.mode, Mode::Normal);
    assert!(vim.state.operator_stack.is_empty());
    let s = surface(&r);
    assert!(!s.input_enabled);
    assert_eq!(s.cursor_shape, CursorShape::Block);
    assert!(!f.modal_commands_filtered);
}

#[test]
fn replace_operator_consumes_input_as_replace_at_cursor() {
    let (mut vim, mut r, mut f) = harness();
    vim.push_operator(Operator::Replace, &mut r, &mut f);
    let d = vim.active_editor_input_ignored("x".to_string(), &mut r, &mut f);
    assert_eq!(d, TextDispatch::ReplaceAtCursor { text: "x".to_string(), times: 1 });
    assert!(vim.state.operator_stack.is_empty());
}

#[test]
fn counted_replace_consumes_the_count() {
    let (mut vim, mut r, mut f) = harness();
    vim.push_number(&Number(4), &mut r, &mut f);
    vim.push_operator(Operator::Replace, &mut r, &mut f);
    let d = vim.active_editor_input_ignored("y".to_string(), &mut r, &mut f);
    assert_eq!(d, TextDispatch::ReplaceAtCursor { text: "y".to_string(), times: 4 });
    assert!(vim.state.operator_stack.is_empty());
}

#[test]
fn replace_in_visual_mode_replaces_selections() {
    let (mut vim, mut r, mut f) = harness();
    vim.switch_mode(Mode::Visual { line: true }, false, &mut r, &mut f);
    vim.push_operator(Operator::Replace, &mut r, &mut f);
    let d = vim.active_editor_input_ignored("z".to_string(), &mut r, &mut f);
    assert_eq!(d, TextDispatch::ReplaceSelections { text: "z".to_string(), line: true });
    assert!(vim.state.operator_stack.is_empty());
}

#[test]
fn replace_in_unexpected_mode_abandons_the_operator() {
    let (mut vim, mut r, mut f) = harness();
    vim.state.mode = Mode::Insert;
    vim.state.operator_stack = vec![Operator::Replace];
    let d = vim.active_editor_input_ignored("x".to_string(), &mut r, &mut f);
    assert_eq!(d, TextDispatch::Ignored);
    assert!(vim.state.operator_stack.is_empty());
}

#[test]
fn empty_text_is_a_no_op() {
    let (mut vim, mut r, mut f) = harness();
    vim.push_operator(Operator::Replace, &mut r, &mut f);
    let d = vim.active_editor_input_ignored(String::new(), &mut r, &mut f);
    assert_eq!(d, TextDispatch::Ignored);
    assert_eq!(vim.active_operator(), Some(Operator::Replace));
}

#[test]
fn find_forward_resolves_with_pending_count() {
    let (mut vim, mut r, mut f) = harness();
    vim.push_number(&Number(2), &mut r, &mut f);
    vim.push_operator(Operator::FindForward { before: false }, &mut r, &mut f);
    let d = vim.active_editor_input_ignored("a".to_string(), &mut r, &mut f);
    assert_eq!(
        d,
        TextDispatch::MotionFindForward { before: false, text: "a".to_string(), times: 2 }
    );
    assert!(vim.state.operator_stack.is_empty());
}

#[test]
fn find_backward_resolves_symmetrically() {
    let (mut vim, mut r, mut f) = harness();
    vim.push_operator(Operator::FindBackward { after: true }, &mut r, &mut f);
    let d = vim.active_editor_input_ignored("b".to_string(), &mut r, &mut f);
    assert_eq!(
        d,
        TextDispatch::MotionFindBackward { after: true, text: "b".to_string(), times: 1 }
    );
    assert!(vim.state.operator_stack.is_empty());
}

#[test]
fn text_with_no_pending_argument_operator_is_dropped() {
    let (mut vim, mut r, mut f) = harness();
    vim.push_operator(Operator::Delete, &mut r, &mut f);
    let d = vim.active_editor_input_ignored("w".to_string(), &mut r, &mut f);
    assert_eq!(d, TextDispatch::Ignored);
    assert_eq!(vim.active_operator(), Some(Operator::Delete));
}

#[test]
fn unrelated_keystroke_leaves_argument_pending_operator_intact() {
    let (mut vim, mut r, mut f) = harness();
    vim.push_number(&Number(2), &mut r, &mut f);
    vim.push_operator(Operator::FindForward { before: false }, &mut r, &mut f);
    let cont = vim.observe_keystrokes(Some(KeystrokeHandler::OtherAction), &mut r, &mut f);
    assert!(cont);
    assert_eq!(vim.active_operator(), Some(Operator::FindForward { before: false }));
    assert_eq!(vim.state.operator_stack.len(), 2);
}

#[test]
fn unrelated_keystroke_clears_other_pending_operators() {
    let (mut vim, mut r, mut f) = harness();
    vim.push_operator(Operator::Number(3), &mut r, &mut f);
    let cont = vim.observe_keystrokes(Some(KeystrokeHandler::OtherAction), &mut r, &mut f);
    assert!(cont);
    assert!(vim.state.operator_stack.is_empty());
}

#[test]
fn unhandled_keystroke_also_clears_non_argument_operators() {
    let (mut vim, mut r, mut f) = harness();
    vim.push_operator(Operator::Delete, &mut r, &mut f);
    let cont = vim.observe_keystrokes(None, &mut r, &mut f);
    assert!(cont);
    assert!(vim.state.operator_stack.is_empty());
}

#[test]
fn modal_and_cancel_keystrokes_leave_operators_alone() {
    let (mut vim, mut r, mut f) = harness();
    vim.push_operator(Operator::Delete, &mut r, &mut f);
    assert!(vim.observe_keystrokes(Some(KeystrokeHandler::ModalAction), &mut r, &mut f));
    assert_eq!(vim.active_operator(), Some(Operator::Delete));
    assert!(vim.observe_keystrokes(Some(KeystrokeHandler::EditorCancel), &mut r, &mut f));
    assert_eq!(vim.active_operator(), Some(Operator::Delete));
}

#[test]
fn keystroke_with_no_pending_operator_is_a_no_op() {
    let (mut vim, mut r, mut f) = harness();
    assert!(vim.observe_keystrokes(Some(KeystrokeHandler::OtherAction), &mut r, &mut f));
    assert!(vim.state.operator_stack.is_empty());
    assert_eq!(vim.state.mode, Mode::Normal);
}

#[test]
fn cancel_returns_to_normal_or_propagates() {
    let (mut vim, mut r, mut f) = harness();
    vim.switch_mode(Mode::Insert, false, &mut r, &mut f);
    assert!(vim.cancel(&mut r, &mut f));
    assert_eq!(vim.state.mode, Mode::Normal);

    vim.push_operator(Operator::Delete, &mut r, &mut f);
    assert!(vim.cancel(&mut r, &mut f));
    assert!(vim.state.operator_stack.is_empty());

    // Plain normal mode: the cancel is not consumed here.
    assert!(!vim.cancel(&mut r, &mut f));
    assert_eq!(vim.state.mode, Mode::Normal);
}

#[test]
fn clip_left_clamps_rows_and_columns() {
    let lines: Vec<usize> = vec![0, 4];
    assert_eq!(
        clip_left(&lines, true, Position { row: 5, col: 7 }),
        Position { row: 1, col: 3 }
    );
    assert_eq!(
        clip_left(&lines, false, Position { row: 5, col: 7 }),
        Position { row: 1, col: 4 }
    );
    assert_eq!(
        clip_left(&lines, true, Position { row: 0, col: 2 }),
        Position { row: 0, col: 0 }
    );
    assert_eq!(
        clip_left(&Vec::<usize>::new(), true, Position { row: 3, col: 3 }),
        Position { row: 0, col: 0 }
    );
    assert_eq!(
        clip_left(&lines, true, Position { row: 1, col: 2 }),
        Position { row: 1, col: 2 }
    );
}

#[test]
fn restricted_surface_is_kept_unhooked_even_while_enabled() {
    let mut vim = Vim::new();
    let mut single = full_surface();
    single.kind = SurfaceKind::SingleLine;
    let mut r = Registry { surfaces: vec![Some(single)] };
    let mut f = CommandFilter { modal_commands_filtered: true };
    vim.bind_surface(Some(0), &mut r, &mut f);
    vim.set_enabled(true, &mut r, &mut f);
    let s = surface(&r);
    assert_eq!(s.cursor_shape, CursorShape::Bar);
    assert!(s.input_enabled);
    assert!(!s.clip_at_line_ends);
    assert_eq!(s.context_layer, None);
    // The command filter is still driven by the enabled flag alone.
    assert!(!f.modal_commands_filtered);
}

#[test]
fn gone_surface_is_an_ordinary_no_op() {
    let mut vim = Vim::new();
    let mut r = Registry { surfaces: vec![None] };
    let mut f = CommandFilter { modal_commands_filtered: true };
    vim.bind_surface(Some(0), &mut r, &mut f);
    vim.set_enabled(true, &mut r, &mut f);
    vim.push_operator(Operator::Delete, &mut r, &mut f);
    vim.switch_mode(Mode::Insert, false, &mut r, &mut f);
    assert!(r.surfaces[0].is_none());
    assert_eq!(vim.state.mode, Mode::Insert);
}

#[test]
fn context_layer_tracks_mode_and_active_operator() {
    let (mut vim, mut r, mut f) = harness();
    vim.push_operator(Operator::FindForward { before: true }, &mut r, &mut f);
    assert_eq!(
        surface(&r).context_layer,
        Some(KeymapLayer {
            mode: Mode::Normal,
            operator: Some(Operator::FindForward { before: true }),
        })
    );
    vim.clear_operator(&mut r, &mut f);
    assert_eq!(
        surface(&r).context_layer,
        Some(KeymapLayer { mode: Mode::Normal, operator: None })
    );
}

#[test]
fn rebinding_reconciles_the_new_surface() {
    let (mut vim, mut r, mut f) = harness();
    r.surfaces.push(Some(full_surface()));
    vim.bind_surface(Some(1), &mut r, &mut f);
    let s = r.surfaces[1].as_ref().unwrap();
    assert_eq!(s.cursor_shape, CursorShape::Block);
    assert!(!s.input_enabled);
}

#[test]
fn rebinding_moves_the_exclusive_subscription() {
    let (mut vim, mut r, mut f) = harness();
    r.surfaces.push(Some(full_surface()));
    assert!(r.surfaces[0].as_ref().unwrap().subscribed);
    assert!(!r.surfaces[1].as_ref().unwrap().subscribed);
    vim.bind_surface(Some(1), &mut r, &mut f);
    assert!(!r.surfaces[0].as_ref().unwrap().subscribed);
    assert!(r.surfaces[1].as_ref().unwrap().subscribed);
    vim.bind_surface(None, &mut r, &mut f);
    assert!(!r.surfaces[0].as_ref().unwrap().subscribed);
    assert!(!r.surfaces[1].as_ref().unwrap().subscribed);
}

#[test]
fn action_payloads_carry_their_values() {
    let switch = SwitchMode(Mode::Visual { line: true });
    let push = PushOperator(Operator::Yank);
    let digit = Number(7);
    assert_eq!(switch.0, Mode::Visual { line: true });
    assert_eq!(push.0, Operator::Yank);
    assert_eq!(digit.0, 7);
}

#[test]
fn insert_mode_forwards_raw_input() {
    let (mut vim, mut r, mut f) = harness();
    vim.switch_mode(Mode::Insert, false, &mut r, &mut f);
    let s = surface(&r);
    assert!(s.input_enabled);
    assert_eq!(s.cursor_shape, CursorShape::Bar);
    assert!(!s.clip_at_line_ends);

    let state = VimState::default();
    assert_eq!(state.mode, Mode::Normal);
    assert!(state.operator_stack.is_empty());
}
