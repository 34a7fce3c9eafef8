use frameloop::Inputs;
use frameloop::Vec2i;

const SPACE: u64 = 44;
const LEFT_BUTTON: u64 = 0;

#[test]
fn key_down_then_up_is_tracked() {
    let mut inputs = Inputs::new();
    inputs.on_key_down(SPACE);
    assert!(inputs.get_key_down(SPACE));

    inputs.on_key_up(SPACE);
    assert!(!inputs.get_key_down(SPACE));
}

#[test]
fn unseen_key_reads_not_pressed() {
    let inputs = Inputs::new();
    assert!(!inputs.get_key_down(123));
}

#[test]
fn button_down_then_up_is_tracked() {
    let mut inputs = Inputs::new();
    assert!(!inputs.get_button_down(LEFT_BUTTON));
    inputs.on_mouse_button_down(LEFT_BUTTON);
    assert!(inputs.get_button_down(LEFT_BUTTON));
    inputs.on_mouse_button_up(LEFT_BUTTON);
    assert!(!inputs.get_button_down(LEFT_BUTTON));
}

#[test]
fn reset_zeroes_accumulators_only() {
    let mut inputs = Inputs::new();
    inputs.on_key_down(SPACE);
    inputs.on_mouse_button_down(LEFT_BUTTON);
    inputs.set_modifiers(true, false, true);
    inputs.on_mouse_move(Vec2i::new(5, -9));
    inputs.on_mouse_wheel(2500);

    inputs.reset();

    assert_eq!(inputs.get_mouse_delta(), Vec2i::new(0, 0));
    assert_eq!(inputs.get_mouse_wheel_delta(), 0);
    // Key, button and modifier state survives the per-frame reset.
    assert!(inputs.get_key_down(SPACE));
    assert!(inputs.get_button_down(LEFT_BUTTON));
    assert!(inputs.get_modifiers().alt);
    assert!(!inputs.get_modifiers().ctrl);
    assert!(inputs.get_modifiers().shift);
}

#[test]
fn mouse_moves_accumulate_position_sum() {
    // Two positions before a reset accumulate to their sum: the
    // documented running-sum semantics, not a displacement.
    let mut inputs = Inputs::new();
    inputs.on_mouse_move(Vec2i::new(3, 4));
    inputs.on_mouse_move(Vec2i::new(10, 20));
    assert_eq!(inputs.get_mouse_delta(), Vec2i::new(13, 24));
}

#[test]
fn wheel_deltas_accumulate() {
    let mut inputs = Inputs::new();
    inputs.on_mouse_wheel(1000);
    inputs.on_mouse_wheel(-250);
    assert_eq!(inputs.get_mouse_wheel_delta(), 750);
}

#[test]
fn modifiers_replace_previous_state() {
    let mut inputs = Inputs::new();
    inputs.set_modifiers(true, true, false);
    inputs.set_modifiers(false, true, true);
    let m = inputs.get_modifiers();
    assert!(!m.alt);
    assert!(m.ctrl);
    assert!(m.shift);
}
