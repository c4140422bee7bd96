use corne_rmk::addr::ble_addr;
use corne_rmk::keymap::get_default_encoder_map;
use corne_rmk::keymap::get_default_keymap;
use corne_rmk::keymap::get_macro_sequences;
use corne_rmk::keymap::KeyAction;
use corne_rmk::keymap::KeyCode;
use corne_rmk::keymap::KeyMap;
use corne_rmk::keymap::MacroOperation;
use corne_rmk::keymap::{COL, NUM_ENCODER, NUM_LAYER, ROW};

#[test]
fn default_keymap_has_the_configured_shape() {
    let layers = get_default_keymap();
    assert_eq!(layers.len(), NUM_LAYER);
    for layer in layers.iter() {
        assert_eq!(layer.len(), ROW);
        for row in layer.iter() {
            assert_eq!(row.len(), COL);
        }
    }
}

#[test]
fn default_keymap_spot_checks() {
    let km = KeyMap::new(get_default_keymap());
    assert_eq!(km.action_at(0, 0, 0), KeyAction::Key(KeyCode::Tab));
    assert_eq!(km.action_at(0, 0, 1), KeyAction::Key(KeyCode::Q));
    assert_eq!(km.action_at(0, 3, 4), KeyAction::LayerTapKey(1, KeyCode::Space));
    assert_eq!(km.action_at(1, 1, 3), KeyAction::Shifted(KeyCode::Kc4));
    assert_eq!(km.action_at(1, 3, 4), KeyAction::Transparent);
    assert_eq!(km.action_at(2, 0, 1), KeyAction::Key(KeyCode::Macro6));
    assert_eq!(km.action_at(3, 2, 7), KeyAction::Key(KeyCode::No));
}

#[test]
fn default_encoder_map_is_empty() {
    let encoders = get_default_encoder_map();
    assert_eq!(encoders.len(), NUM_LAYER);
    for layer in encoders.iter() {
        assert_eq!(layer.len(), NUM_ENCODER);
    }
}

#[test]
fn macro_sequences_share_the_code_point_entry_shape() {
    let seqs = get_macro_sequences();
    assert_eq!(seqs.len(), 7);
    for s in seqs.iter() {
        assert_eq!(s.len(), 8);
        assert_eq!(s[0], MacroOperation::Press(KeyCode::LShift));
        assert_eq!(s[1], MacroOperation::Press(KeyCode::LCtrl));
        assert_eq!(s[2], MacroOperation::Tap(KeyCode::U));
        assert_eq!(s[3], MacroOperation::Release(KeyCode::LShift));
        assert_eq!(s[7], MacroOperation::Tap(KeyCode::Enter));
    }
    assert_eq!(seqs[0][5], MacroOperation::Tap(KeyCode::E));
    assert_eq!(seqs[0][6], MacroOperation::Tap(KeyCode::Kc4));
    assert_eq!(seqs[6][5], MacroOperation::Tap(KeyCode::D));
    assert_eq!(seqs[6][6], MacroOperation::Tap(KeyCode::F));
}

#[test]
fn ble_addr_joins_device_id_words_little_endian() {
    let addr = ble_addr(0x1234_5678, 0x9abc_def0);
    assert_eq!(addr, [0x78, 0x56, 0x34, 0x12, 0xf0, 0xde]);
}

#[test]
fn ble_addr_forces_static_random_bits() {
    let addr = ble_addr(0, 0);
    // The two top bits of the 48-bit address are always set.
    assert_eq!(addr, [0, 0, 0, 0, 0, 0xc0]);
}
