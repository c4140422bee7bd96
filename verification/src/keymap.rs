//! The shared keymap: a read-only structure owned by the composition
//! root and borrowed by every processor that needs layer-aware
//! behaviour.  Its contents are opaque configuration constants; the
//! core validates only their shape.

use vstd::prelude::*;

verus! {

/// Number of key columns over both halves of the board.
pub const COL: usize = 12;
/// Column offset of the right half within the full matrix.
pub const COL_OFFSET: usize = 6;
/// Number of key rows.
pub const ROW: usize = 4;
/// Number of layers in the keymap.
pub const NUM_LAYER: usize = 4;
/// Number of rotary encoders on the board.
pub const NUM_ENCODER: usize = 0;

/// A key usage the keymap can refer to.  Only the usages the default
/// keymap needs are modelled; the set can grow freely.
#[derive(Clone, Copy, PartialEq, Eq, Structural, Debug)]
pub enum KeyCode {
    No,
    A,
    B,
    C,
    D,
    E,
    F,
    G,
    H,
    I,
    J,
    K,
    L,
    M,
    N,
    O,
    P,
    Q,
    R,
    S,
    T,
    U,
    V,
    W,
    X,
    Y,
    Z,
    Kc1,
    Kc2,
    Kc3,
    Kc4,
    Kc5,
    Kc6,
    Kc7,
    Kc8,
    Kc9,
    Kc0,
    Enter,
    Escape,
    Backspace,
    Tab,
    Space,
    Minus,
    Equal,
    LeftBracket,
    RightBracket,
    Backslash,
    Semicolon,
    Quote,
    Grave,
    Comma,
    Dot,
    Slash,
    LShift,
    LCtrl,
    LAlt,
    LGui,
    Left,
    Right,
    Up,
    Down,
    BrightnessUp,
    BrightnessDown,
    Macro0,
    Macro1,
    Macro2,
    Macro3,
    Macro4,
    Macro5,
    Macro6,
}

/// What one key position does on one layer.
#[derive(Clone, Copy, PartialEq, Eq, Structural, Debug)]
pub enum KeyAction {
    /// The position is transparent: the next lower active layer decides.
    Transparent,
    /// Emit a plain key usage.
    Key(KeyCode),
    /// Emit a key usage with the shift modifier held.
    Shifted(KeyCode),
    /// Hold: momentarily activate the layer; tap: emit the key.
    LayerTapKey(u8, KeyCode),
}

/// What one rotary encoder does on one layer.
#[derive(Clone, Copy, PartialEq, Eq, Structural, Debug)]
pub struct EncoderAction {
    pub clockwise: KeyAction,
    pub counter_clockwise: KeyAction,
}

/// The shared, read-mostly keymap.  Processors borrow it and never
/// mutate it; its lifetime is owned by the top-level composition.
pub struct KeyMap {
    pub layers: [[[KeyAction; COL]; ROW]; NUM_LAYER],
}

impl KeyMap {
    pub fn new(layers: [[[KeyAction; COL]; ROW]; NUM_LAYER]) -> (r: Self)
        ensures
            r.layers == layers,
    {
        KeyMap { layers }
    }

    /// The action bound to one key position on one layer.
    pub fn action_at(&self, layer: usize, row: usize, col: usize) -> (r: KeyAction)
        requires
            layer < NUM_LAYER,
            row < ROW,
            col < COL,
        ensures
            r == self.layers@[layer as int]@[row as int]@[col as int],
    {
        self.layers[layer][row][col]
    }
}

fn k(code: KeyCode) -> (r: KeyAction)
    ensures
        r == KeyAction::Key(code),
{
    KeyAction::Key(code)
}

fn sk(code: KeyCode) -> (r: KeyAction)
    ensures
        r == KeyAction::Shifted(code),
{
    KeyAction::Shifted(code)
}

fn lt(layer: u8, code: KeyCode) -> (r: KeyAction)
    ensures
        r == KeyAction::LayerTapKey(layer, code),
{
    KeyAction::LayerTapKey(layer, code)
}

fn tr() -> (r: KeyAction)
    ensures
        r == KeyAction::Transparent,
{
    KeyAction::Transparent
}

/// The default key layout: a base layer, a number/navigation layer, a
/// symbol/macro layer and one spare layer.  The contents are opaque
/// configuration; only the shape matters to the core.
pub fn get_default_keymap() -> [[[KeyAction; COL]; ROW]; NUM_LAYER] {
    [
        [
            [
                k(KeyCode::Tab),
                k(KeyCode::Q),
                k(KeyCode::W),
                k(KeyCode::E),
                k(KeyCode::R),
                k(KeyCode::T),
                k(KeyCode::Y),
                k(KeyCode::U),
                k(KeyCode::I),
                k(KeyCode::O),
                k(KeyCode::P),
                k(KeyCode::Backspace),
            ],
            [
                k(KeyCode::Escape),
                k(KeyCode::A),
                k(KeyCode::S),
                k(KeyCode::D),
                k(KeyCode::F),
                k(KeyCode::G),
                k(KeyCode::H),
                k(KeyCode::J),
                k(KeyCode::K),
                k(KeyCode::L),
                k(KeyCode::Semicolon),
                k(KeyCode::Quote),
            ],
            [
                k(KeyCode::LShift),
                k(KeyCode::Z),
                k(KeyCode::X),
                k(KeyCode::C),
                k(KeyCode::V),
                k(KeyCode::B),
                k(KeyCode::N),
                k(KeyCode::M),
                k(KeyCode::Comma),
                k(KeyCode::Dot),
                k(KeyCode::Slash),
                k(KeyCode::LAlt),
            ],
            [
                k(KeyCode::No),
                k(KeyCode::No),
                k(KeyCode::No),
                k(KeyCode::LGui),
                lt(1, KeyCode::Space),
                k(KeyCode::Slash),
                k(KeyCode::Enter),
                lt(2, KeyCode::Backspace),
                k(KeyCode::LCtrl),
                k(KeyCode::No),
                k(KeyCode::No),
                k(KeyCode::No),
            ],
        ],
        [
            [
                k(KeyCode::Tab),
                k(KeyCode::Kc1),
                k(KeyCode::Kc2),
                k(KeyCode::Kc3),
                k(KeyCode::Kc4),
                k(KeyCode::Kc5),
                k(KeyCode::Kc6),
                k(KeyCode::Kc7),
                k(KeyCode::Kc8),
                k(KeyCode::Kc9),
                k(KeyCode::Kc0),
                k(KeyCode::Backspace),
            ],
            [
                k(KeyCode::BrightnessUp),
                sk(KeyCode::Kc9),
                k(KeyCode::No),
                sk(KeyCode::Kc4),
                k(KeyCode::Backslash),
                sk(KeyCode::Kc5),
                k(KeyCode::Left),
                k(KeyCode::Down),
                k(KeyCode::Up),
                k(KeyCode::Right),
                k(KeyCode::No),
                k(KeyCode::No),
            ],
            [
                k(KeyCode::BrightnessDown),
                sk(KeyCode::Kc0),
                sk(KeyCode::LeftBracket),
                sk(KeyCode::RightBracket),
                k(KeyCode::LeftBracket),
                k(KeyCode::RightBracket),
                k(KeyCode::No),
                k(KeyCode::No),
                k(KeyCode::No),
                k(KeyCode::No),
                k(KeyCode::No),
                k(KeyCode::No),
            ],
            [
                k(KeyCode::No),
                k(KeyCode::No),
                k(KeyCode::No),
                k(KeyCode::LGui),
                tr(),
                k(KeyCode::Space),
                tr(),
                lt(2, KeyCode::Backspace),
                k(KeyCode::LCtrl),
                k(KeyCode::No),
                k(KeyCode::No),
                k(KeyCode::No),
            ],
        ],
        [
            [
                k(KeyCode::No),
                k(KeyCode::Macro6),
                k(KeyCode::No),
                k(KeyCode::No),
                k(KeyCode::No),
                k(KeyCode::No),
                sk(KeyCode::Kc6),
                sk(KeyCode::Kc7),
                sk(KeyCode::Kc8),
                k(KeyCode::No),
                k(KeyCode::No),
                k(KeyCode::No),
            ],
            [
                k(KeyCode::No),
                k(KeyCode::Macro0),
                k(KeyCode::Macro1),
                k(KeyCode::Macro2),
                sk(KeyCode::Kc9),
                sk(KeyCode::Kc0),
                k(KeyCode::Minus),
                sk(KeyCode::Equal),
                k(KeyCode::Grave),
                sk(KeyCode::Backslash),
                k(KeyCode::No),
                k(KeyCode::No),
            ],
            [
                k(KeyCode::No),
                k(KeyCode::Macro3),
                k(KeyCode::Macro4),
                k(KeyCode::Macro5),
                k(KeyCode::Escape),
                k(KeyCode::Tab),
                sk(KeyCode::Minus),
                k(KeyCode::Equal),
                sk(KeyCode::Grave),
                sk(KeyCode::Kc3),
                k(KeyCode::No),
                k(KeyCode::No),
            ],
            [
                k(KeyCode::No),
                k(KeyCode::No),
                k(KeyCode::No),
                k(KeyCode::LShift),
                tr(),
                k(KeyCode::Space),
                k(KeyCode::Enter),
                tr(),
                k(KeyCode::LCtrl),
                k(KeyCode::No),
                k(KeyCode::No),
                k(KeyCode::No),
            ],
        ],
        [
            [
                k(KeyCode::No),
                k(KeyCode::No),
                k(KeyCode::No),
                k(KeyCode::No),
                k(KeyCode::No),
                k(KeyCode::No),
                k(KeyCode::No),
                k(KeyCode::No),
                k(KeyCode::No),
                k(KeyCode::No),
                k(KeyCode::No),
                k(KeyCode::No),
            ],
            [
                k(KeyCode::No),
                k(KeyCode::No),
                k(KeyCode::No),
                k(KeyCode::No),
                k(KeyCode::No),
                k(KeyCode::No),
                k(KeyCode::No),
                k(KeyCode::No),
                k(KeyCode::No),
                k(KeyCode::No),
                k(KeyCode::No),
                k(KeyCode::No),
            ],
            [
                k(KeyCode::No),
                k(KeyCode::No),
                k(KeyCode::No),
                k(KeyCode::No),
                k(KeyCode::No),
                k(KeyCode::No),
                k(KeyCode::No),
                k(KeyCode::No),
                k(KeyCode::No),
                k(KeyCode::No),
                k(KeyCode::No),
                k(KeyCode::No),
            ],
            [
                k(KeyCode::No),
                k(KeyCode::No),
                k(KeyCode::No),
                k(KeyCode::No),
                k(KeyCode::No),
                k(KeyCode::No),
                k(KeyCode::No),
                k(KeyCode::No),
                k(KeyCode::No),
                k(KeyCode::No),
                k(KeyCode::No),
                k(KeyCode::No),
            ],
        ],
    ]
}

/// The default encoder bindings: this board has no encoders, so every
/// layer's list is empty.
pub fn get_default_encoder_map() -> [[EncoderAction; NUM_ENCODER]; NUM_LAYER] {
    [[], [], [], []]
}

/// One step of a recorded key macro.
#[derive(Clone, Copy, PartialEq, Eq, Structural, Debug)]
pub enum MacroOperation {
    Press(KeyCode),
    Release(KeyCode),
    Tap(KeyCode),
}

/// The shape every macro below shares: hold Ctrl+Shift+U to open the
/// operating system's hexadecimal code-point entry, then type the two
/// significant digits and confirm.
pub open spec fn unicode_entry_seq(a: KeyCode, b: KeyCode) -> Seq<MacroOperation> {
    seq![
        MacroOperation::Press(KeyCode::LShift),
        MacroOperation::Press(KeyCode::LCtrl),
        MacroOperation::Tap(KeyCode::U),
        MacroOperation::Release(KeyCode::LShift),
        MacroOperation::Press(KeyCode::LCtrl),
        MacroOperation::Tap(a),
        MacroOperation::Tap(b),
        MacroOperation::Tap(KeyCode::Enter),
    ]
}

fn unicode_entry(a: KeyCode, b: KeyCode) -> (r: Vec<MacroOperation>)
    ensures
        r@ == unicode_entry_seq(a, b),
{
    let mut ops: Vec<MacroOperation> = Vec::new();
    ops.push(MacroOperation::Press(KeyCode::LShift));
    ops.push(MacroOperation::Press(KeyCode::LCtrl));
    ops.push(MacroOperation::Tap(KeyCode::U));
    ops.push(MacroOperation::Release(KeyCode::LShift));
    ops.push(MacroOperation::Press(KeyCode::LCtrl));
    ops.push(MacroOperation::Tap(a));
    ops.push(MacroOperation::Tap(b));
    ops.push(MacroOperation::Tap(KeyCode::Enter));
    proof {
        assert(ops@ =~= unicode_entry_seq(a, b));
    }
    ops
}

/// The recorded macro sequences: code-point entry for the seven German
/// umlaut and eszett characters.  Encoding them into the host
/// firmware's storage byte table is the transport layer's concern.
pub fn get_macro_sequences() -> (r: Vec<Vec<MacroOperation>>)
    ensures
        r@.len() == 7,
        r@[0]@ == unicode_entry_seq(KeyCode::E, KeyCode::Kc4),
        r@[1]@ == unicode_entry_seq(KeyCode::F, KeyCode::Kc6),
        r@[2]@ == unicode_entry_seq(KeyCode::F, KeyCode::C),
        r@[3]@ == unicode_entry_seq(KeyCode::C, KeyCode::Kc4),
        r@[4]@ == unicode_entry_seq(KeyCode::D, KeyCode::Kc6),
        r@[5]@ == unicode_entry_seq(KeyCode::D, KeyCode::C),
        r@[6]@ == unicode_entry_seq(KeyCode::D, KeyCode::F),
{
    let mut seqs: Vec<Vec<MacroOperation>> = Vec::new();
    seqs.push(unicode_entry(KeyCode::E, KeyCode::Kc4));
    seqs.push(unicode_entry(KeyCode::F, KeyCode::Kc6));
    seqs.push(unicode_entry(KeyCode::F, KeyCode::C));
    seqs.push(unicode_entry(KeyCode::C, KeyCode::Kc4));
    seqs.push(unicode_entry(KeyCode::D, KeyCode::Kc6));
    seqs.push(unicode_entry(KeyCode::D, KeyCode::C));
    seqs.push(unicode_entry(KeyCode::D, KeyCode::F));
    seqs
}

} // verus!
