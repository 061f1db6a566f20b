//! The two keys the overlay listens to, read from imgui's input state.

use imgui::Ui;
use vstd::prelude::*;

verus! {

/// `imgui::Ui`, the handle imgui lends out while one frame is being built.
/// Nothing inside it is visible to the proofs; it is only carried to
/// [`key_down`].
#[verifier::external_type_specification]
#[verifier::external_body]
pub struct ExUi(imgui::Ui);

/// Length of imgui's `keys_down` table, `ImGuiKey_COUNT`.
pub const KEY_COUNT: usize = 652;

/// Slot of the Insert key, `ImGuiKey_Insert`: the key that shows and hides the menu.
pub const TOGGLE_KEY: usize = 521;

/// Slot of the End key, `ImGuiKey_End`: the key that asks for the module to
/// be unloaded.
pub const UNLOAD_KEY: usize = 520;

/// The physical state of the two keys during one frame.
#[derive(Clone, Copy, Debug, PartialEq, Eq, Structural)]
pub struct KeySample {
    pub toggle_down: bool,
    pub unload_down: bool,
}

/// Calls `imgui::Ui::io` and reads slot `key` of the `keys_down` table of the
/// `Io` it returns. The table has `KEY_COUNT` slots, so the read stays in
/// bounds for every `key` the contract admits. What comes back is whatever the
/// keyboard is doing, so nothing is claimed of it.
#[verifier::external_body]
fn key_down(ui: &Ui, key: usize) -> (down: bool)
    requires
        key < KEY_COUNT,
{
    ui.io().keys_down[key]
}

/// Samples the toggle key and the unload key for the current frame.
pub(crate) fn read_keys(ui: &Ui) -> KeySample {
    let toggle_down = key_down(ui, TOGGLE_KEY);
    let unload_down = key_down(ui, UNLOAD_KEY);
    KeySample { toggle_down, unload_down }
}

} // verus!
