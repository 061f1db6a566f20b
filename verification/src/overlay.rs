//! The render callback's state machine: edge-triggered menu toggle and
//! unload request.
//!
//! The callback runs once per rendered frame, so a key that is held for a
//! moment is seen down for many frames in a row. Both keys therefore act only
//! on the frame in which they go from up to down.

use crate::error::HookError;
use crate::input::{read_keys, KeySample};
use crate::unload::{engaged_after, unload_outcome, UnloadAction, UnloadLatch};
use imgui::Ui;
use vstd::prelude::*;

verus! {

/// What the overlay remembers from one frame to the next.
pub struct OverlayState {
    /// Whether the menu is drawn.
    pub menu_visible: bool,
    /// Whether the toggle key was down on the frame before.
    pub prior_toggle_key_down: bool,
    /// Whether the unload key was down on the frame before.
    pub prior_unload_key_down: bool,
    /// Whether a worker has been asked to detach the module.
    pub unloading: bool,
}

/// What the caller has to do for the frame at hand, in the order of the
/// fields.
#[derive(Clone, Copy, Debug, PartialEq, Eq, Structural)]
pub struct FramePlan {
    /// The unload key went down on this frame: run the unload sequence.
    pub unload_requested: bool,
    /// The menu is visible: draw it.
    pub draw_menu: bool,
}

/// A key acts on the frame on which it is down and was not on the one before.
pub open spec fn rising_edge(prior_down: bool, down: bool) -> bool {
    down && !prior_down
}

/// The state a freshly loaded overlay starts in: menu shown, no key seen yet.
pub open spec fn initial_state() -> OverlayState {
    OverlayState {
        menu_visible: true,
        prior_toggle_key_down: false,
        prior_unload_key_down: false,
        unloading: false,
    }
}

/// The state after one frame with the given key sample.
pub open spec fn step(state: OverlayState, keys: KeySample) -> OverlayState {
    OverlayState {
        menu_visible: if rising_edge(state.prior_toggle_key_down, keys.toggle_down) {
            !state.menu_visible
        } else {
            state.menu_visible
        },
        prior_toggle_key_down: keys.toggle_down,
        prior_unload_key_down: keys.unload_down,
        unloading: state.unloading,
    }
}

/// Whether the frame asks for the module to be unloaded.
pub open spec fn unload_requested(state: OverlayState, keys: KeySample) -> bool {
    rising_edge(state.prior_unload_key_down, keys.unload_down)
}

/// What the caller is told to do for the frame.
pub open spec fn plan(state: OverlayState, keys: KeySample) -> FramePlan {
    FramePlan {
        unload_requested: unload_requested(state, keys),
        draw_menu: step(state, keys).menu_visible,
    }
}

/// The state after a series of frames.
pub open spec fn run(state: OverlayState, frames: Seq<KeySample>) -> OverlayState
    decreases frames.len(),
{
    if frames.len() == 0 {
        state
    } else {
        step(run(state, frames.drop_last()), frames.last())
    }
}

/// Whether the toggle key was down on the frame before frame `i` of a run
/// that started in `state`.
pub open spec fn toggle_down_before(state: OverlayState, frames: Seq<KeySample>, i: int) -> bool {
    if i == 0 {
        state.prior_toggle_key_down
    } else {
        frames[i - 1].toggle_down
    }
}

/// Whether the unload key was down on the frame before frame `i` of a run
/// that started in `state`.
pub open spec fn unload_down_before(state: OverlayState, frames: Seq<KeySample>, i: int) -> bool {
    if i == 0 {
        state.prior_unload_key_down
    } else {
        frames[i - 1].unload_down
    }
}

/// How many frames of the run see the toggle key go from up to down.
pub open spec fn rising_edges(state: OverlayState, frames: Seq<KeySample>) -> nat
    decreases frames.len(),
{
    if frames.len() == 0 {
        0
    } else {
        let earlier = rising_edges(state, frames.drop_last());
        if rising_edge(
            toggle_down_before(state, frames, frames.len() - 1),
            frames.last().toggle_down,
        ) {
            earlier + 1
        } else {
            earlier
        }
    }
}

/// How many frames of the run change the menu's visibility.
pub open spec fn flips(state: OverlayState, frames: Seq<KeySample>) -> nat
    decreases frames.len(),
{
    if frames.len() == 0 {
        0
    } else {
        let earlier = frames.drop_last();
        if run(state, frames).menu_visible != run(state, earlier).menu_visible {
            flips(state, earlier) + 1
        } else {
            flips(state, earlier)
        }
    }
}

/// One call on the overlay: a frame with its key sample, or a run of the
/// unload sequence with what the lookup of the module's own handle gave.
#[derive(Clone, Copy, Debug, PartialEq, Eq, Structural)]
pub enum OverlayCall {
    Frame(KeySample),
    Unload(Option<usize>),
}

/// The state after one call.
pub open spec fn after_call(state: OverlayState, call: OverlayCall) -> OverlayState {
    match call {
        OverlayCall::Frame(keys) => step(state, keys),
        OverlayCall::Unload(self_handle) => OverlayState {
            unloading: engaged_after(state.unloading, self_handle),
            ..state
        },
    }
}

/// The state after a series of calls.
pub open spec fn after_calls(state: OverlayState, calls: Seq<OverlayCall>) -> OverlayState
    decreases calls.len(),
{
    if calls.len() == 0 {
        state
    } else {
        after_call(after_calls(state, calls.drop_last()), calls.last())
    }
}

/// Whether a call makes the caller start a worker that detaches the module.
pub open spec fn starts_worker(state: OverlayState, call: OverlayCall) -> bool {
    call matches OverlayCall::Unload(self_handle) && unload_outcome(
        state.unloading,
        self_handle,
    ) matches Ok(UnloadAction::DetachOnWorker { .. })
}

/// How many calls of a series make the caller start such a worker.
pub open spec fn workers_started(state: OverlayState, calls: Seq<OverlayCall>) -> nat
    decreases calls.len(),
{
    if calls.len() == 0 {
        0
    } else {
        let earlier = calls.drop_last();
        if starts_worker(after_calls(state, earlier), calls.last()) {
            workers_started(state, earlier) + 1
        } else {
            workers_started(state, earlier)
        }
    }
}

/// Main render loop state of the overlay.
///
/// The hooking library calls the render callback on the host's render thread,
/// one call at a time. Every method that changes the state takes `&mut self`,
/// so the state needs no lock as long as that holds.
#[derive(Debug)]
pub struct D3D9RenderLoop {
    display_menu: bool,
    last_insert_state: bool,
    last_end_state: bool,
    unload: UnloadLatch,
}

impl View for D3D9RenderLoop {
    type V = OverlayState;

    closed spec fn view(&self) -> OverlayState {
        OverlayState {
            menu_visible: self.display_menu,
            prior_toggle_key_down: self.last_insert_state,
            prior_unload_key_down: self.last_end_state,
            unloading: self.unload@,
        }
    }
}

impl Default for D3D9RenderLoop {
    /// The overlay as it is when the module has just been loaded.
    fn default() -> (overlay: Self)
        ensures
            overlay@ == initial_state(),
    {
        D3D9RenderLoop {
            display_menu: true,
            last_insert_state: false,
            last_end_state: false,
            unload: UnloadLatch::new(),
        }
    }
}

impl D3D9RenderLoop {
    /// Whether the menu is shown.
    pub fn display_menu(&self) -> (shown: bool)
        ensures
            shown == self@.menu_visible,
    {
        self.display_menu
    }

    /// Whether the toggle key was down on the last frame.
    pub fn last_insert_state(&self) -> (down: bool)
        ensures
            down == self@.prior_toggle_key_down,
    {
        self.last_insert_state
    }

    /// Whether the unload key was down on the last frame.
    pub fn last_end_state(&self) -> (down: bool)
        ensures
            down == self@.prior_unload_key_down,
    {
        self.last_end_state
    }

    /// Whether a worker has been asked to unload the module.
    pub fn is_unloading(&self) -> (unloading: bool)
        ensures
            unloading == self@.unloading,
    {
        self.unload.is_engaged()
    }

    /// Advances the overlay by one frame in which the keys were as in `keys`.
    /// Returns whether the unload sequence is to be run. Both key states are
    /// stored on every frame, edge or not.
    pub fn apply_keys(&mut self, keys: KeySample) -> (unload: bool)
        ensures
            final(self)@ == step(old(self)@, keys),
            unload == unload_requested(old(self)@, keys),
    {
        if keys.toggle_down && !self.last_insert_state {
            self.display_menu = !self.display_menu;
        }
        self.last_insert_state = keys.toggle_down;
        let unload = keys.unload_down && !self.last_end_state;
        self.last_end_state = keys.unload_down;
        unload
    }

    /// Advances the overlay by one frame and says what the caller has to do
    /// for it.
    pub fn plan_frame(&mut self, keys: KeySample) -> (frame: FramePlan)
        ensures
            final(self)@ == step(old(self)@, keys),
            frame == plan(old(self)@, keys),
    {
        let unload_requested = self.apply_keys(keys);
        FramePlan { unload_requested, draw_menu: self.display_menu }
    }

    /// Reads the two keys from imgui and advances the overlay by one frame.
    /// Returns whether the unload sequence is to be run. Whatever the keyboard
    /// did, the frame is one step of the machine.
    pub fn handle_input(&mut self, ui: &Ui) -> (unload: bool)
        ensures
            exists|keys: KeySample|
                final(self)@ == #[trigger] step(old(self)@, keys) && unload == unload_requested(
                    old(self)@,
                    keys,
                ),
    {
        let keys = read_keys(ui);
        self.apply_keys(keys)
    }

    /// The render callback: handles the keys of the frame, then tells the
    /// caller whether to run the unload sequence and whether to draw the menu.
    pub fn render(&mut self, ui: &Ui) -> (frame: FramePlan)
        ensures
            exists|keys: KeySample|
                final(self)@ == #[trigger] step(old(self)@, keys) && frame == plan(
                    old(self)@,
                    keys,
                ),
    {
        let keys = read_keys(ui);
        self.plan_frame(keys)
    }

    /// The unload sequence, up to the point where a thread has to be started.
    /// `self_handle` is the handle of the module that holds the running code,
    /// as plain bits, or `None` if the lookup failed. A failed lookup is
    /// reported and leaves the overlay running as before.
    pub fn unload_dll(&mut self, self_handle: Option<usize>) -> (outcome: Result<
        UnloadAction,
        HookError,
    >)
        ensures
            outcome == unload_outcome(old(self)@.unloading, self_handle),
            final(self)@ == after_call(old(self)@, OverlayCall::Unload(self_handle)),
    {
        self.unload.request(self_handle)
    }
}

/// The stored key states are those of the last frame, whether or not it
/// toggled anything.
pub proof fn lemma_prior_is_last_sample(state: OverlayState, frames: Seq<KeySample>)
    requires
        frames.len() > 0,
    ensures
        run(state, frames).prior_toggle_key_down == frames.last().toggle_down,
        run(state, frames).prior_unload_key_down == frames.last().unload_down,
{
}

/// Frame `i` of a run changes the menu's visibility exactly if the toggle key
/// is down on it and was up on the frame before: not while the key is held,
/// and not when it is released.
pub proof fn lemma_flip_iff_rising_edge(state: OverlayState, frames: Seq<KeySample>, i: int)
    requires
        0 <= i < frames.len(),
    ensures
        (run(state, frames.take(i + 1)).menu_visible != run(state, frames.take(i)).menu_visible)
            <==> rising_edge(toggle_down_before(state, frames, i), frames[i].toggle_down),
{
    let upto = frames.take(i + 1);
    assert(upto.drop_last() == frames.take(i));
    assert(upto.last() == frames[i]);
    if i > 0 {
        lemma_prior_is_last_sample(state, frames.take(i));
    }
}

/// Frame `i` of a run asks for the unload sequence exactly if the unload key
/// is down on it and was up on the frame before.
pub proof fn lemma_unload_iff_rising_edge(state: OverlayState, frames: Seq<KeySample>, i: int)
    requires
        0 <= i < frames.len(),
    ensures
        unload_requested(run(state, frames.take(i)), frames[i]) <==> rising_edge(
            unload_down_before(state, frames, i),
            frames[i].unload_down,
        ),
{
    if i > 0 {
        lemma_prior_is_last_sample(state, frames.take(i));
    }
}

/// The menu's visibility changes once for every rising edge of the toggle
/// key and never otherwise, so that it ends up changed exactly if the number
/// of rising edges is odd.
pub proof fn lemma_flips_count_rising_edges(state: OverlayState, frames: Seq<KeySample>)
    ensures
        flips(state, frames) == rising_edges(state, frames),
        run(state, frames).menu_visible == (state.menu_visible == (rising_edges(state, frames) % 2
            == 0)),
    decreases frames.len(),
{
    if frames.len() > 0 {
        let earlier = frames.drop_last();
        lemma_flips_count_rising_edges(state, earlier);
        if earlier.len() > 0 {
            lemma_prior_is_last_sample(state, earlier);
        }
    }
}

/// However frames and unload requests follow each other, the caller is told
/// to start a detaching worker at most once, and never once an unload is
/// under way: a second run of the unload sequence does nothing.
pub proof fn lemma_at_most_one_worker(state: OverlayState, calls: Seq<OverlayCall>)
    ensures
        workers_started(state, calls) <= 1,
        state.unloading ==> workers_started(state, calls) == 0,
        after_calls(state, calls).unloading == (state.unloading || workers_started(state, calls)
            == 1),
    decreases calls.len(),
{
    if calls.len() > 0 {
        lemma_at_most_one_worker(state, calls.drop_last());
    }
}

/// A series of frames is a series of calls that are all frames.
pub proof fn lemma_frames_are_calls(state: OverlayState, frames: Seq<KeySample>)
    ensures
        after_calls(state, frames.map_values(|keys: KeySample| OverlayCall::Frame(keys))) == run(
            state,
            frames,
        ),
    decreases frames.len(),
{
    let calls = frames.map_values(|keys: KeySample| OverlayCall::Frame(keys));
    if frames.len() > 0 {
        lemma_frames_are_calls(state, frames.drop_last());
        assert(calls.drop_last() == frames.drop_last().map_values(
            |keys: KeySample| OverlayCall::Frame(keys),
        ));
    }
}

/// Frames never start or stop an unload.
pub proof fn lemma_frames_keep_unloading(state: OverlayState, frames: Seq<KeySample>)
    ensures
        run(state, frames).unloading == state.unloading,
    decreases frames.len(),
{
    if frames.len() > 0 {
        lemma_frames_keep_unloading(state, frames.drop_last());
    }
}

} // verus!
