use vstd::prelude::*;

verus! {

/// Whether the window holds the pixel buffer as a texture yet.
#[derive(Clone, Copy, Debug, PartialEq, Eq, Structural)]
pub enum TextureState {
    NotLoaded,
    Loaded,
}

/// What a window does on one frame: upload the texture first or not, then
/// draw it, and the state it is in afterwards.
#[derive(Clone, Copy, Debug, PartialEq, Eq, Structural)]
pub struct FrameStep {
    pub upload: bool,
    pub next: TextureState,
}

/// The state after one frame: loaded, whatever came before.
pub open spec fn next_state(s: TextureState) -> TextureState {
    TextureState::Loaded
}

/// A frame uploads exactly when no texture is loaded yet.
pub open spec fn uploads_on(s: TextureState) -> bool {
    s == TextureState::NotLoaded
}

/// The state after `n` frames starting from `s`.
pub open spec fn state_after(s: TextureState, n: nat) -> TextureState
    decreases n,
{
    if n == 0 {
        s
    } else {
        state_after(next_state(s), (n - 1) as nat)
    }
}

/// How many of `n` frames starting from `s` upload the texture.
pub open spec fn uploads_in(s: TextureState, n: nat) -> nat
    decreases n,
{
    if n == 0 {
        0
    } else {
        (if uploads_on(s) {
            1nat
        } else {
            0nat
        }) + uploads_in(next_state(s), (n - 1) as nat)
    }
}

/// Decides one frame: upload when nothing is loaded, then draw.
pub fn on_frame(state: TextureState) -> (r: FrameStep)
    ensures
        r.upload == uploads_on(state),
        r.next == next_state(state),
{
    match state {
        TextureState::NotLoaded => FrameStep { upload: true, next: TextureState::Loaded },
        TextureState::Loaded => FrameStep { upload: false, next: TextureState::Loaded },
    }
}

/// Once loaded, the texture stays loaded for every later frame, and no later
/// frame uploads it again.
pub proof fn lemma_loaded_stays(n: nat)
    ensures
        state_after(TextureState::Loaded, n) == TextureState::Loaded,
        uploads_in(TextureState::Loaded, n) == 0,
    decreases n,
{
    if n > 0 {
        lemma_loaded_stays((n - 1) as nat);
    }
}

/// From the initial state, any run of one or more frames uploads the texture
/// on exactly one frame, the first, and ends loaded.
pub proof fn lemma_single_upload(n: nat)
    requires
        n >= 1,
    ensures
        uploads_on(TextureState::NotLoaded),
        state_after(TextureState::NotLoaded, n) == TextureState::Loaded,
        uploads_in(TextureState::NotLoaded, n) == 1,
{
    lemma_loaded_stays((n - 1) as nat);
}

} // verus!
