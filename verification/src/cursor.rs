//! Visibility of the mouse cursor: always shown, or shown only for a short
//! while after the pointer last moved.

use vstd::prelude::*;

verus! {

/// How long the cursor stays visible after the pointer last moved while it
/// hides by itself: 200 ms, in nanoseconds of the host's monotonic clock.
pub const CURSOR_HIDE_DELAY: u64 = 200_000_000;

/// One frame as the cursor sees it: whether the pointer is moving, and the
/// reading of the host's monotonic clock in nanoseconds.
#[derive(Clone, Copy, Debug, PartialEq, Eq)]
pub struct Motion {
    pub moving: bool,
    pub now: u64,
}

/// The mode of the cursor. A middle click switches between the two.
#[derive(Clone, Copy, Debug, PartialEq, Eq)]
pub enum CursorState {
    /// The cursor is always shown.
    Visible,
    /// The cursor is shown while `last_moved` holds the time of a recent
    /// pointer movement, and hidden otherwise.
    AutoHide { last_moved: Option<u64> },
}

/// Time that has passed at `now` since `then`; none where the clock reads
/// earlier than `then`.
pub open spec fn age(now: u64, then: u64) -> int {
    if now >= then {
        now - then
    } else {
        0
    }
}

impl CursorState {
    /// The state after a middle click.
    pub open spec fn toggled(self) -> CursorState {
        match self {
            CursorState::Visible => CursorState::AutoHide { last_moved: None },
            CursorState::AutoHide { .. } => CursorState::Visible,
        }
    }

    /// Whether the cursor is to be shown.
    pub open spec fn shows_cursor(self) -> bool {
        match self {
            CursorState::Visible => true,
            CursorState::AutoHide { last_moved } => last_moved is Some,
        }
    }

    /// The state once a pointer movement in this frame, if any, is noted.
    pub open spec fn noted(self, frame: Motion) -> CursorState {
        match self {
            CursorState::AutoHide { last_moved } if frame.moving => CursorState::AutoHide {
                last_moved: Some(frame.now),
            },
            _ => self,
        }
    }

    /// The state with a movement dropped that is older than the delay.
    pub open spec fn expired(self, now: u64) -> CursorState {
        match self {
            CursorState::AutoHide { last_moved: Some(t) } if age(now, t) > CURSOR_HIDE_DELAY =>
                CursorState::AutoHide { last_moved: None },
            _ => self,
        }
    }

    /// The state at the end of a frame: movement noted, then expiry.
    pub open spec fn after_frame(self, frame: Motion) -> CursorState {
        self.noted(frame).expired(frame.now)
    }

    /// Whether a frame asks the host for another frame soon: it does while a
    /// movement is on record, before expiry is looked at, so that the frame
    /// in which the cursor hides is always followed by one more.
    pub open spec fn wants_repaint(self, frame: Motion) -> bool {
        self.noted(frame) matches CursorState::AutoHide { last_moved: Some(_) }
    }

    /// The state after a run of frames.
    pub open spec fn after_frames(self, frames: Seq<Motion>) -> CursorState
        decreases frames.len(),
    {
        if frames.len() == 0 {
            self
        } else {
            self.after_frames(frames.drop_last()).after_frame(frames.last())
        }
    }

    /// In auto-hide, a movement on record is never older than the delay at
    /// the time `now` of the frame that has just been handled.
    pub open spec fn fresh_at(self, now: u64) -> bool {
        self matches CursorState::AutoHide { last_moved: Some(t) } ==> age(now, t)
            <= CURSOR_HIDE_DELAY
    }

    /// Switches between the two modes, as a middle click does. Auto-hide
    /// starts with no movement on record, so the cursor hides at once.
    pub fn toggle(&mut self)
        ensures
            *final(self) == old(self).toggled(),
    {
        *self = match *self {
            CursorState::Visible => CursorState::AutoHide { last_moved: None },
            CursorState::AutoHide { .. } => CursorState::Visible,
        };
    }

    /// Whether the cursor is to be shown: always in `Visible`, and in
    /// auto-hide while a movement is on record.
    pub fn show_cursor(&self) -> (shown: bool)
        ensures
            shown == self.shows_cursor(),
    {
        match *self {
            CursorState::Visible => true,
            CursorState::AutoHide { last_moved } => last_moved.is_some(),
        }
    }

    /// Handles one frame: notes a pointer movement, says whether the host is
    /// to repaint soon, and lets a movement older than the delay lapse.
    pub fn update(&mut self, frame: Motion) -> (repaint: bool)
        ensures
            *final(self) == old(self).after_frame(frame),
            repaint == old(self).wants_repaint(frame),
            final(self).fresh_at(frame.now),
    {
        let mut repaint = false;
        if let CursorState::AutoHide { last_moved } = *self {
            let mut last_moved = last_moved;
            if frame.moving {
                last_moved = Some(frame.now);
            }
            if let Some(t) = last_moved {
                repaint = true;
                let elapsed: u64 = if frame.now >= t {
                    frame.now - t
                } else {
                    0
                };
                if elapsed > CURSOR_HIDE_DELAY {
                    last_moved = None;
                }
            }
            *self = CursorState::AutoHide { last_moved };
        }
        repaint
    }
}

/// Frames leave the mode alone: only a middle click changes it.
pub proof fn lemma_frames_keep_mode(state: CursorState, frames: Seq<Motion>)
    ensures
        state.after_frames(frames) is Visible <==> state is Visible,
    decreases frames.len(),
{
    if frames.len() > 0 {
        lemma_frames_keep_mode(state, frames.drop_last());
    }
}

/// From `Visible`, one middle click leads to auto-hide with no movement on
/// record, and a second one leads back to `Visible`, whatever the pointer did
/// in the frames between the two.
pub proof fn lemma_two_clicks_restore_visible(frames: Seq<Motion>)
    ensures
        CursorState::Visible.toggled() == (CursorState::AutoHide { last_moved: None }),
        CursorState::Visible.toggled().after_frames(frames).toggled() == CursorState::Visible,
{
    lemma_frames_keep_mode(CursorState::Visible.toggled(), frames);
}

/// Without movement, a run of frames either keeps the movement on record or
/// drops it.
pub proof fn lemma_quiet_frames(state: CursorState, frames: Seq<Motion>)
    requires
        state is AutoHide,
        forall|i: int| 0 <= i < frames.len() ==> !(#[trigger] frames[i]).moving,
    ensures
        state.after_frames(frames) == state || state.after_frames(frames) == (
        CursorState::AutoHide { last_moved: None }),
    decreases frames.len(),
{
    if frames.len() > 0 {
        let earlier = frames.drop_last();
        assert forall|i: int| 0 <= i < earlier.len() implies !(#[trigger] earlier[i]).moving by {
            assert(earlier[i] == frames[i]);
        }
        lemma_quiet_frames(state, earlier);
    }
}

/// While a movement is on record the next frame asks for a repaint, so that
/// the host keeps running frames until the cursor has hidden.
pub proof fn lemma_shown_cursor_keeps_frames_coming(state: CursorState, frame: Motion)
    requires
        state matches CursorState::AutoHide { last_moved: Some(_) },
    ensures
        state.wants_repaint(frame),
{
}

/// In auto-hide, the cursor shows in the frame in which the pointer moves.
/// Once more than the delay has passed since then without further movement,
/// the next frame hides it, however many frames were handled in between.
pub proof fn lemma_motion_shows_then_quiet_hides(
    state: CursorState,
    moved: Motion,
    quiet: Seq<Motion>,
    later: Motion,
)
    requires
        state is AutoHide,
        moved.moving,
        forall|i: int| 0 <= i < quiet.len() ==> !(#[trigger] quiet[i]).moving,
        !later.moving,
        later.now - moved.now > CURSOR_HIDE_DELAY,
    ensures
        state.after_frame(moved).shows_cursor(),
        !state.after_frame(moved).after_frames(quiet).after_frame(later).shows_cursor(),
{
    lemma_quiet_frames(state.after_frame(moved), quiet);
}

} // verus!
