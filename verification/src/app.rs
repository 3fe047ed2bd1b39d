//! The state of the overlay and what one frame does to it: the cursor mode,
//! the opacity drag, and what the window shows.

use vstd::prelude::*;
use crate::cursor::{
    lemma_frames_keep_mode, lemma_motion_shows_then_quiet_hides, CursorState, Motion,
    CURSOR_HIDE_DELAY,
};
use crate::geometry::{Point, Rect, UNITS_PER_POINT};
use crate::range::{clamp_spec, map_clamped, map_clamped_spec, map_spec};
use crate::zones::{Command, Zone, ZoneLayout};

verus! {

/// How far the pointer travels between least and full opacity: 100 points.
pub const OPACITY_DRAG_RANGE: i32 = 100 * UNITS_PER_POINT;

/// The least opacity, one half. Opacity is counted in steps of which one
/// length unit of drag is one: the drag range is as many steps as lie between
/// the least and full opacity.
pub const ALPHA_MIN: i32 = OPACITY_DRAG_RANGE;

/// Full opacity.
pub const ALPHA_MAX: i32 = 2 * ALPHA_MIN;

/// What the host reports of the pointer in one frame.
#[derive(Clone, Copy, Debug, PartialEq, Eq)]
pub struct FrameInput {
    /// The host's monotonic clock, in nanoseconds.
    pub now: u64,
    /// Whether the pointer is moving.
    pub pointer_moving: bool,
    /// Whether the middle button was clicked in this frame.
    pub middle_clicked: bool,
    /// Whether the secondary button was released in this frame.
    pub secondary_released: bool,
    /// Whether the secondary button is held down.
    pub secondary_down: bool,
    /// Where the pointer is, if the host knows of one.
    pub interact_pos: Option<Point>,
}

impl FrameInput {
    /// What the frame tells the cursor: whether the pointer moves, and when.
    pub open spec fn motion(self) -> Motion {
        Motion { moving: self.pointer_moving, now: self.now }
    }
}

/// The slider-like indicator drawn while the opacity is dragged. It takes no
/// input. Its bottom centre lies at (`x`, `y`), in length units; it is as
/// high as the drag range, and its handle stands for `alpha` between the
/// least opacity at the bottom and full opacity at the top.
#[derive(Clone, Copy, Debug, PartialEq, Eq)]
pub struct Indicator {
    pub x: i64,
    pub y: i64,
    pub alpha: i32,
}

/// What the window shows in a frame.
#[derive(Clone, Copy, Debug, PartialEq, Eq)]
pub enum Content {
    /// An opacity drag is under way: the indicator is drawn and no zone is
    /// offered to the pointer.
    Opacity(Indicator),
    /// The nine zones are offered to the pointer, each for clicks and drags,
    /// with the cursor of `Zone::cursor_icon` for `show_cursor`.
    Zones { layout: ZoneLayout, show_cursor: bool },
}

/// What a frame asks of the host.
#[derive(Clone, Copy, Debug, PartialEq, Eq)]
pub struct Frame {
    /// Whether the host is to run another frame soon.
    pub repaint: bool,
    pub content: Content,
}

impl Content {
    /// What a primary-button drag that starts on `zone` asks of the host while
    /// the window shows this: the zone's command where the zones are offered,
    /// and nothing during an opacity drag.
    pub open spec fn primary_drag_spec(self, zone: Zone) -> Option<Command> {
        match self {
            Content::Opacity(_) => None,
            Content::Zones { .. } => Some(zone.command_spec()),
        }
    }

    pub fn primary_drag_started(&self, zone: Zone) -> (command: Option<Command>)
        ensures
            command == self.primary_drag_spec(zone),
    {
        match self {
            Content::Opacity(_) => None,
            Content::Zones { .. } => Some(zone.command()),
        }
    }
}

/// Asks the host to close the window when Escape or Q was pressed, whatever
/// else goes on.
pub fn quit(escape_pressed: bool, q_pressed: bool) -> (command: Option<Command>)
    ensures
        command == if escape_pressed || q_pressed {
            Some(Command::Close)
        } else {
            None
        },
{
    if escape_pressed || q_pressed {
        Some(Command::Close)
    } else {
        None
    }
}

/// The offset that, taken at the start of a drag, puts the handle of the
/// indicator under the pointer: the distance already dragged, as it were,
/// to reach `alpha`.
pub open spec fn virtual_opacity_offset_spec(alpha: int) -> int {
    map_spec(ALPHA_MAX - alpha, ALPHA_MIN as int, ALPHA_MAX as int, 0, OPACITY_DRAG_RANGE as int)
}

/// The opacity while the pointer is at `pointer` in a drag that started at
/// `origin` with the given offset: it grows as the pointer moves up, and
/// stays between the least and full opacity.
pub open spec fn dragged_alpha_spec(offset: int, origin: Point, pointer: Point) -> int {
    map_clamped_spec(
        -offset + origin.y - pointer.y,
        0,
        OPACITY_DRAG_RANGE as int,
        ALPHA_MIN as int,
        ALPHA_MAX as int,
    )
}

/// The state of the overlay as plain values.
pub struct AppModel {
    /// The opacity of the fill colour of the window.
    pub fill: int,
    /// Where the secondary button went down, while an opacity drag is under
    /// way.
    pub drag_origin: Option<Point>,
    pub alpha: int,
    pub virtual_opacity_offset: int,
    pub cursor_state: CursorState,
}

impl AppModel {
    /// The state at start: opaque, the fill at half opacity, no drag, the
    /// cursor always shown.
    pub open spec fn initial() -> AppModel {
        AppModel {
            fill: ALPHA_MIN as int,
            drag_origin: None,
            alpha: ALPHA_MAX as int,
            virtual_opacity_offset: 0,
            cursor_state: CursorState::Visible,
        }
    }

    /// Opacity and fill lie between the least and full opacity, and the
    /// offset is one that some such opacity gives.
    pub open spec fn valid(self) -> bool {
        &&& ALPHA_MIN <= self.alpha <= ALPHA_MAX
        &&& ALPHA_MIN <= self.fill <= ALPHA_MAX
        &&& -OPACITY_DRAG_RANGE <= self.virtual_opacity_offset <= 0
    }

    /// The cursor mode after the frame: the pointer's movement is handled
    /// first, a middle click after it.
    pub open spec fn cursor_after(self, input: FrameInput) -> CursorState {
        let handled = self.cursor_state.after_frame(input.motion());
        if input.middle_clicked {
            handled.toggled()
        } else {
            handled
        }
    }

    /// The origin of the drag once a release of the secondary button is
    /// handled.
    pub open spec fn origin_after_release(self, input: FrameInput) -> Option<Point> {
        if input.secondary_released {
            None
        } else {
            self.drag_origin
        }
    }

    /// Whether the frame starts a drag: the secondary button is down and no
    /// drag is under way.
    pub open spec fn starts_drag(self, input: FrameInput) -> bool {
        input.secondary_down && self.origin_after_release(input) is None
    }

    pub open spec fn origin_after(self, input: FrameInput) -> Option<Point> {
        if self.starts_drag(input) {
            input.interact_pos
        } else {
            self.origin_after_release(input)
        }
    }

    pub open spec fn offset_after(self, input: FrameInput) -> int {
        if self.starts_drag(input) {
            virtual_opacity_offset_spec(self.alpha)
        } else {
            self.virtual_opacity_offset
        }
    }

    pub open spec fn alpha_after(self, input: FrameInput) -> int {
        if input.secondary_down && self.origin_after(input) is Some && input.interact_pos is Some {
            dragged_alpha_spec(
                self.offset_after(input),
                self.origin_after(input)->0,
                input.interact_pos->0,
            )
        } else {
            self.alpha
        }
    }

    /// The state after a frame.
    pub open spec fn after_frame(self, input: FrameInput) -> AppModel {
        AppModel {
            fill: if input.secondary_down {
                self.alpha_after(input)
            } else {
                self.fill
            },
            drag_origin: self.origin_after(input),
            alpha: self.alpha_after(input),
            virtual_opacity_offset: self.offset_after(input),
            cursor_state: self.cursor_after(input),
        }
    }

    /// The state after a run of frames.
    pub open spec fn after_frames(self, inputs: Seq<FrameInput>) -> AppModel
        decreases inputs.len(),
    {
        if inputs.len() == 0 {
            self
        } else {
            self.after_frames(inputs.drop_last()).after_frame(inputs.last())
        }
    }

    /// The indicator of a drag that started at `origin`: anchored at the
    /// origin less the offset, which is where the bottom of the slider has to
    /// be for its handle to lie where the pointer went down.
    pub open spec fn indicator(self, origin: Point) -> Indicator {
        Indicator {
            x: origin.x as i64,
            y: (origin.y - self.virtual_opacity_offset) as i64,
            alpha: self.alpha as i32,
        }
    }

    /// What the window shows in this state: the indicator while a drag is
    /// under way, and the zones otherwise.
    pub open spec fn content(self, window: Rect) -> Content {
        match self.drag_origin {
            Some(origin) => Content::Opacity(self.indicator(origin)),
            None => Content::Zones {
                layout: ZoneLayout::of(window),
                show_cursor: self.cursor_state.shows_cursor(),
            },
        }
    }

    /// What a frame asks of the host.
    pub open spec fn frame(self, input: FrameInput, window: Rect) -> Frame {
        Frame {
            repaint: self.cursor_state.wants_repaint(input.motion()),
            content: self.after_frame(input).content(window),
        }
    }
}

/// The overlay: its opacity, the opacity drag, and the cursor mode.
pub struct App {
    fill: i32,
    drag_origin: Option<Point>,
    alpha: i32,
    virtual_opacity_offset: i32,
    cursor_state: CursorState,
}

impl View for App {
    type V = AppModel;

    closed spec fn view(&self) -> AppModel {
        AppModel {
            fill: self.fill as int,
            drag_origin: self.drag_origin,
            alpha: self.alpha as int,
            virtual_opacity_offset: self.virtual_opacity_offset as int,
            cursor_state: self.cursor_state,
        }
    }
}

impl App {
    #[verifier::type_invariant]
    spec fn well_formed(self) -> bool {
        &&& ALPHA_MIN <= self.alpha <= ALPHA_MAX
        &&& ALPHA_MIN <= self.fill <= ALPHA_MAX
        &&& -OPACITY_DRAG_RANGE <= self.virtual_opacity_offset <= 0
    }

    /// The overlay at start: opaque, its fill at half opacity, no drag under
    /// way, the cursor always shown.
    pub fn new() -> (app: App)
        ensures
            app@ == AppModel::initial(),
            app@.valid(),
    {
        App {
            fill: ALPHA_MIN,
            drag_origin: None,
            alpha: ALPHA_MAX,
            virtual_opacity_offset: 0,
            cursor_state: CursorState::Visible,
        }
    }

    /// The opacity of the window, in steps.
    pub fn alpha(&self) -> (alpha: i32)
        ensures
            alpha == self@.alpha,
            ALPHA_MIN <= alpha <= ALPHA_MAX,
    {
        proof {
            use_type_invariant(self);
        }
        self.alpha
    }

    /// The opacity of the fill colour of the window.
    pub fn fill(&self) -> (fill: i32)
        ensures
            fill == self@.fill,
            ALPHA_MIN <= fill <= ALPHA_MAX,
    {
        proof {
            use_type_invariant(self);
        }
        self.fill
    }

    /// Where the secondary button went down, while an opacity drag is under
    /// way.
    pub fn drag_origin(&self) -> (origin: Option<Point>)
        ensures
            origin == self@.drag_origin,
    {
        self.drag_origin
    }

    /// The offset taken at the start of the latest opacity drag.
    pub fn virtual_opacity_offset(&self) -> (offset: i32)
        ensures
            offset == self@.virtual_opacity_offset,
            -OPACITY_DRAG_RANGE <= offset <= 0,
    {
        proof {
            use_type_invariant(self);
        }
        self.virtual_opacity_offset
    }

    pub fn cursor_state(&self) -> (state: CursorState)
        ensures
            state == self@.cursor_state,
    {
        self.cursor_state
    }

    /// Whether the zones show their cursors.
    pub fn show_cursor(&self) -> (shown: bool)
        ensures
            shown == self@.cursor_state.shows_cursor(),
    {
        self.cursor_state.show_cursor()
    }

    /// Handles one frame: the cursor mode first, then the opacity drag, then
    /// what the window shows. While a drag is under way the window shows the
    /// indicator and offers no zone.
    pub fn title_bar_ui(&mut self, input: &FrameInput, title_bar_rect: Rect) -> (frame: Frame)
        ensures
            final(self)@ == old(self)@.after_frame(*input),
            final(self)@.valid(),
            frame == old(self)@.frame(*input, title_bar_rect),
    {
        proof {
            use_type_invariant(&*self);
        }
        let mut cursor_state = self.cursor_state;
        let repaint = cursor_state.update(Motion { moving: input.pointer_moving, now: input.now });
        if input.middle_clicked {
            cursor_state.toggle();
        }
        self.cursor_state = cursor_state;

        if input.secondary_released {
            self.drag_origin = None;
        }
        if input.secondary_down {
            if self.drag_origin.is_none() {
                self.drag_origin = input.interact_pos;
                self.virtual_opacity_offset = crate::range::map(
                    ALPHA_MAX as i64 - self.alpha as i64,
                    ALPHA_MIN as i64,
                    ALPHA_MAX as i64,
                    0,
                    OPACITY_DRAG_RANGE,
                ) as i32;
            }
            match (self.drag_origin, input.interact_pos) {
                (Some(p0), Some(p1)) => {
                    self.alpha = map_clamped(
                        -(self.virtual_opacity_offset as i64) + p0.y as i64 - p1.y as i64,
                        0,
                        OPACITY_DRAG_RANGE as i64,
                        ALPHA_MIN,
                        ALPHA_MAX,
                    );
                },
                _ => {},
            }
            self.fill = self.alpha;
        }
        let content = match self.drag_origin {
            Some(origin) => Content::Opacity(
                Indicator {
                    x: origin.x as i64,
                    y: origin.y as i64 - self.virtual_opacity_offset as i64,
                    alpha: self.alpha,
                },
            ),
            None => Content::Zones {
                layout: ZoneLayout::new(title_bar_rect),
                show_cursor: self.cursor_state.show_cursor(),
            },
        };
        Frame { repaint, content }
    }
}

impl Default for App {
    fn default() -> (app: App)
        ensures
            app@ == AppModel::initial(),
            app@.valid(),
    {
        App::new()
    }
}

/// The offset is the least opacity less the opacity: none at least opacity,
/// the whole drag range below zero at full opacity.
pub proof fn lemma_offset_closed_form(alpha: int)
    requires
        ALPHA_MIN <= alpha <= ALPHA_MAX,
    ensures
        virtual_opacity_offset_spec(alpha) == ALPHA_MIN - alpha,
        -OPACITY_DRAG_RANGE <= virtual_opacity_offset_spec(alpha) <= 0,
{
}

/// One length unit of drag is one step of opacity: the opacity is the least
/// opacity and the distance dragged upward, offset included, held between
/// the least and full opacity.
pub proof fn lemma_dragged_alpha_closed_form(offset: int, origin: Point, pointer: Point)
    ensures
        dragged_alpha_spec(offset, origin, pointer) == clamp_spec(
            ALPHA_MIN - offset + origin.y - pointer.y,
            ALPHA_MIN as int,
            ALPHA_MAX as int,
        ),
        ALPHA_MIN <= dragged_alpha_spec(offset, origin, pointer) <= ALPHA_MAX,
{
}

/// A frame keeps a valid state valid: the opacity never leaves the interval
/// from the least to full opacity, wherever the pointer goes.
pub proof fn lemma_frame_keeps_valid(state: AppModel, input: FrameInput)
    requires
        state.valid(),
    ensures
        state.after_frame(input).valid(),
{
    lemma_offset_closed_form(state.alpha);
}

/// However many frames pass, and whatever the pointer does in them, the
/// opacity stays between the least and full opacity.
pub proof fn lemma_alpha_stays_in_range(state: AppModel, inputs: Seq<FrameInput>)
    requires
        state.valid(),
    ensures
        state.after_frames(inputs).valid(),
        ALPHA_MIN <= state.after_frames(inputs).alpha <= ALPHA_MAX,
    decreases inputs.len(),
{
    if inputs.len() > 0 {
        lemma_alpha_stays_in_range(state, inputs.drop_last());
        lemma_frame_keeps_valid(state.after_frames(inputs.drop_last()), inputs.last());
    }
}

/// The frame that starts a drag leaves the opacity as it was: the offset
/// taken at the start makes up for the pointer not having moved yet.
pub proof fn lemma_drag_start_keeps_alpha(state: AppModel, input: FrameInput)
    requires
        state.valid(),
        state.starts_drag(input),
    ensures
        state.after_frame(input).alpha == state.alpha,
        state.after_frame(input).drag_origin == input.interact_pos,
        state.after_frame(input).virtual_opacity_offset == ALPHA_MIN - state.alpha,
{
    lemma_offset_closed_form(state.alpha);
}

/// During a drag that started at opacity `start`, the opacity is `start` and
/// the distance of the pointer above the origin, held between the least and
/// full opacity: up is more opaque, down is less.
pub proof fn lemma_drag_follows_pointer(state: AppModel, input: FrameInput, start: int)
    requires
        ALPHA_MIN <= start <= ALPHA_MAX,
        state.virtual_opacity_offset == virtual_opacity_offset_spec(start),
        state.drag_origin is Some,
        input.secondary_down,
        !input.secondary_released,
        input.interact_pos is Some,
    ensures
        state.after_frame(input).alpha == clamp_spec(
            start + state.drag_origin->0.y - input.interact_pos->0.y,
            ALPHA_MIN as int,
            ALPHA_MAX as int,
        ),
        state.after_frame(input).fill == state.after_frame(input).alpha,
        state.after_frame(input).drag_origin == state.drag_origin,
        state.after_frame(input).virtual_opacity_offset == state.virtual_opacity_offset,
{
    lemma_offset_closed_form(start);
}

/// The window shows the indicator exactly while a drag is under way, and
/// then a drag that starts on a zone asks nothing of the host.
pub proof fn lemma_opacity_drag_suppresses_zones(state: AppModel, window: Rect, zone: Zone)
    ensures
        state.content(window) is Opacity <==> state.drag_origin is Some,
        state.drag_origin is Some ==> state.content(window).primary_drag_spec(zone) is None,
        state.drag_origin is None ==> state.content(window).primary_drag_spec(zone) == Some(
            zone.command_spec(),
        ),
{
}

/// A frame in which the secondary button is released and no longer down
/// ends the drag: the window offers the zones again, and the opacity stays
/// where the drag left it.
pub proof fn lemma_release_restores_zones(state: AppModel, input: FrameInput, window: Rect)
    requires
        input.secondary_released,
        !input.secondary_down,
    ensures
        state.after_frame(input).drag_origin is None,
        state.after_frame(input).alpha == state.alpha,
        state.after_frame(input).fill == state.fill,
        state.frame(input, window).content is Zones,
{
}

/// Between middle clicks the cursor mode of the overlay goes the way of the
/// cursor alone, whatever the buttons and the opacity drag do.
pub proof fn lemma_cursor_follows_frames(state: AppModel, inputs: Seq<FrameInput>)
    requires
        forall|i: int| 0 <= i < inputs.len() ==> !(#[trigger] inputs[i]).middle_clicked,
    ensures
        state.after_frames(inputs).cursor_state == state.cursor_state.after_frames(
            inputs.map_values(|input: FrameInput| input.motion()),
        ),
    decreases inputs.len(),
{
    let motions = inputs.map_values(|input: FrameInput| input.motion());
    if inputs.len() > 0 {
        let earlier = inputs.drop_last();
        assert forall|i: int| 0 <= i < earlier.len() implies !(
        #[trigger] earlier[i]).middle_clicked by {
            assert(earlier[i] == inputs[i]);
        }
        lemma_cursor_follows_frames(state, earlier);
        assert(motions.drop_last() =~= earlier.map_values(|input: FrameInput| input.motion()));
        assert(motions.last() == inputs.last().motion());
    }
}

/// With the cursor always shown, a middle click hides it until the pointer
/// moves, and a second middle click shows it for good again, whatever
/// happened in the frames between the two.
pub proof fn lemma_two_clicks_restore_visible_cursor(
    state: AppModel,
    first: FrameInput,
    between: Seq<FrameInput>,
    second: FrameInput,
)
    requires
        state.cursor_state is Visible,
        first.middle_clicked,
        forall|i: int| 0 <= i < between.len() ==> !(#[trigger] between[i]).middle_clicked,
        second.middle_clicked,
    ensures
        state.after_frame(first).cursor_state == (CursorState::AutoHide { last_moved: None }),
        state.after_frame(first).after_frames(between).after_frame(second).cursor_state
            == CursorState::Visible,
{
    let hidden = state.after_frame(first);
    lemma_cursor_follows_frames(hidden, between);
    lemma_frames_keep_mode(
        hidden.cursor_state,
        between.map_values(|input: FrameInput| input.motion()),
    );
}

/// While the cursor hides by itself, the zones show their cursors in the
/// frame in which the pointer moves, and show none in the first frame that
/// comes more than the delay after it, if the pointer has not moved and the
/// middle button was not clicked since.
pub proof fn lemma_cursor_hides_after_quiet_delay(
    state: AppModel,
    moved: FrameInput,
    quiet: Seq<FrameInput>,
    later: FrameInput,
)
    requires
        state.cursor_state is AutoHide,
        moved.pointer_moving,
        !moved.middle_clicked,
        forall|i: int|
            0 <= i < quiet.len() ==> !(#[trigger] quiet[i]).pointer_moving
                && !quiet[i].middle_clicked,
        !later.pointer_moving,
        !later.middle_clicked,
        later.now - moved.now > CURSOR_HIDE_DELAY,
    ensures
        state.after_frame(moved).cursor_state.shows_cursor(),
        !state.after_frame(moved).after_frames(quiet).after_frame(later).cursor_state.shows_cursor(),
{
    let shown = state.after_frame(moved);
    let motions = quiet.map_values(|input: FrameInput| input.motion());
    lemma_cursor_follows_frames(shown, quiet);
    lemma_motion_shows_then_quiet_hides(
        state.cursor_state,
        moved.motion(),
        motions,
        later.motion(),
    );
}

} // verus!
