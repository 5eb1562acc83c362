//! One popup session: its layout, what a frame shows, and how pointer
//! input sampled once per frame resolves into an exit.

use vstd::prelude::*;
use crate::reading::BatteryReading;
use crate::policy::AlertState;
use crate::text::signed_decimal;
use crate::text::signed_decimal_text;
use vstd::string::*;

verus! {

/// Width of the popup window, in pixels.
pub const WINDOW_WIDTH: i32 = 480;

/// Height of the popup window, in pixels.
pub const WINDOW_HEIGHT: i32 = 160;

/// The name of the popup window.
pub const WINDOW_TITLE: &'static str = "Low battery alert";

/// What the hibernate button says.
pub const HIBERNATE_LABEL: &'static str = "Hibernate";

/// What the dismiss button says.
pub const DISMISS_LABEL: &'static str = "Got it";

/// An axis-aligned rectangle of pixels, given by its top-left corner and
/// its size.
#[derive(Clone, Copy, Debug, PartialEq, Eq, Structural)]
pub struct Region {
    pub x: i32,
    pub y: i32,
    pub width: u32,
    pub height: u32,
}

impl Region {
    /// The pixel `(px, py)` lies in the region: the left and top edges
    /// belong to it, the right and bottom edges do not.
    pub open spec fn covers(&self, px: int, py: int) -> bool {
        &&& self.x <= px < self.x + self.width
        &&& self.y <= py < self.y + self.height
    }

    /// The region lies inside a window of the given size.
    pub open spec fn within(&self, width: int, height: int) -> bool {
        &&& 0 <= self.x
        &&& 0 <= self.y
        &&& 0 < self.width
        &&& 0 < self.height
        &&& self.x + self.width <= width
        &&& self.y + self.height <= height
    }

    /// No pixel lies in both regions.
    pub open spec fn disjoint(&self, other: &Region) -> bool {
        forall|px: int, py: int| !(#[trigger] self.covers(px, py) && other.covers(px, py))
    }

    pub fn contains(&self, px: i32, py: i32) -> (hit: bool)
        ensures
            hit == self.covers(px as int, py as int),
    {
        let x: i64 = px as i64;
        let y: i64 = py as i64;
        let left: i64 = self.x as i64;
        let top: i64 = self.y as i64;
        left <= x && x < left + self.width as i64 && top <= y && y < top + self.height as i64
    }

    /// The horizontal middle of the region, where a label is centred.
    pub fn centre_x(&self) -> (c: i64)
        ensures
            c == self.x + self.width / 2,
    {
        self.x as i64 + (self.width / 2) as i64
    }
}

/// Where the hibernate button lies.
pub open spec fn hibernate_area() -> Region {
    Region { x: 15, y: 100, width: 220, height: 40 }
}

/// Where the dismiss button lies.
pub open spec fn dismiss_area() -> Region {
    Region { x: 245, y: 100, width: 220, height: 40 }
}

/// The two buttons lie inside the window and share no pixel, so one
/// pointer position hovers over at most one of them.
pub proof fn buttons_do_not_overlap()
    ensures
        hibernate_area().within(WINDOW_WIDTH as int, WINDOW_HEIGHT as int),
        dismiss_area().within(WINDOW_WIDTH as int, WINDOW_HEIGHT as int),
        hibernate_area().disjoint(&dismiss_area()),
{
}

/// What is sampled once per frame: whether the window was asked to
/// close, where the pointer is (in whole pixels), and whether its primary
/// button is held down.
#[derive(Clone, Copy, Debug, PartialEq, Eq, Structural)]
pub struct FrameInput {
    pub close_requested: bool,
    pub pointer_x: i32,
    pub pointer_y: i32,
    pub pointer_down: bool,
}

/// How a session ends.
#[derive(Clone, Copy, Debug, PartialEq, Eq, Structural)]
pub enum ExitAction {
    Dismiss,
    Hibernate,
    ExternalClose,
    ChargingResumed,
}

/// The two fonts that a session loads when it opens.
#[derive(Clone, Copy, Debug, PartialEq, Eq, Structural)]
pub enum FontRole {
    Title,
    Body,
}

/// What is left to do once a session has ended.
#[derive(Clone, Copy, Debug, PartialEq, Eq, Structural)]
pub enum Step {
    ReleaseFont(FontRole),
    Hibernate,
}

/// The headline of the popup.
#[derive(Clone, Copy, Debug, PartialEq, Eq, Structural)]
pub enum Title {
    BatteryLow,
    BatteryCriticallyLow,
}

/// How a button is filled.
#[derive(Clone, Copy, Debug, PartialEq, Eq, Structural)]
pub enum Fill {
    Normal,
    Highlighted,
}

/// What one frame draws.
#[derive(Clone, Copy, Debug, PartialEq, Eq)]
pub struct Scene {
    pub title: Title,
    /// The level that the body text shows.
    pub level: i32,
    /// The hibernate button, drawn only in a critical session.
    pub hibernate_button: Option<Fill>,
    pub dismiss_button: Fill,
}

/// The result of one frame: what to draw, if anything, and whether the
/// session ends with this frame.
#[derive(Clone, Copy, Debug, PartialEq, Eq)]
pub struct Frame {
    pub scene: Option<Scene>,
    pub exit: Option<ExitAction>,
}

/// The exit taken at the top of a frame, before anything is drawn: a
/// close request, then a charging battery.
pub open spec fn early_exit(input: FrameInput, reading: BatteryReading) -> Option<ExitAction> {
    if input.close_requested {
        Some(ExitAction::ExternalClose)
    } else if reading.is_charging {
        Some(ExitAction::ChargingResumed)
    } else {
        None
    }
}

/// The alert state after a frame that saw `reading`: a frame that goes
/// on past its top confirms the critical tier when the reading is
/// critical, and never takes the confirmation back.
pub open spec fn frame_state(state: AlertState, input: FrameInput, reading: BatteryReading)
    -> AlertState {
    if early_exit(input, reading).is_some() {
        state
    } else {
        AlertState {
            is_critical_confirmed: state.is_critical_confirmed || reading.critical(),
            ..state
        }
    }
}

pub open spec fn fill_for(region: Region, input: FrameInput) -> Fill {
    if region.covers(input.pointer_x as int, input.pointer_y as int) {
        Fill::Highlighted
    } else {
        Fill::Normal
    }
}

/// What a frame draws when the critical tier is or is not confirmed.
pub open spec fn scene_for(confirmed: bool, input: FrameInput, reading: BatteryReading) -> Scene {
    Scene {
        title: if confirmed {
            Title::BatteryCriticallyLow
        } else {
            Title::BatteryLow
        },
        level: reading.level,
        hibernate_button: if confirmed {
            Some(fill_for(hibernate_area(), input))
        } else {
            None
        },
        dismiss_button: fill_for(dismiss_area(), input),
    }
}

/// What the pointer resolves to in one frame. The button state is a
/// level, not an edge: hovering with the button held down resolves, in
/// whichever frame the two first coincide. Hibernate needs the critical
/// tier confirmed and is looked at first.
pub open spec fn resolution(confirmed: bool, input: FrameInput) -> Option<ExitAction> {
    if confirmed && input.pointer_down && hibernate_area().covers(
        input.pointer_x as int,
        input.pointer_y as int,
    ) {
        Some(ExitAction::Hibernate)
    } else if input.pointer_down && dismiss_area().covers(
        input.pointer_x as int,
        input.pointer_y as int,
    ) {
        Some(ExitAction::Dismiss)
    } else {
        None
    }
}

/// The whole of one frame, from the state before it.
pub open spec fn frame_for(state: AlertState, input: FrameInput, reading: BatteryReading)
    -> Frame {
    if early_exit(input, reading).is_some() {
        Frame { scene: None, exit: early_exit(input, reading) }
    } else {
        let confirmed = frame_state(state, input, reading).is_critical_confirmed;
        Frame {
            scene: Some(scene_for(confirmed, input, reading)),
            exit: resolution(confirmed, input),
        }
    }
}

/// The alert state when a session opens on `reading`: the low latch is
/// set, the critical latch too when the reading is critical, and the
/// confirmation starts from the reading alone.
pub open spec fn opened(state: AlertState, reading: BatteryReading) -> AlertState {
    AlertState {
        has_shown_low: true,
        has_shown_critical: state.has_shown_critical || reading.critical(),
        is_critical_confirmed: reading.critical(),
    }
}

/// The alert state after the frames of `frames` in turn, each with the
/// input it sampled and the reading that was live in it.
pub open spec fn after_frames(state: AlertState, frames: Seq<(FrameInput, BatteryReading)>)
    -> AlertState
    decreases frames.len(),
{
    if frames.len() == 0 {
        state
    } else {
        frame_state(after_frames(state, frames.drop_last()), frames.last().0, frames.last().1)
    }
}

/// What follows an exit: both fonts are released, whichever exit it
/// was, and the machine is hibernated if that was asked for.
pub open spec fn teardown_for(exit: ExitAction) -> Seq<Step> {
    let release = seq![Step::ReleaseFont(FontRole::Title), Step::ReleaseFont(FontRole::Body)];
    if exit == ExitAction::Hibernate {
        release.push(Step::Hibernate)
    } else {
        release
    }
}

/// `steps` holds `step` at one place and at no other.
pub open spec fn holds_once(steps: Seq<Step>, step: Step) -> bool {
    exists|i: int|
        0 <= i < steps.len() && steps[i] == step && forall|j: int|
            0 <= j < steps.len() && steps[j] == step ==> j == i
}

impl FontRole {
    pub open spec fn size_of(&self) -> i32 {
        match self {
            FontRole::Title => 28,
            FontRole::Body => 20,
        }
    }

    /// The size, in points, at which the font is loaded and drawn.
    pub fn size(&self) -> (points: i32)
        ensures
            points == self.size_of(),
    {
        match self {
            FontRole::Title => 28,
            FontRole::Body => 20,
        }
    }
}

/// The steps that end a session which left by `exit`, in order.
pub fn teardown(exit: ExitAction) -> (steps: Vec<Step>)
    ensures
        steps@ == teardown_for(exit),
{
    let mut steps: Vec<Step> = Vec::new();
    steps.push(Step::ReleaseFont(FontRole::Title));
    steps.push(Step::ReleaseFont(FontRole::Body));
    if exit == ExitAction::Hibernate {
        steps.push(Step::Hibernate);
    }
    assert(steps@ =~= teardown_for(exit));
    steps
}

impl Title {
    pub open spec fn wording(&self) -> Seq<char> {
        match self {
            Title::BatteryLow => "Battery low"@,
            Title::BatteryCriticallyLow => "Battery critically low"@,
        }
    }

    pub fn text(&self) -> (s: &'static str)
        ensures
            s@ == self.wording(),
    {
        match self {
            Title::BatteryLow => "Battery low",
            Title::BatteryCriticallyLow => "Battery critically low",
        }
    }
}

/// The body text for a level: the level in decimal between two fixed
/// parts.
pub open spec fn body_wording(level: int) -> Seq<char> {
    "Battery at "@ + signed_decimal(level) + "%. You might want to plug in your PC"@
}

impl Scene {
    /// The text under the headline.
    pub fn body_text(&self) -> (s: String)
        ensures
            s@ == body_wording(self.level as int),
    {
        let digits = signed_decimal_text(self.level);
        String::from_str("Battery at ").concat(digits.as_str()).concat(
            "%. You might want to plug in your PC",
        )
    }
}

/// One open popup. It holds the reading that its frames go by.
#[derive(Clone, Copy, Debug, PartialEq, Eq)]
pub struct PopupSession {
    reading: BatteryReading,
}

impl PopupSession {
    /// The reading that the next frame goes by.
    pub closed spec fn live(&self) -> BatteryReading {
        self.reading
    }

    /// Opens a session on the reading that called for it, and records
    /// the alert in `state` before the first frame.
    pub fn open(state: &mut AlertState, reading: BatteryReading) -> (session: PopupSession)
        ensures
            session.live() == reading,
            *final(state) == opened(*old(state), reading),
    {
        state.has_shown_low = true;
        if reading.is_critical() {
            state.has_shown_critical = true;
        }
        state.is_critical_confirmed = reading.is_critical();
        PopupSession { reading }
    }

    pub fn reading(&self) -> (r: BatteryReading)
        ensures
            r == self.live(),
    {
        self.reading
    }

    pub fn hibernate_region(&self) -> (r: Region)
        ensures
            r == hibernate_area(),
    {
        Region { x: 15, y: 100, width: 220, height: 40 }
    }

    pub fn dismiss_region(&self) -> (r: Region)
        ensures
            r == dismiss_area(),
    {
        Region { x: 245, y: 100, width: 220, height: 40 }
    }

    /// Runs one frame on the live reading.
    pub fn frame(&self, state: &mut AlertState, input: FrameInput) -> (frame: Frame)
        ensures
            frame == frame_for(*old(state), input, self.live()),
            *final(state) == frame_state(*old(state), input, self.live()),
            old(state).is_critical_confirmed ==> final(state).is_critical_confirmed,
    {
        if input.close_requested {
            return Frame { scene: None, exit: Some(ExitAction::ExternalClose) };
        }
        if self.reading.is_charging {
            return Frame { scene: None, exit: Some(ExitAction::ChargingResumed) };
        }
        if self.reading.is_critical() {
            state.is_critical_confirmed = true;
        }
        let confirmed = state.is_critical_confirmed;
        let on_hibernate = self.hibernate_region().contains(input.pointer_x, input.pointer_y);
        let on_dismiss = self.dismiss_region().contains(input.pointer_x, input.pointer_y);
        let scene = Scene {
            title: if confirmed {
                Title::BatteryCriticallyLow
            } else {
                Title::BatteryLow
            },
            level: self.reading.level,
            hibernate_button: if confirmed {
                Some(highlight(on_hibernate))
            } else {
                None
            },
            dismiss_button: highlight(on_dismiss),
        };
        let exit = if confirmed && input.pointer_down && on_hibernate {
            Some(ExitAction::Hibernate)
        } else if input.pointer_down && on_dismiss {
            Some(ExitAction::Dismiss)
        } else {
            None
        };
        Frame { scene: Some(scene), exit }
    }

    /// Takes the reading fetched after a frame that did not end the
    /// session.
    pub fn refresh(&mut self, reading: BatteryReading)
        ensures
            final(self).live() == reading,
    {
        self.reading = reading;
    }
}

fn highlight(hovered: bool) -> (f: Fill)
    ensures
        f == (if hovered {
            Fill::Highlighted
        } else {
            Fill::Normal
        }),
{
    if hovered {
        Fill::Highlighted
    } else {
        Fill::Normal
    }
}

/// Each of the two fonts is released exactly once after every exit, and
/// the machine is hibernated exactly when the exit asked for it.
pub proof fn every_exit_releases_each_font_once(exit: ExitAction, role: FontRole)
    ensures
        holds_once(teardown_for(exit), Step::ReleaseFont(role)),
        exit == ExitAction::Hibernate ==> holds_once(teardown_for(exit), Step::Hibernate),
        exit != ExitAction::Hibernate ==> !teardown_for(exit).contains(Step::Hibernate),
{
    let steps = teardown_for(exit);
    assert(steps[0] == Step::ReleaseFont(FontRole::Title));
    assert(steps[1] == Step::ReleaseFont(FontRole::Body));
    if exit == ExitAction::Hibernate {
        assert(steps[2] == Step::Hibernate);
    }
}

/// A frame never changes the latches of the policy.
pub proof fn frames_keep_latches(state: AlertState, frames: Seq<(FrameInput, BatteryReading)>)
    ensures
        after_frames(state, frames).has_shown_low == state.has_shown_low,
        after_frames(state, frames).has_shown_critical == state.has_shown_critical,
    decreases frames.len(),
{
    if frames.len() > 0 {
        frames_keep_latches(state, frames.drop_last());
    }
}

/// Once the critical tier is confirmed in a session it stays confirmed:
/// if it holds after the first `i` frames, it holds after the first `j`
/// for every later `j`, whatever the readings in between.
pub proof fn confirmation_is_sticky(
    state: AlertState,
    frames: Seq<(FrameInput, BatteryReading)>,
    i: int,
    j: int,
)
    requires
        0 <= i <= j <= frames.len(),
        after_frames(state, frames.take(i)).is_critical_confirmed,
    ensures
        after_frames(state, frames.take(j)).is_critical_confirmed,
    decreases j - i,
{
    if i < j {
        confirmation_is_sticky(state, frames, i, j - 1);
        assert(frames.take(j).drop_last() =~= frames.take(j - 1));
    }
}

/// A frame that goes on past its top with a critical reading confirms
/// the critical tier.
pub proof fn critical_frame_confirms(
    state: AlertState,
    input: FrameInput,
    reading: BatteryReading,
)
    requires
        !input.close_requested,
        !reading.is_charging,
        reading.critical(),
    ensures
        frame_state(state, input, reading).is_critical_confirmed,
        frame_for(state, input, reading).scene.is_some(),
        frame_for(state, input, reading).scene.unwrap().title == Title::BatteryCriticallyLow,
{
}

/// A frame that goes on past its top with the button held down over
/// the dismiss button ends the session by dismissal, in any tier.
pub proof fn press_on_dismiss_ends_session(
    state: AlertState,
    input: FrameInput,
    reading: BatteryReading,
)
    requires
        !input.close_requested,
        !reading.is_charging,
        input.pointer_down,
        dismiss_area().covers(input.pointer_x as int, input.pointer_y as int),
    ensures
        frame_for(state, input, reading).exit == Some(ExitAction::Dismiss),
{
}

/// A frame without a close request, a charging battery or a held button
/// goes on to the next.
pub proof fn idle_frame_goes_on(state: AlertState, input: FrameInput, reading: BatteryReading)
    requires
        !input.close_requested,
        !reading.is_charging,
        !input.pointer_down,
    ensures
        frame_for(state, input, reading).exit.is_none(),
        frame_for(state, input, reading).scene.is_some(),
{
}

/// The hibernate exit is taken only with the critical tier confirmed.
pub proof fn hibernate_needs_confirmation(
    state: AlertState,
    input: FrameInput,
    reading: BatteryReading,
)
    requires
        frame_for(state, input, reading).exit == Some(ExitAction::Hibernate),
    ensures
        frame_state(state, input, reading).is_critical_confirmed,
        input.pointer_down,
        hibernate_area().covers(input.pointer_x as int, input.pointer_y as int),
{
}

} // verus!
