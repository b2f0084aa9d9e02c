use vstd::prelude::*;
use crate::state::{
    label_of, successor, AlreadyPendingError, AppState, AppStateMachine, MachineModel,
};

verus! {

/// How the pointer relates to the button during one frame.
#[derive(Debug, Clone, Copy, PartialEq, Eq, Structural)]
pub enum InteractionStatus {
    Idle,
    Hovered,
    Clicked,
}

/// An opaque reference to one of the button's appearances.
#[derive(Debug, Clone, Copy, PartialEq, Eq, Structural)]
pub struct VisualHandle {
    pub id: u64,
}

/// The button's three appearances, fixed once built.
#[derive(Debug, Clone, Copy, PartialEq, Eq, Structural)]
pub struct ButtonVisualSet {
    normal: VisualHandle,
    hovered: VisualHandle,
    pressed: VisualHandle,
}

impl ButtonVisualSet {
    pub fn new(normal: VisualHandle, hovered: VisualHandle, pressed: VisualHandle) -> (r:
        ButtonVisualSet)
        ensures
            r.normal_spec() == normal,
            r.hovered_spec() == hovered,
            r.pressed_spec() == pressed,
    {
        ButtonVisualSet { normal, hovered, pressed }
    }

    pub closed spec fn normal_spec(self) -> VisualHandle {
        self.normal
    }

    pub closed spec fn hovered_spec(self) -> VisualHandle {
        self.hovered
    }

    pub closed spec fn pressed_spec(self) -> VisualHandle {
        self.pressed
    }

    /// The appearance the button takes under `status`.
    pub open spec fn visual_spec(self, status: InteractionStatus) -> VisualHandle {
        match status {
            InteractionStatus::Idle => self.normal_spec(),
            InteractionStatus::Hovered => self.hovered_spec(),
            InteractionStatus::Clicked => self.pressed_spec(),
        }
    }

    pub fn normal(&self) -> (r: VisualHandle)
        ensures
            r == self.normal_spec(),
    {
        self.normal
    }

    pub fn hovered(&self) -> (r: VisualHandle)
        ensures
            r == self.hovered_spec(),
    {
        self.hovered
    }

    pub fn pressed(&self) -> (r: VisualHandle)
        ensures
            r == self.pressed_spec(),
    {
        self.pressed
    }

    /// The appearance the button takes under `status`: pressed while clicked,
    /// hovered while hovered, normal otherwise.
    pub fn visual_for(&self, status: InteractionStatus) -> (r: VisualHandle)
        ensures
            r == self.visual_spec(status),
    {
        match status {
            InteractionStatus::Idle => self.normal,
            InteractionStatus::Hovered => self.hovered,
            InteractionStatus::Clicked => self.pressed,
        }
    }
}

/// The transition a frame with `status` asks for while on screen `current`.
pub open spec fn requested_spec(status: InteractionStatus, current: AppState) -> Option<AppState> {
    match status {
        InteractionStatus::Clicked => Some(successor(current)),
        _ => None,
    }
}

/// The reaction to one frame's interaction status: the appearance to show,
/// and the transition to request, if any, from screen `current`.
pub fn react(visuals: &ButtonVisualSet, status: InteractionStatus, current: AppState) -> (r: (
    VisualHandle,
    Option<AppState>,
))
    ensures
        r.0 == visuals.visual_spec(status),
        r.1 == requested_spec(status, current),
{
    let visual = visuals.visual_for(status);
    match status {
        InteractionStatus::Clicked => (visual, Some(current.successor())),
        _ => (visual, None),
    }
}

/// Updates the button for one frame: its appearance follows `status`, and a
/// click requests the successor of the machine's current screen.
pub fn button_system(
    visuals: &ButtonVisualSet,
    status: InteractionStatus,
    machine: &mut AppStateMachine,
    material: &mut VisualHandle,
) -> (r: Result<(), AlreadyPendingError>)
    ensures
        *final(material) == visuals.visual_spec(status),
        status != InteractionStatus::Clicked ==> r is Ok && final(machine)@ == old(machine)@,
        status == InteractionStatus::Clicked ==> {
            &&& (r is Ok <==> old(machine)@.pending is None)
            &&& r is Ok ==> final(machine)@ == old(machine)@.requested(successor(old(machine)@.current))
            &&& r is Err ==> final(machine)@ == old(machine)@
        },
{
    let (visual, request) = react(visuals, status, machine.current());
    *material = visual;
    match request {
        Some(next) => machine.request_transition(next),
        None => Ok(()),
    }
}

/// Rewrites the label so that it names the machine's current screen.
pub fn button_text(machine: &AppStateMachine, text: &mut String)
    ensures
        final(text)@ == label_of(machine@.current),
{
    *text = String::from_str(machine.current().label());
}

/// The machine after one frame with `status`.
pub open spec fn frame_spec(m: MachineModel, status: InteractionStatus) -> MachineModel {
    let a = m.applied();
    match requested_spec(status, a.current) {
        Some(next) => a.requested(next),
        None => a,
    }
}

/// Runs one frame in a fixed order: the waiting transition is applied first,
/// then the button reacts to `status`, then the label is rewritten. A click
/// therefore takes effect at the start of the next frame.
pub fn frame(
    visuals: &ButtonVisualSet,
    status: InteractionStatus,
    machine: &mut AppStateMachine,
    material: &mut VisualHandle,
    text: &mut String,
)
    ensures
        final(machine)@ == frame_spec(old(machine)@, status),
        *final(material) == visuals.visual_spec(status),
        final(text)@ == label_of(old(machine)@.applied().current),
{
    machine.apply_pending();
    let r = button_system(visuals, status, machine, material);
    assert(r is Ok);
    button_text(machine, text);
}

/// A frame without a click only applies what was already waiting: with
/// nothing waiting, it changes neither the current screen nor the rest of the
/// machine.
pub proof fn lemma_no_click_keeps_state(m: MachineModel, status: InteractionStatus)
    requires
        status != InteractionStatus::Clicked,
    ensures
        frame_spec(m, status) == m.applied(),
        m.pending is None ==> frame_spec(m, status) == m,
{
}

/// Three clicked frames, each followed by a frame that applies the click,
/// bring the machine back to the screen it started on.
pub proof fn lemma_three_clicks_return(m: MachineModel)
    requires
        m.pending is None,
    ensures
        ({
            let m1 = frame_spec(frame_spec(m, InteractionStatus::Clicked), InteractionStatus::Idle);
            let m2 = frame_spec(frame_spec(m1, InteractionStatus::Clicked), InteractionStatus::Idle);
            let m3 = frame_spec(frame_spec(m2, InteractionStatus::Clicked), InteractionStatus::Idle);
            m3.current == m.current
        }),
{
    crate::state::lemma_successor_cycles(m.current);
}

} // verus!
