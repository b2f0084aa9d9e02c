use vstd::prelude::*;

verus! {

/// The three screens the application cycles through.
#[derive(Debug, Clone, Copy, PartialEq, Eq, Structural)]
pub enum AppState {
    MainMenu,
    InGame,
    Credits,
}

/// The screen that a click leads to from `s`.
pub open spec fn successor(s: AppState) -> AppState {
    match s {
        AppState::MainMenu => AppState::InGame,
        AppState::InGame => AppState::Credits,
        AppState::Credits => AppState::MainMenu,
    }
}

/// The text that the button label shows on screen `s`.
pub open spec fn label_of(s: AppState) -> Seq<char> {
    match s {
        AppState::MainMenu => "Menu"@,
        AppState::InGame => "InGame"@,
        AppState::Credits => "Credits"@,
    }
}

/// The diagnostic line that describes screen `s`.
pub open spec fn message_of(s: AppState) -> Seq<char> {
    match s {
        AppState::MainMenu => "In the main menu!"@,
        AppState::InGame => "Playing the game!"@,
        AppState::Credits => "Rolling the credits!"@,
    }
}

impl AppState {
    /// The screen that a click leads to.
    pub fn successor(self) -> (r: AppState)
        ensures
            r == successor(self),
    {
        match self {
            AppState::MainMenu => AppState::InGame,
            AppState::InGame => AppState::Credits,
            AppState::Credits => AppState::MainMenu,
        }
    }

    /// The button label for this screen.
    pub fn label(self) -> (r: &'static str)
        ensures
            r@ == label_of(self),
    {
        match self {
            AppState::MainMenu => {
                proof { reveal_strlit("Menu"); }
                "Menu"
            },
            AppState::InGame => {
                proof { reveal_strlit("InGame"); }
                "InGame"
            },
            AppState::Credits => {
                proof { reveal_strlit("Credits"); }
                "Credits"
            },
        }
    }

    /// The diagnostic line for this screen.
    pub fn message(self) -> (r: &'static str)
        ensures
            r@ == message_of(self),
    {
        match self {
            AppState::MainMenu => {
                proof { reveal_strlit("In the main menu!"); }
                "In the main menu!"
            },
            AppState::InGame => {
                proof { reveal_strlit("Playing the game!"); }
                "Playing the game!"
            },
            AppState::Credits => {
                proof { reveal_strlit("Rolling the credits!"); }
                "Rolling the credits!"
            },
        }
    }
}

/// Clicking three times from any screen comes back to it, and a click
/// always leaves the current screen.
pub proof fn lemma_successor_cycles(s: AppState)
    ensures
        successor(successor(successor(s))) == s,
        successor(s) != s,
        successor(successor(s)) != s,
{
}

/// A second transition was requested while one was still pending.
#[derive(Debug, Clone, Copy, PartialEq, Eq, Structural)]
pub struct AlreadyPendingError {
    /// The transition that was already waiting.
    pub pending: AppState,
    /// The transition that was refused.
    pub requested: AppState,
}

/// What an `AppStateMachine` holds, as a value.
pub struct MachineModel {
    pub current: AppState,
    pub previous: Option<AppState>,
    pub pending: Option<AppState>,
}

impl MachineModel {
    /// The model after a successful request for `next`.
    pub open spec fn requested(self, next: AppState) -> MachineModel {
        MachineModel { pending: Some(next), ..self }
    }

    /// The model after the pending transition, if any, is applied.
    pub open spec fn applied(self) -> MachineModel {
        match self.pending {
            Some(next) => MachineModel { current: next, previous: Some(self.current), pending: None },
            None => self,
        }
    }
}

/// The application's screen state: the current screen, the one before the
/// last transition, and at most one transition waiting to be applied.
pub struct AppStateMachine {
    current: AppState,
    previous: Option<AppState>,
    pending_next: Option<AppState>,
}

impl View for AppStateMachine {
    type V = MachineModel;

    closed spec fn view(&self) -> MachineModel {
        MachineModel { current: self.current, previous: self.previous, pending: self.pending_next }
    }
}

impl AppStateMachine {
    /// A machine on screen `initial`, with no history and nothing pending.
    pub fn new(initial: AppState) -> (r: AppStateMachine)
        ensures
            r@ == (MachineModel { current: initial, previous: None, pending: None }),
    {
        AppStateMachine { current: initial, previous: None, pending_next: None }
    }

    /// Records `next` as the transition to apply, unless one is already waiting.
    pub fn request_transition(&mut self, next: AppState) -> (r: Result<(), AlreadyPendingError>)
        ensures
            old(self)@.pending is None <==> r is Ok,
            r is Ok ==> final(self)@ == old(self)@.requested(next),
            r matches Err(e) ==> final(self)@ == old(self)@ && old(self)@.pending == Some(e.pending)
                && e.requested == next,
    {
        match self.pending_next {
            Some(p) => Err(AlreadyPendingError { pending: p, requested: next }),
            None => {
                self.pending_next = Some(next);
                Ok(())
            },
        }
    }

    /// Applies the waiting transition, if any: the current screen becomes the
    /// previous one and the waiting one becomes current.
    pub fn apply_pending(&mut self)
        ensures
            final(self)@ == old(self)@.applied(),
    {
        if let Some(next) = self.pending_next {
            self.previous = Some(self.current);
            self.current = next;
            self.pending_next = None;
        }
    }

    pub fn current(&self) -> (r: AppState)
        ensures
            r == self@.current,
    {
        self.current
    }

    pub fn previous(&self) -> (r: Option<AppState>)
        ensures
            r == self@.previous,
    {
        self.previous
    }

    pub fn next(&self) -> (r: Option<AppState>)
        ensures
            r == self@.pending,
    {
        self.pending_next
    }
}

impl Default for AppStateMachine {
    /// A machine on the main menu, with no history and nothing pending.
    fn default() -> (r: AppStateMachine)
        ensures
            r@ == (MachineModel { current: AppState::MainMenu, previous: None, pending: None }),
    {
        AppStateMachine::new(AppState::MainMenu)
    }
}

/// A request on a machine with nothing pending, then an apply, leaves the
/// former current screen as the previous one and the requested one current.
pub proof fn lemma_request_then_apply(m: MachineModel, next: AppState)
    requires
        m.pending is None,
    ensures
        m.requested(next).applied().previous == Some(m.current),
        m.requested(next).applied().current == next,
        m.requested(next).applied().pending is None,
{
}

} // verus!
