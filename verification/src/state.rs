use vstd::prelude::*;

verus! {

/// The logical identity of a window-chrome control. `Restore` and `Maximize`
/// denote the same physical button — which of the two is shown depends on
/// whether the window is currently maximized — and they share one slot in the
/// interaction-state store.
#[derive(Debug, PartialEq, Eq, PartialOrd, Ord, Hash, Clone, Copy, Structural)]
pub enum WindowControlType {
    Minimize,
    Restore,
    Maximize,
    Close,
}

/// The interaction state of one control; exactly one holds at any time.
/// `Disable` is never produced by this subsystem's own transitions: the store
/// merely accepts it, so that a host may pre-seed a control as disabled.
#[derive(Debug, PartialEq, Eq, PartialOrd, Ord, Hash, Clone, Copy, Structural)]
pub enum WindowControlState {
    Normal,
    Hover,
    Active,
    Disable,
}

/// Whether two control identities write to the same slot of the store: every
/// identity shares a slot with itself, and `Restore` with `Maximize`.
pub open spec fn shares_slot(a: WindowControlType, b: WindowControlType) -> bool {
    ||| a == b
    ||| a == WindowControlType::Restore && b == WindowControlType::Maximize
    ||| a == WindowControlType::Maximize && b == WindowControlType::Restore
}

/// A pointer event delivered to one control.
#[derive(Debug, PartialEq, Eq, Clone, Copy, Structural)]
pub enum ControlEvent {
    HoverEnter,
    HoverExit,
    PrimaryDown,
    Click,
}

/// The interaction state a control takes after an event. Every transition is
/// absolute: the new state does not depend on the state before the event, so
/// any event is valid from any state.
pub open spec fn spec_state_for_event(e: ControlEvent) -> WindowControlState {
    match e {
        ControlEvent::HoverEnter => WindowControlState::Hover,
        ControlEvent::HoverExit => WindowControlState::Normal,
        ControlEvent::PrimaryDown => WindowControlState::Active,
        ControlEvent::Click => WindowControlState::Normal,
    }
}

/// The absolute transition table of the per-control state machine.
pub fn state_for_event(e: ControlEvent) -> (s: WindowControlState)
    ensures
        s == spec_state_for_event(e),
{
    match e {
        ControlEvent::HoverEnter => WindowControlState::Hover,
        ControlEvent::HoverExit => WindowControlState::Normal,
        ControlEvent::PrimaryDown => WindowControlState::Active,
        ControlEvent::Click => WindowControlState::Normal,
    }
}

/// The store of the three controls' interaction states: one slot for Minimize,
/// one shared by Restore/Maximize, one for Close. Each slot reflects only the
/// events delivered to its own control; writing one slot never disturbs
/// another. The store outlives a render pass, which rebuilds its controls from
/// a snapshot of it each frame.
#[derive(Debug, PartialEq, Eq, Clone, Copy)]
pub struct ControlsState {
    minimize_control_state: WindowControlState,
    maximize_or_restore_control_state: WindowControlState,
    close_control_state: WindowControlState,
}

impl ControlsState {
    /// The state recorded in the slot of `id`.
    pub closed spec fn spec_get(self, id: WindowControlType) -> WindowControlState {
        match id {
            WindowControlType::Minimize => self.minimize_control_state,
            WindowControlType::Restore => self.maximize_or_restore_control_state,
            WindowControlType::Maximize => self.maximize_or_restore_control_state,
            WindowControlType::Close => self.close_control_state,
        }
    }

    /// The store after the slot of `id` is overwritten with `s`.
    pub closed spec fn spec_set(self, id: WindowControlType, s: WindowControlState) -> ControlsState {
        match id {
            WindowControlType::Minimize => ControlsState { minimize_control_state: s, ..self },
            WindowControlType::Restore => ControlsState { maximize_or_restore_control_state: s, ..self },
            WindowControlType::Maximize => ControlsState { maximize_or_restore_control_state: s, ..self },
            WindowControlType::Close => ControlsState { close_control_state: s, ..self },
        }
    }

    /// The store after the absolute transition for `e` is applied to `id`'s slot.
    pub open spec fn spec_apply(self, id: WindowControlType, e: ControlEvent) -> ControlsState {
        self.spec_set(id, spec_state_for_event(e))
    }

    /// Reads the slot of `id`; a control never touched reads Normal.
    pub fn get(&self, id: WindowControlType) -> (s: WindowControlState)
        ensures
            s == self.spec_get(id),
    {
        match id {
            WindowControlType::Minimize => self.minimize_control_state,
            WindowControlType::Restore => self.maximize_or_restore_control_state,
            WindowControlType::Maximize => self.maximize_or_restore_control_state,
            WindowControlType::Close => self.close_control_state,
        }
    }

    /// Overwrites the slot of `id` unconditionally: no transition is validated,
    /// so the store accepts any state (Disable included) from any state.
    pub fn set(&mut self, id: WindowControlType, s: WindowControlState)
        ensures
            *final(self) == old(self).spec_set(id, s),
    {
        match id {
            WindowControlType::Minimize => self.minimize_control_state = s,
            WindowControlType::Restore => self.maximize_or_restore_control_state = s,
            WindowControlType::Maximize => self.maximize_or_restore_control_state = s,
            WindowControlType::Close => self.close_control_state = s,
        }
    }

    /// Applies the absolute transition for `e` to the slot of `id`.
    pub fn apply_event(&mut self, id: WindowControlType, e: ControlEvent)
        ensures
            *final(self) == old(self).spec_apply(id, e),
    {
        let s = state_for_event(e);
        self.set(id, s);
    }
}

impl Default for ControlsState {
    /// All three slots start out Normal.
    fn default() -> (r: Self)
        ensures
            forall|id: WindowControlType| r.spec_get(id) == WindowControlState::Normal,
    {
        ControlsState {
            minimize_control_state: WindowControlState::Normal,
            maximize_or_restore_control_state: WindowControlState::Normal,
            close_control_state: WindowControlState::Normal,
        }
    }
}

/// Identities that share a slot always read the same state: in particular a
/// `get` of Restore and a `get` of Maximize agree on any store.
pub proof fn lemma_shared_slot_get(cs: ControlsState, a: WindowControlType, b: WindowControlType)
    requires
        shares_slot(a, b),
    ensures
        cs.spec_get(a) == cs.spec_get(b),
{
}

/// `get` after `set(id, s)` returns `s`, as does a `get` of the identity that
/// shares `id`'s slot; a `set` never changes the slot of a control that does
/// not share `id`'s slot (isolation of the three slots).
pub proof fn lemma_set_get(
    cs: ControlsState,
    id: WindowControlType,
    s: WindowControlState,
    other: WindowControlType,
)
    ensures
        cs.spec_set(id, s).spec_get(id) == s,
        shares_slot(other, id) ==> cs.spec_set(id, s).spec_get(other) == s,
        !shares_slot(other, id) ==> cs.spec_set(id, s).spec_get(other) == cs.spec_get(other),
{
}

/// Hover-enter followed by hover-exit on one control leaves it Normal — not in
/// whatever state preceded the hover, since hover transitions are absolute —
/// and leaves every other slot as it was.
pub proof fn lemma_hover_exit_returns_to_normal(
    cs: ControlsState,
    id: WindowControlType,
    other: WindowControlType,
)
    ensures
        cs.spec_apply(id, ControlEvent::HoverEnter).spec_apply(id, ControlEvent::HoverExit)
            .spec_get(id) == WindowControlState::Normal,
        !shares_slot(other, id) ==> cs.spec_apply(id, ControlEvent::HoverEnter).spec_apply(
            id,
            ControlEvent::HoverExit,
        ).spec_get(other) == cs.spec_get(other),
{
}

} // verus!
