use vstd::prelude::*;

use crate::icon::WindowAppearance;
use crate::icon::spec_icon_path;
use crate::icon::icon_path;
use crate::state::ControlsState;
use crate::state::WindowControlState;
use crate::state::WindowControlType;

verus! {

/// The window operation a click asks the host to perform. `A` is the host's
/// opaque close command: this subsystem only holds and forwards it, never
/// interprets it.
#[derive(Debug, PartialEq, Eq, Clone, Copy)]
pub enum WindowCommand<A> {
    /// Request that the window be minimized.
    Minimize,
    /// Request that the window's maximized (zoomed) state be toggled.
    ToggleZoom,
    /// Dispatch the supplied close command through the host's action system.
    DispatchClose(A),
}

/// One renderable window-chrome control: identity, logical type, a snapshot of
/// its interaction state, and — for the close control — the host's close
/// command. Built fresh each render pass from the current store and discarded
/// after the frame; it is never mutated, and event handling writes back into
/// the shared store by control type instead.
#[derive(Debug, Clone)]
pub struct WindowControl<A> {
    /// The element identity the control renders under.
    pub id: String,
    /// The logical type of the control.
    pub control_type: WindowControlType,
    /// The interaction state the control was built with.
    pub control_state: WindowControlState,
    /// The close command, present exactly when the control was built by
    /// `new_close`.
    pub close_action: Option<A>,
}

impl<A> WindowControl<A> {
    /// Whether a click may be triggered on this control: a Close control must
    /// carry a close command. Violating this is a programmer error — a Close
    /// control built by the plain constructor — and clicking such a control
    /// aborts rather than dispatching nothing.
    pub open spec fn click_allowed(self) -> bool {
        self.control_type == WindowControlType::Close ==> self.close_action is Some
    }

    /// The command a click on this control issues, by its logical type alone:
    /// Restore and Maximize both toggle the zoom state (the distinction between
    /// them is cosmetic), and Close forwards the stored close command.
    pub open spec fn spec_click_command(self) -> WindowCommand<A>
        recommends
            self.click_allowed(),
    {
        match self.control_type {
            WindowControlType::Minimize => WindowCommand::Minimize,
            WindowControlType::Restore => WindowCommand::ToggleZoom,
            WindowControlType::Maximize => WindowCommand::ToggleZoom,
            WindowControlType::Close => WindowCommand::DispatchClose(self.close_action->Some_0),
        }
    }

    /// Builds a control without a close command; the constructor for the
    /// minimize and maximize-or-restore controls.
    pub fn new(
        id: String,
        control_type: WindowControlType,
        control_state: WindowControlState,
    ) -> (r: Self)
        ensures
            r.id == id,
            r.control_type == control_type,
            r.control_state == control_state,
            r.close_action is None,
    {
        WindowControl { id, control_type, control_state, close_action: None }
    }

    /// Builds a control carrying the host's close command; the constructor for
    /// the close control.
    pub fn new_close(
        id: String,
        control_type: WindowControlType,
        control_state: WindowControlState,
        close_action: A,
    ) -> (r: Self)
        ensures
            r.id == id,
            r.control_type == control_type,
            r.control_state == control_state,
            r.close_action == Some(close_action),
    {
        WindowControl { id, control_type, control_state, close_action: Some(close_action) }
    }

    /// Resolves this control's icon asset path from the window's focus flag and
    /// appearance.
    pub fn icon(&self, window_active: bool, appearance: WindowAppearance) -> (r: String)
        ensures
            r@ == spec_icon_path(self.control_type, self.control_state, window_active, appearance),
    {
        icon_path(self.control_type, self.control_state, window_active, appearance)
    }

    /// A primary-click release on this control: the control's slot in the store
    /// is reset to Normal (other slots untouched), and then exactly one window
    /// command — determined by the control's logical type — is handed back for
    /// the host to perform.
    pub fn click(self, states: &mut ControlsState) -> (cmd: WindowCommand<A>)
        requires
            self.click_allowed(),
        ensures
            *final(states) == old(states).spec_set(self.control_type, WindowControlState::Normal),
            cmd == self.spec_click_command(),
    {
        states.set(self.control_type, WindowControlState::Normal);
        match self.control_type {
            WindowControlType::Minimize => WindowCommand::Minimize,
            WindowControlType::Restore => WindowCommand::ToggleZoom,
            WindowControlType::Maximize => WindowCommand::ToggleZoom,
            WindowControlType::Close => match self.close_action {
                Some(action) => WindowCommand::DispatchClose(action),
                None => unreached(),
            },
        }
    }

    /// Like `click`, but guards its precondition at run time: a Close control
    /// without a close command yields no command and leaves the store
    /// untouched, so a host can turn that misuse into its own fatal error.
    pub fn try_click(self, states: &mut ControlsState) -> (r: Option<WindowCommand<A>>)
        ensures
            self.click_allowed() ==> {
                &&& r == Some(self.spec_click_command())
                &&& *final(states) == old(states).spec_set(
                    self.control_type,
                    WindowControlState::Normal,
                )
            },
            !self.click_allowed() ==> {
                &&& r is None
                &&& *final(states) == *old(states)
            },
    {
        let clickable = match self.control_type {
            WindowControlType::Close => self.close_action.is_some(),
            _ => true,
        };
        if clickable {
            Some(self.click(states))
        } else {
            None
        }
    }
}

/// A Close control built by the plain constructor — which stores no close
/// command — may never be clicked: its click precondition is false, so a click
/// must fail fatally rather than dispatch nothing.
pub proof fn lemma_plain_close_control_not_clickable<A>(control: WindowControl<A>)
    requires
        control.control_type == WindowControlType::Close,
        control.close_action is None,
    ensures
        !control.click_allowed(),
{
}

/// A click on a Restore control and a click on a Maximize control issue the
/// same command — both toggle the window's zoom state — whatever else the two
/// controls hold.
pub proof fn lemma_restore_and_maximize_click_alike<A>(
    restore: WindowControl<A>,
    maximize: WindowControl<A>,
)
    requires
        restore.control_type == WindowControlType::Restore,
        maximize.control_type == WindowControlType::Maximize,
    ensures
        restore.spec_click_command() == maximize.spec_click_command(),
        restore.spec_click_command() == WindowCommand::<A>::ToggleZoom,
{
}

} // verus!
