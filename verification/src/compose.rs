use vstd::prelude::*;

use crate::control::WindowControl;
use crate::state::ControlsState;
use crate::state::WindowControlType;
use crate::state::lemma_shared_slot_get;

verus! {

/// The three-button window-controls row. It holds the host's close command and,
/// once per render pass, composes the minimize, maximize-or-restore and close
/// controls from one snapshot of the interaction-state store. `A` is the host's
/// opaque close command, threaded unmodified into the close control.
pub struct LinuxWindowControls<A> {
    /// The close command handed to the close control at composition time.
    pub close_window_action: A,
}

impl<A> LinuxWindowControls<A> {
    pub fn new(close_window_action: A) -> (r: Self)
        ensures
            r.close_window_action == close_window_action,
    {
        LinuxWindowControls { close_window_action }
    }

    /// Composes the row's three controls against one snapshot of the store, so
    /// all three observe a consistent state within the frame. The second button
    /// is Restore when the window is currently maximized and Maximize when it
    /// is not — a choice read from the window flag alone, which touches no
    /// stored state. The close control, and only it, carries the close command.
    pub fn compose(self, states: &ControlsState, is_maximized: bool) -> (r: (
        WindowControl<A>,
        WindowControl<A>,
        WindowControl<A>,
    ))
        ensures
            r.0.id@ == "minimize"@,
            r.0.control_type == WindowControlType::Minimize,
            r.0.control_state == states.spec_get(WindowControlType::Minimize),
            r.0.close_action is None,
            r.1.id@ == "maximize-or-restore"@,
            r.1.control_type == if is_maximized {
                WindowControlType::Restore
            } else {
                WindowControlType::Maximize
            },
            r.1.control_state == states.spec_get(r.1.control_type),
            r.1.close_action is None,
            r.2.id@ == "close"@,
            r.2.control_type == WindowControlType::Close,
            r.2.control_state == states.spec_get(WindowControlType::Close),
            r.2.close_action == Some(self.close_window_action),
    {
        let minimize_state = states.get(WindowControlType::Minimize);
        let maximize_or_restore_state = states.get(WindowControlType::Maximize);
        let close_state = states.get(WindowControlType::Close);
        let second_type = if is_maximized {
            WindowControlType::Restore
        } else {
            WindowControlType::Maximize
        };
        proof {
            lemma_shared_slot_get(*states, WindowControlType::Restore, WindowControlType::Maximize);
        }
        let minimize = WindowControl::new(
            String::from_str("minimize"),
            WindowControlType::Minimize,
            minimize_state,
        );
        let maximize_or_restore = WindowControl::new(
            String::from_str("maximize-or-restore"),
            second_type,
            maximize_or_restore_state,
        );
        let close = WindowControl::new_close(
            String::from_str("close"),
            WindowControlType::Close,
            close_state,
            self.close_window_action,
        );
        (minimize, maximize_or_restore, close)
    }
}

} // verus!
