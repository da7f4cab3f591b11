//! Window-chrome controls for a desktop environment that supplies no native
//! decorations: a store of per-control interaction states, the absolute state
//! transitions driven by pointer events, the resolver that turns a control's
//! situation into an icon asset path, and the composition of the three-button
//! row (minimize, maximize-or-restore, close).

mod compose;
mod control;
mod icon;
mod state;

pub use compose::LinuxWindowControls;
pub use control::WindowCommand;
pub use control::WindowControl;
pub use icon::WindowAppearance;
pub use icon::icon_path;
pub use state::ControlEvent;
pub use state::ControlsState;
pub use state::WindowControlState;
pub use state::WindowControlType;
pub use state::state_for_event;
