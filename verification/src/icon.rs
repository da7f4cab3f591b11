use vstd::prelude::*;

use crate::state::WindowControlState;
use crate::state::WindowControlType;

verus! {

/// The window appearance reported by the host windowing system, reduced by the
/// resolver to exactly two buckets: the light family and the dark family.
#[derive(Debug, PartialEq, Eq, Clone, Copy, Structural)]
pub enum WindowAppearance {
    Light,
    VibrantLight,
    Dark,
    VibrantDark,
}

impl WindowAppearance {
    /// The style bucket the appearance falls in: any light variant is "light",
    /// any dark variant is "dark".
    pub open spec fn spec_style(self) -> Seq<char> {
        match self {
            WindowAppearance::Light => "light"@,
            WindowAppearance::VibrantLight => "light"@,
            WindowAppearance::Dark => "dark"@,
            WindowAppearance::VibrantDark => "dark"@,
        }
    }

    /// The name of the appearance's style bucket, as it appears in asset paths.
    pub fn style_name(&self) -> (r: &'static str)
        ensures
            r@ == self.spec_style(),
    {
        match self {
            WindowAppearance::Light => "light",
            WindowAppearance::VibrantLight => "light",
            WindowAppearance::Dark => "dark",
            WindowAppearance::VibrantDark => "dark",
        }
    }
}

impl WindowControlType {
    /// The canonical lower-case name of the control type, as it appears in
    /// asset paths.
    pub open spec fn spec_name(self) -> Seq<char> {
        match self {
            WindowControlType::Minimize => "minimize"@,
            WindowControlType::Restore => "restore"@,
            WindowControlType::Maximize => "maximize"@,
            WindowControlType::Close => "close"@,
        }
    }

    pub fn name(&self) -> (r: &'static str)
        ensures
            r@ == self.spec_name(),
    {
        match self {
            WindowControlType::Minimize => "minimize",
            WindowControlType::Restore => "restore",
            WindowControlType::Maximize => "maximize",
            WindowControlType::Close => "close",
        }
    }
}

impl WindowControlState {
    /// The canonical lower-case name of the interaction state, as it appears in
    /// asset paths.
    pub open spec fn spec_name(self) -> Seq<char> {
        match self {
            WindowControlState::Normal => "normal"@,
            WindowControlState::Hover => "hover"@,
            WindowControlState::Active => "active"@,
            WindowControlState::Disable => "disable"@,
        }
    }

    pub fn name(&self) -> (r: &'static str)
        ensures
            r@ == self.spec_name(),
    {
        match self {
            WindowControlState::Normal => "normal",
            WindowControlState::Hover => "hover",
            WindowControlState::Active => "active",
            WindowControlState::Disable => "disable",
        }
    }
}

/// The neutral backdrop icon's path, keyed by the style bucket alone.
pub open spec fn spec_backdrop_path(appearance: WindowAppearance) -> Seq<char> {
    "icons/window_controls/backdrop-"@ + appearance.spec_style() + ".svg"@
}

/// The icon path for a focused, non-disabled control, keyed by the triple of
/// control-type name, state name and style bucket.
pub open spec fn spec_control_path(
    control_type: WindowControlType,
    control_state: WindowControlState,
    appearance: WindowAppearance,
) -> Seq<char> {
    "icons/window_controls/"@ + control_type.spec_name() + "-"@ + control_state.spec_name() + "-"@
        + appearance.spec_style() + ".svg"@
}

/// The icon path a control resolves to: the neutral backdrop when the window
/// lacks focus or the control is disabled (control type and state are ignored
/// in that branch), and otherwise the path keyed by type, state and style.
pub open spec fn spec_icon_path(
    control_type: WindowControlType,
    control_state: WindowControlState,
    window_active: bool,
    appearance: WindowAppearance,
) -> Seq<char> {
    if !window_active || control_state == WindowControlState::Disable {
        spec_backdrop_path(appearance)
    } else {
        spec_control_path(control_type, control_state, appearance)
    }
}

/// Resolves a control's icon asset path from the four inputs that determine
/// it. This is the single place asset paths are constructed, and the only two
/// shapes it produces are `icons/window_controls/backdrop-{style}.svg` and
/// `icons/window_controls/{type}-{state}-{style}.svg`.
pub fn icon_path(
    control_type: WindowControlType,
    control_state: WindowControlState,
    window_active: bool,
    appearance: WindowAppearance,
) -> (r: String)
    ensures
        r@ == spec_icon_path(control_type, control_state, window_active, appearance),
{
    let style = appearance.style_name();
    if !window_active || control_state == WindowControlState::Disable {
        let mut path = String::from_str("icons/window_controls/backdrop-");
        path.append(style);
        path.append(".svg");
        path
    } else {
        let mut path = String::from_str("icons/window_controls/");
        path.append(control_type.name());
        path.append("-");
        path.append(control_state.name());
        path.append("-");
        path.append(style);
        path.append(".svg");
        path
    }
}

/// The resolver is a pure function of its four inputs: any two strings that
/// satisfy `icon_path`'s contract for the same inputs have the same characters.
pub proof fn lemma_icon_path_deterministic(
    control_type: WindowControlType,
    control_state: WindowControlState,
    window_active: bool,
    appearance: WindowAppearance,
    first: Seq<char>,
    second: Seq<char>,
)
    requires
        first == spec_icon_path(control_type, control_state, window_active, appearance),
        second == spec_icon_path(control_type, control_state, window_active, appearance),
    ensures
        first == second,
{
}

/// When the window lacks focus or the control is disabled, the resolved path is
/// the neutral backdrop path for the style bucket — regardless of control type
/// and state — and that path is one of exactly two strings.
pub proof fn lemma_backdrop_when_unfocused_or_disabled(
    control_type: WindowControlType,
    control_state: WindowControlState,
    window_active: bool,
    appearance: WindowAppearance,
)
    requires
        !window_active || control_state == WindowControlState::Disable,
    ensures
        spec_icon_path(control_type, control_state, window_active, appearance)
            == spec_backdrop_path(appearance),
        appearance.spec_style() == "light"@ ==> spec_icon_path(
            control_type,
            control_state,
            window_active,
            appearance,
        ) == "icons/window_controls/backdrop-light.svg"@,
        appearance.spec_style() == "dark"@ ==> spec_icon_path(
            control_type,
            control_state,
            window_active,
            appearance,
        ) == "icons/window_controls/backdrop-dark.svg"@,
{
    reveal_strlit("icons/window_controls/backdrop-");
    reveal_strlit("light");
    reveal_strlit("dark");
    reveal_strlit(".svg");
    reveal_strlit("icons/window_controls/backdrop-light.svg");
    reveal_strlit("icons/window_controls/backdrop-dark.svg");
    assert("icons/window_controls/backdrop-"@ + "light"@ + ".svg"@
        =~= "icons/window_controls/backdrop-light.svg"@);
    assert("icons/window_controls/backdrop-"@ + "dark"@ + ".svg"@
        =~= "icons/window_controls/backdrop-dark.svg"@);
}

/// When the window is focused and the control is not disabled, the resolved
/// path is keyed by the triple of canonical lower-case names.
pub proof fn lemma_control_path_when_focused(
    control_type: WindowControlType,
    control_state: WindowControlState,
    window_active: bool,
    appearance: WindowAppearance,
)
    requires
        window_active,
        control_state != WindowControlState::Disable,
    ensures
        spec_icon_path(control_type, control_state, window_active, appearance)
            == "icons/window_controls/"@ + control_type.spec_name() + "-"@
            + control_state.spec_name() + "-"@ + appearance.spec_style() + ".svg"@,
{
}

/// One concrete reading of the focused branch: a Minimize control being
/// hovered, in a focused dark-appearance window, resolves to the
/// minimize-hover-dark asset.
pub proof fn lemma_minimize_hover_dark_example()
    ensures
        spec_icon_path(
            WindowControlType::Minimize,
            WindowControlState::Hover,
            true,
            WindowAppearance::Dark,
        ) == "icons/window_controls/minimize-hover-dark.svg"@,
{
    reveal_strlit("icons/window_controls/");
    reveal_strlit("minimize");
    reveal_strlit("hover");
    reveal_strlit("dark");
    reveal_strlit("-");
    reveal_strlit(".svg");
    reveal_strlit("icons/window_controls/minimize-hover-dark.svg");
    assert("icons/window_controls/"@ + "minimize"@ + "-"@ + "hover"@ + "-"@ + "dark"@ + ".svg"@
        =~= "icons/window_controls/minimize-hover-dark.svg"@);
}

} // verus!
