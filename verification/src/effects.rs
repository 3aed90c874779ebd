//! Effects: the toolkit work a lifecycle decision asks the shell to
//! perform, in the order it stands in the returned vector.

use vstd::prelude::*;
use crate::config::{spec_app_id, spec_style_css_path};
use crate::state::LifecycleView;

verus! {

/// One unit of toolkit work handed to the shell.
#[derive(Debug, Clone, PartialEq, Eq)]
pub enum Effect {
    /// Set the default window icon of the shell.
    SetDefaultIcon { icon_name: &'static str },
    /// Install the stylesheet at `resource_path` on the display.
    InstallCss { resource_path: &'static str },
    /// Construct the main window under handle `id`.
    CreateWindow { id: u64 },
    /// Bring the window with handle `id` to the foreground.
    PresentWindow { id: u64 },
    /// Close the window with handle `id`.
    CloseWindow { id: u64 },
    /// End the event loop.
    ExitLoop,
}

pub open spec fn is_set_default_icon(e: Effect) -> bool {
    e matches Effect::SetDefaultIcon { icon_name } && icon_name@ == spec_app_id()
}

pub open spec fn is_install_css(e: Effect) -> bool {
    e matches Effect::InstallCss { resource_path } && resource_path@ == spec_style_css_path()
}

pub open spec fn is_create_window(e: Effect, id: nat) -> bool {
    e matches Effect::CreateWindow { id: i } && i as nat == id
}

pub open spec fn is_present_window(e: Effect, id: nat) -> bool {
    e matches Effect::PresentWindow { id: i } && i as nat == id
}

pub open spec fn is_close_window(e: Effect, id: nat) -> bool {
    e matches Effect::CloseWindow { id: i } && i as nat == id
}

/// What `startup` asks of the shell: set the default icon, then install
/// the stylesheet — the latter only when a display is available.
pub open spec fn startup_effects(effects: Seq<Effect>, display_available: bool) -> bool {
    &&& effects.len() == (if display_available { 2int } else { 1int })
    &&& is_set_default_icon(effects[0])
    &&& (display_available ==> is_install_css(effects[1]))
}

/// What `activate` asks of the shell, given the state it ran from: present
/// the existing window, or construct the new one and then present it.
pub open spec fn activate_effects(effects: Seq<Effect>, pre: LifecycleView) -> bool {
    match pre.window {
        Some(w) => {
            &&& effects.len() == 1
            &&& is_present_window(effects[0], w)
        },
        None => {
            &&& effects.len() == 2
            &&& is_create_window(effects[0], pre.windows_created + 1)
            &&& is_present_window(effects[1], pre.windows_created + 1)
        },
    }
}

/// What `quit` asks of the shell: close the main window first, and only
/// then end the event loop.
pub open spec fn quit_effects(effects: Seq<Effect>, pre: LifecycleView) -> bool {
    match pre.window {
        Some(w) => {
            &&& effects.len() == 2
            &&& is_close_window(effects[0], w)
            &&& effects[1] is ExitLoop
        },
        None => false,
    }
}

} // verus!
