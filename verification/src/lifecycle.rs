//! The application object and its lifecycle operations: one-time startup,
//! idempotent activation of the singleton main window, the quit sequence,
//! the about dialog, and the action registry the shell dispatches through.

use vstd::prelude::*;
use crate::about::{about_fields, build_about_dialog, AboutDialog};
use crate::color::Color;
use crate::config::{
    app_id, quit_accel_chord, resource_base_path, spec_app_id, spec_quit_accel_chord,
    spec_resource_base_path, style_css_path,
};
use crate::effects::{
    activate_effects, is_install_css, quit_effects, startup_effects, Effect,
};
use crate::state::{
    activate_step, lview_wf, quit_step, startup_step, LifecycleView, Phase,
};

verus! {

/// Names of the actions the application registers for the shell.
#[derive(Clone, Copy, Debug, PartialEq, Eq, Structural)]
pub enum ActionName {
    Quit,
    About,
}

impl ActionName {
    /// The symbolic name under which the shell invokes the action.
    pub fn name(&self) -> (r: &'static str)
        ensures
            *self is Quit ==> r@ == "quit"@,
            *self is About ==> r@ == "about"@,
    {
        match self {
            ActionName::Quit => "quit",
            ActionName::About => "about",
        }
    }

    /// The fully qualified name an accelerator targets.
    pub fn detailed_name(&self) -> (r: &'static str)
        ensures
            *self is Quit ==> r@ == "app.quit"@,
            *self is About ==> r@ == "app.about"@,
    {
        match self {
            ActionName::Quit => "app.quit",
            ActionName::About => "app.about",
        }
    }
}

/// A keyboard accelerator: the key chord invokes the action.
#[derive(Debug, Clone, Copy, PartialEq, Eq)]
pub struct AccelBinding {
    pub chord: &'static str,
    pub action: ActionName,
}

/// Rejection of a lifecycle call made out of order. Each marks a
/// lifecycle-ordering bug; the unchecked operations treat the same
/// misorderings as fatal by precondition.
#[derive(Debug, Clone, Copy, PartialEq, Eq, Structural)]
pub enum LifecycleError {
    /// `startup` has not run yet.
    NotStarted,
    /// `startup` already ran; it runs exactly once per process.
    AlreadyStarted,
    /// No activation has constructed the main window yet.
    WindowNotCreated,
    /// `quit` already ran; the event loop is ending.
    AlreadyTerminated,
}

/// Configuration of the toolkit application object, passed as named
/// properties to its constructor.
#[derive(Debug, Clone, Copy, PartialEq, Eq)]
pub struct AppConfig {
    pub application_id: &'static str,
    pub flags: u32,
    pub resource_base_path: &'static str,
}

/// The application: the lifecycle phase, the set-once slot holding the
/// handle of the singleton main window, the action registry, the
/// accelerator table, and the owned colour value.
pub struct App {
    pub phase: Phase,
    pub window: Option<u64>,
    pub windows_created: u64,
    pub actions: Vec<ActionName>,
    pub accels: Vec<AccelBinding>,
    pub icon_set: bool,
    pub css_installed: bool,
    pub color: Color,
    pub config: AppConfig,
}

impl App {
    /// The state-machine view of the application.
    pub open spec fn lview(self) -> LifecycleView {
        LifecycleView {
            phase: self.phase,
            window: match self.window {
                Some(w) => Some(w as nat),
                None => None,
            },
            windows_created: self.windows_created as nat,
        }
    }

    /// The registry `startup` leaves behind: exactly the quit and about
    /// actions, in that order, and the single quit accelerator.
    pub open spec fn registry_complete(self) -> bool {
        &&& self.actions@ == seq![ActionName::Quit, ActionName::About]
        &&& self.accels@.len() == 1
        &&& self.accels@[0].chord@ == spec_quit_accel_chord()
        &&& self.accels@[0].action == ActionName::Quit
    }

    /// Well-formedness: the lifecycle view satisfies its invariant, and the
    /// registry, icon and stylesheet state match the phase — empty before
    /// startup, complete from startup on.
    pub open spec fn wf(self) -> bool {
        &&& lview_wf(self.lview())
        &&& (self.phase is Uninitialized ==> {
            &&& self.actions@ == Seq::<ActionName>::empty()
            &&& self.accels@ == Seq::<AccelBinding>::empty()
            &&& !self.icon_set
            &&& !self.css_installed
        })
        &&& (!(self.phase is Uninitialized) ==> self.registry_complete() && self.icon_set)
    }

    /// The registry, icon, stylesheet, colour and configuration of `self`
    /// stand as they do in `other`.
    pub open spec fn same_environment(self, other: App) -> bool {
        &&& self.actions@ == other.actions@
        &&& self.accels@ == other.accels@
        &&& self.icon_set == other.icon_set
        &&& self.css_installed == other.css_installed
        &&& self.color == other.color
        &&& self.config == other.config
    }

    /// A fresh application object: uninitialized, no window, an empty
    /// registry, the default colour, and the compiled-in configuration.
    pub fn new() -> (app: App)
        ensures
            app.wf(),
            app.phase is Uninitialized,
            app.window is None,
            app.windows_created == 0,
            app.actions@ == Seq::<ActionName>::empty(),
            app.accels@ == Seq::<AccelBinding>::empty(),
            !app.icon_set,
            !app.css_installed,
            app.color == (Color { red: 0, green: 0, blue: 0, alpha: 0 }),
            app.config.application_id@ == spec_app_id(),
            app.config.flags == 0,
            app.config.resource_base_path@ == spec_resource_base_path(),
    {
        App {
            phase: Phase::Uninitialized,
            window: None,
            windows_created: 0,
            actions: Vec::new(),
            accels: Vec::new(),
            icon_set: false,
            css_installed: false,
            color: Color::default(),
            config: AppConfig {
                application_id: app_id(),
                flags: 0,
                resource_base_path: resource_base_path(),
            },
        }
    }

    /// Handle of the singleton main window; the window must exist.
    pub fn main_window(&self) -> (id: u64)
        requires
            self.window is Some,
        ensures
            self.window == Some(id),
    {
        self.window.unwrap()
    }

    /// Decide the stylesheet effect: install it exactly when a display is
    /// available; the absence of a display is tolerated silently.
    pub fn setup_css(&self, display_available: bool) -> (effect: Option<Effect>)
        ensures
            display_available ==> (effect matches Some(e) && is_install_css(e)),
            !display_available ==> effect is None,
    {
        if display_available {
            Some(Effect::InstallCss { resource_path: style_css_path() })
        } else {
            None
        }
    }

    /// Register the quit and about actions, in that order; nothing else of
    /// the state moves.
    pub fn setup_gactions(&mut self)
        requires
            old(self).actions@ == Seq::<ActionName>::empty(),
        ensures
            final(self).actions@ == seq![ActionName::Quit, ActionName::About],
            final(self).phase == old(self).phase,
            final(self).window == old(self).window,
            final(self).windows_created == old(self).windows_created,
            final(self).accels@ == old(self).accels@,
            final(self).icon_set == old(self).icon_set,
            final(self).css_installed == old(self).css_installed,
            final(self).color == old(self).color,
            final(self).config == old(self).config,
    {
        self.actions.push(ActionName::Quit);
        self.actions.push(ActionName::About);
        proof {
            assert(self.actions@ =~= seq![ActionName::Quit, ActionName::About]);
        }
    }

    /// Bind the quit accelerator: the Ctrl+Q chord invokes the quit action,
    /// and no other binding exists.
    pub fn setup_accels(&mut self)
        requires
            old(self).accels@ == Seq::<AccelBinding>::empty(),
        ensures
            final(self).accels@.len() == 1,
            final(self).accels@[0].chord@ == spec_quit_accel_chord(),
            final(self).accels@[0].action == ActionName::Quit,
            final(self).phase == old(self).phase,
            final(self).window == old(self).window,
            final(self).windows_created == old(self).windows_created,
            final(self).actions@ == old(self).actions@,
            final(self).icon_set == old(self).icon_set,
            final(self).css_installed == old(self).css_installed,
            final(self).color == old(self).color,
            final(self).config == old(self).config,
    {
        self.accels.push(AccelBinding { chord: quit_accel_chord(), action: ActionName::Quit });
    }

    /// One-time startup: set the default icon, install the stylesheet when
    /// a display is available, register the actions, bind the quit
    /// accelerator. Runs exactly once, before any activation; a second run
    /// is a lifecycle-ordering bug, ruled out here by the precondition.
    pub fn startup(&mut self, display_available: bool) -> (effects: Vec<Effect>)
        requires
            old(self).wf(),
            old(self).phase is Uninitialized,
        ensures
            final(self).wf(),
            final(self).phase is Started,
            final(self).lview() == startup_step(old(self).lview()),
            final(self).registry_complete(),
            final(self).icon_set,
            final(self).css_installed == display_available,
            final(self).color == old(self).color,
            final(self).config == old(self).config,
            startup_effects(effects@, display_available),
    {
        let mut effects: Vec<Effect> = Vec::new();
        effects.push(Effect::SetDefaultIcon { icon_name: app_id() });
        let css = self.setup_css(display_available);
        match css {
            Some(e) => {
                effects.push(e);
                self.css_installed = true;
            },
            None => {},
        }
        self.setup_gactions();
        self.setup_accels();
        self.icon_set = true;
        self.phase = Phase::Started;
        effects
    }

    /// Show-or-create the singleton window: the first activation constructs
    /// it and stores its handle in the set-once slot, every later one only
    /// presents the existing window again. Requires that startup has run.
    pub fn activate(&mut self) -> (effects: Vec<Effect>)
        requires
            old(self).wf(),
            old(self).phase is Started || old(self).phase is Activated,
        ensures
            final(self).wf(),
            final(self).phase is Activated,
            final(self).lview() == activate_step(old(self).lview()),
            final(self).same_environment(*old(self)),
            final(self).windows_created == 1,
            final(self).window is Some,
            old(self).window is Some ==> final(self).window == old(self).window,
            activate_effects(effects@, old(self).lview()),
    {
        match self.window {
            Some(w) => {
                let mut effects: Vec<Effect> = Vec::new();
                effects.push(Effect::PresentWindow { id: w });
                effects
            },
            None => {
                let id: u64 = self.windows_created + 1;
                self.window = Some(id);
                self.windows_created = id;
                self.phase = Phase::Activated;
                let mut effects: Vec<Effect> = Vec::new();
                effects.push(Effect::CreateWindow { id });
                effects.push(Effect::PresentWindow { id });
                effects
            },
        }
    }

    /// Quit: close the main window first — that is what triggers the
    /// window-level save-state hook — and only then end the event loop.
    /// Requires a window, so an activation must have run.
    pub fn quit(&mut self) -> (effects: Vec<Effect>)
        requires
            old(self).wf(),
            old(self).phase is Activated,
        ensures
            final(self).wf(),
            final(self).phase is Terminated,
            final(self).lview() == quit_step(old(self).lview()),
            final(self).same_environment(*old(self)),
            final(self).window == old(self).window,
            final(self).windows_created == old(self).windows_created,
            quit_effects(effects@, old(self).lview()),
    {
        let w: u64 = self.main_window();
        self.phase = Phase::Terminated;
        let mut effects: Vec<Effect> = Vec::new();
        effects.push(Effect::CloseWindow { id: w });
        effects.push(Effect::ExitLoop);
        effects
    }

    /// Build the about dialog, transient for the main window: every field
    /// but the translator credits is a compiled-in constant. The credits
    /// come from the caller, which looks them up in the locale's message
    /// catalog; they pass through unchanged. Reads the state and never
    /// mutates it.
    pub fn show_about_dialog(&self, translator_credits: String) -> (d: AboutDialog)
        requires
            self.wf(),
            self.phase is Activated,
        ensures
            self.window matches Some(w) && about_fields(d, w as nat, translator_credits@),
    {
        let w: u64 = self.main_window();
        build_about_dialog(w, translator_credits)
    }

    /// Startup that rejects, rather than assumes away, a call out of order.
    pub fn try_startup(&mut self, display_available: bool) -> (r: Result<
        Vec<Effect>,
        LifecycleError,
    >)
        requires
            old(self).wf(),
        ensures
            final(self).wf(),
            old(self).phase is Uninitialized ==> {
                &&& r matches Ok(effects) && startup_effects(effects@, display_available)
                &&& final(self).lview() == startup_step(old(self).lview())
                &&& final(self).registry_complete()
                &&& final(self).css_installed == display_available
            },
            !(old(self).phase is Uninitialized) ==> {
                &&& r matches Err(e) && e == LifecycleError::AlreadyStarted
                &&& *final(self) == *old(self)
            },
    {
        match self.phase {
            Phase::Uninitialized => Ok(self.startup(display_available)),
            _ => Err(LifecycleError::AlreadyStarted),
        }
    }

    /// Activation that rejects, rather than assumes away, a call out of
    /// order: before startup, or after quit.
    pub fn try_activate(&mut self) -> (r: Result<Vec<Effect>, LifecycleError>)
        requires
            old(self).wf(),
        ensures
            final(self).wf(),
            (old(self).phase is Started || old(self).phase is Activated) ==> {
                &&& r matches Ok(effects) && activate_effects(effects@, old(self).lview())
                &&& final(self).phase is Activated
                &&& final(self).lview() == activate_step(old(self).lview())
                &&& final(self).same_environment(*old(self))
                &&& final(self).windows_created == 1
            },
            old(self).phase is Uninitialized ==> {
                &&& r matches Err(e) && e == LifecycleError::NotStarted
                &&& *final(self) == *old(self)
            },
            old(self).phase is Terminated ==> {
                &&& r matches Err(e) && e == LifecycleError::AlreadyTerminated
                &&& *final(self) == *old(self)
            },
    {
        match self.phase {
            Phase::Uninitialized => Err(LifecycleError::NotStarted),
            Phase::Terminated => Err(LifecycleError::AlreadyTerminated),
            _ => Ok(self.activate()),
        }
    }

    /// Quit that rejects, rather than assumes away, a call out of order:
    /// before startup, before the first activation, or a second time.
    pub fn try_quit(&mut self) -> (r: Result<Vec<Effect>, LifecycleError>)
        requires
            old(self).wf(),
        ensures
            final(self).wf(),
            old(self).phase is Activated ==> {
                &&& r matches Ok(effects) && quit_effects(effects@, old(self).lview())
                &&& final(self).phase is Terminated
                &&& final(self).lview() == quit_step(old(self).lview())
                &&& final(self).same_environment(*old(self))
            },
            old(self).phase is Uninitialized ==> {
                &&& r matches Err(e) && e == LifecycleError::NotStarted
                &&& *final(self) == *old(self)
            },
            old(self).phase is Started ==> {
                &&& r matches Err(e) && e == LifecycleError::WindowNotCreated
                &&& *final(self) == *old(self)
            },
            old(self).phase is Terminated ==> {
                &&& r matches Err(e) && e == LifecycleError::AlreadyTerminated
                &&& *final(self) == *old(self)
            },
    {
        match self.phase {
            Phase::Uninitialized => Err(LifecycleError::NotStarted),
            Phase::Started => Err(LifecycleError::WindowNotCreated),
            Phase::Terminated => Err(LifecycleError::AlreadyTerminated),
            Phase::Activated => Ok(self.quit()),
        }
    }

    /// About dialog that rejects, rather than assumes away, a call before
    /// the main window exists: the dialog is transient for that window, so
    /// asking for it earlier is exactly the misordering the unchecked
    /// operation rules out by precondition.
    pub fn try_show_about(&self, translator_credits: String) -> (r: Result<
        AboutDialog,
        LifecycleError,
    >)
        requires
            self.wf(),
        ensures
            self.phase is Activated ==> (r matches Ok(d) && self.window matches Some(w)
                && about_fields(d, w as nat, translator_credits@)),
            self.phase is Uninitialized ==> (r matches Err(e) && e == LifecycleError::NotStarted),
            self.phase is Started ==> (r matches Err(e) && e == LifecycleError::WindowNotCreated),
            self.phase is Terminated ==> (r matches Err(e) && e
                == LifecycleError::AlreadyTerminated),
    {
        match self.phase {
            Phase::Uninitialized => Err(LifecycleError::NotStarted),
            Phase::Started => Err(LifecycleError::WindowNotCreated),
            Phase::Terminated => Err(LifecycleError::AlreadyTerminated),
            Phase::Activated => Ok(self.show_about_dialog(translator_credits)),
        }
    }
}

/// Law: once startup has run, the accelerator table maps the Ctrl+Q chord
/// to the quit action and holds no other binding.
pub proof fn lemma_quit_accel_exclusive(app: App)
    requires
        app.wf(),
        !(app.phase is Uninitialized),
    ensures
        app.accels@.len() == 1,
        app.accels@[0].chord@ == spec_quit_accel_chord(),
        app.accels@[0].action == ActionName::Quit,
        forall|i: int|
            0 <= i < app.accels@.len() ==> (#[trigger] app.accels@[i]).action == ActionName::Quit
                && app.accels@[i].chord@ == spec_quit_accel_chord(),
{
}

} // verus!
