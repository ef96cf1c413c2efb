use vstd::prelude::*;

use crate::settings::SettingsStore;
use crate::window::{TerminiApplicationWindow, WindowState};

verus! {

/// Observable lifecycle events of the application, in the order they happen.
#[derive(Clone, Copy, Debug, PartialEq, Eq, Structural)]
pub enum AppEvent {
    /// One-time startup configuration ran.
    Started,
    /// A window was constructed.
    WindowConstructed,
    /// The window was presented (raised).
    WindowPresented,
    /// The window's close request ran (geometry persistence was attempted).
    WindowCloseRequested,
    /// The application terminated.
    Terminated,
}

/// The data the about dialog is built from; showing the dialog itself is the
/// toolkit's business.
pub struct AboutInfo {
    /// Program name shown in the dialog.
    pub program_name: &'static str,
    /// Icon the dialog shows, by theme name.
    pub logo_icon_name: &'static str,
    /// License the dialog names.
    pub license: &'static str,
    /// Project website.
    pub website: &'static str,
    /// Version string.
    pub version: &'static str,
    /// Author credited.
    pub author: &'static str,
    /// Artist credited.
    pub artist: &'static str,
    /// The dialog is modal and parented to the main window.
    pub modal: bool,
}

/// Abstraction of the one-window policy: whether a live window reference is
/// held, and how many windows were ever constructed.
pub struct ActivationState {
    /// A window reference is held.
    pub has_window: bool,
    /// Number of windows constructed so far.
    pub constructed: nat,
}

/// One activation step: an existing window is only re-presented; only an
/// activation that finds no window constructs one.
pub open spec fn activate_transition(s: ActivationState) -> ActivationState {
    if s.has_window {
        s
    } else {
        ActivationState { has_window: true, constructed: s.constructed + 1 }
    }
}

/// `n` activation steps in sequence.
pub open spec fn activate_n(s: ActivationState, n: nat) -> ActivationState
    decreases n,
{
    if n == 0 {
        s
    } else {
        activate_transition(activate_n(s, (n - 1) as nat))
    }
}

/// Singleton-window law: from a fresh application (no window, nothing
/// constructed), any sequence of one or more activations constructs exactly
/// one window, and a window reference is held from the first activation on —
/// later activations re-present the existing window, never build a second.
pub proof fn lemma_singleton_window(s: ActivationState, n: nat)
    requires
        !s.has_window,
        s.constructed == 0,
        n >= 1,
    ensures
        activate_n(s, n).has_window,
        activate_n(s, n).constructed == 1,
    decreases n,
{
    if n == 1 {
        assert(activate_n(s, 0) == s);
    } else {
        lemma_singleton_window(s, (n - 1) as nat);
    }
}

/// Model of the application controller: owner of the single window slot, the
/// one-time startup configuration, and the quit/about actions.
pub struct TerminiApplication {
    /// The single window slot; filled at most once per process lifetime.
    pub window: Option<TerminiApplicationWindow>,
    /// Startup configuration ran.
    pub started: bool,
    /// The application was told to terminate.
    pub terminated: bool,
    /// How many windows were ever constructed.
    pub constructed: u64,
    /// The default window icon was registered.
    pub icon_set: bool,
    /// The stylesheet was installed into the display's style pipeline
    /// (skipped silently when no display is available).
    pub css_applied: bool,
    /// The `quit` action is registered.
    pub quit_action: bool,
    /// The `about` action is registered.
    pub about_action: bool,
    /// The keyboard accelerator for `quit` is bound.
    pub accels_bound: bool,
    /// Lifecycle events so far, oldest first.
    pub events: Vec<AppEvent>,
}

impl TerminiApplication {
    /// The window slot and the construction count agree: the slot is filled
    /// exactly when one window was constructed, and never more than one is.
    pub open spec fn wf(self) -> bool {
        &&& self.window is Some ==> self.constructed == 1
        &&& self.window is None ==> self.constructed == 0
    }

    /// This controller's state under the one-window abstraction.
    pub open spec fn activation_state(self) -> ActivationState {
        ActivationState { has_window: self.window is Some, constructed: self.constructed as nat }
    }

    /// A fresh application: nothing started, no window, no events.
    pub fn new() -> (app: Self)
        ensures
            app.window is None,
            !app.started,
            !app.terminated,
            app.constructed == 0,
            !app.icon_set,
            !app.css_applied,
            !app.quit_action,
            !app.about_action,
            !app.accels_bound,
            app.events@ == Seq::<AppEvent>::empty(),
            app.wf(),
    {
        TerminiApplication {
            window: None,
            started: false,
            terminated: false,
            constructed: 0,
            icon_set: false,
            css_applied: false,
            quit_action: false,
            about_action: false,
            accels_bound: false,
            events: Vec::new(),
        }
    }

    /// One-time startup configuration, run before any window exists:
    /// registers the default window icon, installs the stylesheet (skipped
    /// when no display is available — a failure of this cosmetic step never
    /// aborts startup), registers the `quit` and `about` actions, and binds
    /// the quit accelerator.
    pub fn startup(&mut self, display_available: bool)
        requires
            !old(self).started,
            old(self).window is None,
            old(self).wf(),
        ensures
            *final(self) == (TerminiApplication {
                started: true,
                icon_set: true,
                css_applied: display_available,
                quit_action: true,
                about_action: true,
                accels_bound: true,
                events: final(self).events,
                ..*old(self)
            }),
            final(self).events@ == old(self).events@.push(AppEvent::Started),
            final(self).wf(),
    {
        self.started = true;
        self.icon_set = true;

        self.setup_css(display_available);
        self.setup_gactions();
        self.setup_accels();

        self.events.push(AppEvent::Started);
    }

    /// Installs the stylesheet when a display is available; without one the
    /// step is skipped silently (no display means no visible UI anyway).
    fn setup_css(&mut self, display_available: bool)
        ensures
            *final(self) == (TerminiApplication {
                css_applied: display_available,
                events: final(self).events,
                ..*old(self)
            }),
            final(self).events@ == old(self).events@,
    {
        self.css_applied = display_available;
    }

    /// Registers the `quit` and `about` actions on the application.
    fn setup_gactions(&mut self)
        ensures
            *final(self) == (TerminiApplication {
                quit_action: true,
                about_action: true,
                events: final(self).events,
                ..*old(self)
            }),
            final(self).events@ == old(self).events@,
    {
        self.quit_action = true;
        self.about_action = true;
    }

    /// Binds the keyboard accelerator for the `quit` action.
    fn setup_accels(&mut self)
        ensures
            *final(self) == (TerminiApplication {
                accels_bound: true,
                events: final(self).events,
                ..*old(self)
            }),
            final(self).events@ == old(self).events@,
    {
        self.accels_bound = true;
    }

    /// One activation: if a window already exists it is shown and presented
    /// again — never is a second one constructed; otherwise the one window is
    /// constructed (restoring its geometry from the store) and presented.
    pub fn activate(&mut self, store: &SettingsStore)
        requires
            old(self).wf(),
            old(self).started,
            !old(self).terminated,
            old(self).window matches Some(w) ==> w.is_live() && w.times_presented < u64::MAX,
        ensures
            final(self).wf(),
            final(self).window is Some,
            old(self).window matches Some(w) ==> *final(self) == (TerminiApplication {
                window: Some(w.spec_presented()),
                events: final(self).events,
                ..*old(self)
            }),
            old(self).window matches Some(w) ==> final(self).events@
                == old(self).events@.push(AppEvent::WindowPresented),
            old(self).window is None ==> *final(self) == (TerminiApplication {
                window: Some(TerminiApplicationWindow::spec_restored(*store).spec_presented()),
                constructed: 1,
                events: final(self).events,
                ..*old(self)
            }),
            old(self).window is None ==> final(self).events@
                == old(self).events@ + seq![AppEvent::WindowConstructed, AppEvent::WindowPresented],
            final(self).activation_state() == activate_transition(old(self).activation_state()),
    {
        if self.window.is_some() {
            // A window exists: re-present it, do not construct a second one.
            let mut w = self.window.take().unwrap();
            w.show();
            w.present();
            self.window = Some(w);
            self.events.push(AppEvent::WindowPresented);
        } else {
            let mut window = TerminiApplicationWindow::new(store);
            window.present();
            self.window = Some(window);
            self.constructed = self.constructed + 1;
            self.events.push(AppEvent::WindowConstructed);
            self.events.push(AppEvent::WindowPresented);
            proof {
                assert(self.events@ =~= old(self).events@
                    + seq![AppEvent::WindowConstructed, AppEvent::WindowPresented]);
            }
        }
    }

    /// The main window; the application must hold one.
    pub fn main_window(&self) -> (w: &TerminiApplicationWindow)
        requires
            self.window is Some,
        ensures
            *w == self.window->0,
    {
        self.window.as_ref().unwrap()
    }

    /// The `quit` action: closes the main window first — triggering its close
    /// request and thus the geometry persistence attempt — and only then
    /// terminates the application. Quitting without closing would skip the
    /// persistence, so the order is part of the contract: the close-request
    /// event strictly precedes the termination event.
    pub fn quit(&mut self, store: &mut SettingsStore)
        requires
            old(self).wf(),
            !old(self).terminated,
            old(self).window matches Some(w) && w.is_live(),
        ensures
            final(self).wf(),
            final(self).terminated,
            old(self).window matches Some(w) ==> *final(self) == (TerminiApplication {
                window: Some(TerminiApplicationWindow {
                    state: WindowState::Destroyed,
                    ..w
                }),
                terminated: true,
                events: final(self).events,
                ..*old(self)
            }),
            final(self).events@ == old(self).events@
                + seq![AppEvent::WindowCloseRequested, AppEvent::Terminated],
            old(self).window matches Some(w) ==> (old(store).writable ==> *final(store)
                == w.store_after_save(*old(store))),
            !old(store).writable ==> *final(store) == *old(store),
    {
        let mut w = self.window.take().unwrap();
        // Closing runs the close request, which attempts the geometry write.
        w.close(store);
        self.window = Some(w);
        self.events.push(AppEvent::WindowCloseRequested);
        self.terminated = true;
        self.events.push(AppEvent::Terminated);
        proof {
            assert(self.events@ =~= old(self).events@
                + seq![AppEvent::WindowCloseRequested, AppEvent::Terminated]);
        }
    }

    /// The `about` action: the content of the modal about dialog, parented to
    /// the main window (so a window must exist).
    pub fn about_dialog_info(&self) -> (r: AboutInfo)
        requires
            self.window is Some,
        ensures
            r.program_name@ == "Termini"@,
            r.logo_icon_name@ == "com.github.aunetx.Termini"@,
            r.license@ == "MIT/X11"@,
            r.website@ == "https://github.com/aunetx/termini/"@,
            r.version@ == "0.1.0"@,
            r.author@ == "Aurelien Hamy"@,
            r.artist@ == "Aurelien Hamy"@,
            r.modal,
    {
        AboutInfo {
            program_name: "Termini",
            logo_icon_name: "com.github.aunetx.Termini",
            license: "MIT/X11",
            website: "https://github.com/aunetx/termini/",
            version: "0.1.0",
            author: "Aurelien Hamy",
            artist: "Aurelien Hamy",
            modal: true,
        }
    }
}

} // verus!
