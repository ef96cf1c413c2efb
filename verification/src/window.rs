use vstd::prelude::*;

use crate::error::Error;
use crate::settings::{SettingsStore, WindowGeometry};

verus! {

/// Lifecycle of the one application window. No transition leads backward;
/// `Destroyed` is terminal.
#[derive(Clone, Copy, Debug, PartialEq, Eq, Structural)]
pub enum WindowState {
    /// Built, geometry restored, not yet shown.
    Constructed,
    /// Shown or presented at least once.
    Showing,
    /// Close requested and geometry persistence attempted; teardown pending.
    CloseRequested,
    /// Torn down; terminal.
    Destroyed,
}

/// Model of the main application window: the toolkit-tracked default size,
/// the maximized flag, the lifecycle state, and how often the window was
/// presented (raised).
///
/// The default size is the size used when not maximized; maximizing does not
/// alter it, so the geometry persisted at close is the unmaximized size
/// together with the maximized flag.
pub struct TerminiApplicationWindow {
    /// Lifecycle state; starts at `Constructed`, ends at `Destroyed`.
    pub state: WindowState,
    /// Default width, in pixels.
    pub width: i32,
    /// Default height, in pixels.
    pub height: i32,
    /// Whether the window is currently maximized.
    pub maximized: bool,
    /// How many times the window was presented.
    pub times_presented: u64,
}

impl TerminiApplicationWindow {
    /// The geometry triple a close would persist right now.
    pub open spec fn geometry(self) -> WindowGeometry {
        WindowGeometry { width: self.width, height: self.height, is_maximized: self.maximized }
    }

    /// The window has not been destroyed yet.
    pub open spec fn is_live(self) -> bool {
        self.state != WindowState::Destroyed
    }

    /// The window a construction from `store` yields: freshly constructed,
    /// never presented, geometry restored from the store (defaults included).
    pub open spec fn spec_restored(store: SettingsStore) -> Self {
        TerminiApplicationWindow {
            state: WindowState::Constructed,
            width: store.stored_width(),
            height: store.stored_height(),
            maximized: store.stored_maximized(),
            times_presented: 0,
        }
    }

    /// The window after one present call: showing, presented once more,
    /// geometry untouched.
    pub open spec fn spec_presented(self) -> Self {
        TerminiApplicationWindow {
            state: WindowState::Showing,
            times_presented: (self.times_presented + 1) as u64,
            ..self
        }
    }

    /// The store a successful geometry save leaves behind: all three entries
    /// present and holding this window's current geometry.
    pub open spec fn store_after_save(self, store: SettingsStore) -> SettingsStore {
        SettingsStore {
            width: Some(self.width),
            height: Some(self.height),
            maximized: Some(self.maximized),
            ..store
        }
    }

    /// Constructs the window and immediately restores the persisted geometry,
    /// as the construction hook does before the window is first shown.
    pub fn new(store: &SettingsStore) -> (w: Self)
        ensures
            w == Self::spec_restored(*store),
    {
        let mut w = TerminiApplicationWindow {
            state: WindowState::Constructed,
            width: 0,
            height: 0,
            maximized: false,
            times_presented: 0,
        };
        w.load_window_size(store);
        w
    }

    /// Reads the persisted geometry (three reads: width, height, maximized)
    /// and applies it: the stored size becomes the default size, and a stored
    /// maximized flag additionally maximizes the window. Stored values are
    /// applied without validation; the store supplies defaults on first run.
    pub fn load_window_size(&mut self, store: &SettingsStore)
        ensures
            final(self).width == store.stored_width(),
            final(self).height == store.stored_height(),
            final(self).maximized == (old(self).maximized || store.stored_maximized()),
            final(self).state == old(self).state,
            final(self).times_presented == old(self).times_presented,
    {
        let width = store.window_width();
        let height = store.window_height();
        let is_maximized = store.is_maximized();

        self.set_default_size(width, height);

        if is_maximized {
            self.maximize();
        }
    }

    /// Writes the current geometry to the store (three writes: width, height,
    /// maximized). On a writable store all three entries end up holding the
    /// current geometry and the call succeeds; on an unavailable store the
    /// call fails and the store is left exactly as it was.
    pub fn save_window_size(&self, store: &mut SettingsStore) -> (r: Result<(), Error>)
        ensures
            old(store).writable ==> r is Ok && *final(store) == self.store_after_save(*old(store)),
            !old(store).writable ==> r == Result::<(), Error>::Err(Error::SettingsWrite)
                && *final(store) == *old(store),
    {
        let (width, height) = self.default_size();

        store.set_window_width(width)?;
        store.set_window_height(height)?;
        store.set_is_maximized(self.is_maximized())?;

        Ok(())
    }

    /// The toolkit-tracked default size: the size used when not maximized.
    pub fn default_size(&self) -> (r: (i32, i32))
        ensures
            r.0 == self.width,
            r.1 == self.height,
    {
        (self.width, self.height)
    }

    /// Sets the default size. No validation: any pair is accepted.
    pub fn set_default_size(&mut self, width: i32, height: i32)
        ensures
            *final(self) == (TerminiApplicationWindow { width, height, ..*old(self) }),
    {
        self.width = width;
        self.height = height;
    }

    /// Whether the window is currently maximized.
    pub fn is_maximized(&self) -> (r: bool)
        ensures
            r == self.maximized,
    {
        self.maximized
    }

    /// Maximizes the window; the default size is left untouched.
    pub fn maximize(&mut self)
        ensures
            *final(self) == (TerminiApplicationWindow { maximized: true, ..*old(self) }),
    {
        self.maximized = true;
    }

    /// Unmaximizes the window; the default size is left untouched.
    pub fn unmaximize(&mut self)
        ensures
            *final(self) == (TerminiApplicationWindow { maximized: false, ..*old(self) }),
    {
        self.maximized = false;
    }

    /// Shows the window.
    pub fn show(&mut self)
        requires
            old(self).is_live(),
        ensures
            *final(self) == (TerminiApplicationWindow {
                state: WindowState::Showing,
                ..*old(self)
            }),
    {
        self.state = WindowState::Showing;
    }

    /// Presents (raises) the window.
    pub fn present(&mut self)
        requires
            old(self).is_live(),
            old(self).times_presented < u64::MAX,
        ensures
            *final(self) == (TerminiApplicationWindow {
                state: WindowState::Showing,
                times_presented: (old(self).times_presented + 1) as u64,
                ..*old(self)
            }),
    {
        self.state = WindowState::Showing;
        self.times_presented = self.times_presented + 1;
    }

    /// Handles a close request: attempts to persist the current geometry,
    /// then lets the close proceed whether or not the write succeeded — a
    /// persistence failure never blocks the user from closing the window.
    pub fn close_request(&mut self, store: &mut SettingsStore) -> (proceed: bool)
        requires
            old(self).is_live(),
        ensures
            proceed,
            *final(self) == (TerminiApplicationWindow {
                state: WindowState::CloseRequested,
                ..*old(self)
            }),
            old(store).writable ==> *final(store) == old(self).store_after_save(*old(store)),
            !old(store).writable ==> *final(store) == *old(store),
    {
        // A failed save would only be logged; the close proceeds either way.
        let _ = self.save_window_size(store);

        self.state = WindowState::CloseRequested;
        true
    }

    /// Tears the window down once its close request was allowed to proceed.
    pub fn destroy(&mut self)
        requires
            old(self).state == WindowState::CloseRequested,
        ensures
            *final(self) == (TerminiApplicationWindow {
                state: WindowState::Destroyed,
                ..*old(self)
            }),
    {
        self.state = WindowState::Destroyed;
    }

    /// Closes the window: runs the close request (which attempts geometry
    /// persistence) and, since the close always proceeds, tears the window
    /// down. The window reaches `Destroyed` even when the store write failed.
    pub fn close(&mut self, store: &mut SettingsStore)
        requires
            old(self).is_live(),
        ensures
            *final(self) == (TerminiApplicationWindow {
                state: WindowState::Destroyed,
                ..*old(self)
            }),
            old(store).writable ==> *final(store) == old(self).store_after_save(*old(store)),
            !old(store).writable ==> *final(store) == *old(store),
    {
        let proceed = self.close_request(store);
        if proceed {
            self.destroy();
        }
    }
}

/// Geometry round-trip law: for any window geometry, the store a successful
/// close-time save leaves behind restores exactly that geometry — same
/// default size, same maximized flag — into a window constructed afterwards.
pub proof fn lemma_geometry_round_trip(w: TerminiApplicationWindow, store: SettingsStore)
    requires
        store.writable,
    ensures
        TerminiApplicationWindow::spec_restored(w.store_after_save(store)).geometry()
            == w.geometry(),
{
}

} // verus!
