use vstd::prelude::*;

use crate::error::Error;

verus! {

/// Width the settings store reports when no width was ever persisted.
pub const DEFAULT_WINDOW_WIDTH: i32 = 0;

/// Height the settings store reports when no height was ever persisted.
pub const DEFAULT_WINDOW_HEIGHT: i32 = 0;

/// Maximized flag the settings store reports when none was ever persisted.
pub const DEFAULT_IS_MAXIMIZED: bool = false;

/// The one persisted entity: the window geometry recorded at close and
/// restored at construction, always read and written as a unit.
#[derive(Clone, Copy, Debug, PartialEq, Eq, Structural)]
pub struct WindowGeometry {
    /// Last known window width, in pixels.
    pub width: i32,
    /// Last known window height, in pixels.
    pub height: i32,
    /// Whether the window was maximized at last close.
    pub is_maximized: bool,
}

/// Model of the external settings store: three optional entries keyed by the
/// application identity (`window-width`, `window-height`, `is-maximized`),
/// plus an availability flag.
///
/// An entry that was never written reads back as its default, exactly as the
/// external service supplies schema defaults on first run. When the store is
/// not writable every write fails and leaves the entries untouched; reads
/// always succeed.
pub struct SettingsStore {
    /// The `window-width` entry, absent on first run.
    pub width: Option<i32>,
    /// The `window-height` entry, absent on first run.
    pub height: Option<i32>,
    /// The `is-maximized` entry, absent on first run.
    pub maximized: Option<bool>,
    /// Whether writes reach the store; models the service being unavailable.
    pub writable: bool,
}

impl SettingsStore {
    /// The width a construction-time read observes.
    pub open spec fn stored_width(self) -> i32 {
        if self.width is Some {
            self.width->0
        } else {
            DEFAULT_WINDOW_WIDTH
        }
    }

    /// The height a construction-time read observes.
    pub open spec fn stored_height(self) -> i32 {
        if self.height is Some {
            self.height->0
        } else {
            DEFAULT_WINDOW_HEIGHT
        }
    }

    /// The maximized flag a construction-time read observes.
    pub open spec fn stored_maximized(self) -> bool {
        if self.maximized is Some {
            self.maximized->0
        } else {
            DEFAULT_IS_MAXIMIZED
        }
    }

    /// The geometry triple the store currently reports, defaults included.
    pub open spec fn stored_geometry(self) -> WindowGeometry {
        WindowGeometry {
            width: self.stored_width(),
            height: self.stored_height(),
            is_maximized: self.stored_maximized(),
        }
    }

    /// All three entries are present and hold exactly `g`.
    pub open spec fn holds(self, g: WindowGeometry) -> bool {
        &&& self.width == Some(g.width)
        &&& self.height == Some(g.height)
        &&& self.maximized == Some(g.is_maximized)
    }

    /// A first-run store: no entries yet, writes reach it.
    pub fn new() -> (s: Self)
        ensures
            s.width is None,
            s.height is None,
            s.maximized is None,
            s.writable,
    {
        SettingsStore { width: None, height: None, maximized: None, writable: true }
    }

    /// A store already holding a persisted geometry, as a later run finds it.
    pub fn restored(width: i32, height: i32, maximized: bool) -> (s: Self)
        ensures
            s.width == Some(width),
            s.height == Some(height),
            s.maximized == Some(maximized),
            s.writable,
    {
        SettingsStore {
            width: Some(width),
            height: Some(height),
            maximized: Some(maximized),
            writable: true,
        }
    }

    /// Marks the store unavailable: from here on every write fails and the
    /// entries keep their current values.
    pub fn make_unwritable(&mut self)
        ensures
            *final(self) == (SettingsStore { writable: false, ..*old(self) }),
    {
        self.writable = false;
    }

    /// Reads the `window-width` entry, default on first run.
    pub fn window_width(&self) -> (r: i32)
        ensures
            r == self.stored_width(),
    {
        match self.width {
            Some(w) => w,
            None => DEFAULT_WINDOW_WIDTH,
        }
    }

    /// Reads the `window-height` entry, default on first run.
    pub fn window_height(&self) -> (r: i32)
        ensures
            r == self.stored_height(),
    {
        match self.height {
            Some(h) => h,
            None => DEFAULT_WINDOW_HEIGHT,
        }
    }

    /// Reads the `is-maximized` entry, default on first run.
    pub fn is_maximized(&self) -> (r: bool)
        ensures
            r == self.stored_maximized(),
    {
        match self.maximized {
            Some(m) => m,
            None => DEFAULT_IS_MAXIMIZED,
        }
    }

    /// Writes the `window-width` entry: succeeds and stores exactly `v` when
    /// the store is writable, otherwise fails and changes nothing.
    pub fn set_window_width(&mut self, v: i32) -> (r: Result<(), Error>)
        ensures
            old(self).writable ==> r is Ok && *final(self) == (SettingsStore {
                width: Some(v),
                ..*old(self)
            }),
            !old(self).writable ==> r == Result::<(), Error>::Err(Error::SettingsWrite)
                && *final(self) == *old(self),
    {
        if self.writable {
            self.width = Some(v);
            Ok(())
        } else {
            Err(Error::SettingsWrite)
        }
    }

    /// Writes the `window-height` entry: succeeds and stores exactly `v` when
    /// the store is writable, otherwise fails and changes nothing.
    pub fn set_window_height(&mut self, v: i32) -> (r: Result<(), Error>)
        ensures
            old(self).writable ==> r is Ok && *final(self) == (SettingsStore {
                height: Some(v),
                ..*old(self)
            }),
            !old(self).writable ==> r == Result::<(), Error>::Err(Error::SettingsWrite)
                && *final(self) == *old(self),
    {
        if self.writable {
            self.height = Some(v);
            Ok(())
        } else {
            Err(Error::SettingsWrite)
        }
    }

    /// Writes the `is-maximized` entry: succeeds and stores exactly `v` when
    /// the store is writable, otherwise fails and changes nothing.
    pub fn set_is_maximized(&mut self, v: bool) -> (r: Result<(), Error>)
        ensures
            old(self).writable ==> r is Ok && *final(self) == (SettingsStore {
                maximized: Some(v),
                ..*old(self)
            }),
            !old(self).writable ==> r == Result::<(), Error>::Err(Error::SettingsWrite)
                && *final(self) == *old(self),
    {
        if self.writable {
            self.maximized = Some(v);
            Ok(())
        } else {
            Err(Error::SettingsWrite)
        }
    }
}

} // verus!
