//! The window registry: resolves logical window names to the application's
//! windows and tracks each window's visibility and focus.
//!
//! A window that was never created, or that was already closed, is a normal
//! `NotFound` outcome: the host-facing operations here recover locally by
//! returning a log event instead of an error, and never panic.

use vstd::prelude::*;
use vstd::string::*;
use crate::text::str_eq;

verus! {

/// The logical windows this application manages: exactly one main window and
/// one optional splash screen.
#[derive(Clone, Copy, Debug, PartialEq, Eq, Structural)]
pub enum WindowId {
    Main,
    Splashscreen,
}

/// The logical name under which each window is registered with the host
/// runtime.
pub open spec fn spec_window_name(w: WindowId) -> Seq<char> {
    match w {
        WindowId::Main => "main"@,
        WindowId::Splashscreen => "splashscreen"@,
    }
}

/// The registered name of a window, as the host runtime knows it.
pub fn window_name(w: WindowId) -> (r: String)
    ensures
        r@ == spec_window_name(w),
{
    match w {
        WindowId::Main => String::from_str("main"),
        WindowId::Splashscreen => String::from_str("splashscreen"),
    }
}

/// Which logical window a name denotes, if any.
pub open spec fn spec_window_id_of(name: Seq<char>) -> Option<WindowId> {
    if name == "main"@ {
        Some(WindowId::Main)
    } else if name == "splashscreen"@ {
        Some(WindowId::Splashscreen)
    } else {
        None
    }
}

/// Resolves a logical window name; unknown names resolve to `None`.
pub fn window_id_of(name: &str) -> (r: Option<WindowId>)
    ensures
        r == spec_window_id_of(name@),
{
    if str_eq(name, "main") {
        Some(WindowId::Main)
    } else if str_eq(name, "splashscreen") {
        Some(WindowId::Splashscreen)
    } else {
        None
    }
}

/// A window's lifecycle position. `Closed` is terminal: a closed window
/// cannot be shown or hidden again without being recreated.
#[derive(Clone, Copy, Debug, PartialEq, Eq, Structural)]
pub enum Visibility {
    Uninitialized,
    Shown,
    Hidden,
    Closed,
}

/// Visibility plus the focus flag the host keeps per window.
#[derive(Clone, Copy, Debug, PartialEq, Eq, Structural)]
pub struct WindowState {
    pub visibility: Visibility,
    pub focused: bool,
}

/// A host-originated failure that is recovered locally: the event is logged
/// and processing continues; it is never surfaced as an error.
#[derive(Debug, PartialEq, Eq)]
pub enum LogEvent {
    WindowNotFound { name: String },
}

impl LogEvent {
    /// The window name the event reports as not found.
    pub open spec fn spec_name(self) -> Seq<char> {
        match self {
            LogEvent::WindowNotFound { name } => name@,
        }
    }
}

/// The fixed set of windows, one slot per logical name. There is at most one
/// live window per name by construction.
#[derive(Clone, Copy, Debug, PartialEq, Eq, Structural)]
pub struct WindowRegistry {
    pub main: WindowState,
    pub splashscreen: WindowState,
}

impl WindowRegistry {
    pub open spec fn state_of(self, w: WindowId) -> WindowState {
        match w {
            WindowId::Main => self.main,
            WindowId::Splashscreen => self.splashscreen,
        }
    }

    pub open spec fn vis(self, w: WindowId) -> Visibility {
        self.state_of(w).visibility
    }

    /// A window is live when it has been created and not yet closed; only
    /// live windows can be resolved, shown or hidden.
    pub open spec fn is_live(self, w: WindowId) -> bool {
        self.vis(w) is Shown || self.vis(w) is Hidden
    }

    pub open spec fn spec_with_state(self, w: WindowId, st: WindowState) -> Self {
        match w {
            WindowId::Main => WindowRegistry { main: st, ..self },
            WindowId::Splashscreen => WindowRegistry { splashscreen: st, ..self },
        }
    }

    pub open spec fn spec_set_vis(self, w: WindowId, v: Visibility) -> Self {
        self.spec_with_state(w, WindowState { visibility: v, ..self.state_of(w) })
    }

    pub open spec fn spec_set_focus(self, w: WindowId, f: bool) -> Self {
        self.spec_with_state(w, WindowState { focused: f, ..self.state_of(w) })
    }

    /// Showing keeps the focus flag; focus is requested separately.
    pub open spec fn spec_show(self, w: WindowId) -> Self {
        self.spec_set_vis(w, Visibility::Shown)
    }

    pub open spec fn spec_focus(self, w: WindowId) -> Self {
        self.spec_set_focus(w, true)
    }

    pub open spec fn spec_hide(self, w: WindowId) -> Self {
        self.spec_set_vis(w, Visibility::Hidden).spec_set_focus(w, false)
    }

    pub open spec fn spec_close(self, w: WindowId) -> Self {
        self.spec_set_vis(w, Visibility::Closed).spec_set_focus(w, false)
    }

    /// A registry in which no window has been created yet.
    pub fn new() -> (r: Self)
        ensures
            r.main == (WindowState { visibility: Visibility::Uninitialized, focused: false }),
            r.splashscreen == (WindowState { visibility: Visibility::Uninitialized, focused: false }),
    {
        WindowRegistry {
            main: WindowState { visibility: Visibility::Uninitialized, focused: false },
            splashscreen: WindowState { visibility: Visibility::Uninitialized, focused: false },
        }
    }

    /// Records that the host created (or recreated) the window for `w`; the
    /// new window starts hidden and unfocused. At most one window per name
    /// is live, so a live window cannot be created again.
    pub fn register_window(&mut self, w: WindowId)
        requires
            !old(self).is_live(w),
        ensures
            *final(self) == old(self).spec_with_state(
                w,
                WindowState { visibility: Visibility::Hidden, focused: false },
            ),
    {
        self.set_state(w, WindowState { visibility: Visibility::Hidden, focused: false });
    }

    fn set_state(&mut self, w: WindowId, st: WindowState)
        ensures
            *final(self) == old(self).spec_with_state(w, st),
    {
        match w {
            WindowId::Main => {
                self.main = st;
            },
            WindowId::Splashscreen => {
                self.splashscreen = st;
            },
        }
    }

    /// Resolves a name to a live window; `None` is a normal outcome for a
    /// window that was never created or was already closed.
    pub fn get_window(&self, name: &str) -> (r: Option<WindowId>)
        ensures
            r == spec_lookup_live(*self, name@),
    {
        match window_id_of(name) {
            Some(w) => {
                if self.is_live_exec(w) {
                    Some(w)
                } else {
                    None
                }
            },
            None => None,
        }
    }

    fn is_live_exec(&self, w: WindowId) -> (r: bool)
        ensures
            r == self.is_live(w),
    {
        match self.state_of_exec(w).visibility {
            Visibility::Shown => true,
            Visibility::Hidden => true,
            _ => false,
        }
    }

    fn state_of_exec(&self, w: WindowId) -> (r: WindowState)
        ensures
            r == self.state_of(w),
    {
        match w {
            WindowId::Main => self.main,
            WindowId::Splashscreen => self.splashscreen,
        }
    }

    /// Makes the window of the given id visible; focus is requested
    /// separately. A window that is not live is left untouched and the miss
    /// is reported as a log event, never as an error.
    pub fn show_by_id(&mut self, w: WindowId) -> (r: Option<LogEvent>)
        ensures
            old(self).is_live(w) ==> {
                &&& *final(self) == old(self).spec_show(w)
                &&& r is None
            },
            !old(self).is_live(w) ==> {
                &&& *final(self) == *old(self)
                &&& (r matches Some(LogEvent::WindowNotFound { name }) && name@
                    == spec_window_name(w))
            },
    {
        if self.is_live_exec(w) {
            let st = self.state_of_exec(w);
            self.set_state(w, WindowState { visibility: Visibility::Shown, ..st });
            proof {
                assert(*self =~= old(self).spec_show(w));
            }
            None
        } else {
            Some(LogEvent::WindowNotFound { name: window_name(w) })
        }
    }

    /// Requests focus for the window of the given id; a window that is not
    /// live is left untouched and the miss is reported as a log event.
    pub fn focus_by_id(&mut self, w: WindowId) -> (r: Option<LogEvent>)
        ensures
            old(self).is_live(w) ==> {
                &&& *final(self) == old(self).spec_focus(w)
                &&& r is None
            },
            !old(self).is_live(w) ==> {
                &&& *final(self) == *old(self)
                &&& (r matches Some(LogEvent::WindowNotFound { name }) && name@
                    == spec_window_name(w))
            },
    {
        if self.is_live_exec(w) {
            let st = self.state_of_exec(w);
            self.set_state(w, WindowState { focused: true, ..st });
            proof {
                assert(*self =~= old(self).spec_focus(w));
            }
            None
        } else {
            Some(LogEvent::WindowNotFound { name: window_name(w) })
        }
    }

    /// Hides the window of the given id; the window stays resident and can
    /// be shown again. A window that is not live is left untouched and the
    /// miss is reported as a log event.
    pub fn hide_by_id(&mut self, w: WindowId) -> (r: Option<LogEvent>)
        ensures
            old(self).is_live(w) ==> {
                &&& *final(self) == old(self).spec_hide(w)
                &&& r is None
            },
            !old(self).is_live(w) ==> {
                &&& *final(self) == *old(self)
                &&& (r matches Some(LogEvent::WindowNotFound { name }) && name@
                    == spec_window_name(w))
            },
    {
        if self.is_live_exec(w) {
            self.set_state(w, WindowState { visibility: Visibility::Hidden, focused: false });
            proof {
                assert(*self =~= old(self).spec_hide(w));
            }
            None
        } else {
            Some(LogEvent::WindowNotFound { name: window_name(w) })
        }
    }

    /// Closes the window of the given id; this is terminal for that window.
    /// A window that is already gone is reported as a log event and the
    /// close proceeds as a best-effort no-op.
    pub fn close_by_id(&mut self, w: WindowId) -> (r: Option<LogEvent>)
        ensures
            old(self).is_live(w) ==> {
                &&& *final(self) == old(self).spec_close(w)
                &&& r is None
            },
            !old(self).is_live(w) ==> {
                &&& *final(self) == *old(self)
                &&& (r matches Some(LogEvent::WindowNotFound { name }) && name@
                    == spec_window_name(w))
            },
    {
        if self.is_live_exec(w) {
            self.set_state(w, WindowState { visibility: Visibility::Closed, focused: false });
            proof {
                assert(*self =~= old(self).spec_close(w));
            }
            None
        } else {
            Some(LogEvent::WindowNotFound { name: window_name(w) })
        }
    }

    /// Shows the named window and requests focus for it. For any name that
    /// does not denote a live window this completes without error, leaves
    /// the registry unchanged and yields a log event.
    pub fn show_window(&mut self, name: &str) -> (r: Option<LogEvent>)
        ensures
            spec_lookup_live(*old(self), name@) matches Some(w) ==> {
                &&& *final(self) == old(self).spec_show(w).spec_focus(w)
                &&& r is None
            },
            spec_lookup_live(*old(self), name@) is None ==> {
                &&& *final(self) == *old(self)
                &&& (r matches Some(LogEvent::WindowNotFound { name: n }) && n@ == name@)
            },
    {
        match self.get_window(name) {
            Some(w) => {
                let r = self.show_by_id(w);
                let rf = self.focus_by_id(w);
                r
            },
            None => Some(LogEvent::WindowNotFound { name: name.to_owned() }),
        }
    }

    /// Hides the named window. For any name that does not denote a live
    /// window this completes without error, leaves the registry unchanged
    /// and yields a log event.
    pub fn hide_window(&mut self, name: &str) -> (r: Option<LogEvent>)
        ensures
            spec_lookup_live(*old(self), name@) matches Some(w) ==> {
                &&& *final(self) == old(self).spec_hide(w)
                &&& r is None
            },
            spec_lookup_live(*old(self), name@) is None ==> {
                &&& *final(self) == *old(self)
                &&& (r matches Some(LogEvent::WindowNotFound { name: n }) && n@ == name@)
            },
    {
        match self.get_window(name) {
            Some(w) => self.hide_by_id(w),
            None => Some(LogEvent::WindowNotFound { name: name.to_owned() }),
        }
    }
}

/// The name lookup that every operation performs anew on each use: the
/// resolved window, provided the name is known and its window is live.
pub open spec fn spec_lookup_live(reg: WindowRegistry, name: Seq<char>) -> Option<WindowId> {
    match spec_window_id_of(name) {
        Some(w) => if reg.is_live(w) {
            Some(w)
        } else {
            None
        },
        None => None,
    }
}

} // verus!
