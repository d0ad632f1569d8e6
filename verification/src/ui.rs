//! Per-window view state: which windows are visible and what their input
//! fields hold.  The window toolkit reads and writes these through the
//! owning [`crate::app::SpacePixUi`]; nothing here touches the screen.

use vstd::prelude::*;

verus! {

/// View state of the picture-of-the-day window.
pub struct ApodWindow {
    /// Whether the main picture window is shown.
    pub apod_window_visible: bool,
    /// Whether the full-size picture viewport is shown.
    pub apod_full_window_visible: bool,
}

impl Default for ApodWindow {
    /// Both windows start hidden.
    fn default() -> (r: Self)
        ensures
            !r.apod_window_visible,
            !r.apod_full_window_visible,
    {
        Self { apod_window_visible: false, apod_full_window_visible: false }
    }
}

/// View state of the near-earth-object window.
pub struct NeowsWindow {
    /// The date the user typed, in `YYYY-MM-DD` form.
    pub neows_date: String,
    /// Whether the invalid-input notice is shown.
    pub neows_invalid_input_window_visible: bool,
    /// Whether the near-earth-object window is shown.
    pub neows_window_visible: bool,
}

impl Default for NeowsWindow {
    /// The window starts hidden with an empty date field.
    fn default() -> (r: Self)
        ensures
            r.neows_date@ == Seq::<char>::empty(),
            !r.neows_invalid_input_window_visible,
            !r.neows_window_visible,
    {
        Self {
            neows_date: String::new(),
            neows_invalid_input_window_visible: false,
            neows_window_visible: false,
        }
    }
}

/// View state of the image-and-video-library window.
pub struct NIVLWindow {
    /// The search term the user typed.
    pub query: String,
    /// Whether the window is shown.
    pub nivl_window_visible: bool,
}

impl Default for NIVLWindow {
    /// The window starts hidden with an empty query.
    fn default() -> (r: Self)
        ensures
            r.query@ == Seq::<char>::empty(),
            !r.nivl_window_visible,
    {
        Self { query: String::new(), nivl_window_visible: false }
    }
}

/// View state of the about window.
pub struct AboutWindow {
    /// Whether the window is shown.
    pub about_window_visible: bool,
}

impl Default for AboutWindow {
    /// The window starts hidden.
    fn default() -> (r: Self)
        ensures
            !r.about_window_visible,
    {
        Self { about_window_visible: false }
    }
}

/// View state of the key-entry window.
pub struct ApiKeyWindow {
    /// Whether the window is shown.
    pub api_key_window_visible: bool,
    /// The key the user typed.
    pub key: String,
    /// The notice shown after a failed attempt to store the key.
    pub key_set_label: String,
}

impl Default for ApiKeyWindow {
    /// The window starts hidden with empty fields.
    fn default() -> (r: Self)
        ensures
            !r.api_key_window_visible,
            r.key@ == Seq::<char>::empty(),
            r.key_set_label@ == Seq::<char>::empty(),
    {
        Self {
            api_key_window_visible: false,
            key: String::new(),
            key_set_label: String::new(),
        }
    }
}

} // verus!
