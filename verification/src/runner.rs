//! The application runner's settings and its per-frame decisions: when the
//! render canvas follows the window and when the style sheet is reloaded.

use vstd::prelude::*;
use crate::gss::model::Object;

verus! {

/// The frame rate an application runs at unless told otherwise.
pub const DEFAULT_FPS: i32 = 24;

/// How an application is set up before its window opens.
#[derive(Debug, PartialEq, Eq)]
pub struct AppConfig {
    /// Window width in pixels.
    pub width: i32,
    /// Window height in pixels.
    pub height: i32,
    /// Width of the canvas the application draws on.
    pub virtual_width: i32,
    /// Height of the canvas the application draws on.
    pub virtual_height: i32,
    /// Whether the canvas follows the window's size.
    pub responsive: bool,
    /// Window title.
    pub title: String,
    /// The style sheet to load and watch, if any.
    pub style_file: Option<String>,
    /// Target frames per second.
    pub fps: i32,
    /// Whether the audio device is opened.
    pub audio_device: bool,
}

impl AppConfig {
    /// The settings of a new application: a canvas the size of the window,
    /// not responsive, no style sheet, the default frame rate, no audio.
    pub fn init(width: i32, height: i32, title: String) -> (c: AppConfig)
        ensures
            c.width == width,
            c.height == height,
            c.virtual_width == width,
            c.virtual_height == height,
            !c.responsive,
            c.title == title,
            c.style_file is None,
            c.fps == DEFAULT_FPS,
            !c.audio_device,
    {
        AppConfig {
            width,
            height,
            virtual_width: width,
            virtual_height: height,
            responsive: false,
            title,
            style_file: None,
            fps: DEFAULT_FPS,
            audio_device: false,
        }
    }

    /// Enables or disables a canvas that follows the window's size.
    pub fn set_responsive(self, responsive: bool) -> (c: AppConfig)
        ensures
            c == (AppConfig { responsive, ..self }),
    {
        AppConfig { responsive, ..self }
    }

    /// Sets the size of the canvas the application draws on.
    pub fn set_virtual_resolution(self, width: i32, height: i32) -> (c: AppConfig)
        ensures
            c == (AppConfig { virtual_width: width, virtual_height: height, ..self }),
    {
        AppConfig { virtual_width: width, virtual_height: height, ..self }
    }

    /// Opens the audio device when the application starts.
    pub fn set_audio_device(self) -> (c: AppConfig)
        ensures
            c == (AppConfig { audio_device: true, ..self }),
    {
        AppConfig { audio_device: true, ..self }
    }

    /// Sets the style sheet to load, and to reload when it changes or on F5.
    pub fn set_style_file(self, path: &str) -> (c: AppConfig)
        ensures
            c.style_file matches Some(p) && p@ == path@,
            c == (AppConfig { style_file: c.style_file, ..self }),
    {
        AppConfig { style_file: Some(path.to_owned()), ..self }
    }

    /// Sets the target frames per second.
    pub fn set_fps(self, fps: i32) -> (c: AppConfig)
        ensures
            c == (AppConfig { fps, ..self }),
    {
        AppConfig { fps, ..self }
    }
}

/// `n`, or 1 when `n` is smaller.
pub open spec fn at_least_one(n: i32) -> i32 {
    if n < 1 {
        1
    } else {
        n
    }
}

/// The canvas size a frame switches to: in responsive mode, the window's
/// size (at least 1 by 1) when it differs from the canvas; otherwise none.
pub open spec fn resize_for(
    responsive: bool,
    canvas_w: i32,
    canvas_h: i32,
    window_w: i32,
    window_h: i32,
) -> Option<(i32, i32)> {
    let w = at_least_one(window_w);
    let h = at_least_one(window_h);
    if responsive && (w != canvas_w || h != canvas_h) {
        Some((w, h))
    } else {
        None
    }
}

/// What one frame of the run loop does before drawing.
#[derive(Debug, Clone, Copy, PartialEq, Eq)]
pub struct FramePlan {
    /// The new canvas size, when the canvas is recreated.
    pub resize: Option<(i32, i32)>,
    /// Reload the style sheet (because F5 was pressed or its file changed),
    /// then run the load callback with the style now in use.
    pub reload: bool,
}

/// Decides what a frame does, from the canvas size, the window size, whether
/// F5 was pressed and whether the style file changed since the last frame.
pub fn plan_frame(
    responsive: bool,
    canvas_w: i32,
    canvas_h: i32,
    window_w: i32,
    window_h: i32,
    f5_pressed: bool,
    style_changed: bool,
) -> (p: FramePlan)
    ensures
        p.resize == resize_for(responsive, canvas_w, canvas_h, window_w, window_h),
        p.reload == (f5_pressed || style_changed),
{
    let w = if window_w < 1 {
        1
    } else {
        window_w
    };
    let h = if window_h < 1 {
        1
    } else {
        window_h
    };
    let resize = if responsive && (w != canvas_w || h != canvas_h) {
        Some((w, h))
    } else {
        None
    };
    FramePlan { resize, reload: f5_pressed || style_changed }
}

/// The style in use after a load attempt: the loaded style when there was a
/// file and it loaded, otherwise the style in use before.
pub fn style_after_load(loaded: Option<Result<Object, String>>, fallback: Object) -> (s: Object)
    ensures
        s@ == match loaded {
            Some(Ok(o)) => o@,
            _ => fallback@,
        },
{
    match loaded {
        Some(Ok(o)) => o,
        _ => fallback,
    }
}

/// In responsive mode the canvas takes the window's size (at least 1 by 1)
/// on the frame that sees it; otherwise it never changes.
pub proof fn law_canvas_follows_window(
    responsive: bool,
    canvas_w: i32,
    canvas_h: i32,
    window_w: i32,
    window_h: i32,
)
    ensures
        responsive ==> (match resize_for(responsive, canvas_w, canvas_h, window_w, window_h) {
            Some((w, h)) => w == at_least_one(window_w) && h == at_least_one(window_h),
            None => canvas_w == at_least_one(window_w) && canvas_h == at_least_one(window_h),
        }),
        !responsive ==> resize_for(responsive, canvas_w, canvas_h, window_w, window_h) is None,
{
}

/// Once the canvas has followed the window, the next frame with the same
/// window size keeps it.
pub proof fn law_resize_settles(
    responsive: bool,
    canvas_w: i32,
    canvas_h: i32,
    window_w: i32,
    window_h: i32,
)
    ensures
        match resize_for(responsive, canvas_w, canvas_h, window_w, window_h) {
            Some((w, h)) => resize_for(responsive, w, h, window_w, window_h) is None,
            None => true,
        },
{
}

} // verus!
