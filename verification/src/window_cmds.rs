//! The window commands of the host: what each asks of the main window, and
//! the failure when there is no main window.

use vstd::prelude::*;
use vstd::string::*;

verus! {

/// The least width a window is given, in physical pixels.
pub const MIN_WIDTH: u32 = 640;

/// The least height a window is given, in physical pixels.
pub const MIN_HEIGHT: u32 = 620;

/// What is asked of the main window.
#[derive(Clone, Copy, Debug, PartialEq, Eq, Structural)]
pub enum WindowAction {
    Minimize,
    Maximize,
    Unmaximize,
    Close,
    SetSize { width: u32, height: u32 },
}

/// What a command gives for a window that may be missing: the action where
/// there is one, the failure where there is none.
pub open spec fn on_window(has_window: bool, action: WindowAction, out: Result<
    WindowAction,
    String,
>) -> bool {
    if has_window {
        out == Ok::<WindowAction, String>(action)
    } else {
        out is Err && out->Err_0@ == "No main window"@
    }
}

fn no_window() -> (message: String)
    ensures
        message@ == "No main window"@,
{
    String::from_str("No main window")
}

/// Minimizes the main window.
pub fn window_minimize(has_window: bool) -> (out: Result<WindowAction, String>)
    ensures
        on_window(has_window, WindowAction::Minimize, out),
{
    if has_window {
        Ok(WindowAction::Minimize)
    } else {
        Err(no_window())
    }
}

/// Maximizes the main window, or restores it where it is maximized. A
/// window that cannot tell counts as not maximized.
pub fn window_maximize(has_window: bool, maximized: Option<bool>) -> (out: Result<
    WindowAction,
    String,
>)
    ensures
        on_window(
            has_window,
            if maximized == Some(true) {
                WindowAction::Unmaximize
            } else {
                WindowAction::Maximize
            },
            out,
        ),
{
    if !has_window {
        return Err(no_window());
    }
    match maximized {
        Some(true) => Ok(WindowAction::Unmaximize),
        _ => Ok(WindowAction::Maximize),
    }
}

/// Closes the main window.
pub fn window_close(has_window: bool) -> (out: Result<WindowAction, String>)
    ensures
        on_window(has_window, WindowAction::Close, out),
{
    if has_window {
        Ok(WindowAction::Close)
    } else {
        Err(no_window())
    }
}

/// The inner size of the main window as width and height, from what the
/// window reported: its size, or why it could give none.
pub fn window_get_size(has_window: bool, inner_size: Result<(u32, u32), String>) -> (out: Result<
    (u32, u32),
    String,
>)
    ensures
        if !has_window {
            out is Err && out->Err_0@ == "No main window"@
        } else {
            match inner_size {
                Ok(size) => out == Ok::<(u32, u32), String>(size),
                Err(reason) => out is Err && out->Err_0@ == reason@,
            }
        },
{
    if !has_window {
        return Err(no_window());
    }
    inner_size
}

/// Sets the size of the main window, but to no less than the least width
/// and height.
pub fn window_set_size(has_window: bool, width: u32, height: u32) -> (out: Result<
    WindowAction,
    String,
>)
    ensures
        on_window(
            has_window,
            WindowAction::SetSize {
                width: if width >= MIN_WIDTH {
                    width
                } else {
                    MIN_WIDTH
                },
                height: if height >= MIN_HEIGHT {
                    height
                } else {
                    MIN_HEIGHT
                },
            },
            out,
        ),
{
    if !has_window {
        return Err(no_window());
    }
    let width = if width >= MIN_WIDTH {
        width
    } else {
        MIN_WIDTH
    };
    let height = if height >= MIN_HEIGHT {
        height
    } else {
        MIN_HEIGHT
    };
    Ok(WindowAction::SetSize { width, height })
}

} // verus!
