//! The MCP tool surface: the parameters of each tool, the button conversion, the structured
//! result envelope, and the choice between a window click and a screen click.
use vstd::prelude::*;

use crate::keyboard::{mouse_click_position, MouseButton};
use crate::types::{
    ErrorResponse, ScreenshotBackend, SuccessResponse, WindowSelector, WinrError, WinrResult,
    error_code, error_message,
};

verus! {

/// Parameters of `windows_list`.
#[derive(Debug, PartialEq, Eq)]
pub struct WindowsListParams {
    pub visible_only: bool,
    pub selector: WindowSelector,
}

/// Parameters of the tools that act on one selected window.
#[derive(Debug, PartialEq, Eq)]
pub struct WindowSelectorParams {
    pub selector: WindowSelector,
}

/// Parameters of `window_move`.
#[derive(Debug, PartialEq, Eq)]
pub struct WindowMoveParams {
    pub selector: WindowSelector,
    pub x: i32,
    pub y: i32,
    pub width: Option<i32>,
    pub height: Option<i32>,
}

/// Parameters of `window_screenshot`.
#[derive(Debug, PartialEq, Eq)]
pub struct WindowScreenshotParams {
    pub selector: WindowSelector,
    pub out: Option<String>,
    pub backend: Option<ScreenshotBackend>,
}

/// Parameters of `input_send_keys`.
#[derive(Debug, PartialEq, Eq)]
pub struct InputKeysParams {
    pub selector: Option<WindowSelector>,
    pub combo: String,
    pub focus_first: bool,
}

/// Parameters of `input_send_text`.
#[derive(Debug, PartialEq, Eq)]
pub struct InputTextParams {
    pub selector: Option<WindowSelector>,
    pub text: String,
    pub focus_first: bool,
}

/// Parameters of `mouse_click`.
#[derive(Debug, PartialEq, Eq)]
pub struct MouseClickParams {
    pub selector: Option<WindowSelector>,
    pub button: Option<MouseButtonParam>,
    pub x: Option<i32>,
    pub y: Option<i32>,
    pub focus_first: bool,
}

/// Mouse button of a tool call.
#[derive(Debug, Clone, Copy, PartialEq, Eq, Structural)]
pub enum MouseButtonParam {
    Left,
    Right,
    Middle,
}

/// The mouse button a tool's button names.
pub open spec fn button_of_param(value: MouseButtonParam) -> MouseButton {
    match value {
        MouseButtonParam::Left => MouseButton::Left,
        MouseButtonParam::Right => MouseButton::Right,
        MouseButtonParam::Middle => MouseButton::Middle,
    }
}

impl From<MouseButtonParam> for MouseButton {
    fn from(value: MouseButtonParam) -> (r: MouseButton) {
        match value {
            MouseButtonParam::Left => MouseButton::Left,
            MouseButtonParam::Right => MouseButton::Right,
            MouseButtonParam::Middle => MouseButton::Middle,
        }
    }
}

impl vstd::std_specs::convert::FromSpecImpl<MouseButtonParam> for MouseButton {
    open spec fn obeys_from_spec() -> bool {
        true
    }

    open spec fn from_spec(value: MouseButtonParam) -> MouseButton {
        button_of_param(value)
    }
}

/// The structured result of a tool: the success envelope or the error envelope.
#[derive(Debug, PartialEq, Eq)]
pub struct McpToolResult<T>(pub Result<SuccessResponse<T>, ErrorResponse>);

/// Wraps a library result as a tool result: the value in a success envelope, an error as its
/// JSON error envelope.
pub fn from_winr<T>(result: WinrResult<T>) -> (r: McpToolResult<T>)
    ensures
        match result {
            Ok(v) => r.0 matches Ok(s) && s.ok && s.data == v,
            Err(e) => r.0 matches Err(p) && !p.ok && p.error@ == error_code(e) && p.message@
                == error_message(e),
        },
{
    match result {
        Ok(value) => McpToolResult(Ok(SuccessResponse::new(value))),
        Err(error) => McpToolResult(Err(error.to_error_response())),
    }
}

/// What a `mouse_click` call asks for.
#[derive(Debug, PartialEq, Eq)]
pub enum MouseClickRequest {
    /// A click at window-relative coordinates in the selected window.
    Window { selector: WindowSelector, x: i32, y: i32, button: MouseButton, focus_first: bool },
    /// A click on the screen, at the coordinates or where the cursor is.
    Screen { button: MouseButton, position: Option<(i32, i32)> },
}

/// The button a click uses: the one named, else the left button.
pub open spec fn click_button(params: MouseClickParams) -> MouseButton {
    match params.button {
        Some(b) => button_of_param(b),
        None => MouseButton::Left,
    }
}

/// Decides a `mouse_click` call: with a selector both coordinates are required and the click
/// is window-relative; without one, a screen click takes both coordinates or neither.
pub fn mouse_click_request(params: MouseClickParams) -> (r: WinrResult<MouseClickRequest>)
    ensures
        match params.selector {
            Some(selector) => match (params.x, params.y) {
                (Some(x), Some(y)) => r == Ok::<MouseClickRequest, WinrError>(MouseClickRequest::Window {
                    selector,
                    x,
                    y,
                    button: click_button(params),
                    focus_first: params.focus_first,
                }),
                _ => r matches Err(e) && e is Unsupported && e->Unsupported_message@
                    == "mouse_click with a selector requires x and y coordinates"@,
            },
            None => match (params.x, params.y) {
                (Some(x), Some(y)) => r == Ok::<MouseClickRequest, WinrError>(MouseClickRequest::Screen {
                    button: click_button(params),
                    position: Some((x, y)),
                }),
                (None, None) => r == Ok::<MouseClickRequest, WinrError>(MouseClickRequest::Screen {
                    button: click_button(params),
                    position: None,
                }),
                _ => r matches Err(e) && e is Unsupported && e->Unsupported_message@
                    == "mouse click requires both x and y when either is provided"@,
            },
        },
{
    let button: MouseButton = match params.button {
        Some(b) => MouseButton::from(b),
        None => MouseButton::Left,
    };
    match params.selector {
        Some(selector) => match (params.x, params.y) {
            (Some(x), Some(y)) => Ok(
                MouseClickRequest::Window { selector, x, y, button, focus_first: params.focus_first },
            ),
            _ => {
                proof {
                    reveal_strlit("mouse_click with a selector requires x and y coordinates");
                }
                Err(crate::types::unsupported("mouse_click with a selector requires x and y coordinates"))
            },
        },
        None => match mouse_click_position(params.x, params.y) {
            Ok(position) => Ok(MouseClickRequest::Screen { button, position }),
            Err(e) => Err(e),
        },
    }
}

/// The capture backend of a screenshot call: the one named, else automatic.
pub fn screenshot_backend_or_default(backend: Option<ScreenshotBackend>) -> (r: ScreenshotBackend)
    ensures
        r == match backend {
            Some(b) => b,
            None => ScreenshotBackend::Auto,
        },
{
    match backend {
        Some(b) => b,
        None => ScreenshotBackend::Auto,
    }
}

} // verus!
