//! The invoke bridge: the commands that the console answers itself, the
//! rules for reading a command's arguments, and the texts of its errors.

use vstd::prelude::*;
use crate::text::{chars_eq, chars_of, concat_chars, string_of};

verus! {

/// What looking up one argument of a command gave: nothing under that key,
/// or a value (`null` or not) together with the result of decoding it into
/// the type the command expects.
pub enum ArgLookup<T> {
    Missing,
    Present { is_null: bool, decoded: Result<T, String> },
}

pub open spec fn missing_argument_text(key: Seq<char>) -> Seq<char> {
    "missing argument '"@ + key + "'"@
}

pub open spec fn invalid_argument_text(key: Seq<char>, err: Seq<char>) -> Seq<char> {
    "invalid argument '"@ + key + "': "@ + err
}

fn invalid_argument(key: &str, err: &String) -> (r: String)
    ensures
        r@ == invalid_argument_text(key@, err@),
{
    let m = concat_chars(&chars_of("invalid argument '"), &chars_of(key));
    let m = concat_chars(&m, &chars_of("': "));
    let m = concat_chars(&m, &chars_of(err.as_str()));
    string_of(&m)
}

/// A required argument: missing is an error, and so is a value that does
/// not decode.
pub fn arg<T>(key: &str, found: ArgLookup<T>) -> (r: Result<T, String>)
    ensures
        match found {
            ArgLookup::Missing => r matches Err(e) && e@ == missing_argument_text(key@),
            ArgLookup::Present { decoded: Ok(v), .. } => r == Ok::<T, String>(v),
            ArgLookup::Present { decoded: Err(d), .. } => r matches Err(e) && e@
                == invalid_argument_text(key@, d@),
        },
{
    match found {
        ArgLookup::Missing => {
            let m = concat_chars(&chars_of("missing argument '"), &chars_of(key));
            let m = concat_chars(&m, &chars_of("'"));
            Err(string_of(&m))
        },
        ArgLookup::Present { decoded, .. } => match decoded {
            Ok(v) => Ok(v),
            Err(d) => Err(invalid_argument(key, &d)),
        },
    }
}

/// An argument with a default: missing gives the default, a value must
/// decode.
pub fn arg_or<T>(key: &str, found: ArgLookup<T>, default: T) -> (r: Result<T, String>)
    ensures
        match found {
            ArgLookup::Missing => r == Ok::<T, String>(default),
            ArgLookup::Present { decoded: Ok(v), .. } => r == Ok::<T, String>(v),
            ArgLookup::Present { decoded: Err(d), .. } => r matches Err(e) && e@
                == invalid_argument_text(key@, d@),
        },
{
    match found {
        ArgLookup::Missing => Ok(default),
        ArgLookup::Present { decoded, .. } => match decoded {
            Ok(v) => Ok(v),
            Err(d) => Err(invalid_argument(key, &d)),
        },
    }
}

/// An optional argument: missing or `null` gives `None`, any other value
/// must decode.
pub fn opt_arg<T>(key: &str, found: ArgLookup<T>) -> (r: Result<Option<T>, String>)
    ensures
        match found {
            ArgLookup::Missing => r == Ok::<Option<T>, String>(None),
            ArgLookup::Present { is_null: true, .. } => r == Ok::<Option<T>, String>(None),
            ArgLookup::Present { is_null: false, decoded: Ok(v) } => r == Ok::<Option<T>, String>(
                Some(v),
            ),
            ArgLookup::Present { is_null: false, decoded: Err(d) } => r matches Err(e) && e@
                == invalid_argument_text(key@, d@),
        },
{
    match found {
        ArgLookup::Missing => Ok(None),
        ArgLookup::Present { is_null, decoded } => {
            if is_null {
                Ok(None)
            } else {
                match decoded {
                    Ok(v) => Ok(Some(v)),
                    Err(d) => Err(invalid_argument(key, &d)),
                }
            }
        },
    }
}

/// The answer to a command that the console gives without the application.
pub enum BuiltinReply {
    /// The application's version.
    AppVersion,
    Text(&'static str),
    Integer(u64),
    Null,
    /// One window, labelled `main`.
    MainWindow,
    /// One webview, labelled `main`, in the window `main`.
    MainWebview,
}

/// The commands that the console answers itself, and their answers.
pub open spec fn spec_builtin(cmd: Seq<char>) -> Option<BuiltinReply> {
    if cmd == "plugin:app|version"@ {
        Some(BuiltinReply::AppVersion)
    } else if cmd == "plugin:app|name"@ {
        Some(BuiltinReply::Text("Cockpit Tools"))
    } else if cmd == "plugin:app|identifier"@ {
        Some(BuiltinReply::Text("com.jlcodes.cockpit-tools"))
    } else if cmd == "plugin:app|tauri_version"@ {
        Some(BuiltinReply::Text("2"))
    } else if cmd == "plugin:event|listen"@ {
        Some(BuiltinReply::Integer(1))
    } else if cmd == "plugin:event|unlisten"@ || cmd == "plugin:event|emit"@ || cmd
        == "plugin:event|emit_to"@ {
        Some(BuiltinReply::Null)
    } else if cmd == "plugin:window|get_all_windows"@ {
        Some(BuiltinReply::MainWindow)
    } else if cmd == "plugin:webview|get_all_webviews"@ {
        Some(BuiltinReply::MainWebview)
    } else if cmd == "plugin:window|start_dragging"@ || cmd == "plugin:window|set_theme"@ || cmd
        == "plugin:webview|set_webview_zoom"@ || cmd == "plugin:webview|set_zoom"@ || cmd
        == "hide_current_floating_card_window"@ || cmd
        == "set_current_floating_card_window_always_on_top"@ {
        Some(BuiltinReply::Null)
    } else {
        None
    }
}

fn is_cmd(c: &Vec<char>, lit: &str) -> (r: bool)
    ensures
        r == (c@ == lit@),
{
    chars_eq(c, &chars_of(lit))
}

/// The console's own answer to `cmd`, when it has one.
pub fn builtin_command(cmd: &str) -> (r: Option<BuiltinReply>)
    ensures
        r == spec_builtin(cmd@),
{
    let c = chars_of(cmd);
    if is_cmd(&c, "plugin:app|version") {
        Some(BuiltinReply::AppVersion)
    } else if is_cmd(&c, "plugin:app|name") {
        Some(BuiltinReply::Text("Cockpit Tools"))
    } else if is_cmd(&c, "plugin:app|identifier") {
        Some(BuiltinReply::Text("com.jlcodes.cockpit-tools"))
    } else if is_cmd(&c, "plugin:app|tauri_version") {
        Some(BuiltinReply::Text("2"))
    } else if is_cmd(&c, "plugin:event|listen") {
        Some(BuiltinReply::Integer(1))
    } else if is_cmd(&c, "plugin:event|unlisten") || is_cmd(&c, "plugin:event|emit") || is_cmd(
        &c,
        "plugin:event|emit_to",
    ) {
        Some(BuiltinReply::Null)
    } else if is_cmd(&c, "plugin:window|get_all_windows") {
        Some(BuiltinReply::MainWindow)
    } else if is_cmd(&c, "plugin:webview|get_all_webviews") {
        Some(BuiltinReply::MainWebview)
    } else if is_cmd(&c, "plugin:window|start_dragging") || is_cmd(&c, "plugin:window|set_theme")
        || is_cmd(&c, "plugin:webview|set_webview_zoom") || is_cmd(&c, "plugin:webview|set_zoom")
        || is_cmd(&c, "hide_current_floating_card_window") || is_cmd(
        &c,
        "set_current_floating_card_window_always_on_top",
    ) {
        Some(BuiltinReply::Null)
    } else {
        None
    }
}

/// The error for a command that the console does not forward.
pub fn unexposed_command_error(cmd: &str) -> (r: String)
    ensures
        r@ == "Command '"@ + cmd@ + "' is not exposed through the local web console yet"@,
{
    let m = concat_chars(&chars_of("Command '"), &chars_of(cmd));
    let m = concat_chars(&m, &chars_of("' is not exposed through the local web console yet"));
    string_of(&m)
}

/// The error for an invoke body that is not valid JSON.
pub fn invalid_json_error(detail: &str) -> (r: String)
    ensures
        r@ == "invalid JSON: "@ + detail@,
{
    string_of(&concat_chars(&chars_of("invalid JSON: "), &chars_of(detail)))
}

/// The error for a command result that could not be turned into JSON.
pub fn serialize_failure_error(detail: &str) -> (r: String)
    ensures
        r@ == "serialize response failed: "@ + detail@,
{
    string_of(&concat_chars(&chars_of("serialize response failed: "), &chars_of(detail)))
}

/// The error when the application runtime is not available.
pub fn app_runtime_unavailable_error() -> (r: String)
    ensures
        r@ == "App runtime is not available"@,
{
    "App runtime is not available".to_owned()
}

} // verus!
