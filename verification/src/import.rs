//! The import and export commands, which the platform adapter carries out.

use vstd::prelude::*;
use crate::text::{chars_of, concat_chars, string_of};

verus! {

/// The value of the single field of an adapter payload.
pub enum PayloadValue {
    Text(String),
    TextList(Vec<String>),
}

/// A call of the platform adapter: the method, the payload (an empty object
/// when `field` is `None`, otherwise an object with that one field), and
/// whether the tray menu is refreshed after it succeeds.
pub struct AdapterRequest {
    pub method: &'static str,
    pub field: Option<(&'static str, PayloadValue)>,
    pub refresh_tray: bool,
}

/// Imports the accounts of the old tools.
pub fn import_from_old_tools() -> (r: AdapterRequest)
    ensures
        r.method@ == "accounts.importOldTools"@,
        r.field is None,
        !r.refresh_tray,
{
    AdapterRequest { method: "accounts.importOldTools", field: None, refresh_tray: false }
}

/// Imports the account signed in locally, then refreshes the tray menu.
pub fn import_from_local() -> (r: AdapterRequest)
    ensures
        r.method@ == "accounts.importLocal"@,
        r.field is None,
        r.refresh_tray,
{
    AdapterRequest { method: "accounts.importLocal", field: None, refresh_tray: true }
}

/// Imports accounts from JSON text.
pub fn import_from_json(json_content: String) -> (r: AdapterRequest)
    ensures
        r.method@ == "accounts.importJson"@,
        r.field matches Some((k, PayloadValue::Text(v))) && k@ == "jsonContent"@ && v == json_content,
        !r.refresh_tray,
{
    AdapterRequest {
        method: "accounts.importJson",
        field: Some(("jsonContent", PayloadValue::Text(json_content))),
        refresh_tray: false,
    }
}

/// Imports accounts from files.
pub fn import_from_files(file_paths: Vec<String>) -> (r: AdapterRequest)
    ensures
        r.method@ == "accounts.importFiles"@,
        r.field matches Some((k, PayloadValue::TextList(v))) && k@ == "filePaths"@ && v == file_paths,
        !r.refresh_tray,
{
    AdapterRequest {
        method: "accounts.importFiles",
        field: Some(("filePaths", PayloadValue::TextList(file_paths))),
        refresh_tray: false,
    }
}

/// Exports the given accounts.
pub fn export_accounts(account_ids: Vec<String>) -> (r: AdapterRequest)
    ensures
        r.method@ == "accounts.export"@,
        r.field matches Some((k, PayloadValue::TextList(v))) && k@ == "accountIds"@ && v == account_ids,
        !r.refresh_tray,
{
    AdapterRequest {
        method: "accounts.export",
        field: Some(("accountIds", PayloadValue::TextList(account_ids))),
        refresh_tray: false,
    }
}

/// The error when the adapter's task could not be joined.
pub fn adapter_task_failed_error(detail: &str) -> (r: String)
    ensures
        r@ == "Antigravity adapter task failed: "@ + detail@,
{
    string_of(&concat_chars(&chars_of("Antigravity adapter task failed: "), &chars_of(detail)))
}

} // verus!
