//! The application commands that the invoke bridge forwards, and whether
//! each of them is handed the application handle first. A command that is
//! neither answered by the console itself nor listed here is reported as not
//! exposed.

use vstd::prelude::*;
use crate::invoke::{builtin_command, spec_builtin, BuiltinReply};
use crate::text::{chars_eq, chars_of};

verus! {

/// How a forwarded command is called: with the application handle as its
/// first argument (it fails when the runtime has none), or without it.
#[derive(Debug, PartialEq, Eq, Structural)]
pub enum ForwardedCommand {
    WithAppHandle,
    WithoutAppHandle,
}

fn is_name(c: &Vec<char>, lit: &str) -> (r: bool)
    ensures
        r == (c@ == lit@),
{
    chars_eq(c, &chars_of(lit))
}

/// Forwarded commands, part 1 of 8.
pub open spec fn spec_forwarded_0(cmd: Seq<char>) -> Option<ForwardedCommand> {
    if cmd == "list_accounts"@ {
        Some(ForwardedCommand::WithoutAppHandle)
    } else if cmd == "get_current_account"@ {
        Some(ForwardedCommand::WithoutAppHandle)
    } else if cmd == "set_current_account"@ {
        Some(ForwardedCommand::WithAppHandle)
    } else if cmd == "fetch_account_quota"@ {
        Some(ForwardedCommand::WithoutAppHandle)
    } else if cmd == "refresh_all_quotas"@ {
        Some(ForwardedCommand::WithAppHandle)
    } else if cmd == "refresh_current_quota"@ {
        Some(ForwardedCommand::WithAppHandle)
    } else if cmd == "switch_account"@ {
        Some(ForwardedCommand::WithAppHandle)
    } else if cmd == "update_account_tags"@ {
        Some(ForwardedCommand::WithoutAppHandle)
    } else if cmd == "update_account_notes"@ {
        Some(ForwardedCommand::WithoutAppHandle)
    } else if cmd == "load_account_groups"@ {
        Some(ForwardedCommand::WithoutAppHandle)
    } else if cmd == "save_account_groups"@ {
        Some(ForwardedCommand::WithoutAppHandle)
    } else if cmd == "list_codex_accounts"@ {
        Some(ForwardedCommand::WithoutAppHandle)
    } else if cmd == "get_current_codex_account"@ {
        Some(ForwardedCommand::WithoutAppHandle)
    } else if cmd == "refresh_current_codex_quota"@ {
        Some(ForwardedCommand::WithAppHandle)
    } else if cmd == "refresh_codex_quota"@ {
        Some(ForwardedCommand::WithAppHandle)
    } else if cmd == "refresh_codex_subscription_info"@ {
        Some(ForwardedCommand::WithAppHandle)
    } else if cmd == "refresh_codex_account_profile"@ {
        Some(ForwardedCommand::WithoutAppHandle)
    } else if cmd == "refresh_all_codex_quotas"@ {
        Some(ForwardedCommand::WithAppHandle)
    } else if cmd == "switch_codex_account"@ {
        Some(ForwardedCommand::WithAppHandle)
    } else if cmd == "load_codex_account_groups"@ {
        Some(ForwardedCommand::WithoutAppHandle)
    } else if cmd == "save_codex_account_groups"@ {
        Some(ForwardedCommand::WithoutAppHandle)
    } else if cmd == "get_codex_quick_config"@ {
        Some(ForwardedCommand::WithoutAppHandle)
    } else if cmd == "save_codex_quick_config"@ {
        Some(ForwardedCommand::WithoutAppHandle)
    } else if cmd == "get_codex_app_speed_config"@ {
        Some(ForwardedCommand::WithoutAppHandle)
    } else {
        None
    }
}

fn forwarded_0(c: &Vec<char>) -> (r: Option<ForwardedCommand>)
    ensures
        r == spec_forwarded_0(c@),
{
    if is_name(c, "list_accounts") {
        Some(ForwardedCommand::WithoutAppHandle)
    } else if is_name(c, "get_current_account") {
        Some(ForwardedCommand::WithoutAppHandle)
    } else if is_name(c, "set_current_account") {
        Some(ForwardedCommand::WithAppHandle)
    } else if is_name(c, "fetch_account_quota") {
        Some(ForwardedCommand::WithoutAppHandle)
    } else if is_name(c, "refresh_all_quotas") {
        Some(ForwardedCommand::WithAppHandle)
    } else if is_name(c, "refresh_current_quota") {
        Some(ForwardedCommand::WithAppHandle)
    } else if is_name(c, "switch_account") {
        Some(ForwardedCommand::WithAppHandle)
    } else if is_name(c, "update_account_tags") {
        Some(ForwardedCommand::WithoutAppHandle)
    } else if is_name(c, "update_account_notes") {
        Some(ForwardedCommand::WithoutAppHandle)
    } else if is_name(c, "load_account_groups") {
        Some(ForwardedCommand::WithoutAppHandle)
    } else if is_name(c, "save_account_groups") {
        Some(ForwardedCommand::WithoutAppHandle)
    } else if is_name(c, "list_codex_accounts") {
        Some(ForwardedCommand::WithoutAppHandle)
    } else if is_name(c, "get_current_codex_account") {
        Some(ForwardedCommand::WithoutAppHandle)
    } else if is_name(c, "refresh_current_codex_quota") {
        Some(ForwardedCommand::WithAppHandle)
    } else if is_name(c, "refresh_codex_quota") {
        Some(ForwardedCommand::WithAppHandle)
    } else if is_name(c, "refresh_codex_subscription_info") {
        Some(ForwardedCommand::WithAppHandle)
    } else if is_name(c, "refresh_codex_account_profile") {
        Some(ForwardedCommand::WithoutAppHandle)
    } else if is_name(c, "refresh_all_codex_quotas") {
        Some(ForwardedCommand::WithAppHandle)
    } else if is_name(c, "switch_codex_account") {
        Some(ForwardedCommand::WithAppHandle)
    } else if is_name(c, "load_codex_account_groups") {
        Some(ForwardedCommand::WithoutAppHandle)
    } else if is_name(c, "save_codex_account_groups") {
        Some(ForwardedCommand::WithoutAppHandle)
    } else if is_name(c, "get_codex_quick_config") {
        Some(ForwardedCommand::WithoutAppHandle)
    } else if is_name(c, "save_codex_quick_config") {
        Some(ForwardedCommand::WithoutAppHandle)
    } else if is_name(c, "get_codex_app_speed_config") {
        Some(ForwardedCommand::WithoutAppHandle)
    } else {
        None
    }
}

/// Forwarded commands, part 2 of 8.
pub open spec fn spec_forwarded_1(cmd: Seq<char>) -> Option<ForwardedCommand> {
    if cmd == "save_codex_app_speed"@ {
        Some(ForwardedCommand::WithoutAppHandle)
    } else if cmd == "get_codex_api_service_app_speed_config"@ {
        Some(ForwardedCommand::WithoutAppHandle)
    } else if cmd == "save_codex_api_service_app_speed"@ {
        Some(ForwardedCommand::WithoutAppHandle)
    } else if cmd == "codex_local_access_get_state"@ {
        Some(ForwardedCommand::WithoutAppHandle)
    } else if cmd == "list_github_copilot_accounts"@ {
        Some(ForwardedCommand::WithoutAppHandle)
    } else if cmd == "refresh_github_copilot_token"@ {
        Some(ForwardedCommand::WithAppHandle)
    } else if cmd == "refresh_all_github_copilot_tokens"@ {
        Some(ForwardedCommand::WithAppHandle)
    } else if cmd == "inject_github_copilot_to_vscode"@ {
        Some(ForwardedCommand::WithAppHandle)
    } else if cmd == "update_github_copilot_account_tags"@ {
        Some(ForwardedCommand::WithoutAppHandle)
    } else if cmd == "list_windsurf_accounts"@ {
        Some(ForwardedCommand::WithoutAppHandle)
    } else if cmd == "refresh_windsurf_token"@ {
        Some(ForwardedCommand::WithAppHandle)
    } else if cmd == "refresh_all_windsurf_tokens"@ {
        Some(ForwardedCommand::WithAppHandle)
    } else if cmd == "inject_windsurf_to_vscode"@ {
        Some(ForwardedCommand::WithAppHandle)
    } else if cmd == "update_windsurf_account_tags"@ {
        Some(ForwardedCommand::WithoutAppHandle)
    } else if cmd == "list_kiro_accounts"@ {
        Some(ForwardedCommand::WithoutAppHandle)
    } else if cmd == "refresh_kiro_token"@ {
        Some(ForwardedCommand::WithAppHandle)
    } else if cmd == "refresh_all_kiro_tokens"@ {
        Some(ForwardedCommand::WithAppHandle)
    } else if cmd == "inject_kiro_to_vscode"@ {
        Some(ForwardedCommand::WithAppHandle)
    } else if cmd == "update_kiro_account_tags"@ {
        Some(ForwardedCommand::WithoutAppHandle)
    } else if cmd == "list_cursor_accounts"@ {
        Some(ForwardedCommand::WithoutAppHandle)
    } else if cmd == "refresh_cursor_token"@ {
        Some(ForwardedCommand::WithAppHandle)
    } else if cmd == "refresh_all_cursor_tokens"@ {
        Some(ForwardedCommand::WithAppHandle)
    } else if cmd == "inject_cursor_account"@ {
        Some(ForwardedCommand::WithAppHandle)
    } else if cmd == "update_cursor_account_tags"@ {
        Some(ForwardedCommand::WithoutAppHandle)
    } else {
        None
    }
}

fn forwarded_1(c: &Vec<char>) -> (r: Option<ForwardedCommand>)
    ensures
        r == spec_forwarded_1(c@),
{
    if is_name(c, "save_codex_app_speed") {
        Some(ForwardedCommand::WithoutAppHandle)
    } else if is_name(c, "get_codex_api_service_app_speed_config") {
        Some(ForwardedCommand::WithoutAppHandle)
    } else if is_name(c, "save_codex_api_service_app_speed") {
        Some(ForwardedCommand::WithoutAppHandle)
    } else if is_name(c, "codex_local_access_get_state") {
        Some(ForwardedCommand::WithoutAppHandle)
    } else if is_name(c, "list_github_copilot_accounts") {
        Some(ForwardedCommand::WithoutAppHandle)
    } else if is_name(c, "refresh_github_copilot_token") {
        Some(ForwardedCommand::WithAppHandle)
    } else if is_name(c, "refresh_all_github_copilot_tokens") {
        Some(ForwardedCommand::WithAppHandle)
    } else if is_name(c, "inject_github_copilot_to_vscode") {
        Some(ForwardedCommand::WithAppHandle)
    } else if is_name(c, "update_github_copilot_account_tags") {
        Some(ForwardedCommand::WithoutAppHandle)
    } else if is_name(c, "list_windsurf_accounts") {
        Some(ForwardedCommand::WithoutAppHandle)
    } else if is_name(c, "refresh_windsurf_token") {
        Some(ForwardedCommand::WithAppHandle)
    } else if is_name(c, "refresh_all_windsurf_tokens") {
        Some(ForwardedCommand::WithAppHandle)
    } else if is_name(c, "inject_windsurf_to_vscode") {
        Some(ForwardedCommand::WithAppHandle)
    } else if is_name(c, "update_windsurf_account_tags") {
        Some(ForwardedCommand::WithoutAppHandle)
    } else if is_name(c, "list_kiro_accounts") {
        Some(ForwardedCommand::WithoutAppHandle)
    } else if is_name(c, "refresh_kiro_token") {
        Some(ForwardedCommand::WithAppHandle)
    } else if is_name(c, "refresh_all_kiro_tokens") {
        Some(ForwardedCommand::WithAppHandle)
    } else if is_name(c, "inject_kiro_to_vscode") {
        Some(ForwardedCommand::WithAppHandle)
    } else if is_name(c, "update_kiro_account_tags") {
        Some(ForwardedCommand::WithoutAppHandle)
    } else if is_name(c, "list_cursor_accounts") {
        Some(ForwardedCommand::WithoutAppHandle)
    } else if is_name(c, "refresh_cursor_token") {
        Some(ForwardedCommand::WithAppHandle)
    } else if is_name(c, "refresh_all_cursor_tokens") {
        Some(ForwardedCommand::WithAppHandle)
    } else if is_name(c, "inject_cursor_account") {
        Some(ForwardedCommand::WithAppHandle)
    } else if is_name(c, "update_cursor_account_tags") {
        Some(ForwardedCommand::WithoutAppHandle)
    } else {
        None
    }
}

/// Forwarded commands, part 3 of 8.
pub open spec fn spec_forwarded_2(cmd: Seq<char>) -> Option<ForwardedCommand> {
    if cmd == "list_gemini_accounts"@ {
        Some(ForwardedCommand::WithoutAppHandle)
    } else if cmd == "refresh_gemini_token"@ {
        Some(ForwardedCommand::WithAppHandle)
    } else if cmd == "refresh_all_gemini_tokens"@ {
        Some(ForwardedCommand::WithAppHandle)
    } else if cmd == "inject_gemini_account"@ {
        Some(ForwardedCommand::WithAppHandle)
    } else if cmd == "update_gemini_account_tags"@ {
        Some(ForwardedCommand::WithoutAppHandle)
    } else if cmd == "list_codebuddy_accounts"@ {
        Some(ForwardedCommand::WithoutAppHandle)
    } else if cmd == "refresh_codebuddy_token"@ {
        Some(ForwardedCommand::WithAppHandle)
    } else if cmd == "refresh_all_codebuddy_tokens"@ {
        Some(ForwardedCommand::WithAppHandle)
    } else if cmd == "inject_codebuddy_to_vscode"@ {
        Some(ForwardedCommand::WithAppHandle)
    } else if cmd == "update_codebuddy_account_tags"@ {
        Some(ForwardedCommand::WithoutAppHandle)
    } else if cmd == "list_codebuddy_cn_accounts"@ {
        Some(ForwardedCommand::WithoutAppHandle)
    } else if cmd == "refresh_codebuddy_cn_token"@ {
        Some(ForwardedCommand::WithAppHandle)
    } else if cmd == "refresh_all_codebuddy_cn_tokens"@ {
        Some(ForwardedCommand::WithAppHandle)
    } else if cmd == "inject_codebuddy_cn_to_vscode"@ {
        Some(ForwardedCommand::WithAppHandle)
    } else if cmd == "update_codebuddy_cn_account_tags"@ {
        Some(ForwardedCommand::WithoutAppHandle)
    } else if cmd == "list_qoder_accounts"@ {
        Some(ForwardedCommand::WithoutAppHandle)
    } else if cmd == "refresh_qoder_token"@ {
        Some(ForwardedCommand::WithAppHandle)
    } else if cmd == "refresh_all_qoder_tokens"@ {
        Some(ForwardedCommand::WithAppHandle)
    } else if cmd == "inject_qoder_account"@ {
        Some(ForwardedCommand::WithAppHandle)
    } else if cmd == "update_qoder_account_tags"@ {
        Some(ForwardedCommand::WithoutAppHandle)
    } else if cmd == "list_trae_accounts"@ {
        Some(ForwardedCommand::WithoutAppHandle)
    } else if cmd == "refresh_trae_token"@ {
        Some(ForwardedCommand::WithAppHandle)
    } else if cmd == "refresh_all_trae_tokens"@ {
        Some(ForwardedCommand::WithAppHandle)
    } else if cmd == "inject_trae_account"@ {
        Some(ForwardedCommand::WithAppHandle)
    } else {
        None
    }
}

fn forwarded_2(c: &Vec<char>) -> (r: Option<ForwardedCommand>)
    ensures
        r == spec_forwarded_2(c@),
{
    if is_name(c, "list_gemini_accounts") {
        Some(ForwardedCommand::WithoutAppHandle)
    } else if is_name(c, "refresh_gemini_token") {
        Some(ForwardedCommand::WithAppHandle)
    } else if is_name(c, "refresh_all_gemini_tokens") {
        Some(ForwardedCommand::WithAppHandle)
    } else if is_name(c, "inject_gemini_account") {
        Some(ForwardedCommand::WithAppHandle)
    } else if is_name(c, "update_gemini_account_tags") {
        Some(ForwardedCommand::WithoutAppHandle)
    } else if is_name(c, "list_codebuddy_accounts") {
        Some(ForwardedCommand::WithoutAppHandle)
    } else if is_name(c, "refresh_codebuddy_token") {
        Some(ForwardedCommand::WithAppHandle)
    } else if is_name(c, "refresh_all_codebuddy_tokens") {
        Some(ForwardedCommand::WithAppHandle)
    } else if is_name(c, "inject_codebuddy_to_vscode") {
        Some(ForwardedCommand::WithAppHandle)
    } else if is_name(c, "update_codebuddy_account_tags") {
        Some(ForwardedCommand::WithoutAppHandle)
    } else if is_name(c, "list_codebuddy_cn_accounts") {
        Some(ForwardedCommand::WithoutAppHandle)
    } else if is_name(c, "refresh_codebuddy_cn_token") {
        Some(ForwardedCommand::WithAppHandle)
    } else if is_name(c, "refresh_all_codebuddy_cn_tokens") {
        Some(ForwardedCommand::WithAppHandle)
    } else if is_name(c, "inject_codebuddy_cn_to_vscode") {
        Some(ForwardedCommand::WithAppHandle)
    } else if is_name(c, "update_codebuddy_cn_account_tags") {
        Some(ForwardedCommand::WithoutAppHandle)
    } else if is_name(c, "list_qoder_accounts") {
        Some(ForwardedCommand::WithoutAppHandle)
    } else if is_name(c, "refresh_qoder_token") {
        Some(ForwardedCommand::WithAppHandle)
    } else if is_name(c, "refresh_all_qoder_tokens") {
        Some(ForwardedCommand::WithAppHandle)
    } else if is_name(c, "inject_qoder_account") {
        Some(ForwardedCommand::WithAppHandle)
    } else if is_name(c, "update_qoder_account_tags") {
        Some(ForwardedCommand::WithoutAppHandle)
    } else if is_name(c, "list_trae_accounts") {
        Some(ForwardedCommand::WithoutAppHandle)
    } else if is_name(c, "refresh_trae_token") {
        Some(ForwardedCommand::WithAppHandle)
    } else if is_name(c, "refresh_all_trae_tokens") {
        Some(ForwardedCommand::WithAppHandle)
    } else if is_name(c, "inject_trae_account") {
        Some(ForwardedCommand::WithAppHandle)
    } else {
        None
    }
}

/// Forwarded commands, part 4 of 8.
pub open spec fn spec_forwarded_3(cmd: Seq<char>) -> Option<ForwardedCommand> {
    if cmd == "update_trae_account_tags"@ {
        Some(ForwardedCommand::WithoutAppHandle)
    } else if cmd == "list_workbuddy_accounts"@ {
        Some(ForwardedCommand::WithoutAppHandle)
    } else if cmd == "refresh_workbuddy_token"@ {
        Some(ForwardedCommand::WithAppHandle)
    } else if cmd == "refresh_all_workbuddy_tokens"@ {
        Some(ForwardedCommand::WithAppHandle)
    } else if cmd == "inject_workbuddy_to_vscode"@ {
        Some(ForwardedCommand::WithAppHandle)
    } else if cmd == "update_workbuddy_account_tags"@ {
        Some(ForwardedCommand::WithoutAppHandle)
    } else if cmd == "list_zed_accounts"@ {
        Some(ForwardedCommand::WithoutAppHandle)
    } else if cmd == "refresh_zed_token"@ {
        Some(ForwardedCommand::WithAppHandle)
    } else if cmd == "refresh_all_zed_tokens"@ {
        Some(ForwardedCommand::WithAppHandle)
    } else if cmd == "inject_zed_account"@ {
        Some(ForwardedCommand::WithAppHandle)
    } else if cmd == "update_zed_account_tags"@ {
        Some(ForwardedCommand::WithoutAppHandle)
    } else if cmd == "get_provider_current_account_id"@ {
        Some(ForwardedCommand::WithAppHandle)
    } else if cmd == "get_network_config"@ {
        Some(ForwardedCommand::WithoutAppHandle)
    } else if cmd == "save_network_config"@ {
        Some(ForwardedCommand::WithoutAppHandle)
    } else if cmd == "get_general_config"@ {
        Some(ForwardedCommand::WithAppHandle)
    } else if cmd == "save_general_config"@ {
        Some(ForwardedCommand::WithAppHandle)
    } else if cmd == "get_available_terminals"@ {
        Some(ForwardedCommand::WithoutAppHandle)
    } else if cmd == "set_app_path"@ {
        Some(ForwardedCommand::WithoutAppHandle)
    } else if cmd == "set_codex_launch_on_switch"@ {
        Some(ForwardedCommand::WithoutAppHandle)
    } else if cmd == "set_codex_local_access_entry_visible"@ {
        Some(ForwardedCommand::WithoutAppHandle)
    } else if cmd == "save_tray_platform_layout"@ {
        Some(ForwardedCommand::WithAppHandle)
    } else if cmd == "set_wakeup_override"@ {
        Some(ForwardedCommand::WithoutAppHandle)
    } else if cmd == "external_import_take_pending"@ {
        Some(ForwardedCommand::WithoutAppHandle)
    } else if cmd == "external_import_fetch_import_url"@ {
        Some(ForwardedCommand::WithoutAppHandle)
    } else {
        None
    }
}

fn forwarded_3(c: &Vec<char>) -> (r: Option<ForwardedCommand>)
    ensures
        r == spec_forwarded_3(c@),
{
    if is_name(c, "update_trae_account_tags") {
        Some(ForwardedCommand::WithoutAppHandle)
    } else if is_name(c, "list_workbuddy_accounts") {
        Some(ForwardedCommand::WithoutAppHandle)
    } else if is_name(c, "refresh_workbuddy_token") {
        Some(ForwardedCommand::WithAppHandle)
    } else if is_name(c, "refresh_all_workbuddy_tokens") {
        Some(ForwardedCommand::WithAppHandle)
    } else if is_name(c, "inject_workbuddy_to_vscode") {
        Some(ForwardedCommand::WithAppHandle)
    } else if is_name(c, "update_workbuddy_account_tags") {
        Some(ForwardedCommand::WithoutAppHandle)
    } else if is_name(c, "list_zed_accounts") {
        Some(ForwardedCommand::WithoutAppHandle)
    } else if is_name(c, "refresh_zed_token") {
        Some(ForwardedCommand::WithAppHandle)
    } else if is_name(c, "refresh_all_zed_tokens") {
        Some(ForwardedCommand::WithAppHandle)
    } else if is_name(c, "inject_zed_account") {
        Some(ForwardedCommand::WithAppHandle)
    } else if is_name(c, "update_zed_account_tags") {
        Some(ForwardedCommand::WithoutAppHandle)
    } else if is_name(c, "get_provider_current_account_id") {
        Some(ForwardedCommand::WithAppHandle)
    } else if is_name(c, "get_network_config") {
        Some(ForwardedCommand::WithoutAppHandle)
    } else if is_name(c, "save_network_config") {
        Some(ForwardedCommand::WithoutAppHandle)
    } else if is_name(c, "get_general_config") {
        Some(ForwardedCommand::WithAppHandle)
    } else if is_name(c, "save_general_config") {
        Some(ForwardedCommand::WithAppHandle)
    } else if is_name(c, "get_available_terminals") {
        Some(ForwardedCommand::WithoutAppHandle)
    } else if is_name(c, "set_app_path") {
        Some(ForwardedCommand::WithoutAppHandle)
    } else if is_name(c, "set_codex_launch_on_switch") {
        Some(ForwardedCommand::WithoutAppHandle)
    } else if is_name(c, "set_codex_local_access_entry_visible") {
        Some(ForwardedCommand::WithoutAppHandle)
    } else if is_name(c, "save_tray_platform_layout") {
        Some(ForwardedCommand::WithAppHandle)
    } else if is_name(c, "set_wakeup_override") {
        Some(ForwardedCommand::WithoutAppHandle)
    } else if is_name(c, "external_import_take_pending") {
        Some(ForwardedCommand::WithoutAppHandle)
    } else if is_name(c, "external_import_fetch_import_url") {
        Some(ForwardedCommand::WithoutAppHandle)
    } else {
        None
    }
}

/// Forwarded commands, part 5 of 8.
pub open spec fn spec_forwarded_4(cmd: Seq<char>) -> Option<ForwardedCommand> {
    if cmd == "detect_app_path"@ {
        Some(ForwardedCommand::WithoutAppHandle)
    } else if cmd == "get_antigravity_installed_version_info"@ {
        Some(ForwardedCommand::WithoutAppHandle)
    } else if cmd == "get_auto_backup_settings"@ {
        Some(ForwardedCommand::WithoutAppHandle)
    } else if cmd == "save_auto_backup_settings"@ {
        Some(ForwardedCommand::WithoutAppHandle)
    } else if cmd == "update_auto_backup_last_run"@ {
        Some(ForwardedCommand::WithoutAppHandle)
    } else if cmd == "write_auto_backup_file"@ {
        Some(ForwardedCommand::WithoutAppHandle)
    } else if cmd == "read_auto_backup_file"@ {
        Some(ForwardedCommand::WithoutAppHandle)
    } else if cmd == "copy_auto_backup_file"@ {
        Some(ForwardedCommand::WithoutAppHandle)
    } else if cmd == "list_auto_backup_files"@ {
        Some(ForwardedCommand::WithoutAppHandle)
    } else if cmd == "delete_auto_backup_file"@ {
        Some(ForwardedCommand::WithoutAppHandle)
    } else if cmd == "cleanup_auto_backup_files"@ {
        Some(ForwardedCommand::WithoutAppHandle)
    } else if cmd == "open_auto_backup_dir"@ {
        Some(ForwardedCommand::WithoutAppHandle)
    } else if cmd == "open_data_folder"@ {
        Some(ForwardedCommand::WithoutAppHandle)
    } else if cmd == "open_folder"@ {
        Some(ForwardedCommand::WithoutAppHandle)
    } else if cmd == "show_floating_card_window"@ {
        Some(ForwardedCommand::WithAppHandle)
    } else if cmd == "show_instance_floating_card_window"@ {
        Some(ForwardedCommand::WithAppHandle)
    } else if cmd == "get_floating_card_context"@ {
        Some(ForwardedCommand::WithoutAppHandle)
    } else if cmd == "hide_floating_card_window"@ {
        Some(ForwardedCommand::WithAppHandle)
    } else if cmd == "set_floating_card_always_on_top"@ {
        Some(ForwardedCommand::WithAppHandle)
    } else if cmd == "set_floating_card_confirm_on_close"@ {
        Some(ForwardedCommand::WithoutAppHandle)
    } else if cmd == "save_floating_card_position"@ {
        Some(ForwardedCommand::WithoutAppHandle)
    } else if cmd == "show_main_window_and_navigate"@ {
        Some(ForwardedCommand::WithAppHandle)
    } else if cmd == "logs_get_snapshot"@ {
        Some(ForwardedCommand::WithoutAppHandle)
    } else if cmd == "logs_open_log_directory"@ {
        Some(ForwardedCommand::WithoutAppHandle)
    } else {
        None
    }
}

fn forwarded_4(c: &Vec<char>) -> (r: Option<ForwardedCommand>)
    ensures
        r == spec_forwarded_4(c@),
{
    if is_name(c, "detect_app_path") {
        Some(ForwardedCommand::WithoutAppHandle)
    } else if is_name(c, "get_antigravity_installed_version_info") {
        Some(ForwardedCommand::WithoutAppHandle)
    } else if is_name(c, "get_auto_backup_settings") {
        Some(ForwardedCommand::WithoutAppHandle)
    } else if is_name(c, "save_auto_backup_settings") {
        Some(ForwardedCommand::WithoutAppHandle)
    } else if is_name(c, "update_auto_backup_last_run") {
        Some(ForwardedCommand::WithoutAppHandle)
    } else if is_name(c, "write_auto_backup_file") {
        Some(ForwardedCommand::WithoutAppHandle)
    } else if is_name(c, "read_auto_backup_file") {
        Some(ForwardedCommand::WithoutAppHandle)
    } else if is_name(c, "copy_auto_backup_file") {
        Some(ForwardedCommand::WithoutAppHandle)
    } else if is_name(c, "list_auto_backup_files") {
        Some(ForwardedCommand::WithoutAppHandle)
    } else if is_name(c, "delete_auto_backup_file") {
        Some(ForwardedCommand::WithoutAppHandle)
    } else if is_name(c, "cleanup_auto_backup_files") {
        Some(ForwardedCommand::WithoutAppHandle)
    } else if is_name(c, "open_auto_backup_dir") {
        Some(ForwardedCommand::WithoutAppHandle)
    } else if is_name(c, "open_data_folder") {
        Some(ForwardedCommand::WithoutAppHandle)
    } else if is_name(c, "open_folder") {
        Some(ForwardedCommand::WithoutAppHandle)
    } else if is_name(c, "show_floating_card_window") {
        Some(ForwardedCommand::WithAppHandle)
    } else if is_name(c, "show_instance_floating_card_window") {
        Some(ForwardedCommand::WithAppHandle)
    } else if is_name(c, "get_floating_card_context") {
        Some(ForwardedCommand::WithoutAppHandle)
    } else if is_name(c, "hide_floating_card_window") {
        Some(ForwardedCommand::WithAppHandle)
    } else if is_name(c, "set_floating_card_always_on_top") {
        Some(ForwardedCommand::WithAppHandle)
    } else if is_name(c, "set_floating_card_confirm_on_close") {
        Some(ForwardedCommand::WithoutAppHandle)
    } else if is_name(c, "save_floating_card_position") {
        Some(ForwardedCommand::WithoutAppHandle)
    } else if is_name(c, "show_main_window_and_navigate") {
        Some(ForwardedCommand::WithAppHandle)
    } else if is_name(c, "logs_get_snapshot") {
        Some(ForwardedCommand::WithoutAppHandle)
    } else if is_name(c, "logs_open_log_directory") {
        Some(ForwardedCommand::WithoutAppHandle)
    } else {
        None
    }
}

/// Forwarded commands, part 6 of 8.
pub open spec fn spec_forwarded_5(cmd: Seq<char>) -> Option<ForwardedCommand> {
    if cmd == "wakeup_ensure_runtime_ready"@ {
        Some(ForwardedCommand::WithoutAppHandle)
    } else if cmd == "wakeup_set_official_ls_version_mode"@ {
        Some(ForwardedCommand::WithoutAppHandle)
    } else if cmd == "trigger_wakeup"@ {
        Some(ForwardedCommand::WithoutAppHandle)
    } else if cmd == "fetch_available_models"@ {
        Some(ForwardedCommand::WithoutAppHandle)
    } else if cmd == "wakeup_validate_crontab"@ {
        Some(ForwardedCommand::WithoutAppHandle)
    } else if cmd == "wakeup_sync_state"@ {
        Some(ForwardedCommand::WithAppHandle)
    } else if cmd == "wakeup_run_enabled_tasks"@ {
        Some(ForwardedCommand::WithAppHandle)
    } else if cmd == "wakeup_load_history"@ {
        Some(ForwardedCommand::WithoutAppHandle)
    } else if cmd == "wakeup_add_history"@ {
        Some(ForwardedCommand::WithoutAppHandle)
    } else if cmd == "wakeup_clear_history"@ {
        Some(ForwardedCommand::WithoutAppHandle)
    } else if cmd == "wakeup_cancel_scope"@ {
        Some(ForwardedCommand::WithoutAppHandle)
    } else if cmd == "wakeup_release_scope"@ {
        Some(ForwardedCommand::WithoutAppHandle)
    } else if cmd == "wakeup_verification_load_state"@ {
        Some(ForwardedCommand::WithoutAppHandle)
    } else if cmd == "wakeup_verification_load_history"@ {
        Some(ForwardedCommand::WithoutAppHandle)
    } else if cmd == "wakeup_verification_delete_history"@ {
        Some(ForwardedCommand::WithoutAppHandle)
    } else if cmd == "wakeup_verification_run_batch"@ {
        Some(ForwardedCommand::WithAppHandle)
    } else if cmd == "confirm_wakeup_task"@ {
        Some(ForwardedCommand::WithAppHandle)
    } else if cmd == "cancel_wakeup_task"@ {
        Some(ForwardedCommand::WithoutAppHandle)
    } else if cmd == "check_wakeup_timeouts"@ {
        Some(ForwardedCommand::WithAppHandle)
    } else if cmd == "codex_wakeup_get_cli_status"@ {
        Some(ForwardedCommand::WithoutAppHandle)
    } else if cmd == "codex_wakeup_update_runtime_config"@ {
        Some(ForwardedCommand::WithoutAppHandle)
    } else if cmd == "codex_wakeup_get_overview"@ {
        Some(ForwardedCommand::WithoutAppHandle)
    } else if cmd == "codex_wakeup_get_state"@ {
        Some(ForwardedCommand::WithoutAppHandle)
    } else if cmd == "codex_wakeup_save_state"@ {
        Some(ForwardedCommand::WithoutAppHandle)
    } else {
        None
    }
}

fn forwarded_5(c: &Vec<char>) -> (r: Option<ForwardedCommand>)
    ensures
        r == spec_forwarded_5(c@),
{
    if is_name(c, "wakeup_ensure_runtime_ready") {
        Some(ForwardedCommand::WithoutAppHandle)
    } else if is_name(c, "wakeup_set_official_ls_version_mode") {
        Some(ForwardedCommand::WithoutAppHandle)
    } else if is_name(c, "trigger_wakeup") {
        Some(ForwardedCommand::WithoutAppHandle)
    } else if is_name(c, "fetch_available_models") {
        Some(ForwardedCommand::WithoutAppHandle)
    } else if is_name(c, "wakeup_validate_crontab") {
        Some(ForwardedCommand::WithoutAppHandle)
    } else if is_name(c, "wakeup_sync_state") {
        Some(ForwardedCommand::WithAppHandle)
    } else if is_name(c, "wakeup_run_enabled_tasks") {
        Some(ForwardedCommand::WithAppHandle)
    } else if is_name(c, "wakeup_load_history") {
        Some(ForwardedCommand::WithoutAppHandle)
    } else if is_name(c, "wakeup_add_history") {
        Some(ForwardedCommand::WithoutAppHandle)
    } else if is_name(c, "wakeup_clear_history") {
        Some(ForwardedCommand::WithoutAppHandle)
    } else if is_name(c, "wakeup_cancel_scope") {
        Some(ForwardedCommand::WithoutAppHandle)
    } else if is_name(c, "wakeup_release_scope") {
        Some(ForwardedCommand::WithoutAppHandle)
    } else if is_name(c, "wakeup_verification_load_state") {
        Some(ForwardedCommand::WithoutAppHandle)
    } else if is_name(c, "wakeup_verification_load_history") {
        Some(ForwardedCommand::WithoutAppHandle)
    } else if is_name(c, "wakeup_verification_delete_history") {
        Some(ForwardedCommand::WithoutAppHandle)
    } else if is_name(c, "wakeup_verification_run_batch") {
        Some(ForwardedCommand::WithAppHandle)
    } else if is_name(c, "confirm_wakeup_task") {
        Some(ForwardedCommand::WithAppHandle)
    } else if is_name(c, "cancel_wakeup_task") {
        Some(ForwardedCommand::WithoutAppHandle)
    } else if is_name(c, "check_wakeup_timeouts") {
        Some(ForwardedCommand::WithAppHandle)
    } else if is_name(c, "codex_wakeup_get_cli_status") {
        Some(ForwardedCommand::WithoutAppHandle)
    } else if is_name(c, "codex_wakeup_update_runtime_config") {
        Some(ForwardedCommand::WithoutAppHandle)
    } else if is_name(c, "codex_wakeup_get_overview") {
        Some(ForwardedCommand::WithoutAppHandle)
    } else if is_name(c, "codex_wakeup_get_state") {
        Some(ForwardedCommand::WithoutAppHandle)
    } else if is_name(c, "codex_wakeup_save_state") {
        Some(ForwardedCommand::WithoutAppHandle)
    } else {
        None
    }
}

/// Forwarded commands, part 7 of 8.
pub open spec fn spec_forwarded_6(cmd: Seq<char>) -> Option<ForwardedCommand> {
    if cmd == "codex_wakeup_load_history"@ {
        Some(ForwardedCommand::WithoutAppHandle)
    } else if cmd == "codex_wakeup_clear_history"@ {
        Some(ForwardedCommand::WithoutAppHandle)
    } else if cmd == "codex_wakeup_cancel_scope"@ {
        Some(ForwardedCommand::WithoutAppHandle)
    } else if cmd == "codex_wakeup_release_scope"@ {
        Some(ForwardedCommand::WithoutAppHandle)
    } else if cmd == "codex_wakeup_test"@ {
        Some(ForwardedCommand::WithAppHandle)
    } else if cmd == "codex_wakeup_run_task"@ {
        Some(ForwardedCommand::WithAppHandle)
    } else if cmd == "codex_wakeup_run_enabled_tasks"@ {
        Some(ForwardedCommand::WithAppHandle)
    } else if cmd == "get_update_settings"@ {
        Some(ForwardedCommand::WithoutAppHandle)
    } else if cmd == "save_update_settings"@ {
        Some(ForwardedCommand::WithoutAppHandle)
    } else if cmd == "should_check_updates"@ {
        Some(ForwardedCommand::WithoutAppHandle)
    } else if cmd == "update_last_check_time"@ {
        Some(ForwardedCommand::WithoutAppHandle)
    } else if cmd == "check_version_jump"@ {
        Some(ForwardedCommand::WithoutAppHandle)
    } else if cmd == "get_release_history"@ {
        Some(ForwardedCommand::WithoutAppHandle)
    } else if cmd == "update_log"@ {
        Some(ForwardedCommand::WithoutAppHandle)
    } else if cmd == "get_update_runtime_info"@ {
        Some(ForwardedCommand::WithoutAppHandle)
    } else if cmd == "announcement_get_state"@ {
        Some(ForwardedCommand::WithoutAppHandle)
    } else if cmd == "announcement_mark_as_read"@ {
        Some(ForwardedCommand::WithoutAppHandle)
    } else if cmd == "announcement_mark_all_as_read"@ {
        Some(ForwardedCommand::WithoutAppHandle)
    } else if cmd == "announcement_force_refresh"@ {
        Some(ForwardedCommand::WithoutAppHandle)
    } else if cmd == "announcement_get_top_right_ad"@ {
        Some(ForwardedCommand::WithoutAppHandle)
    } else if cmd == "get_group_settings"@ {
        Some(ForwardedCommand::WithoutAppHandle)
    } else if cmd == "get_display_groups"@ {
        Some(ForwardedCommand::WithoutAppHandle)
    } else if cmd == "codex_get_instance_defaults"@ {
        Some(ForwardedCommand::WithoutAppHandle)
    } else if cmd == "codex_list_instances"@ {
        Some(ForwardedCommand::WithoutAppHandle)
    } else {
        None
    }
}

fn forwarded_6(c: &Vec<char>) -> (r: Option<ForwardedCommand>)
    ensures
        r == spec_forwarded_6(c@),
{
    if is_name(c, "codex_wakeup_load_history") {
        Some(ForwardedCommand::WithoutAppHandle)
    } else if is_name(c, "codex_wakeup_clear_history") {
        Some(ForwardedCommand::WithoutAppHandle)
    } else if is_name(c, "codex_wakeup_cancel_scope") {
        Some(ForwardedCommand::WithoutAppHandle)
    } else if is_name(c, "codex_wakeup_release_scope") {
        Some(ForwardedCommand::WithoutAppHandle)
    } else if is_name(c, "codex_wakeup_test") {
        Some(ForwardedCommand::WithAppHandle)
    } else if is_name(c, "codex_wakeup_run_task") {
        Some(ForwardedCommand::WithAppHandle)
    } else if is_name(c, "codex_wakeup_run_enabled_tasks") {
        Some(ForwardedCommand::WithAppHandle)
    } else if is_name(c, "get_update_settings") {
        Some(ForwardedCommand::WithoutAppHandle)
    } else if is_name(c, "save_update_settings") {
        Some(ForwardedCommand::WithoutAppHandle)
    } else if is_name(c, "should_check_updates") {
        Some(ForwardedCommand::WithoutAppHandle)
    } else if is_name(c, "update_last_check_time") {
        Some(ForwardedCommand::WithoutAppHandle)
    } else if is_name(c, "check_version_jump") {
        Some(ForwardedCommand::WithoutAppHandle)
    } else if is_name(c, "get_release_history") {
        Some(ForwardedCommand::WithoutAppHandle)
    } else if is_name(c, "update_log") {
        Some(ForwardedCommand::WithoutAppHandle)
    } else if is_name(c, "get_update_runtime_info") {
        Some(ForwardedCommand::WithoutAppHandle)
    } else if is_name(c, "announcement_get_state") {
        Some(ForwardedCommand::WithoutAppHandle)
    } else if is_name(c, "announcement_mark_as_read") {
        Some(ForwardedCommand::WithoutAppHandle)
    } else if is_name(c, "announcement_mark_all_as_read") {
        Some(ForwardedCommand::WithoutAppHandle)
    } else if is_name(c, "announcement_force_refresh") {
        Some(ForwardedCommand::WithoutAppHandle)
    } else if is_name(c, "announcement_get_top_right_ad") {
        Some(ForwardedCommand::WithoutAppHandle)
    } else if is_name(c, "get_group_settings") {
        Some(ForwardedCommand::WithoutAppHandle)
    } else if is_name(c, "get_display_groups") {
        Some(ForwardedCommand::WithoutAppHandle)
    } else if is_name(c, "codex_get_instance_defaults") {
        Some(ForwardedCommand::WithoutAppHandle)
    } else if is_name(c, "codex_list_instances") {
        Some(ForwardedCommand::WithoutAppHandle)
    } else {
        None
    }
}

/// Forwarded commands, part 8 of 8.
pub open spec fn spec_forwarded_7(cmd: Seq<char>) -> Option<ForwardedCommand> {
    if cmd == "github_copilot_get_instance_defaults"@ {
        Some(ForwardedCommand::WithoutAppHandle)
    } else if cmd == "github_copilot_list_instances"@ {
        Some(ForwardedCommand::WithoutAppHandle)
    } else if cmd == "windsurf_get_instance_defaults"@ {
        Some(ForwardedCommand::WithoutAppHandle)
    } else if cmd == "windsurf_list_instances"@ {
        Some(ForwardedCommand::WithoutAppHandle)
    } else if cmd == "kiro_get_instance_defaults"@ {
        Some(ForwardedCommand::WithoutAppHandle)
    } else if cmd == "kiro_list_instances"@ {
        Some(ForwardedCommand::WithoutAppHandle)
    } else if cmd == "cursor_get_instance_defaults"@ {
        Some(ForwardedCommand::WithoutAppHandle)
    } else if cmd == "cursor_list_instances"@ {
        Some(ForwardedCommand::WithoutAppHandle)
    } else if cmd == "gemini_get_instance_defaults"@ {
        Some(ForwardedCommand::WithoutAppHandle)
    } else if cmd == "gemini_list_instances"@ {
        Some(ForwardedCommand::WithoutAppHandle)
    } else if cmd == "codebuddy_get_instance_defaults"@ {
        Some(ForwardedCommand::WithoutAppHandle)
    } else if cmd == "codebuddy_list_instances"@ {
        Some(ForwardedCommand::WithoutAppHandle)
    } else if cmd == "codebuddy_cn_get_instance_defaults"@ {
        Some(ForwardedCommand::WithoutAppHandle)
    } else if cmd == "codebuddy_cn_list_instances"@ {
        Some(ForwardedCommand::WithoutAppHandle)
    } else if cmd == "qoder_get_instance_defaults"@ {
        Some(ForwardedCommand::WithoutAppHandle)
    } else if cmd == "qoder_list_instances"@ {
        Some(ForwardedCommand::WithoutAppHandle)
    } else if cmd == "trae_get_instance_defaults"@ {
        Some(ForwardedCommand::WithoutAppHandle)
    } else if cmd == "trae_list_instances"@ {
        Some(ForwardedCommand::WithoutAppHandle)
    } else if cmd == "workbuddy_get_instance_defaults"@ {
        Some(ForwardedCommand::WithoutAppHandle)
    } else if cmd == "workbuddy_list_instances"@ {
        Some(ForwardedCommand::WithoutAppHandle)
    } else {
        None
    }
}

fn forwarded_7(c: &Vec<char>) -> (r: Option<ForwardedCommand>)
    ensures
        r == spec_forwarded_7(c@),
{
    if is_name(c, "github_copilot_get_instance_defaults") {
        Some(ForwardedCommand::WithoutAppHandle)
    } else if is_name(c, "github_copilot_list_instances") {
        Some(ForwardedCommand::WithoutAppHandle)
    } else if is_name(c, "windsurf_get_instance_defaults") {
        Some(ForwardedCommand::WithoutAppHandle)
    } else if is_name(c, "windsurf_list_instances") {
        Some(ForwardedCommand::WithoutAppHandle)
    } else if is_name(c, "kiro_get_instance_defaults") {
        Some(ForwardedCommand::WithoutAppHandle)
    } else if is_name(c, "kiro_list_instances") {
        Some(ForwardedCommand::WithoutAppHandle)
    } else if is_name(c, "cursor_get_instance_defaults") {
        Some(ForwardedCommand::WithoutAppHandle)
    } else if is_name(c, "cursor_list_instances") {
        Some(ForwardedCommand::WithoutAppHandle)
    } else if is_name(c, "gemini_get_instance_defaults") {
        Some(ForwardedCommand::WithoutAppHandle)
    } else if is_name(c, "gemini_list_instances") {
        Some(ForwardedCommand::WithoutAppHandle)
    } else if is_name(c, "codebuddy_get_instance_defaults") {
        Some(ForwardedCommand::WithoutAppHandle)
    } else if is_name(c, "codebuddy_list_instances") {
        Some(ForwardedCommand::WithoutAppHandle)
    } else if is_name(c, "codebuddy_cn_get_instance_defaults") {
        Some(ForwardedCommand::WithoutAppHandle)
    } else if is_name(c, "codebuddy_cn_list_instances") {
        Some(ForwardedCommand::WithoutAppHandle)
    } else if is_name(c, "qoder_get_instance_defaults") {
        Some(ForwardedCommand::WithoutAppHandle)
    } else if is_name(c, "qoder_list_instances") {
        Some(ForwardedCommand::WithoutAppHandle)
    } else if is_name(c, "trae_get_instance_defaults") {
        Some(ForwardedCommand::WithoutAppHandle)
    } else if is_name(c, "trae_list_instances") {
        Some(ForwardedCommand::WithoutAppHandle)
    } else if is_name(c, "workbuddy_get_instance_defaults") {
        Some(ForwardedCommand::WithoutAppHandle)
    } else if is_name(c, "workbuddy_list_instances") {
        Some(ForwardedCommand::WithoutAppHandle)
    } else {
        None
    }
}

/// The forwarded commands, by name.
pub open spec fn spec_forwarded_command(cmd: Seq<char>) -> Option<ForwardedCommand> {
    if spec_forwarded_0(cmd) is Some {
        spec_forwarded_0(cmd)
    } else if spec_forwarded_1(cmd) is Some {
        spec_forwarded_1(cmd)
    } else if spec_forwarded_2(cmd) is Some {
        spec_forwarded_2(cmd)
    } else if spec_forwarded_3(cmd) is Some {
        spec_forwarded_3(cmd)
    } else if spec_forwarded_4(cmd) is Some {
        spec_forwarded_4(cmd)
    } else if spec_forwarded_5(cmd) is Some {
        spec_forwarded_5(cmd)
    } else if spec_forwarded_6(cmd) is Some {
        spec_forwarded_6(cmd)
    } else {
        spec_forwarded_7(cmd)
    }
}

/// Whether `cmd` is forwarded to the application, and how.
pub fn forwarded_command(cmd: &str) -> (r: Option<ForwardedCommand>)
    ensures
        r == spec_forwarded_command(cmd@),
{
    let c = chars_of(cmd);
    let g0 = forwarded_0(&c);
    if g0.is_some() {
        return g0;
    }
    let g1 = forwarded_1(&c);
    if g1.is_some() {
        return g1;
    }
    let g2 = forwarded_2(&c);
    if g2.is_some() {
        return g2;
    }
    let g3 = forwarded_3(&c);
    if g3.is_some() {
        return g3;
    }
    let g4 = forwarded_4(&c);
    if g4.is_some() {
        return g4;
    }
    let g5 = forwarded_5(&c);
    if g5.is_some() {
        return g5;
    }
    let g6 = forwarded_6(&c);
    if g6.is_some() {
        return g6;
    }
    let g7 = forwarded_7(&c);
    if g7.is_some() {
        return g7;
    }
    None
}

/// What the invoke bridge does with a command.
pub enum InvokeRoute {
    /// The console answers it itself.
    Builtin(BuiltinReply),
    /// The application runs it.
    Forward(ForwardedCommand),
    /// Refused: not exposed through the web console.
    NotExposed,
}

pub open spec fn spec_invoke_route(cmd: Seq<char>) -> InvokeRoute {
    match spec_builtin(cmd) {
        Some(b) => InvokeRoute::Builtin(b),
        None => match spec_forwarded_command(cmd) {
            Some(f) => InvokeRoute::Forward(f),
            None => InvokeRoute::NotExposed,
        },
    }
}

/// Decides how the invoke bridge handles `cmd`.
pub fn route_invoke(cmd: &str) -> (r: InvokeRoute)
    ensures
        r == spec_invoke_route(cmd@),
{
    match builtin_command(cmd) {
        Some(b) => InvokeRoute::Builtin(b),
        None => match forwarded_command(cmd) {
            Some(f) => InvokeRoute::Forward(f),
            None => InvokeRoute::NotExposed,
        },
    }
}


// ----- the table, stated name by name -------------------------------------

pub open spec fn char_or_space(s: Seq<char>, i: int) -> char {
    if 0 <= i < s.len() {
        s[i]
    } else {
        ' '
    }
}

/// A few characters of a name, enough to tell every command name apart.
pub open spec fn name_fingerprint(s: Seq<char>) -> (nat, char, char, char, char, char) {
    (
        s.len(),
        char_or_space(s, 0),
        char_or_space(s, 5),
        char_or_space(s, 10),
        char_or_space(s, 12),
        char_or_space(s, s.len() - 8),
    )
}

/// The fingerprints of the command names, which differ pairwise.
proof fn lemma_command_fingerprints()
    ensures
        name_fingerprint("list_accounts"@) == (13nat, 'l', 'a', 'n', 's', 'a'),
        name_fingerprint("get_current_account"@) == (19nat, 'g', 'u', 't', 'a', '_'),
        name_fingerprint("set_current_account"@) == (19nat, 's', 'u', 't', 'a', '_'),
        name_fingerprint("fetch_account_quota"@) == (19nat, 'f', '_', 'u', 't', 'n'),
        name_fingerprint("refresh_all_quotas"@) == (18nat, 'r', 's', 'l', 'q', 'l'),
        name_fingerprint("refresh_current_quota"@) == (21nat, 'r', 's', 'r', 'e', 'n'),
        name_fingerprint("switch_account"@) == (14nat, 's', 'h', 'o', 'n', '_'),
        name_fingerprint("update_account_tags"@) == (19nat, 'u', 'e', 'o', 'n', 'u'),
        name_fingerprint("update_account_notes"@) == (20nat, 'u', 'e', 'o', 'n', 'n'),
        name_fingerprint("load_account_groups"@) == (19nat, 'l', 'a', 'n', '_', 't'),
        name_fingerprint("save_account_groups"@) == (19nat, 's', 'a', 'n', '_', 't'),
        name_fingerprint("list_codex_accounts"@) == (19nat, 'l', 'c', '_', 'c', 'a'),
        name_fingerprint("get_current_codex_account"@) == (25nat, 'g', 'u', 't', 'c', '_'),
        name_fingerprint("refresh_current_codex_quota"@) == (27nat, 'r', 's', 'r', 'e', 'e'),
        name_fingerprint("refresh_codex_quota"@) == (19nat, 'r', 's', 'd', 'x', 'e'),
        name_fingerprint("refresh_codex_subscription_info"@) == (31nat, 'r', 's', 'd', 'x', 'i'),
        name_fingerprint("refresh_codex_account_profile"@) == (29nat, 'r', 's', 'd', 'x', '_'),
        name_fingerprint("refresh_all_codex_quotas"@) == (24nat, 'r', 's', 'l', 'c', 'x'),
        name_fingerprint("switch_codex_account"@) == (20nat, 's', 'h', 'e', '_', '_'),
        name_fingerprint("load_codex_account_groups"@) == (25nat, 'l', 'c', '_', 'c', 't'),
        name_fingerprint("save_codex_account_groups"@) == (25nat, 's', 'c', '_', 'c', 't'),
        name_fingerprint("get_codex_quick_config"@) == (22nat, 'g', 'o', 'q', 'i', 'k'),
        name_fingerprint("save_codex_quick_config"@) == (23nat, 's', 'c', '_', 'u', 'k'),
        name_fingerprint("get_codex_app_speed_config"@) == (26nat, 'g', 'o', 'a', 'p', 'd'),
        name_fingerprint("save_codex_app_speed"@) == (20nat, 's', 'c', '_', 'p', 'p'),
        name_fingerprint("get_codex_api_service_app_speed_config"@) == (38nat, 'g', 'o', 'a', 'i', 'd'),
        name_fingerprint("save_codex_api_service_app_speed"@) == (32nat, 's', 'c', '_', 'p', 'p'),
        name_fingerprint("codex_local_access_get_state"@) == (28nat, 'c', '_', 'l', 'a', 'e'),
        name_fingerprint("list_github_copilot_accounts"@) == (28nat, 'l', 'g', 'b', 'c', 'a'),
        name_fingerprint("refresh_github_copilot_token"@) == (28nat, 'r', 's', 't', 'u', 'o'),
        name_fingerprint("refresh_all_github_copilot_tokens"@) == (33nat, 'r', 's', 'l', 'g', 't'),
        name_fingerprint("inject_github_copilot_to_vscode"@) == (31nat, 'i', 't', 'h', 'b', 'o'),
        name_fingerprint("update_github_copilot_account_tags"@) == (34nat, 'u', 'e', 'h', 'b', 'u'),
        name_fingerprint("list_windsurf_accounts"@) == (22nat, 'l', 'w', 'u', 'f', 'a'),
        name_fingerprint("refresh_windsurf_token"@) == (22nat, 'r', 's', 'n', 's', 'r'),
        name_fingerprint("refresh_all_windsurf_tokens"@) == (27nat, 'r', 's', 'l', 'w', 'f'),
        name_fingerprint("inject_windsurf_to_vscode"@) == (25nat, 'i', 't', 'd', 'u', 'o'),
        name_fingerprint("update_windsurf_account_tags"@) == (28nat, 'u', 'e', 'd', 'u', 'u'),
        name_fingerprint("list_kiro_accounts"@) == (18nat, 'l', 'k', 'a', 'c', 'a'),
        name_fingerprint("refresh_kiro_token"@) == (18nat, 'r', 's', 'r', '_', 'r'),
        name_fingerprint("refresh_all_kiro_tokens"@) == (23nat, 'r', 's', 'l', 'k', 'o'),
        name_fingerprint("inject_kiro_to_vscode"@) == (21nat, 'i', 't', 'o', 't', 'o'),
        name_fingerprint("update_kiro_account_tags"@) == (24nat, 'u', 'e', 'o', 'a', 'u'),
        name_fingerprint("list_cursor_accounts"@) == (20nat, 'l', 'c', 'r', 'a', 'a'),
        name_fingerprint("refresh_cursor_token"@) == (20nat, 'r', 's', 'r', 'o', 'o'),
        name_fingerprint("refresh_all_cursor_tokens"@) == (25nat, 'r', 's', 'l', 'c', 'r'),
        name_fingerprint("inject_cursor_account"@) == (21nat, 'i', 't', 's', 'r', '_'),
        name_fingerprint("update_cursor_account_tags"@) == (26nat, 'u', 'e', 's', 'r', 'u'),
        name_fingerprint("list_gemini_accounts"@) == (20nat, 'l', 'g', 'i', 'a', 'a'),
        name_fingerprint("refresh_gemini_token"@) == (20nat, 'r', 's', 'm', 'n', 'n'),
        name_fingerprint("refresh_all_gemini_tokens"@) == (25nat, 'r', 's', 'l', 'g', 'i'),
        name_fingerprint("inject_gemini_account"@) == (21nat, 'i', 't', 'i', 'i', '_'),
        name_fingerprint("update_gemini_account_tags"@) == (26nat, 'u', 'e', 'i', 'i', 'u'),
        name_fingerprint("list_codebuddy_accounts"@) == (23nat, 'l', 'c', 'u', 'd', 'a'),
        name_fingerprint("refresh_codebuddy_token"@) == (23nat, 'r', 's', 'd', 'b', 'd'),
        name_fingerprint("refresh_all_codebuddy_tokens"@) == (28nat, 'r', 's', 'l', 'c', 'y'),
        name_fingerprint("inject_codebuddy_to_vscode"@) == (26nat, 'i', 't', 'e', 'u', 'o'),
        name_fingerprint("update_codebuddy_account_tags"@) == (29nat, 'u', 'e', 'e', 'u', 'u'),
        name_fingerprint("list_codebuddy_cn_accounts"@) == (26nat, 'l', 'c', 'u', 'd', 'a'),
        name_fingerprint("refresh_codebuddy_cn_token"@) == (26nat, 'r', 's', 'd', 'b', 'c'),
        name_fingerprint("refresh_all_codebuddy_cn_tokens"@) == (31nat, 'r', 's', 'l', 'c', 'n'),
        name_fingerprint("inject_codebuddy_cn_to_vscode"@) == (29nat, 'i', 't', 'e', 'u', 'o'),
        name_fingerprint("update_codebuddy_cn_account_tags"@) == (32nat, 'u', 'e', 'e', 'u', 'u'),
        name_fingerprint("list_qoder_accounts"@) == (19nat, 'l', 'q', '_', 'c', 'a'),
        name_fingerprint("refresh_qoder_token"@) == (19nat, 'r', 's', 'd', 'r', 'e'),
        name_fingerprint("refresh_all_qoder_tokens"@) == (24nat, 'r', 's', 'l', 'q', 'r'),
        name_fingerprint("inject_qoder_account"@) == (20nat, 'i', 't', 'e', '_', '_'),
        name_fingerprint("update_qoder_account_tags"@) == (25nat, 'u', 'e', 'e', '_', 'u'),
        name_fingerprint("list_trae_accounts"@) == (18nat, 'l', 't', 'a', 'c', 'a'),
        name_fingerprint("refresh_trae_token"@) == (18nat, 'r', 's', 'a', '_', 'a'),
        name_fingerprint("refresh_all_trae_tokens"@) == (23nat, 'r', 's', 'l', 't', 'e'),
        name_fingerprint("inject_trae_account"@) == (19nat, 'i', 't', 'e', 'a', '_'),
        name_fingerprint("update_trae_account_tags"@) == (24nat, 'u', 'e', 'e', 'a', 'u'),
        name_fingerprint("list_workbuddy_accounts"@) == (23nat, 'l', 'w', 'u', 'd', 'a'),
        name_fingerprint("refresh_workbuddy_token"@) == (23nat, 'r', 's', 'r', 'b', 'd'),
        name_fingerprint("refresh_all_workbuddy_tokens"@) == (28nat, 'r', 's', 'l', 'w', 'y'),
        name_fingerprint("inject_workbuddy_to_vscode"@) == (26nat, 'i', 't', 'k', 'u', 'o'),
        name_fingerprint("update_workbuddy_account_tags"@) == (29nat, 'u', 'e', 'k', 'u', 'u'),
        name_fingerprint("list_zed_accounts"@) == (17nat, 'l', 'z', 'c', 'o', 'a'),
        name_fingerprint("refresh_zed_token"@) == (17nat, 'r', 's', 'd', 't', 'e'),
        name_fingerprint("refresh_all_zed_tokens"@) == (22nat, 'r', 's', 'l', 'z', 'd'),
        name_fingerprint("inject_zed_account"@) == (18nat, 'i', 't', '_', 'c', '_'),
        name_fingerprint("update_zed_account_tags"@) == (23nat, 'u', 'e', '_', 'c', 'u'),
        name_fingerprint("get_provider_current_account_id"@) == (31nat, 'g', 'r', 'e', '_', 'c'),
        name_fingerprint("get_network_config"@) == (18nat, 'g', 'e', 'k', 'c', 'k'),
        name_fingerprint("save_network_config"@) == (19nat, 's', 'n', 'r', '_', 'k'),
        name_fingerprint("get_general_config"@) == (18nat, 'g', 'e', 'l', 'c', 'l'),
        name_fingerprint("save_general_config"@) == (19nat, 's', 'g', 'a', '_', 'l'),
        name_fingerprint("get_available_terminals"@) == (23nat, 'g', 'v', 'b', 'e', 'e'),
        name_fingerprint("set_app_path"@) == (12nat, 's', 'p', 't', ' ', 'a'),
        name_fingerprint("set_codex_launch_on_switch"@) == (26nat, 's', 'o', 'l', 'u', 'n'),
        name_fingerprint("set_codex_local_access_entry_visible"@) == (36nat, 's', 'o', 'l', 'c', '_'),
        name_fingerprint("save_tray_platform_layout"@) == (25nat, 's', 't', 'p', 'a', 'm'),
        name_fingerprint("set_wakeup_override"@) == (19nat, 's', 'a', '_', 'v', 'o'),
        name_fingerprint("external_import_take_pending"@) == (28nat, 'e', 'n', 'm', 'o', '_'),
        name_fingerprint("external_import_fetch_import_url"@) == (32nat, 'e', 'n', 'm', 'o', 'p'),
        name_fingerprint("detect_app_path"@) == (15nat, 'd', 't', '_', 'a', 'a'),
        name_fingerprint("get_antigravity_installed_version_info"@) == (38nat, 'g', 'n', 'a', 'i', 'i'),
        name_fingerprint("get_auto_backup_settings"@) == (24nat, 'g', 'u', 'a', 'k', 's'),
        name_fingerprint("save_auto_backup_settings"@) == (25nat, 's', 'a', 'b', 'c', 's'),
        name_fingerprint("update_auto_backup_last_run"@) == (27nat, 'u', 'e', 'o', 'b', 'l'),
        name_fingerprint("write_auto_backup_file"@) == (22nat, 'w', '_', '_', 'a', 'k'),
        name_fingerprint("read_auto_backup_file"@) == (21nat, 'r', 'a', 'b', 'c', 'k'),
        name_fingerprint("copy_auto_backup_file"@) == (21nat, 'c', 'a', 'b', 'c', 'k'),
        name_fingerprint("list_auto_backup_files"@) == (22nat, 'l', 'a', 'b', 'c', 'u'),
        name_fingerprint("delete_auto_backup_file"@) == (23nat, 'd', 'e', 'o', 'b', 'k'),
        name_fingerprint("cleanup_auto_backup_files"@) == (25nat, 'c', 'u', 't', '_', 'u'),
        name_fingerprint("open_auto_backup_dir"@) == (20nat, 'o', 'a', 'b', 'c', 'c'),
        name_fingerprint("open_data_folder"@) == (16nat, 'o', 'd', 'f', 'l', 'a'),
        name_fingerprint("open_folder"@) == (11nat, 'o', 'f', 'r', ' ', 'n'),
        name_fingerprint("show_floating_card_window"@) == (25nat, 's', 'f', 'i', 'g', 'd'),
        name_fingerprint("show_instance_floating_card_window"@) == (34nat, 's', 'i', 'n', 'e', 'd'),
        name_fingerprint("get_floating_card_context"@) == (25nat, 'g', 'l', 'n', '_', '_'),
        name_fingerprint("hide_floating_card_window"@) == (25nat, 'h', 'f', 'i', 'g', 'd'),
        name_fingerprint("set_floating_card_always_on_top"@) == (31nat, 's', 'l', 'n', '_', 's'),
        name_fingerprint("set_floating_card_confirm_on_close"@) == (34nat, 's', 'l', 'n', '_', 'o'),
        name_fingerprint("save_floating_card_position"@) == (27nat, 's', 'f', 'i', 'g', 'p'),
        name_fingerprint("show_main_window_and_navigate"@) == (29nat, 's', 'm', 'w', 'n', 'n'),
        name_fingerprint("logs_get_snapshot"@) == (17nat, 'l', 'g', 'n', 'p', 's'),
        name_fingerprint("logs_open_log_directory"@) == (23nat, 'l', 'o', 'l', 'g', 'i'),
        name_fingerprint("wakeup_ensure_runtime_ready"@) == (27nat, 'w', 'p', 'u', 'e', 'm'),
        name_fingerprint("wakeup_set_official_ls_version_mode"@) == (35nat, 'w', 'p', '_', 'f', 'i'),
        name_fingerprint("trigger_wakeup"@) == (14nat, 't', 'e', 'k', 'u', 'r'),
        name_fingerprint("fetch_available_models"@) == (22nat, 'f', '_', 'l', 'b', 'e'),
        name_fingerprint("wakeup_validate_crontab"@) == (23nat, 'w', 'p', 'i', 'a', '_'),
        name_fingerprint("wakeup_sync_state"@) == (17nat, 'w', 'p', 'c', 's', 'n'),
        name_fingerprint("wakeup_run_enabled_tasks"@) == (24nat, 'w', 'p', '_', 'n', 'e'),
        name_fingerprint("wakeup_load_history"@) == (19nat, 'w', 'p', 'd', 'h', '_'),
        name_fingerprint("wakeup_add_history"@) == (18nat, 'w', 'p', '_', 'i', '_'),
        name_fingerprint("wakeup_clear_history"@) == (20nat, 'w', 'p', 'a', '_', '_'),
        name_fingerprint("wakeup_cancel_scope"@) == (19nat, 'w', 'p', 'c', 'l', 'e'),
        name_fingerprint("wakeup_release_scope"@) == (20nat, 'w', 'p', 'e', 's', 's'),
        name_fingerprint("wakeup_verification_load_state"@) == (30nat, 'w', 'p', 'i', 'i', 'a'),
        name_fingerprint("wakeup_verification_load_history"@) == (32nat, 'w', 'p', 'i', 'i', '_'),
        name_fingerprint("wakeup_verification_delete_history"@) == (34nat, 'w', 'p', 'i', 'i', '_'),
        name_fingerprint("wakeup_verification_run_batch"@) == (29nat, 'w', 'p', 'i', 'i', 'u'),
        name_fingerprint("confirm_wakeup_task"@) == (19nat, 'c', 'r', 'k', 'u', 'e'),
        name_fingerprint("cancel_wakeup_task"@) == (18nat, 'c', 'l', 'e', 'p', 'e'),
        name_fingerprint("check_wakeup_timeouts"@) == (21nat, 'c', '_', 'u', '_', 't'),
        name_fingerprint("codex_wakeup_get_cli_status"@) == (27nat, 'c', '_', 'u', '_', 'i'),
        name_fingerprint("codex_wakeup_update_runtime_config"@) == (34nat, 'c', '_', 'u', '_', 'e'),
        name_fingerprint("codex_wakeup_get_overview"@) == (25nat, 'c', '_', 'u', '_', 'o'),
        name_fingerprint("codex_wakeup_get_state"@) == (22nat, 'c', '_', 'u', '_', 'e'),
        name_fingerprint("codex_wakeup_save_state"@) == (23nat, 'c', '_', 'u', '_', 'v'),
        name_fingerprint("codex_wakeup_load_history"@) == (25nat, 'c', '_', 'u', '_', '_'),
        name_fingerprint("codex_wakeup_clear_history"@) == (26nat, 'c', '_', 'u', '_', '_'),
        name_fingerprint("codex_wakeup_cancel_scope"@) == (25nat, 'c', '_', 'u', '_', 'e'),
        name_fingerprint("codex_wakeup_release_scope"@) == (26nat, 'c', '_', 'u', '_', 's'),
        name_fingerprint("codex_wakeup_test"@) == (17nat, 'c', '_', 'u', '_', 'e'),
        name_fingerprint("codex_wakeup_run_task"@) == (21nat, 'c', '_', 'u', '_', 'r'),
        name_fingerprint("codex_wakeup_run_enabled_tasks"@) == (30nat, 'c', '_', 'u', '_', 'e'),
        name_fingerprint("get_update_settings"@) == (19nat, 'g', 'p', '_', 'e', 's'),
        name_fingerprint("save_update_settings"@) == (20nat, 's', 'u', 'e', 's', 's'),
        name_fingerprint("should_check_updates"@) == (20nat, 's', 'd', 'c', '_', '_'),
        name_fingerprint("update_last_check_time"@) == (22nat, 'u', 'e', 't', 'c', 'e'),
        name_fingerprint("check_version_jump"@) == (18nat, 'c', '_', 'i', 'n', 'i'),
        name_fingerprint("get_release_history"@) == (19nat, 'g', 'e', 'e', 'h', '_'),
        name_fingerprint("update_log"@) == (10nat, 'u', 'e', ' ', ' ', 'd'),
        name_fingerprint("get_update_runtime_info"@) == (23nat, 'g', 'p', '_', 'u', 'i'),
        name_fingerprint("announcement_get_state"@) == (22nat, 'a', 'n', 'n', '_', 'e'),
        name_fingerprint("announcement_mark_as_read"@) == (25nat, 'a', 'n', 'n', '_', '_'),
        name_fingerprint("announcement_mark_all_as_read"@) == (29nat, 'a', 'n', 'n', '_', '_'),
        name_fingerprint("announcement_force_refresh"@) == (26nat, 'a', 'n', 'n', '_', '_'),
        name_fingerprint("announcement_get_top_right_ad"@) == (29nat, 'a', 'n', 'n', '_', 'r'),
        name_fingerprint("get_group_settings"@) == (18nat, 'g', 'r', 's', 't', 's'),
        name_fingerprint("get_display_groups"@) == (18nat, 'g', 'i', 'y', 'g', 'y'),
        name_fingerprint("codex_get_instance_defaults"@) == (27nat, 'c', '_', 'i', 's', 'd'),
        name_fingerprint("codex_list_instances"@) == (20nat, 'c', '_', '_', 'n', 'n'),
        name_fingerprint("github_copilot_get_instance_defaults"@) == (36nat, 'g', 'b', 'i', 'o', 'd'),
        name_fingerprint("github_copilot_list_instances"@) == (29nat, 'g', 'b', 'i', 'o', 'n'),
        name_fingerprint("windsurf_get_instance_defaults"@) == (30nat, 'w', 'u', 'e', '_', 'd'),
        name_fingerprint("windsurf_list_instances"@) == (23nat, 'w', 'u', 'i', 't', 'n'),
        name_fingerprint("kiro_get_instance_defaults"@) == (26nat, 'k', 'g', 'n', 't', 'd'),
        name_fingerprint("kiro_list_instances"@) == (19nat, 'k', 'l', 'i', 's', 'n'),
        name_fingerprint("cursor_get_instance_defaults"@) == (28nat, 'c', 'r', '_', 'n', 'd'),
        name_fingerprint("cursor_list_instances"@) == (21nat, 'c', 'r', 't', 'i', 'n'),
        name_fingerprint("gemini_get_instance_defaults"@) == (28nat, 'g', 'i', '_', 'n', 'd'),
        name_fingerprint("gemini_list_instances"@) == (21nat, 'g', 'i', 't', 'i', 'n'),
        name_fingerprint("codebuddy_get_instance_defaults"@) == (31nat, 'c', 'u', 'g', 't', 'd'),
        name_fingerprint("codebuddy_list_instances"@) == (24nat, 'c', 'u', 'l', 's', 'n'),
        name_fingerprint("codebuddy_cn_get_instance_defaults"@) == (34nat, 'c', 'u', 'c', '_', 'd'),
        name_fingerprint("codebuddy_cn_list_instances"@) == (27nat, 'c', 'u', 'c', '_', 'n'),
        name_fingerprint("qoder_get_instance_defaults"@) == (27nat, 'q', '_', 'i', 's', 'd'),
        name_fingerprint("qoder_list_instances"@) == (20nat, 'q', '_', '_', 'n', 'n'),
        name_fingerprint("trae_get_instance_defaults"@) == (26nat, 't', 'g', 'n', 't', 'd'),
        name_fingerprint("trae_list_instances"@) == (19nat, 't', 'l', 'i', 's', 'n'),
        name_fingerprint("workbuddy_get_instance_defaults"@) == (31nat, 'w', 'u', 'g', 't', 'd'),
        name_fingerprint("workbuddy_list_instances"@) == (24nat, 'w', 'u', 'l', 's', 'n'),
        name_fingerprint("plugin:app|version"@) == (18nat, 'p', 'n', '|', 'e', '|'),
        name_fingerprint("plugin:app|name"@) == (15nat, 'p', 'n', '|', 'a', 'a'),
        name_fingerprint("plugin:app|identifier"@) == (21nat, 'p', 'n', '|', 'd', 'e'),
        name_fingerprint("plugin:app|tauri_version"@) == (24nat, 'p', 'n', '|', 'a', '_'),
        name_fingerprint("plugin:event|listen"@) == (19nat, 'p', 'n', 'n', '|', 't'),
        name_fingerprint("plugin:event|unlisten"@) == (21nat, 'p', 'n', 'n', '|', 'u'),
        name_fingerprint("plugin:event|emit"@) == (17nat, 'p', 'n', 'n', '|', 'e'),
        name_fingerprint("plugin:event|emit_to"@) == (20nat, 'p', 'n', 'n', '|', '|'),
        name_fingerprint("plugin:window|get_all_windows"@) == (29nat, 'p', 'n', 'd', 'w', '_'),
        name_fingerprint("plugin:webview|get_all_webviews"@) == (31nat, 'p', 'n', 'v', 'e', 'w'),
        name_fingerprint("plugin:window|start_dragging"@) == (28nat, 'p', 'n', 'd', 'w', 'd'),
        name_fingerprint("plugin:window|set_theme"@) == (23nat, 'p', 'n', 'd', 'w', 'e'),
        name_fingerprint("plugin:webview|set_webview_zoom"@) == (31nat, 'p', 'n', 'v', 'e', 'i'),
        name_fingerprint("plugin:webview|set_zoom"@) == (23nat, 'p', 'n', 'v', 'e', 's'),
        name_fingerprint("hide_current_floating_card_window"@) == (33nat, 'h', 'c', 'n', '_', 'd'),
        name_fingerprint("set_current_floating_card_window_always_on_top"@) == (46nat, 's', 'u', 't', 'f', 's'),
{
    reveal_strlit("list_accounts");
    reveal_strlit("get_current_account");
    reveal_strlit("set_current_account");
    reveal_strlit("fetch_account_quota");
    reveal_strlit("refresh_all_quotas");
    reveal_strlit("refresh_current_quota");
    reveal_strlit("switch_account");
    reveal_strlit("update_account_tags");
    reveal_strlit("update_account_notes");
    reveal_strlit("load_account_groups");
    reveal_strlit("save_account_groups");
    reveal_strlit("list_codex_accounts");
    reveal_strlit("get_current_codex_account");
    reveal_strlit("refresh_current_codex_quota");
    reveal_strlit("refresh_codex_quota");
    reveal_strlit("refresh_codex_subscription_info");
    reveal_strlit("refresh_codex_account_profile");
    reveal_strlit("refresh_all_codex_quotas");
    reveal_strlit("switch_codex_account");
    reveal_strlit("load_codex_account_groups");
    reveal_strlit("save_codex_account_groups");
    reveal_strlit("get_codex_quick_config");
    reveal_strlit("save_codex_quick_config");
    reveal_strlit("get_codex_app_speed_config");
    reveal_strlit("save_codex_app_speed");
    reveal_strlit("get_codex_api_service_app_speed_config");
    reveal_strlit("save_codex_api_service_app_speed");
    reveal_strlit("codex_local_access_get_state");
    reveal_strlit("list_github_copilot_accounts");
    reveal_strlit("refresh_github_copilot_token");
    reveal_strlit("refresh_all_github_copilot_tokens");
    reveal_strlit("inject_github_copilot_to_vscode");
    reveal_strlit("update_github_copilot_account_tags");
    reveal_strlit("list_windsurf_accounts");
    reveal_strlit("refresh_windsurf_token");
    reveal_strlit("refresh_all_windsurf_tokens");
    reveal_strlit("inject_windsurf_to_vscode");
    reveal_strlit("update_windsurf_account_tags");
    reveal_strlit("list_kiro_accounts");
    reveal_strlit("refresh_kiro_token");
    reveal_strlit("refresh_all_kiro_tokens");
    reveal_strlit("inject_kiro_to_vscode");
    reveal_strlit("update_kiro_account_tags");
    reveal_strlit("list_cursor_accounts");
    reveal_strlit("refresh_cursor_token");
    reveal_strlit("refresh_all_cursor_tokens");
    reveal_strlit("inject_cursor_account");
    reveal_strlit("update_cursor_account_tags");
    reveal_strlit("list_gemini_accounts");
    reveal_strlit("refresh_gemini_token");
    reveal_strlit("refresh_all_gemini_tokens");
    reveal_strlit("inject_gemini_account");
    reveal_strlit("update_gemini_account_tags");
    reveal_strlit("list_codebuddy_accounts");
    reveal_strlit("refresh_codebuddy_token");
    reveal_strlit("refresh_all_codebuddy_tokens");
    reveal_strlit("inject_codebuddy_to_vscode");
    reveal_strlit("update_codebuddy_account_tags");
    reveal_strlit("list_codebuddy_cn_accounts");
    reveal_strlit("refresh_codebuddy_cn_token");
    reveal_strlit("refresh_all_codebuddy_cn_tokens");
    reveal_strlit("inject_codebuddy_cn_to_vscode");
    reveal_strlit("update_codebuddy_cn_account_tags");
    reveal_strlit("list_qoder_accounts");
    reveal_strlit("refresh_qoder_token");
    reveal_strlit("refresh_all_qoder_tokens");
    reveal_strlit("inject_qoder_account");
    reveal_strlit("update_qoder_account_tags");
    reveal_strlit("list_trae_accounts");
    reveal_strlit("refresh_trae_token");
    reveal_strlit("refresh_all_trae_tokens");
    reveal_strlit("inject_trae_account");
    reveal_strlit("update_trae_account_tags");
    reveal_strlit("list_workbuddy_accounts");
    reveal_strlit("refresh_workbuddy_token");
    reveal_strlit("refresh_all_workbuddy_tokens");
    reveal_strlit("inject_workbuddy_to_vscode");
    reveal_strlit("update_workbuddy_account_tags");
    reveal_strlit("list_zed_accounts");
    reveal_strlit("refresh_zed_token");
    reveal_strlit("refresh_all_zed_tokens");
    reveal_strlit("inject_zed_account");
    reveal_strlit("update_zed_account_tags");
    reveal_strlit("get_provider_current_account_id");
    reveal_strlit("get_network_config");
    reveal_strlit("save_network_config");
    reveal_strlit("get_general_config");
    reveal_strlit("save_general_config");
    reveal_strlit("get_available_terminals");
    reveal_strlit("set_app_path");
    reveal_strlit("set_codex_launch_on_switch");
    reveal_strlit("set_codex_local_access_entry_visible");
    reveal_strlit("save_tray_platform_layout");
    reveal_strlit("set_wakeup_override");
    reveal_strlit("external_import_take_pending");
    reveal_strlit("external_import_fetch_import_url");
    reveal_strlit("detect_app_path");
    reveal_strlit("get_antigravity_installed_version_info");
    reveal_strlit("get_auto_backup_settings");
    reveal_strlit("save_auto_backup_settings");
    reveal_strlit("update_auto_backup_last_run");
    reveal_strlit("write_auto_backup_file");
    reveal_strlit("read_auto_backup_file");
    reveal_strlit("copy_auto_backup_file");
    reveal_strlit("list_auto_backup_files");
    reveal_strlit("delete_auto_backup_file");
    reveal_strlit("cleanup_auto_backup_files");
    reveal_strlit("open_auto_backup_dir");
    reveal_strlit("open_data_folder");
    reveal_strlit("open_folder");
    reveal_strlit("show_floating_card_window");
    reveal_strlit("show_instance_floating_card_window");
    reveal_strlit("get_floating_card_context");
    reveal_strlit("hide_floating_card_window");
    reveal_strlit("set_floating_card_always_on_top");
    reveal_strlit("set_floating_card_confirm_on_close");
    reveal_strlit("save_floating_card_position");
    reveal_strlit("show_main_window_and_navigate");
    reveal_strlit("logs_get_snapshot");
    reveal_strlit("logs_open_log_directory");
    reveal_strlit("wakeup_ensure_runtime_ready");
    reveal_strlit("wakeup_set_official_ls_version_mode");
    reveal_strlit("trigger_wakeup");
    reveal_strlit("fetch_available_models");
    reveal_strlit("wakeup_validate_crontab");
    reveal_strlit("wakeup_sync_state");
    reveal_strlit("wakeup_run_enabled_tasks");
    reveal_strlit("wakeup_load_history");
    reveal_strlit("wakeup_add_history");
    reveal_strlit("wakeup_clear_history");
    reveal_strlit("wakeup_cancel_scope");
    reveal_strlit("wakeup_release_scope");
    reveal_strlit("wakeup_verification_load_state");
    reveal_strlit("wakeup_verification_load_history");
    reveal_strlit("wakeup_verification_delete_history");
    reveal_strlit("wakeup_verification_run_batch");
    reveal_strlit("confirm_wakeup_task");
    reveal_strlit("cancel_wakeup_task");
    reveal_strlit("check_wakeup_timeouts");
    reveal_strlit("codex_wakeup_get_cli_status");
    reveal_strlit("codex_wakeup_update_runtime_config");
    reveal_strlit("codex_wakeup_get_overview");
    reveal_strlit("codex_wakeup_get_state");
    reveal_strlit("codex_wakeup_save_state");
    reveal_strlit("codex_wakeup_load_history");
    reveal_strlit("codex_wakeup_clear_history");
    reveal_strlit("codex_wakeup_cancel_scope");
    reveal_strlit("codex_wakeup_release_scope");
    reveal_strlit("codex_wakeup_test");
    reveal_strlit("codex_wakeup_run_task");
    reveal_strlit("codex_wakeup_run_enabled_tasks");
    reveal_strlit("get_update_settings");
    reveal_strlit("save_update_settings");
    reveal_strlit("should_check_updates");
    reveal_strlit("update_last_check_time");
    reveal_strlit("check_version_jump");
    reveal_strlit("get_release_history");
    reveal_strlit("update_log");
    reveal_strlit("get_update_runtime_info");
    reveal_strlit("announcement_get_state");
    reveal_strlit("announcement_mark_as_read");
    reveal_strlit("announcement_mark_all_as_read");
    reveal_strlit("announcement_force_refresh");
    reveal_strlit("announcement_get_top_right_ad");
    reveal_strlit("get_group_settings");
    reveal_strlit("get_display_groups");
    reveal_strlit("codex_get_instance_defaults");
    reveal_strlit("codex_list_instances");
    reveal_strlit("github_copilot_get_instance_defaults");
    reveal_strlit("github_copilot_list_instances");
    reveal_strlit("windsurf_get_instance_defaults");
    reveal_strlit("windsurf_list_instances");
    reveal_strlit("kiro_get_instance_defaults");
    reveal_strlit("kiro_list_instances");
    reveal_strlit("cursor_get_instance_defaults");
    reveal_strlit("cursor_list_instances");
    reveal_strlit("gemini_get_instance_defaults");
    reveal_strlit("gemini_list_instances");
    reveal_strlit("codebuddy_get_instance_defaults");
    reveal_strlit("codebuddy_list_instances");
    reveal_strlit("codebuddy_cn_get_instance_defaults");
    reveal_strlit("codebuddy_cn_list_instances");
    reveal_strlit("qoder_get_instance_defaults");
    reveal_strlit("qoder_list_instances");
    reveal_strlit("trae_get_instance_defaults");
    reveal_strlit("trae_list_instances");
    reveal_strlit("workbuddy_get_instance_defaults");
    reveal_strlit("workbuddy_list_instances");
    reveal_strlit("plugin:app|version");
    reveal_strlit("plugin:app|name");
    reveal_strlit("plugin:app|identifier");
    reveal_strlit("plugin:app|tauri_version");
    reveal_strlit("plugin:event|listen");
    reveal_strlit("plugin:event|unlisten");
    reveal_strlit("plugin:event|emit");
    reveal_strlit("plugin:event|emit_to");
    reveal_strlit("plugin:window|get_all_windows");
    reveal_strlit("plugin:webview|get_all_webviews");
    reveal_strlit("plugin:window|start_dragging");
    reveal_strlit("plugin:window|set_theme");
    reveal_strlit("plugin:webview|set_webview_zoom");
    reveal_strlit("plugin:webview|set_zoom");
    reveal_strlit("hide_current_floating_card_window");
    reveal_strlit("set_current_floating_card_window_always_on_top");
}

/// The commands that the console answers itself, each with its answer.
pub proof fn law_builtin_commands()
    ensures
        spec_invoke_route("plugin:app|version"@) == InvokeRoute::Builtin(BuiltinReply::AppVersion),
        spec_invoke_route("plugin:app|name"@) == InvokeRoute::Builtin(BuiltinReply::Text("Cockpit Tools")),
        spec_invoke_route("plugin:app|identifier"@) == InvokeRoute::Builtin(BuiltinReply::Text("com.jlcodes.cockpit-tools")),
        spec_invoke_route("plugin:app|tauri_version"@) == InvokeRoute::Builtin(BuiltinReply::Text("2")),
        spec_invoke_route("plugin:event|listen"@) == InvokeRoute::Builtin(BuiltinReply::Integer(1)),
        spec_invoke_route("plugin:event|unlisten"@) == InvokeRoute::Builtin(BuiltinReply::Null),
        spec_invoke_route("plugin:event|emit"@) == InvokeRoute::Builtin(BuiltinReply::Null),
        spec_invoke_route("plugin:event|emit_to"@) == InvokeRoute::Builtin(BuiltinReply::Null),
        spec_invoke_route("plugin:window|get_all_windows"@) == InvokeRoute::Builtin(BuiltinReply::MainWindow),
        spec_invoke_route("plugin:webview|get_all_webviews"@) == InvokeRoute::Builtin(BuiltinReply::MainWebview),
        spec_invoke_route("plugin:window|start_dragging"@) == InvokeRoute::Builtin(BuiltinReply::Null),
        spec_invoke_route("plugin:window|set_theme"@) == InvokeRoute::Builtin(BuiltinReply::Null),
        spec_invoke_route("plugin:webview|set_webview_zoom"@) == InvokeRoute::Builtin(BuiltinReply::Null),
        spec_invoke_route("plugin:webview|set_zoom"@) == InvokeRoute::Builtin(BuiltinReply::Null),
        spec_invoke_route("hide_current_floating_card_window"@) == InvokeRoute::Builtin(BuiltinReply::Null),
        spec_invoke_route("set_current_floating_card_window_always_on_top"@) == InvokeRoute::Builtin(BuiltinReply::Null),
{
    lemma_command_fingerprints();
}

/// Forwarded commands, part 1 of 8: each is forwarded to the
/// application, with the application handle when its handler takes one.
pub proof fn law_forwarded_commands_1()
    ensures
        spec_invoke_route("list_accounts"@) == InvokeRoute::Forward(ForwardedCommand::WithoutAppHandle),
        spec_invoke_route("get_current_account"@) == InvokeRoute::Forward(ForwardedCommand::WithoutAppHandle),
        spec_invoke_route("set_current_account"@) == InvokeRoute::Forward(ForwardedCommand::WithAppHandle),
        spec_invoke_route("fetch_account_quota"@) == InvokeRoute::Forward(ForwardedCommand::WithoutAppHandle),
        spec_invoke_route("refresh_all_quotas"@) == InvokeRoute::Forward(ForwardedCommand::WithAppHandle),
        spec_invoke_route("refresh_current_quota"@) == InvokeRoute::Forward(ForwardedCommand::WithAppHandle),
        spec_invoke_route("switch_account"@) == InvokeRoute::Forward(ForwardedCommand::WithAppHandle),
        spec_invoke_route("update_account_tags"@) == InvokeRoute::Forward(ForwardedCommand::WithoutAppHandle),
        spec_invoke_route("update_account_notes"@) == InvokeRoute::Forward(ForwardedCommand::WithoutAppHandle),
        spec_invoke_route("load_account_groups"@) == InvokeRoute::Forward(ForwardedCommand::WithoutAppHandle),
        spec_invoke_route("save_account_groups"@) == InvokeRoute::Forward(ForwardedCommand::WithoutAppHandle),
        spec_invoke_route("list_codex_accounts"@) == InvokeRoute::Forward(ForwardedCommand::WithoutAppHandle),
        spec_invoke_route("get_current_codex_account"@) == InvokeRoute::Forward(ForwardedCommand::WithoutAppHandle),
        spec_invoke_route("refresh_current_codex_quota"@) == InvokeRoute::Forward(ForwardedCommand::WithAppHandle),
        spec_invoke_route("refresh_codex_quota"@) == InvokeRoute::Forward(ForwardedCommand::WithAppHandle),
        spec_invoke_route("refresh_codex_subscription_info"@) == InvokeRoute::Forward(ForwardedCommand::WithAppHandle),
        spec_invoke_route("refresh_codex_account_profile"@) == InvokeRoute::Forward(ForwardedCommand::WithoutAppHandle),
        spec_invoke_route("refresh_all_codex_quotas"@) == InvokeRoute::Forward(ForwardedCommand::WithAppHandle),
        spec_invoke_route("switch_codex_account"@) == InvokeRoute::Forward(ForwardedCommand::WithAppHandle),
        spec_invoke_route("load_codex_account_groups"@) == InvokeRoute::Forward(ForwardedCommand::WithoutAppHandle),
        spec_invoke_route("save_codex_account_groups"@) == InvokeRoute::Forward(ForwardedCommand::WithoutAppHandle),
        spec_invoke_route("get_codex_quick_config"@) == InvokeRoute::Forward(ForwardedCommand::WithoutAppHandle),
        spec_invoke_route("save_codex_quick_config"@) == InvokeRoute::Forward(ForwardedCommand::WithoutAppHandle),
        spec_invoke_route("get_codex_app_speed_config"@) == InvokeRoute::Forward(ForwardedCommand::WithoutAppHandle),
{
    lemma_command_fingerprints();
}

/// Forwarded commands, part 2 of 8: each is forwarded to the
/// application, with the application handle when its handler takes one.
pub proof fn law_forwarded_commands_2()
    ensures
        spec_invoke_route("save_codex_app_speed"@) == InvokeRoute::Forward(ForwardedCommand::WithoutAppHandle),
        spec_invoke_route("get_codex_api_service_app_speed_config"@) == InvokeRoute::Forward(ForwardedCommand::WithoutAppHandle),
        spec_invoke_route("save_codex_api_service_app_speed"@) == InvokeRoute::Forward(ForwardedCommand::WithoutAppHandle),
        spec_invoke_route("codex_local_access_get_state"@) == InvokeRoute::Forward(ForwardedCommand::WithoutAppHandle),
        spec_invoke_route("list_github_copilot_accounts"@) == InvokeRoute::Forward(ForwardedCommand::WithoutAppHandle),
        spec_invoke_route("refresh_github_copilot_token"@) == InvokeRoute::Forward(ForwardedCommand::WithAppHandle),
        spec_invoke_route("refresh_all_github_copilot_tokens"@) == InvokeRoute::Forward(ForwardedCommand::WithAppHandle),
        spec_invoke_route("inject_github_copilot_to_vscode"@) == InvokeRoute::Forward(ForwardedCommand::WithAppHandle),
        spec_invoke_route("update_github_copilot_account_tags"@) == InvokeRoute::Forward(ForwardedCommand::WithoutAppHandle),
        spec_invoke_route("list_windsurf_accounts"@) == InvokeRoute::Forward(ForwardedCommand::WithoutAppHandle),
        spec_invoke_route("refresh_windsurf_token"@) == InvokeRoute::Forward(ForwardedCommand::WithAppHandle),
        spec_invoke_route("refresh_all_windsurf_tokens"@) == InvokeRoute::Forward(ForwardedCommand::WithAppHandle),
        spec_invoke_route("inject_windsurf_to_vscode"@) == InvokeRoute::Forward(ForwardedCommand::WithAppHandle),
        spec_invoke_route("update_windsurf_account_tags"@) == InvokeRoute::Forward(ForwardedCommand::WithoutAppHandle),
        spec_invoke_route("list_kiro_accounts"@) == InvokeRoute::Forward(ForwardedCommand::WithoutAppHandle),
        spec_invoke_route("refresh_kiro_token"@) == InvokeRoute::Forward(ForwardedCommand::WithAppHandle),
        spec_invoke_route("refresh_all_kiro_tokens"@) == InvokeRoute::Forward(ForwardedCommand::WithAppHandle),
        spec_invoke_route("inject_kiro_to_vscode"@) == InvokeRoute::Forward(ForwardedCommand::WithAppHandle),
        spec_invoke_route("update_kiro_account_tags"@) == InvokeRoute::Forward(ForwardedCommand::WithoutAppHandle),
        spec_invoke_route("list_cursor_accounts"@) == InvokeRoute::Forward(ForwardedCommand::WithoutAppHandle),
        spec_invoke_route("refresh_cursor_token"@) == InvokeRoute::Forward(ForwardedCommand::WithAppHandle),
        spec_invoke_route("refresh_all_cursor_tokens"@) == InvokeRoute::Forward(ForwardedCommand::WithAppHandle),
        spec_invoke_route("inject_cursor_account"@) == InvokeRoute::Forward(ForwardedCommand::WithAppHandle),
        spec_invoke_route("update_cursor_account_tags"@) == InvokeRoute::Forward(ForwardedCommand::WithoutAppHandle),
{
    lemma_command_fingerprints();
}

/// Forwarded commands, part 3 of 8: each is forwarded to the
/// application, with the application handle when its handler takes one.
pub proof fn law_forwarded_commands_3()
    ensures
        spec_invoke_route("list_gemini_accounts"@) == InvokeRoute::Forward(ForwardedCommand::WithoutAppHandle),
        spec_invoke_route("refresh_gemini_token"@) == InvokeRoute::Forward(ForwardedCommand::WithAppHandle),
        spec_invoke_route("refresh_all_gemini_tokens"@) == InvokeRoute::Forward(ForwardedCommand::WithAppHandle),
        spec_invoke_route("inject_gemini_account"@) == InvokeRoute::Forward(ForwardedCommand::WithAppHandle),
        spec_invoke_route("update_gemini_account_tags"@) == InvokeRoute::Forward(ForwardedCommand::WithoutAppHandle),
        spec_invoke_route("list_codebuddy_accounts"@) == InvokeRoute::Forward(ForwardedCommand::WithoutAppHandle),
        spec_invoke_route("refresh_codebuddy_token"@) == InvokeRoute::Forward(ForwardedCommand::WithAppHandle),
        spec_invoke_route("refresh_all_codebuddy_tokens"@) == InvokeRoute::Forward(ForwardedCommand::WithAppHandle),
        spec_invoke_route("inject_codebuddy_to_vscode"@) == InvokeRoute::Forward(ForwardedCommand::WithAppHandle),
        spec_invoke_route("update_codebuddy_account_tags"@) == InvokeRoute::Forward(ForwardedCommand::WithoutAppHandle),
        spec_invoke_route("list_codebuddy_cn_accounts"@) == InvokeRoute::Forward(ForwardedCommand::WithoutAppHandle),
        spec_invoke_route("refresh_codebuddy_cn_token"@) == InvokeRoute::Forward(ForwardedCommand::WithAppHandle),
        spec_invoke_route("refresh_all_codebuddy_cn_tokens"@) == InvokeRoute::Forward(ForwardedCommand::WithAppHandle),
        spec_invoke_route("inject_codebuddy_cn_to_vscode"@) == InvokeRoute::Forward(ForwardedCommand::WithAppHandle),
        spec_invoke_route("update_codebuddy_cn_account_tags"@) == InvokeRoute::Forward(ForwardedCommand::WithoutAppHandle),
        spec_invoke_route("list_qoder_accounts"@) == InvokeRoute::Forward(ForwardedCommand::WithoutAppHandle),
        spec_invoke_route("refresh_qoder_token"@) == InvokeRoute::Forward(ForwardedCommand::WithAppHandle),
        spec_invoke_route("refresh_all_qoder_tokens"@) == InvokeRoute::Forward(ForwardedCommand::WithAppHandle),
        spec_invoke_route("inject_qoder_account"@) == InvokeRoute::Forward(ForwardedCommand::WithAppHandle),
        spec_invoke_route("update_qoder_account_tags"@) == InvokeRoute::Forward(ForwardedCommand::WithoutAppHandle),
        spec_invoke_route("list_trae_accounts"@) == InvokeRoute::Forward(ForwardedCommand::WithoutAppHandle),
        spec_invoke_route("refresh_trae_token"@) == InvokeRoute::Forward(ForwardedCommand::WithAppHandle),
        spec_invoke_route("refresh_all_trae_tokens"@) == InvokeRoute::Forward(ForwardedCommand::WithAppHandle),
        spec_invoke_route("inject_trae_account"@) == InvokeRoute::Forward(ForwardedCommand::WithAppHandle),
{
    lemma_command_fingerprints();
}

/// Forwarded commands, part 4 of 8: each is forwarded to the
/// application, with the application handle when its handler takes one.
pub proof fn law_forwarded_commands_4()
    ensures
        spec_invoke_route("update_trae_account_tags"@) == InvokeRoute::Forward(ForwardedCommand::WithoutAppHandle),
        spec_invoke_route("list_workbuddy_accounts"@) == InvokeRoute::Forward(ForwardedCommand::WithoutAppHandle),
        spec_invoke_route("refresh_workbuddy_token"@) == InvokeRoute::Forward(ForwardedCommand::WithAppHandle),
        spec_invoke_route("refresh_all_workbuddy_tokens"@) == InvokeRoute::Forward(ForwardedCommand::WithAppHandle),
        spec_invoke_route("inject_workbuddy_to_vscode"@) == InvokeRoute::Forward(ForwardedCommand::WithAppHandle),
        spec_invoke_route("update_workbuddy_account_tags"@) == InvokeRoute::Forward(ForwardedCommand::WithoutAppHandle),
        spec_invoke_route("list_zed_accounts"@) == InvokeRoute::Forward(ForwardedCommand::WithoutAppHandle),
        spec_invoke_route("refresh_zed_token"@) == InvokeRoute::Forward(ForwardedCommand::WithAppHandle),
        spec_invoke_route("refresh_all_zed_tokens"@) == InvokeRoute::Forward(ForwardedCommand::WithAppHandle),
        spec_invoke_route("inject_zed_account"@) == InvokeRoute::Forward(ForwardedCommand::WithAppHandle),
        spec_invoke_route("update_zed_account_tags"@) == InvokeRoute::Forward(ForwardedCommand::WithoutAppHandle),
        spec_invoke_route("get_provider_current_account_id"@) == InvokeRoute::Forward(ForwardedCommand::WithAppHandle),
        spec_invoke_route("get_network_config"@) == InvokeRoute::Forward(ForwardedCommand::WithoutAppHandle),
        spec_invoke_route("save_network_config"@) == InvokeRoute::Forward(ForwardedCommand::WithoutAppHandle),
        spec_invoke_route("get_general_config"@) == InvokeRoute::Forward(ForwardedCommand::WithAppHandle),
        spec_invoke_route("save_general_config"@) == InvokeRoute::Forward(ForwardedCommand::WithAppHandle),
        spec_invoke_route("get_available_terminals"@) == InvokeRoute::Forward(ForwardedCommand::WithoutAppHandle),
        spec_invoke_route("set_app_path"@) == InvokeRoute::Forward(ForwardedCommand::WithoutAppHandle),
        spec_invoke_route("set_codex_launch_on_switch"@) == InvokeRoute::Forward(ForwardedCommand::WithoutAppHandle),
        spec_invoke_route("set_codex_local_access_entry_visible"@) == InvokeRoute::Forward(ForwardedCommand::WithoutAppHandle),
        spec_invoke_route("save_tray_platform_layout"@) == InvokeRoute::Forward(ForwardedCommand::WithAppHandle),
        spec_invoke_route("set_wakeup_override"@) == InvokeRoute::Forward(ForwardedCommand::WithoutAppHandle),
        spec_invoke_route("external_import_take_pending"@) == InvokeRoute::Forward(ForwardedCommand::WithoutAppHandle),
        spec_invoke_route("external_import_fetch_import_url"@) == InvokeRoute::Forward(ForwardedCommand::WithoutAppHandle),
{
    lemma_command_fingerprints();
}

/// Forwarded commands, part 5 of 8: each is forwarded to the
/// application, with the application handle when its handler takes one.
pub proof fn law_forwarded_commands_5()
    ensures
        spec_invoke_route("detect_app_path"@) == InvokeRoute::Forward(ForwardedCommand::WithoutAppHandle),
        spec_invoke_route("get_antigravity_installed_version_info"@) == InvokeRoute::Forward(ForwardedCommand::WithoutAppHandle),
        spec_invoke_route("get_auto_backup_settings"@) == InvokeRoute::Forward(ForwardedCommand::WithoutAppHandle),
        spec_invoke_route("save_auto_backup_settings"@) == InvokeRoute::Forward(ForwardedCommand::WithoutAppHandle),
        spec_invoke_route("update_auto_backup_last_run"@) == InvokeRoute::Forward(ForwardedCommand::WithoutAppHandle),
        spec_invoke_route("write_auto_backup_file"@) == InvokeRoute::Forward(ForwardedCommand::WithoutAppHandle),
        spec_invoke_route("read_auto_backup_file"@) == InvokeRoute::Forward(ForwardedCommand::WithoutAppHandle),
        spec_invoke_route("copy_auto_backup_file"@) == InvokeRoute::Forward(ForwardedCommand::WithoutAppHandle),
        spec_invoke_route("list_auto_backup_files"@) == InvokeRoute::Forward(ForwardedCommand::WithoutAppHandle),
        spec_invoke_route("delete_auto_backup_file"@) == InvokeRoute::Forward(ForwardedCommand::WithoutAppHandle),
        spec_invoke_route("cleanup_auto_backup_files"@) == InvokeRoute::Forward(ForwardedCommand::WithoutAppHandle),
        spec_invoke_route("open_auto_backup_dir"@) == InvokeRoute::Forward(ForwardedCommand::WithoutAppHandle),
        spec_invoke_route("open_data_folder"@) == InvokeRoute::Forward(ForwardedCommand::WithoutAppHandle),
        spec_invoke_route("open_folder"@) == InvokeRoute::Forward(ForwardedCommand::WithoutAppHandle),
        spec_invoke_route("show_floating_card_window"@) == InvokeRoute::Forward(ForwardedCommand::WithAppHandle),
        spec_invoke_route("show_instance_floating_card_window"@) == InvokeRoute::Forward(ForwardedCommand::WithAppHandle),
        spec_invoke_route("get_floating_card_context"@) == InvokeRoute::Forward(ForwardedCommand::WithoutAppHandle),
        spec_invoke_route("hide_floating_card_window"@) == InvokeRoute::Forward(ForwardedCommand::WithAppHandle),
        spec_invoke_route("set_floating_card_always_on_top"@) == InvokeRoute::Forward(ForwardedCommand::WithAppHandle),
        spec_invoke_route("set_floating_card_confirm_on_close"@) == InvokeRoute::Forward(ForwardedCommand::WithoutAppHandle),
        spec_invoke_route("save_floating_card_position"@) == InvokeRoute::Forward(ForwardedCommand::WithoutAppHandle),
        spec_invoke_route("show_main_window_and_navigate"@) == InvokeRoute::Forward(ForwardedCommand::WithAppHandle),
        spec_invoke_route("logs_get_snapshot"@) == InvokeRoute::Forward(ForwardedCommand::WithoutAppHandle),
        spec_invoke_route("logs_open_log_directory"@) == InvokeRoute::Forward(ForwardedCommand::WithoutAppHandle),
{
    lemma_command_fingerprints();
}

/// Forwarded commands, part 6 of 8: each is forwarded to the
/// application, with the application handle when its handler takes one.
pub proof fn law_forwarded_commands_6()
    ensures
        spec_invoke_route("wakeup_ensure_runtime_ready"@) == InvokeRoute::Forward(ForwardedCommand::WithoutAppHandle),
        spec_invoke_route("wakeup_set_official_ls_version_mode"@) == InvokeRoute::Forward(ForwardedCommand::WithoutAppHandle),
        spec_invoke_route("trigger_wakeup"@) == InvokeRoute::Forward(ForwardedCommand::WithoutAppHandle),
        spec_invoke_route("fetch_available_models"@) == InvokeRoute::Forward(ForwardedCommand::WithoutAppHandle),
        spec_invoke_route("wakeup_validate_crontab"@) == InvokeRoute::Forward(ForwardedCommand::WithoutAppHandle),
        spec_invoke_route("wakeup_sync_state"@) == InvokeRoute::Forward(ForwardedCommand::WithAppHandle),
        spec_invoke_route("wakeup_run_enabled_tasks"@) == InvokeRoute::Forward(ForwardedCommand::WithAppHandle),
        spec_invoke_route("wakeup_load_history"@) == InvokeRoute::Forward(ForwardedCommand::WithoutAppHandle),
        spec_invoke_route("wakeup_add_history"@) == InvokeRoute::Forward(ForwardedCommand::WithoutAppHandle),
        spec_invoke_route("wakeup_clear_history"@) == InvokeRoute::Forward(ForwardedCommand::WithoutAppHandle),
        spec_invoke_route("wakeup_cancel_scope"@) == InvokeRoute::Forward(ForwardedCommand::WithoutAppHandle),
        spec_invoke_route("wakeup_release_scope"@) == InvokeRoute::Forward(ForwardedCommand::WithoutAppHandle),
        spec_invoke_route("wakeup_verification_load_state"@) == InvokeRoute::Forward(ForwardedCommand::WithoutAppHandle),
        spec_invoke_route("wakeup_verification_load_history"@) == InvokeRoute::Forward(ForwardedCommand::WithoutAppHandle),
        spec_invoke_route("wakeup_verification_delete_history"@) == InvokeRoute::Forward(ForwardedCommand::WithoutAppHandle),
        spec_invoke_route("wakeup_verification_run_batch"@) == InvokeRoute::Forward(ForwardedCommand::WithAppHandle),
        spec_invoke_route("confirm_wakeup_task"@) == InvokeRoute::Forward(ForwardedCommand::WithAppHandle),
        spec_invoke_route("cancel_wakeup_task"@) == InvokeRoute::Forward(ForwardedCommand::WithoutAppHandle),
        spec_invoke_route("check_wakeup_timeouts"@) == InvokeRoute::Forward(ForwardedCommand::WithAppHandle),
        spec_invoke_route("codex_wakeup_get_cli_status"@) == InvokeRoute::Forward(ForwardedCommand::WithoutAppHandle),
        spec_invoke_route("codex_wakeup_update_runtime_config"@) == InvokeRoute::Forward(ForwardedCommand::WithoutAppHandle),
        spec_invoke_route("codex_wakeup_get_overview"@) == InvokeRoute::Forward(ForwardedCommand::WithoutAppHandle),
        spec_invoke_route("codex_wakeup_get_state"@) == InvokeRoute::Forward(ForwardedCommand::WithoutAppHandle),
        spec_invoke_route("codex_wakeup_save_state"@) == InvokeRoute::Forward(ForwardedCommand::WithoutAppHandle),
{
    lemma_command_fingerprints();
}

/// Forwarded commands, part 7 of 8: each is forwarded to the
/// application, with the application handle when its handler takes one.
pub proof fn law_forwarded_commands_7()
    ensures
        spec_invoke_route("codex_wakeup_load_history"@) == InvokeRoute::Forward(ForwardedCommand::WithoutAppHandle),
        spec_invoke_route("codex_wakeup_clear_history"@) == InvokeRoute::Forward(ForwardedCommand::WithoutAppHandle),
        spec_invoke_route("codex_wakeup_cancel_scope"@) == InvokeRoute::Forward(ForwardedCommand::WithoutAppHandle),
        spec_invoke_route("codex_wakeup_release_scope"@) == InvokeRoute::Forward(ForwardedCommand::WithoutAppHandle),
        spec_invoke_route("codex_wakeup_test"@) == InvokeRoute::Forward(ForwardedCommand::WithAppHandle),
        spec_invoke_route("codex_wakeup_run_task"@) == InvokeRoute::Forward(ForwardedCommand::WithAppHandle),
        spec_invoke_route("codex_wakeup_run_enabled_tasks"@) == InvokeRoute::Forward(ForwardedCommand::WithAppHandle),
        spec_invoke_route("get_update_settings"@) == InvokeRoute::Forward(ForwardedCommand::WithoutAppHandle),
        spec_invoke_route("save_update_settings"@) == InvokeRoute::Forward(ForwardedCommand::WithoutAppHandle),
        spec_invoke_route("should_check_updates"@) == InvokeRoute::Forward(ForwardedCommand::WithoutAppHandle),
        spec_invoke_route("update_last_check_time"@) == InvokeRoute::Forward(ForwardedCommand::WithoutAppHandle),
        spec_invoke_route("check_version_jump"@) == InvokeRoute::Forward(ForwardedCommand::WithoutAppHandle),
        spec_invoke_route("get_release_history"@) == InvokeRoute::Forward(ForwardedCommand::WithoutAppHandle),
        spec_invoke_route("update_log"@) == InvokeRoute::Forward(ForwardedCommand::WithoutAppHandle),
        spec_invoke_route("get_update_runtime_info"@) == InvokeRoute::Forward(ForwardedCommand::WithoutAppHandle),
        spec_invoke_route("announcement_get_state"@) == InvokeRoute::Forward(ForwardedCommand::WithoutAppHandle),
        spec_invoke_route("announcement_mark_as_read"@) == InvokeRoute::Forward(ForwardedCommand::WithoutAppHandle),
        spec_invoke_route("announcement_mark_all_as_read"@) == InvokeRoute::Forward(ForwardedCommand::WithoutAppHandle),
        spec_invoke_route("announcement_force_refresh"@) == InvokeRoute::Forward(ForwardedCommand::WithoutAppHandle),
        spec_invoke_route("announcement_get_top_right_ad"@) == InvokeRoute::Forward(ForwardedCommand::WithoutAppHandle),
        spec_invoke_route("get_group_settings"@) == InvokeRoute::Forward(ForwardedCommand::WithoutAppHandle),
        spec_invoke_route("get_display_groups"@) == InvokeRoute::Forward(ForwardedCommand::WithoutAppHandle),
        spec_invoke_route("codex_get_instance_defaults"@) == InvokeRoute::Forward(ForwardedCommand::WithoutAppHandle),
        spec_invoke_route("codex_list_instances"@) == InvokeRoute::Forward(ForwardedCommand::WithoutAppHandle),
{
    lemma_command_fingerprints();
}

/// Forwarded commands, part 8 of 8: each is forwarded to the
/// application, with the application handle when its handler takes one.
pub proof fn law_forwarded_commands_8()
    ensures
        spec_invoke_route("github_copilot_get_instance_defaults"@) == InvokeRoute::Forward(ForwardedCommand::WithoutAppHandle),
        spec_invoke_route("github_copilot_list_instances"@) == InvokeRoute::Forward(ForwardedCommand::WithoutAppHandle),
        spec_invoke_route("windsurf_get_instance_defaults"@) == InvokeRoute::Forward(ForwardedCommand::WithoutAppHandle),
        spec_invoke_route("windsurf_list_instances"@) == InvokeRoute::Forward(ForwardedCommand::WithoutAppHandle),
        spec_invoke_route("kiro_get_instance_defaults"@) == InvokeRoute::Forward(ForwardedCommand::WithoutAppHandle),
        spec_invoke_route("kiro_list_instances"@) == InvokeRoute::Forward(ForwardedCommand::WithoutAppHandle),
        spec_invoke_route("cursor_get_instance_defaults"@) == InvokeRoute::Forward(ForwardedCommand::WithoutAppHandle),
        spec_invoke_route("cursor_list_instances"@) == InvokeRoute::Forward(ForwardedCommand::WithoutAppHandle),
        spec_invoke_route("gemini_get_instance_defaults"@) == InvokeRoute::Forward(ForwardedCommand::WithoutAppHandle),
        spec_invoke_route("gemini_list_instances"@) == InvokeRoute::Forward(ForwardedCommand::WithoutAppHandle),
        spec_invoke_route("codebuddy_get_instance_defaults"@) == InvokeRoute::Forward(ForwardedCommand::WithoutAppHandle),
        spec_invoke_route("codebuddy_list_instances"@) == InvokeRoute::Forward(ForwardedCommand::WithoutAppHandle),
        spec_invoke_route("codebuddy_cn_get_instance_defaults"@) == InvokeRoute::Forward(ForwardedCommand::WithoutAppHandle),
        spec_invoke_route("codebuddy_cn_list_instances"@) == InvokeRoute::Forward(ForwardedCommand::WithoutAppHandle),
        spec_invoke_route("qoder_get_instance_defaults"@) == InvokeRoute::Forward(ForwardedCommand::WithoutAppHandle),
        spec_invoke_route("qoder_list_instances"@) == InvokeRoute::Forward(ForwardedCommand::WithoutAppHandle),
        spec_invoke_route("trae_get_instance_defaults"@) == InvokeRoute::Forward(ForwardedCommand::WithoutAppHandle),
        spec_invoke_route("trae_list_instances"@) == InvokeRoute::Forward(ForwardedCommand::WithoutAppHandle),
        spec_invoke_route("workbuddy_get_instance_defaults"@) == InvokeRoute::Forward(ForwardedCommand::WithoutAppHandle),
        spec_invoke_route("workbuddy_list_instances"@) == InvokeRoute::Forward(ForwardedCommand::WithoutAppHandle),
{
    lemma_command_fingerprints();
}

} // verus!
