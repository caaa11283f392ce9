//! The General settings page.
use vstd::prelude::*;
use super::{
    append_section, page_well_formed, section_well_formed, SettingItem, SettingsPage,
    SettingsPageItem, USER, PROJECT,
};

verus! {

/// The entries of the "General Settings" section.
pub open spec fn general_settings_section_items() -> Seq<SettingsPageItem> {
    seq![
        SettingsPageItem::SectionHeader("General Settings"),
        SettingsPageItem::SettingItem(
            SettingItem {
                title: "Project Name",
                description: "The displayed name of this project. If left empty, the root directory name will be displayed.",
                json_path: Some("project_name"),
                placeholder: Some("Project Name"),
                files: PROJECT,
                editable: true,
            },
        ),
        SettingsPageItem::SettingItem(
            SettingItem {
                title: "When Closing With No Tabs",
                description: "What to do when using the 'close active item' action with no tabs.",
                json_path: Some("when_closing_with_no_tabs"),
                placeholder: None,
                files: USER,
                editable: true,
            },
        ),
        SettingsPageItem::SettingItem(
            SettingItem {
                title: "On Last Window Closed",
                description: "What to do when the last window is closed.",
                json_path: Some("on_last_window_closed"),
                placeholder: None,
                files: USER,
                editable: true,
            },
        ),
        SettingsPageItem::SettingItem(
            SettingItem {
                title: "Use System Path Prompts",
                description: "Use native OS dialogs for 'Open' and 'Save As'.",
                json_path: Some("use_system_path_prompts"),
                placeholder: None,
                files: USER,
                editable: true,
            },
        ),
        SettingsPageItem::SettingItem(
            SettingItem {
                title: "Use System Prompts",
                description: "Use native OS dialogs for confirmations.",
                json_path: Some("use_system_prompts"),
                placeholder: None,
                files: USER,
                editable: true,
            },
        ),
        SettingsPageItem::SettingItem(
            SettingItem {
                title: "Redact Private Values",
                description: "Hide the values of variables in private files.",
                json_path: Some("redact_private_values"),
                placeholder: None,
                files: USER,
                editable: true,
            },
        ),
        SettingsPageItem::SettingItem(
            SettingItem {
                title: "Private Files",
                description: "Globs to match against file paths to determine if a file is private.",
                json_path: Some("worktree.private_files"),
                placeholder: None,
                files: USER,
                editable: false,
            },
        )
    ]
}

fn general_settings_section() -> (r: Vec<SettingsPageItem>)
    ensures
        r@ == general_settings_section_items(),
        section_well_formed(r@),
{
    let mut r: Vec<SettingsPageItem> = Vec::new();
    r.push(SettingsPageItem::SectionHeader("General Settings"));
    r.push(SettingsPageItem::SettingItem(
        SettingItem {
            title: "Project Name",
            description: "The displayed name of this project. If left empty, the root directory name will be displayed.",
            json_path: Some("project_name"),
            placeholder: Some("Project Name"),
            files: PROJECT,
            editable: true,
        },
    ));
    r.push(SettingsPageItem::SettingItem(
        SettingItem {
            title: "When Closing With No Tabs",
            description: "What to do when using the 'close active item' action with no tabs.",
            json_path: Some("when_closing_with_no_tabs"),
            placeholder: None,
            files: USER,
            editable: true,
        },
    ));
    r.push(SettingsPageItem::SettingItem(
        SettingItem {
            title: "On Last Window Closed",
            description: "What to do when the last window is closed.",
            json_path: Some("on_last_window_closed"),
            placeholder: None,
            files: USER,
            editable: true,
        },
    ));
    r.push(SettingsPageItem::SettingItem(
        SettingItem {
            title: "Use System Path Prompts",
            description: "Use native OS dialogs for 'Open' and 'Save As'.",
            json_path: Some("use_system_path_prompts"),
            placeholder: None,
            files: USER,
            editable: true,
        },
    ));
    r.push(SettingsPageItem::SettingItem(
        SettingItem {
            title: "Use System Prompts",
            description: "Use native OS dialogs for confirmations.",
            json_path: Some("use_system_prompts"),
            placeholder: None,
            files: USER,
            editable: true,
        },
    ));
    r.push(SettingsPageItem::SettingItem(
        SettingItem {
            title: "Redact Private Values",
            description: "Hide the values of variables in private files.",
            json_path: Some("redact_private_values"),
            placeholder: None,
            files: USER,
            editable: true,
        },
    ));
    r.push(SettingsPageItem::SettingItem(
        SettingItem {
            title: "Private Files",
            description: "Globs to match against file paths to determine if a file is private.",
            json_path: Some("worktree.private_files"),
            placeholder: None,
            files: USER,
            editable: false,
        },
    ));
    assert(r@ =~= general_settings_section_items());
    r
}

/// The entries of the "Security" section.
pub open spec fn security_section_items() -> Seq<SettingsPageItem> {
    seq![
        SettingsPageItem::SectionHeader("Security"),
        SettingsPageItem::SettingItem(
            SettingItem {
                title: "Trust All Projects By Default",
                description: "When opening Zed, avoid Restricted Mode by auto-trusting all projects, enabling use of all features without having to give permission to each new project.",
                json_path: Some("session.trust_all_projects"),
                placeholder: None,
                files: USER,
                editable: true,
            },
        )
    ]
}

fn security_section() -> (r: Vec<SettingsPageItem>)
    ensures
        r@ == security_section_items(),
        section_well_formed(r@),
{
    let mut r: Vec<SettingsPageItem> = Vec::new();
    r.push(SettingsPageItem::SectionHeader("Security"));
    r.push(SettingsPageItem::SettingItem(
        SettingItem {
            title: "Trust All Projects By Default",
            description: "When opening Zed, avoid Restricted Mode by auto-trusting all projects, enabling use of all features without having to give permission to each new project.",
            json_path: Some("session.trust_all_projects"),
            placeholder: None,
            files: USER,
            editable: true,
        },
    ));
    assert(r@ =~= security_section_items());
    r
}

/// The entries of the "Workspace Restoration" section.
pub open spec fn workspace_restoration_section_items() -> Seq<SettingsPageItem> {
    seq![
        SettingsPageItem::SectionHeader("Workspace Restoration"),
        SettingsPageItem::SettingItem(
            SettingItem {
                title: "Restore Unsaved Buffers",
                description: "Whether or not to restore unsaved buffers on restart.",
                json_path: Some("session.restore_unsaved_buffers"),
                placeholder: None,
                files: USER,
                editable: true,
            },
        ),
        SettingsPageItem::SettingItem(
            SettingItem {
                title: "Restore On Startup",
                description: "What to restore from the previous session when opening Zed.",
                json_path: Some("restore_on_startup"),
                placeholder: None,
                files: USER,
                editable: true,
            },
        )
    ]
}

fn workspace_restoration_section() -> (r: Vec<SettingsPageItem>)
    ensures
        r@ == workspace_restoration_section_items(),
        section_well_formed(r@),
{
    let mut r: Vec<SettingsPageItem> = Vec::new();
    r.push(SettingsPageItem::SectionHeader("Workspace Restoration"));
    r.push(SettingsPageItem::SettingItem(
        SettingItem {
            title: "Restore Unsaved Buffers",
            description: "Whether or not to restore unsaved buffers on restart.",
            json_path: Some("session.restore_unsaved_buffers"),
            placeholder: None,
            files: USER,
            editable: true,
        },
    ));
    r.push(SettingsPageItem::SettingItem(
        SettingItem {
            title: "Restore On Startup",
            description: "What to restore from the previous session when opening Zed.",
            json_path: Some("restore_on_startup"),
            placeholder: None,
            files: USER,
            editable: true,
        },
    ));
    assert(r@ =~= workspace_restoration_section_items());
    r
}

/// The entries of the "Scoped Settings" section.
pub open spec fn scoped_settings_section_items() -> Seq<SettingsPageItem> {
    seq![
        SettingsPageItem::SectionHeader("Scoped Settings"),
        SettingsPageItem::SettingItem(
            SettingItem {
                title: "Preview Channel",
                description: "Which settings should be activated only in Preview build of Zed.",
                json_path: Some("preview_channel_settings"),
                placeholder: None,
                files: USER,
                editable: false,
            },
        ),
        SettingsPageItem::SettingItem(
            SettingItem {
                title: "Settings Profiles",
                description: "Any number of settings profiles that are temporarily applied on top of your existing user settings.",
                json_path: Some("settings_profiles"),
                placeholder: None,
                files: USER,
                editable: false,
            },
        )
    ]
}

fn scoped_settings_section() -> (r: Vec<SettingsPageItem>)
    ensures
        r@ == scoped_settings_section_items(),
        section_well_formed(r@),
{
    let mut r: Vec<SettingsPageItem> = Vec::new();
    r.push(SettingsPageItem::SectionHeader("Scoped Settings"));
    r.push(SettingsPageItem::SettingItem(
        SettingItem {
            title: "Preview Channel",
            description: "Which settings should be activated only in Preview build of Zed.",
            json_path: Some("preview_channel_settings"),
            placeholder: None,
            files: USER,
            editable: false,
        },
    ));
    r.push(SettingsPageItem::SettingItem(
        SettingItem {
            title: "Settings Profiles",
            description: "Any number of settings profiles that are temporarily applied on top of your existing user settings.",
            json_path: Some("settings_profiles"),
            placeholder: None,
            files: USER,
            editable: false,
        },
    ));
    assert(r@ =~= scoped_settings_section_items());
    r
}

/// The entries of the "Privacy" section.
pub open spec fn privacy_section_items() -> Seq<SettingsPageItem> {
    seq![
        SettingsPageItem::SectionHeader("Privacy"),
        SettingsPageItem::SettingItem(
            SettingItem {
                title: "Telemetry Diagnostics",
                description: "Send debug information like crash reports.",
                json_path: Some("telemetry.diagnostics"),
                placeholder: None,
                files: USER,
                editable: true,
            },
        ),
        SettingsPageItem::SettingItem(
            SettingItem {
                title: "Telemetry Metrics",
                description: "Send anonymized usage data like what languages you're using Zed with.",
                json_path: Some("telemetry.metrics"),
                placeholder: None,
                files: USER,
                editable: true,
            },
        )
    ]
}

fn privacy_section() -> (r: Vec<SettingsPageItem>)
    ensures
        r@ == privacy_section_items(),
        section_well_formed(r@),
{
    let mut r: Vec<SettingsPageItem> = Vec::new();
    r.push(SettingsPageItem::SectionHeader("Privacy"));
    r.push(SettingsPageItem::SettingItem(
        SettingItem {
            title: "Telemetry Diagnostics",
            description: "Send debug information like crash reports.",
            json_path: Some("telemetry.diagnostics"),
            placeholder: None,
            files: USER,
            editable: true,
        },
    ));
    r.push(SettingsPageItem::SettingItem(
        SettingItem {
            title: "Telemetry Metrics",
            description: "Send anonymized usage data like what languages you're using Zed with.",
            json_path: Some("telemetry.metrics"),
            placeholder: None,
            files: USER,
            editable: true,
        },
    ));
    assert(r@ =~= privacy_section_items());
    r
}

/// The entries of the "Auto Update" section.
pub open spec fn auto_update_section_items() -> Seq<SettingsPageItem> {
    seq![
        SettingsPageItem::SectionHeader("Auto Update"),
        SettingsPageItem::SettingItem(
            SettingItem {
                title: "Auto Update",
                description: "Whether or not to automatically check for updates.",
                json_path: Some("auto_update"),
                placeholder: None,
                files: USER,
                editable: true,
            },
        )
    ]
}

fn auto_update_section() -> (r: Vec<SettingsPageItem>)
    ensures
        r@ == auto_update_section_items(),
        section_well_formed(r@),
{
    let mut r: Vec<SettingsPageItem> = Vec::new();
    r.push(SettingsPageItem::SectionHeader("Auto Update"));
    r.push(SettingsPageItem::SettingItem(
        SettingItem {
            title: "Auto Update",
            description: "Whether or not to automatically check for updates.",
            json_path: Some("auto_update"),
            placeholder: None,
            files: USER,
            editable: true,
        },
    ));
    assert(r@ =~= auto_update_section_items());
    r
}

/// The "General" page: its sections in order.
pub fn general_page() -> (r: SettingsPage)
    ensures
        r.title@ == "General"@,
        r.items@ == general_settings_section_items()
            + security_section_items()
            + workspace_restoration_section_items()
            + scoped_settings_section_items()
            + privacy_section_items()
            + auto_update_section_items(),
        r.items@.len() == 21,
        page_well_formed(r),
{
    let mut items: Vec<SettingsPageItem> = Vec::new();
    let mut section = general_settings_section();
    append_section(&mut items, &mut section);
    let mut section = security_section();
    append_section(&mut items, &mut section);
    let mut section = workspace_restoration_section();
    append_section(&mut items, &mut section);
    let mut section = scoped_settings_section();
    append_section(&mut items, &mut section);
    let mut section = privacy_section();
    append_section(&mut items, &mut section);
    let mut section = auto_update_section();
    append_section(&mut items, &mut section);
    assert(items@ =~= general_settings_section_items()
        + security_section_items()
        + workspace_restoration_section_items()
        + scoped_settings_section_items()
        + privacy_section_items()
        + auto_update_section_items());
    SettingsPage { title: "General", items }
}

} // verus!
