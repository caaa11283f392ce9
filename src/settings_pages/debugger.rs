//! The Debugger settings page.
use vstd::prelude::*;
use super::{
    append_section, page_well_formed, section_well_formed, SettingItem, SettingsPage,
    SettingsPageItem, USER,
};

verus! {

/// The entries of the "General" section.
pub open spec fn general_section_items() -> Seq<SettingsPageItem> {
    seq![
        SettingsPageItem::SectionHeader("General"),
        SettingsPageItem::SettingItem(
            SettingItem {
                title: "Stepping Granularity",
                description: "The granularity of stepping through code.",
                json_path: Some("debugger.stepping_granularity"),
                placeholder: None,
                files: USER,
                editable: true,
            },
        ),
        SettingsPageItem::SettingItem(
            SettingItem {
                title: "Show Active Status",
                description: "Show the active debugger status in the status bar.",
                json_path: Some("debugger.show_active_status"),
                placeholder: None,
                files: USER,
                editable: true,
            },
        )
    ]
}

fn general_section() -> (r: Vec<SettingsPageItem>)
    ensures
        r@ == general_section_items(),
        section_well_formed(r@),
{
    let mut r: Vec<SettingsPageItem> = Vec::new();
    r.push(SettingsPageItem::SectionHeader("General"));
    r.push(SettingsPageItem::SettingItem(
        SettingItem {
            title: "Stepping Granularity",
            description: "The granularity of stepping through code.",
            json_path: Some("debugger.stepping_granularity"),
            placeholder: None,
            files: USER,
            editable: true,
        },
    ));
    r.push(SettingsPageItem::SettingItem(
        SettingItem {
            title: "Show Active Status",
            description: "Show the active debugger status in the status bar.",
            json_path: Some("debugger.show_active_status"),
            placeholder: None,
            files: USER,
            editable: true,
        },
    ));
    assert(r@ =~= general_section_items());
    r
}

/// The "Debugger" page: its sections in order.
pub fn debugger_page() -> (r: SettingsPage)
    ensures
        r.title@ == "Debugger"@,
        r.items@ == general_section_items(),
        r.items@.len() == 3,
        page_well_formed(r),
{
    let mut items: Vec<SettingsPageItem> = Vec::new();
    let mut section = general_section();
    append_section(&mut items, &mut section);
    assert(items@ =~= general_section_items());
    SettingsPage { title: "Debugger", items }
}

} // verus!
