//! The Network settings page.
use vstd::prelude::*;
use super::{
    append_section, page_well_formed, section_well_formed, SettingItem, SettingsPage,
    SettingsPageItem, USER,
};

verus! {

/// The entries of the "Network" section.
pub open spec fn network_section_items() -> Seq<SettingsPageItem> {
    seq![
        SettingsPageItem::SectionHeader("Network"),
        SettingsPageItem::SettingItem(
            SettingItem {
                title: "Proxy",
                description: "The proxy to use for network requests.",
                json_path: Some("proxy"),
                placeholder: Some("socks5h://localhost:10808"),
                files: USER,
                editable: true,
            },
        ),
        SettingsPageItem::SettingItem(
            SettingItem {
                title: "Server URL",
                description: "The URL of the Zed server to connect to.",
                json_path: Some("server_url"),
                placeholder: Some("https://zed.dev"),
                files: USER,
                editable: true,
            },
        )
    ]
}

fn network_section() -> (r: Vec<SettingsPageItem>)
    ensures
        r@ == network_section_items(),
        section_well_formed(r@),
{
    let mut r: Vec<SettingsPageItem> = Vec::new();
    r.push(SettingsPageItem::SectionHeader("Network"));
    r.push(SettingsPageItem::SettingItem(
        SettingItem {
            title: "Proxy",
            description: "The proxy to use for network requests.",
            json_path: Some("proxy"),
            placeholder: Some("socks5h://localhost:10808"),
            files: USER,
            editable: true,
        },
    ));
    r.push(SettingsPageItem::SettingItem(
        SettingItem {
            title: "Server URL",
            description: "The URL of the Zed server to connect to.",
            json_path: Some("server_url"),
            placeholder: Some("https://zed.dev"),
            files: USER,
            editable: true,
        },
    ));
    assert(r@ =~= network_section_items());
    r
}

/// The "Network" page: its sections in order.
pub fn network_page() -> (r: SettingsPage)
    ensures
        r.title@ == "Network"@,
        r.items@ == network_section_items(),
        r.items@.len() == 3,
        page_well_formed(r),
{
    let mut items: Vec<SettingsPageItem> = Vec::new();
    let mut section = network_section();
    append_section(&mut items, &mut section);
    assert(items@ =~= network_section_items());
    SettingsPage { title: "Network", items }
}

} // verus!
