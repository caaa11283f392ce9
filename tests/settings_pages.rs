use collab_auth::settings_pages::collaboration::collaboration_page;
use collab_auth::settings_pages::debugger::debugger_page;
use collab_auth::settings_pages::general::general_page;
use collab_auth::settings_pages::network::network_page;
use collab_auth::settings_pages::search_and_files::search_and_files_page;
use collab_auth::settings_pages::{SettingItem, SettingsPage, SettingsPageItem, PROJECT, USER};

fn headers(page: &SettingsPage) -> Vec<&'static str> {
    page.items
        .iter()
        .filter_map(|i| match i {
            SettingsPageItem::SectionHeader(h) => Some(*h),
            _ => None,
        })
        .collect()
}

fn json_paths(page: &SettingsPage) -> Vec<&'static str> {
    page.items
        .iter()
        .filter_map(|i| match i {
            SettingsPageItem::SettingItem(s) => s.json_path,
            _ => None,
        })
        .collect()
}

#[test]
fn network_page_content() {
    let page = network_page();
    assert_eq!(page.title, "Network");
    assert_eq!(page.items.len(), 3);
    assert_eq!(page.items[0], SettingsPageItem::SectionHeader("Network"));
    assert_eq!(
        page.items[1],
        SettingsPageItem::SettingItem(SettingItem {
            title: "Proxy",
            description: "The proxy to use for network requests.",
            json_path: Some("proxy"),
            placeholder: Some("socks5h://localhost:10808"),
            files: USER,
            editable: true,
        })
    );
    assert_eq!(json_paths(&page), vec!["proxy", "server_url"]);
}

#[test]
fn debugger_page_content() {
    let page = debugger_page();
    assert_eq!(page.title, "Debugger");
    assert_eq!(headers(&page), vec!["General"]);
    assert_eq!(json_paths(&page), vec!["debugger.stepping_granularity", "debugger.show_active_status"]);
}

#[test]
fn general_page_content() {
    let page = general_page();
    assert_eq!(page.title, "General");
    assert_eq!(
        headers(&page),
        vec![
            "General Settings",
            "Security",
            "Workspace Restoration",
            "Scoped Settings",
            "Privacy",
            "Auto Update"
        ]
    );
    match page.items[1] {
        SettingsPageItem::SettingItem(s) => {
            assert_eq!(s.title, "Project Name");
            assert_eq!(s.files, PROJECT);
            assert_eq!(s.placeholder, Some("Project Name"));
            assert!(s.editable);
        }
        other => panic!("unexpected {other:?}"),
    }
}

#[test]
fn general_page_lists_settings_without_editor() {
    let page = general_page();
    let listed_only: Vec<&str> = page
        .items
        .iter()
        .filter_map(|i| match i {
            SettingsPageItem::SettingItem(s) if !s.editable => Some(s.title),
            _ => None,
        })
        .collect();
    assert_eq!(listed_only, vec!["Private Files", "Preview Channel", "Settings Profiles"]);
}

#[test]
fn collaboration_page_has_audio_test_link() {
    let page = collaboration_page();
    assert_eq!(page.title, "Collaboration");
    assert_eq!(headers(&page), vec!["Calls", "Experimental"]);
    assert!(page.items.iter().any(|i| matches!(
        i,
        SettingsPageItem::ActionLink(a) if a.button_text == "Test Audio" && a.files == USER
    )));
}

#[test]
fn search_and_files_page_content() {
    let page = search_and_files_page();
    assert_eq!(page.title, "Search & Files");
    assert_eq!(headers(&page), vec!["Search", "File Finder", "File Scan"]);
}

#[test]
fn every_page_is_well_formed() {
    for page in [network_page(), debugger_page(), general_page(), collaboration_page(), search_and_files_page()] {
        assert!(matches!(page.items[0], SettingsPageItem::SectionHeader(_)));
        for item in &page.items {
            match item {
                SettingsPageItem::SectionHeader(h) => assert!(!h.is_empty()),
                SettingsPageItem::SettingItem(s) => {
                    assert!(s.json_path.is_some());
                    assert!(s.files == USER || s.files == PROJECT);
                }
                SettingsPageItem::ActionLink(a) => assert!(a.files == USER || a.files == PROJECT),
            }
        }
        let paths = json_paths(&page);
        let mut unique = paths.clone();
        unique.sort();
        unique.dedup();
        assert_eq!(paths.len(), unique.len(), "{}", page.title);
    }
}
