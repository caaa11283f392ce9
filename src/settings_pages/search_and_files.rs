//! The Search & Files settings page.
use vstd::prelude::*;
use super::{
    append_section, page_well_formed, section_well_formed, SettingItem, SettingsPage,
    SettingsPageItem, USER,
};

verus! {

/// The entries of the "Search" section.
pub open spec fn search_section_items() -> Seq<SettingsPageItem> {
    seq![
        SettingsPageItem::SectionHeader("Search"),
        SettingsPageItem::SettingItem(
            SettingItem {
                title: "Whole Word",
                description: "Whether to match whole words only.",
                json_path: Some("search.whole_word"),
                placeholder: None,
                files: USER,
                editable: true,
            },
        ),
        SettingsPageItem::SettingItem(
            SettingItem {
                title: "Case Sensitive",
                description: "Whether to match case sensitively.",
                json_path: Some("search.case_sensitive"),
                placeholder: None,
                files: USER,
                editable: true,
            },
        ),
        SettingsPageItem::SettingItem(
            SettingItem {
                title: "Include Ignored",
                description: "Whether to include ignored files.",
                json_path: Some("search.include_ignored"),
                placeholder: None,
                files: USER,
                editable: true,
            },
        ),
        SettingsPageItem::SettingItem(
            SettingItem {
                title: "Use Regex",
                description: "Whether to use regular expressions.",
                json_path: Some("search.regex"),
                placeholder: None,
                files: USER,
                editable: true,
            },
        ),
        SettingsPageItem::SettingItem(
            SettingItem {
                title: "Center On Match",
                description: "Whether to auto-scroll the match to the center of the screen.",
                json_path: Some("search.center_on_match"),
                placeholder: None,
                files: USER,
                editable: true,
            },
        ),
        SettingsPageItem::SettingItem(
            SettingItem {
                title: "Seed Search Query From Cursor",
                description: "When to populate a new search's query based on the text under the cursor.",
                json_path: Some("seed_search_query_from_cursor"),
                placeholder: None,
                files: USER,
                editable: true,
            },
        )
    ]
}

fn search_section() -> (r: Vec<SettingsPageItem>)
    ensures
        r@ == search_section_items(),
        section_well_formed(r@),
{
    let mut r: Vec<SettingsPageItem> = Vec::new();
    r.push(SettingsPageItem::SectionHeader("Search"));
    r.push(SettingsPageItem::SettingItem(
        SettingItem {
            title: "Whole Word",
            description: "Whether to match whole words only.",
            json_path: Some("search.whole_word"),
            placeholder: None,
            files: USER,
            editable: true,
        },
    ));
    r.push(SettingsPageItem::SettingItem(
        SettingItem {
            title: "Case Sensitive",
            description: "Whether to match case sensitively.",
            json_path: Some("search.case_sensitive"),
            placeholder: None,
            files: USER,
            editable: true,
        },
    ));
    r.push(SettingsPageItem::SettingItem(
        SettingItem {
            title: "Include Ignored",
            description: "Whether to include ignored files.",
            json_path: Some("search.include_ignored"),
            placeholder: None,
            files: USER,
            editable: true,
        },
    ));
    r.push(SettingsPageItem::SettingItem(
        SettingItem {
            title: "Use Regex",
            description: "Whether to use regular expressions.",
            json_path: Some("search.regex"),
            placeholder: None,
            files: USER,
            editable: true,
        },
    ));
    r.push(SettingsPageItem::SettingItem(
        SettingItem {
            title: "Center On Match",
            description: "Whether to auto-scroll the match to the center of the screen.",
            json_path: Some("search.center_on_match"),
            placeholder: None,
            files: USER,
            editable: true,
        },
    ));
    r.push(SettingsPageItem::SettingItem(
        SettingItem {
            title: "Seed Search Query From Cursor",
            description: "When to populate a new search's query based on the text under the cursor.",
            json_path: Some("seed_search_query_from_cursor"),
            placeholder: None,
            files: USER,
            editable: true,
        },
    ));
    assert(r@ =~= search_section_items());
    r
}

/// The entries of the "File Finder" section.
pub open spec fn file_finder_section_items() -> Seq<SettingsPageItem> {
    seq![
        SettingsPageItem::SectionHeader("File Finder"),
        SettingsPageItem::SettingItem(
            SettingItem {
                title: "Include Ignored in Search",
                description: "Use gitignored files when searching.",
                json_path: Some("file_finder.include_ignored"),
                placeholder: None,
                files: USER,
                editable: true,
            },
        ),
        SettingsPageItem::SettingItem(
            SettingItem {
                title: "File Icons",
                description: "Show file icons in the file finder.",
                json_path: Some("file_finder.file_icons"),
                placeholder: None,
                files: USER,
                editable: true,
            },
        ),
        SettingsPageItem::SettingItem(
            SettingItem {
                title: "Modal Max Width",
                description: "Determines how much space the file finder can take up in relation to the available window width.",
                json_path: Some("file_finder.modal_max_width"),
                placeholder: None,
                files: USER,
                editable: true,
            },
        ),
        SettingsPageItem::SettingItem(
            SettingItem {
                title: "Skip Focus For Active In Search",
                description: "Whether the file finder should skip focus for the active file in search results.",
                json_path: Some("file_finder.skip_focus_for_active_in_search"),
                placeholder: None,
                files: USER,
                editable: true,
            },
        ),
        SettingsPageItem::SettingItem(
            SettingItem {
                title: "Git Status",
                description: "Show the Git status in the file finder.",
                json_path: Some("file_finder.git_status"),
                placeholder: None,
                files: USER,
                editable: true,
            },
        )
    ]
}

fn file_finder_section() -> (r: Vec<SettingsPageItem>)
    ensures
        r@ == file_finder_section_items(),
        section_well_formed(r@),
{
    let mut r: Vec<SettingsPageItem> = Vec::new();
    r.push(SettingsPageItem::SectionHeader("File Finder"));
    r.push(SettingsPageItem::SettingItem(
        SettingItem {
            title: "Include Ignored in Search",
            description: "Use gitignored files when searching.",
            json_path: Some("file_finder.include_ignored"),
            placeholder: None,
            files: USER,
            editable: true,
        },
    ));
    r.push(SettingsPageItem::SettingItem(
        SettingItem {
            title: "File Icons",
            description: "Show file icons in the file finder.",
            json_path: Some("file_finder.file_icons"),
            placeholder: None,
            files: USER,
            editable: true,
        },
    ));
    r.push(SettingsPageItem::SettingItem(
        SettingItem {
            title: "Modal Max Width",
            description: "Determines how much space the file finder can take up in relation to the available window width.",
            json_path: Some("file_finder.modal_max_width"),
            placeholder: None,
            files: USER,
            editable: true,
        },
    ));
    r.push(SettingsPageItem::SettingItem(
        SettingItem {
            title: "Skip Focus For Active In Search",
            description: "Whether the file finder should skip focus for the active file in search results.",
            json_path: Some("file_finder.skip_focus_for_active_in_search"),
            placeholder: None,
            files: USER,
            editable: true,
        },
    ));
    r.push(SettingsPageItem::SettingItem(
        SettingItem {
            title: "Git Status",
            description: "Show the Git status in the file finder.",
            json_path: Some("file_finder.git_status"),
            placeholder: None,
            files: USER,
            editable: true,
        },
    ));
    assert(r@ =~= file_finder_section_items());
    r
}

/// The entries of the "File Scan" section.
pub open spec fn file_scan_section_items() -> Seq<SettingsPageItem> {
    seq![
        SettingsPageItem::SectionHeader("File Scan"),
        SettingsPageItem::SettingItem(
            SettingItem {
                title: "File Scan Exclusions",
                description: "Files or globs of files that will be excluded by Zed entirely. They will be skipped during file scans, file searches, and not be displayed in the project file tree. Takes precedence over \"File Scan Inclusions\"",
                json_path: Some("file_scan_exclusions"),
                placeholder: None,
                files: USER,
                editable: false,
            },
        ),
        SettingsPageItem::SettingItem(
            SettingItem {
                title: "File Scan Inclusions",
                description: "Files or globs of files that will be included by Zed, even when ignored by git. This is useful for files that are not tracked by git, but are still important to your project. Note that globs that are overly broad can slow down Zed's file scanning. \"File Scan Exclusions\" takes precedence over these inclusions",
                json_path: Some("file_scan_inclusions"),
                placeholder: None,
                files: USER,
                editable: false,
            },
        ),
        SettingsPageItem::SettingItem(
            SettingItem {
                title: "Restore File State",
                description: "Restore previous file state when reopening.",
                json_path: Some("restore_on_file_reopen"),
                placeholder: None,
                files: USER,
                editable: true,
            },
        ),
        SettingsPageItem::SettingItem(
            SettingItem {
                title: "Close on File Delete",
                description: "Automatically close files that have been deleted.",
                json_path: Some("close_on_file_delete"),
                placeholder: None,
                files: USER,
                editable: true,
            },
        )
    ]
}

fn file_scan_section() -> (r: Vec<SettingsPageItem>)
    ensures
        r@ == file_scan_section_items(),
        section_well_formed(r@),
{
    let mut r: Vec<SettingsPageItem> = Vec::new();
    r.push(SettingsPageItem::SectionHeader("File Scan"));
    r.push(SettingsPageItem::SettingItem(
        SettingItem {
            title: "File Scan Exclusions",
            description: "Files or globs of files that will be excluded by Zed entirely. They will be skipped during file scans, file searches, and not be displayed in the project file tree. Takes precedence over \"File Scan Inclusions\"",
            json_path: Some("file_scan_exclusions"),
            placeholder: None,
            files: USER,
            editable: false,
        },
    ));
    r.push(SettingsPageItem::SettingItem(
        SettingItem {
            title: "File Scan Inclusions",
            description: "Files or globs of files that will be included by Zed, even when ignored by git. This is useful for files that are not tracked by git, but are still important to your project. Note that globs that are overly broad can slow down Zed's file scanning. \"File Scan Exclusions\" takes precedence over these inclusions",
            json_path: Some("file_scan_inclusions"),
            placeholder: None,
            files: USER,
            editable: false,
        },
    ));
    r.push(SettingsPageItem::SettingItem(
        SettingItem {
            title: "Restore File State",
            description: "Restore previous file state when reopening.",
            json_path: Some("restore_on_file_reopen"),
            placeholder: None,
            files: USER,
            editable: true,
        },
    ));
    r.push(SettingsPageItem::SettingItem(
        SettingItem {
            title: "Close on File Delete",
            description: "Automatically close files that have been deleted.",
            json_path: Some("close_on_file_delete"),
            placeholder: None,
            files: USER,
            editable: true,
        },
    ));
    assert(r@ =~= file_scan_section_items());
    r
}

/// The "Search & Files" page: its sections in order.
pub fn search_and_files_page() -> (r: SettingsPage)
    ensures
        r.title@ == "Search & Files"@,
        r.items@ == search_section_items()
            + file_finder_section_items()
            + file_scan_section_items(),
        r.items@.len() == 18,
        page_well_formed(r),
{
    let mut items: Vec<SettingsPageItem> = Vec::new();
    let mut section = search_section();
    append_section(&mut items, &mut section);
    let mut section = file_finder_section();
    append_section(&mut items, &mut section);
    let mut section = file_scan_section();
    append_section(&mut items, &mut section);
    assert(items@ =~= search_section_items()
        + file_finder_section_items()
        + file_scan_section_items());
    SettingsPage { title: "Search & Files", items }
}

} // verus!
