//! The declarative content of settings pages: titled sections of settings, each named by
//! its path in the settings file and by the files it may be written to.
use vstd::prelude::*;

pub mod collaboration;
pub mod debugger;
pub mod general;
pub mod network;
pub mod search_and_files;

verus! {

/// The setting may be written to the user's settings file.
pub const USER: u8 = 1;

/// The setting may be written to a project's settings file.
pub const PROJECT: u8 = 2;

/// One setting shown on a page.
#[derive(Clone, Copy, Debug, PartialEq, Eq)]
pub struct SettingItem {
    pub title: &'static str,
    pub description: &'static str,
    /// Dotted path of the setting in the settings file.
    pub json_path: Option<&'static str>,
    /// Text shown in an empty field.
    pub placeholder: Option<&'static str>,
    pub files: u8,
    /// False where the page lists the setting without an editor for it.
    pub editable: bool,
}

/// A button that starts an action from a page.
#[derive(Clone, Copy, Debug, PartialEq, Eq)]
pub struct ActionLink {
    pub title: &'static str,
    pub description: Option<&'static str>,
    pub button_text: &'static str,
    pub files: u8,
}

#[derive(Clone, Copy, Debug, PartialEq, Eq)]
pub enum SettingsPageItem {
    SectionHeader(&'static str),
    SettingItem(SettingItem),
    ActionLink(ActionLink),
}

#[derive(Clone, Debug)]
pub struct SettingsPage {
    pub title: &'static str,
    pub items: Vec<SettingsPageItem>,
}

pub open spec fn files_valid(files: u8) -> bool {
    files == USER || files == PROJECT
}

/// A setting names its path in the settings file; every entry names the files it may go to.
pub open spec fn item_well_formed(item: SettingsPageItem) -> bool {
    match item {
        SettingsPageItem::SectionHeader(_) => true,
        SettingsPageItem::SettingItem(s) => s.json_path is Some && files_valid(s.files),
        SettingsPageItem::ActionLink(a) => files_valid(a.files),
    }
}

pub open spec fn items_well_formed(items: Seq<SettingsPageItem>) -> bool {
    forall|i: int| 0 <= i < items.len() ==> item_well_formed(#[trigger] items[i])
}

/// A section: one header, then entries that are not headers.
pub open spec fn section_well_formed(items: Seq<SettingsPageItem>) -> bool {
    &&& items.len() > 0
    &&& items[0] is SectionHeader
    &&& forall|i: int| 1 <= i < items.len() ==> !(#[trigger] items[i] is SectionHeader)
    &&& items_well_formed(items)
}

/// A page opens with a section header and holds well-formed entries only.
pub open spec fn page_well_formed(page: SettingsPage) -> bool {
    &&& page.items@.len() > 0
    &&& page.items@[0] is SectionHeader
    &&& items_well_formed(page.items@)
}

/// Moves the entries of `section` to the end of `items`.
pub fn append_section(items: &mut Vec<SettingsPageItem>, section: &mut Vec<SettingsPageItem>)
    requires
        items_well_formed(old(items)@),
        old(items)@.len() == 0 || old(items)@[0] is SectionHeader,
        section_well_formed(old(section)@),
    ensures
        final(items)@ == old(items)@ + old(section)@,
        final(section)@.len() == 0,
        items_well_formed(final(items)@),
        final(items)@[0] is SectionHeader,
{
    let ghost before = items@;
    items.append(section);
    assert forall|i: int| 0 <= i < items@.len() implies item_well_formed(#[trigger] items@[i]) by {
        if i >= before.len() {
            assert(items@[i] == old(section)@[i - before.len()]);
        }
    }
}

} // verus!
