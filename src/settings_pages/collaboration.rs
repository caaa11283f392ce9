//! The Collaboration settings page.
use vstd::prelude::*;
use super::{
    append_section, page_well_formed, section_well_formed, SettingItem, SettingsPage,
    SettingsPageItem, ActionLink, USER,
};

verus! {

/// The entries of the "Calls" section.
pub open spec fn calls_section_items() -> Seq<SettingsPageItem> {
    seq![
        SettingsPageItem::SectionHeader("Calls"),
        SettingsPageItem::SettingItem(
            SettingItem {
                title: "Mute On Join",
                description: "Whether the microphone should be muted when joining a channel or a call.",
                json_path: Some("calls.mute_on_join"),
                placeholder: None,
                files: USER,
                editable: true,
            },
        ),
        SettingsPageItem::SettingItem(
            SettingItem {
                title: "Share On Join",
                description: "Whether your current project should be shared when joining an empty channel.",
                json_path: Some("calls.share_on_join"),
                placeholder: None,
                files: USER,
                editable: true,
            },
        )
    ]
}

fn calls_section() -> (r: Vec<SettingsPageItem>)
    ensures
        r@ == calls_section_items(),
        section_well_formed(r@),
{
    let mut r: Vec<SettingsPageItem> = Vec::new();
    r.push(SettingsPageItem::SectionHeader("Calls"));
    r.push(SettingsPageItem::SettingItem(
        SettingItem {
            title: "Mute On Join",
            description: "Whether the microphone should be muted when joining a channel or a call.",
            json_path: Some("calls.mute_on_join"),
            placeholder: None,
            files: USER,
            editable: true,
        },
    ));
    r.push(SettingsPageItem::SettingItem(
        SettingItem {
            title: "Share On Join",
            description: "Whether your current project should be shared when joining an empty channel.",
            json_path: Some("calls.share_on_join"),
            placeholder: None,
            files: USER,
            editable: true,
        },
    ));
    assert(r@ =~= calls_section_items());
    r
}

/// The entries of the "Experimental" section.
pub open spec fn experimental_section_items() -> Seq<SettingsPageItem> {
    seq![
        SettingsPageItem::SectionHeader("Experimental"),
        SettingsPageItem::SettingItem(
            SettingItem {
                title: "Rodio Audio",
                description: "Opt into the new audio system.",
                json_path: Some("audio.experimental.rodio_audio"),
                placeholder: None,
                files: USER,
                editable: true,
            },
        ),
        SettingsPageItem::SettingItem(
            SettingItem {
                title: "Auto Microphone Volume",
                description: "Automatically adjust microphone volume (requires rodio audio).",
                json_path: Some("audio.experimental.auto_microphone_volume"),
                placeholder: None,
                files: USER,
                editable: true,
            },
        ),
        SettingsPageItem::SettingItem(
            SettingItem {
                title: "Auto Speaker Volume",
                description: "Automatically adjust volume of other call members (requires rodio audio).",
                json_path: Some("audio.experimental.auto_speaker_volume"),
                placeholder: None,
                files: USER,
                editable: true,
            },
        ),
        SettingsPageItem::SettingItem(
            SettingItem {
                title: "Denoise",
                description: "Remove background noises (requires rodio audio).",
                json_path: Some("audio.experimental.denoise"),
                placeholder: None,
                files: USER,
                editable: true,
            },
        ),
        SettingsPageItem::SettingItem(
            SettingItem {
                title: "Legacy Audio Compatible",
                description: "Use audio parameters compatible with previous versions (requires rodio audio).",
                json_path: Some("audio.experimental.legacy_audio_compatible"),
                placeholder: None,
                files: USER,
                editable: true,
            },
        ),
        SettingsPageItem::ActionLink(
            ActionLink {
                title: "Test Audio",
                description: Some("Test your microphone and speaker setup"),
                button_text: "Test Audio",
                files: USER,
            },
        ),
        SettingsPageItem::SettingItem(
            SettingItem {
                title: "Output Audio Device",
                description: "Select output audio device",
                json_path: Some("audio.experimental.output_audio_device"),
                placeholder: None,
                files: USER,
                editable: true,
            },
        ),
        SettingsPageItem::SettingItem(
            SettingItem {
                title: "Input Audio Device",
                description: "Select input audio device",
                json_path: Some("audio.experimental.input_audio_device"),
                placeholder: None,
                files: USER,
                editable: true,
            },
        )
    ]
}

fn experimental_section() -> (r: Vec<SettingsPageItem>)
    ensures
        r@ == experimental_section_items(),
        section_well_formed(r@),
{
    let mut r: Vec<SettingsPageItem> = Vec::new();
    r.push(SettingsPageItem::SectionHeader("Experimental"));
    r.push(SettingsPageItem::SettingItem(
        SettingItem {
            title: "Rodio Audio",
            description: "Opt into the new audio system.",
            json_path: Some("audio.experimental.rodio_audio"),
            placeholder: None,
            files: USER,
            editable: true,
        },
    ));
    r.push(SettingsPageItem::SettingItem(
        SettingItem {
            title: "Auto Microphone Volume",
            description: "Automatically adjust microphone volume (requires rodio audio).",
            json_path: Some("audio.experimental.auto_microphone_volume"),
            placeholder: None,
            files: USER,
            editable: true,
        },
    ));
    r.push(SettingsPageItem::SettingItem(
        SettingItem {
            title: "Auto Speaker Volume",
            description: "Automatically adjust volume of other call members (requires rodio audio).",
            json_path: Some("audio.experimental.auto_speaker_volume"),
            placeholder: None,
            files: USER,
            editable: true,
        },
    ));
    r.push(SettingsPageItem::SettingItem(
        SettingItem {
            title: "Denoise",
            description: "Remove background noises (requires rodio audio).",
            json_path: Some("audio.experimental.denoise"),
            placeholder: None,
            files: USER,
            editable: true,
        },
    ));
    r.push(SettingsPageItem::SettingItem(
        SettingItem {
            title: "Legacy Audio Compatible",
            description: "Use audio parameters compatible with previous versions (requires rodio audio).",
            json_path: Some("audio.experimental.legacy_audio_compatible"),
            placeholder: None,
            files: USER,
            editable: true,
        },
    ));
    r.push(SettingsPageItem::ActionLink(
        ActionLink {
            title: "Test Audio",
            description: Some("Test your microphone and speaker setup"),
            button_text: "Test Audio",
            files: USER,
        },
    ));
    r.push(SettingsPageItem::SettingItem(
        SettingItem {
            title: "Output Audio Device",
            description: "Select output audio device",
            json_path: Some("audio.experimental.output_audio_device"),
            placeholder: None,
            files: USER,
            editable: true,
        },
    ));
    r.push(SettingsPageItem::SettingItem(
        SettingItem {
            title: "Input Audio Device",
            description: "Select input audio device",
            json_path: Some("audio.experimental.input_audio_device"),
            placeholder: None,
            files: USER,
            editable: true,
        },
    ));
    assert(r@ =~= experimental_section_items());
    r
}

/// The "Collaboration" page: its sections in order.
pub fn collaboration_page() -> (r: SettingsPage)
    ensures
        r.title@ == "Collaboration"@,
        r.items@ == calls_section_items() + experimental_section_items(),
        r.items@.len() == 12,
        page_well_formed(r),
{
    let mut items: Vec<SettingsPageItem> = Vec::new();
    let mut section = calls_section();
    append_section(&mut items, &mut section);
    let mut section = experimental_section();
    append_section(&mut items, &mut section);
    assert(items@ =~= calls_section_items() + experimental_section_items());
    SettingsPage { title: "Collaboration", items }
}

} // verus!
