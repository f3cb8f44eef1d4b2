//! The system tray: its commands and its menu.

use vstd::prelude::*;

verus! {

/// A command chosen in the tray menu.
#[derive(Debug, Clone, Copy, PartialEq, Eq)]
pub enum TrayCommand {
    StartRecording,
    StopRecording,
    OpenEditor,
    Quit,
}

/// An entry of the tray menu.
#[derive(Debug, Clone, PartialEq, Eq)]
pub enum TrayMenuEntry {
    Item { label: String, enabled: bool, command: TrayCommand },
    Separator,
}

/// The shape of a menu entry: label text, whether enabled, command; or a separator.
pub open spec fn entry_shape(e: TrayMenuEntry) -> Option<(Seq<char>, bool, TrayCommand)> {
    match e {
        TrayMenuEntry::Item { label, enabled, command } => Some((label@, enabled, command)),
        TrayMenuEntry::Separator => None,
    }
}

/// The tray menu: start (enabled when not recording), stop (enabled when
/// recording), open the editor, a separator, quit.
pub open spec fn tray_menu_shape(recording: bool) -> Seq<Option<(Seq<char>, bool, TrayCommand)>> {
    seq![
        Some(("Начать запись"@, !recording, TrayCommand::StartRecording)),
        Some(("Остановить запись"@, recording, TrayCommand::StopRecording)),
        Some(("Открыть редактор"@, true, TrayCommand::OpenEditor)),
        None,
        Some(("Выход"@, true, TrayCommand::Quit)),
    ]
}

/// The tray service (the tray itself runs in the application).
pub struct TrayService;

impl TrayService {
    /// The entries of the tray menu.
    pub fn menu(recording: bool) -> (m: Vec<TrayMenuEntry>)
        ensures
            m@.map_values(|e: TrayMenuEntry| entry_shape(e)) == tray_menu_shape(recording),
    {
        let mut m: Vec<TrayMenuEntry> = Vec::new();
        m.push(TrayMenuEntry::Item {
            label: String::from_str("Начать запись"),
            enabled: !recording,
            command: TrayCommand::StartRecording,
        });
        m.push(TrayMenuEntry::Item {
            label: String::from_str("Остановить запись"),
            enabled: recording,
            command: TrayCommand::StopRecording,
        });
        m.push(TrayMenuEntry::Item {
            label: String::from_str("Открыть редактор"),
            enabled: true,
            command: TrayCommand::OpenEditor,
        });
        m.push(TrayMenuEntry::Separator);
        m.push(TrayMenuEntry::Item {
            label: String::from_str("Выход"),
            enabled: true,
            command: TrayCommand::Quit,
        });
        assert(m@.map_values(|e: TrayMenuEntry| entry_shape(e)) =~= tray_menu_shape(recording));
        m
    }
}

} // verus!
