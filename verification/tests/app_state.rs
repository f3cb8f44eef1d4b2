use openrec::app::{App, AppCommand, AppMode, Message};
use openrec::tray::{TrayCommand, TrayMenuEntry, TrayService};

#[test]
fn app_title_follows_mode() {
    let mut app = App::boot();
    assert_eq!(app.mode(), AppMode::Idle);
    assert_eq!(app.title(), "OpenRec");
    assert_eq!(app.update(Message::StartRecording), AppCommand::Continue);
    assert_eq!(app.title(), "OpenRec — Запись");
    assert_eq!(app.update(Message::StopRecording), AppCommand::Continue);
    assert_eq!(app.mode(), AppMode::Idle);
    assert_eq!(app.update(Message::OpenEditor), AppCommand::Continue);
    assert_eq!(app.title(), "OpenRec — Редактор");
    assert_eq!(app.update(Message::Quit), AppCommand::Exit);
    assert_eq!(app.mode(), AppMode::Editor);
    assert_eq!(app.update(Message::BackToIdle), AppCommand::Continue);
    assert_eq!(app.mode(), AppMode::Idle);
}

#[test]
fn tray_menu_entries() {
    let menu = TrayService::menu(false);
    assert_eq!(menu.len(), 5);
    assert_eq!(
        menu[0],
        TrayMenuEntry::Item {
            label: "Начать запись".into(),
            enabled: true,
            command: TrayCommand::StartRecording
        }
    );
    assert_eq!(
        menu[1],
        TrayMenuEntry::Item {
            label: "Остановить запись".into(),
            enabled: false,
            command: TrayCommand::StopRecording
        }
    );
    assert_eq!(menu[3], TrayMenuEntry::Separator);
    let menu = TrayService::menu(true);
    assert!(matches!(menu[0], TrayMenuEntry::Item { enabled: false, .. }));
    assert!(matches!(menu[1], TrayMenuEntry::Item { enabled: true, .. }));
    assert!(matches!(menu[4], TrayMenuEntry::Item { command: TrayCommand::Quit, enabled: true, .. }));
}

#[test]
fn title_follows_last_message() {
    let cases: Vec<(Vec<Message>, &str)> = vec![
        (vec![], "OpenRec"),
        (vec![Message::StartRecording], "OpenRec — Запись"),
        (vec![Message::StartRecording, Message::StopRecording], "OpenRec"),
        (vec![Message::OpenEditor, Message::StartRecording, Message::OpenEditor], "OpenRec — Редактор"),
        (vec![Message::OpenEditor, Message::BackToIdle], "OpenRec"),
        (vec![Message::StartRecording, Message::Quit], "OpenRec — Запись"),
    ];
    for (msgs, title) in cases {
        let mut app = App::boot();
        for m in msgs {
            app.update(m);
        }
        assert_eq!(app.title(), title);
    }
}
