//! The application's top-level mode and its transitions.

use vstd::prelude::*;

verus! {

/// Which screen the application shows.
#[derive(Debug, Clone, Copy, PartialEq, Eq)]
pub enum AppMode {
    Idle,
    Recording,
    Editor,
}

/// User requests handled by the application.
#[derive(Debug, Clone, Copy, PartialEq, Eq)]
pub enum Message {
    StartRecording,
    StopRecording,
    OpenEditor,
    BackToIdle,
    Quit,
}

/// What the application asks its runtime to do after a message.
#[derive(Debug, Clone, Copy, PartialEq, Eq)]
pub enum AppCommand {
    Continue,
    Exit,
}

/// The application: its mode and, while recording, the time recorded so far.
pub struct App {
    mode: AppMode,
    recording_duration: Option<u64>,
}

/// The window title for a mode.
pub open spec fn title_text(mode: AppMode) -> Seq<char> {
    match mode {
        AppMode::Idle => "OpenRec"@,
        AppMode::Recording => "OpenRec"@ + " — Запись"@,
        AppMode::Editor => "OpenRec"@ + " — Редактор"@,
    }
}

/// The mode after a message: recording after a start, idle after a stop or
/// going back, the editor after opening it; quitting keeps the mode.
pub open spec fn next_mode(mode: AppMode, message: Message) -> AppMode {
    match message {
        Message::StartRecording => AppMode::Recording,
        Message::StopRecording => AppMode::Idle,
        Message::OpenEditor => AppMode::Editor,
        Message::BackToIdle => AppMode::Idle,
        Message::Quit => mode,
    }
}

/// The mode after a sequence of messages, in order.
pub open spec fn mode_after(mode: AppMode, messages: Seq<Message>) -> AppMode
    decreases messages.len(),
{
    if messages.len() == 0 {
        mode
    } else {
        next_mode(mode_after(mode, messages.drop_last()), messages.last())
    }
}

impl App {
    pub closed spec fn mode_spec(&self) -> AppMode {
        self.mode
    }

    /// Recorded time in milliseconds, present while recording.
    pub closed spec fn recording_ms(&self) -> Option<u64> {
        self.recording_duration
    }

    /// The application at start-up: idle, nothing recorded.
    pub fn boot() -> (app: Self)
        ensures
            app.mode_spec() == AppMode::Idle,
            app.recording_ms().is_none(),
    {
        App { mode: AppMode::Idle, recording_duration: None }
    }

    /// The current mode.
    pub fn mode(&self) -> (m: AppMode)
        ensures
            m == self.mode_spec(),
    {
        self.mode
    }

    /// The window title: `OpenRec`, with ` — Запись` while recording and
    /// ` — Редактор` in the editor.
    pub fn title(&self) -> (t: String)
        ensures
            t@ == title_text(self.mode_spec()),
    {
        let mut t = String::from_str("OpenRec");
        match self.mode {
            AppMode::Idle => {},
            AppMode::Recording => t.append(" — Запись"),
            AppMode::Editor => t.append(" — Редактор"),
        }
        t
    }

    /// Handles a message: starting a recording enters the recording mode
    /// with zero recorded time; stopping returns to idle and forgets it;
    /// the editor is opened and left; quitting asks to exit and changes
    /// nothing else.
    pub fn update(&mut self, message: Message) -> (cmd: AppCommand)
        ensures
            final(self).mode_spec() == next_mode(old(self).mode_spec(), message),
            match message {
                Message::StartRecording => final(self).mode_spec() == AppMode::Recording
                    && final(self).recording_ms() == Some(0u64) && cmd == AppCommand::Continue,
                Message::StopRecording => final(self).mode_spec() == AppMode::Idle && final(self).recording_ms().is_none() && cmd == AppCommand::Continue,
                Message::OpenEditor => final(self).mode_spec() == AppMode::Editor && final(self).recording_ms() == old(self).recording_ms() && cmd == AppCommand::Continue,
                Message::BackToIdle => final(self).mode_spec() == AppMode::Idle && final(self).recording_ms() == old(self).recording_ms() && cmd == AppCommand::Continue,
                Message::Quit => final(self).mode_spec() == old(self).mode_spec() && final(self).recording_ms() == old(self).recording_ms() && cmd == AppCommand::Exit,
            },
    {
        match message {
            Message::StartRecording => {
                self.mode = AppMode::Recording;
                self.recording_duration = Some(0);
                AppCommand::Continue
            },
            Message::StopRecording => {
                self.mode = AppMode::Idle;
                self.recording_duration = None;
                AppCommand::Continue
            },
            Message::OpenEditor => {
                self.mode = AppMode::Editor;
                AppCommand::Continue
            },
            Message::BackToIdle => {
                self.mode = AppMode::Idle;
                AppCommand::Continue
            },
            Message::Quit => AppCommand::Exit,
        }
    }
}

/// Whatever mode the application is in, after a message that is not a
/// quit the mode is the one that message leads to; a quit keeps the mode.
/// So after any messages the title is decided by the last one that is not
/// a quit: `OpenRec` after a stop or going back (or, from start-up, when
/// there is none), ` — Запись` added after a start and ` — Редактор` after
/// opening the editor.
pub proof fn law_title_after_messages(start: AppMode, messages: Seq<Message>)
    ensures
        messages.len() == 0 ==> mode_after(start, messages) == start,
        messages.len() == 0 && start == AppMode::Idle ==> title_text(mode_after(start, messages))
            == "OpenRec"@,
        messages.len() > 0 && messages.last() != Message::Quit ==> title_text(
            mode_after(start, messages),
        ) == match messages.last() {
            Message::StartRecording => "OpenRec"@ + " — Запись"@,
            Message::OpenEditor => "OpenRec"@ + " — Редактор"@,
            _ => "OpenRec"@,
        },
        messages.len() > 0 && messages.last() == Message::Quit ==> mode_after(start, messages)
            == mode_after(start, messages.drop_last()),
        forall|m: Message| #[trigger] mode_after(start, messages.push(m)) == next_mode(
            mode_after(start, messages),
            m,
        ),
{
    assert forall|m: Message| #[trigger] mode_after(start, messages.push(m)) == next_mode(
        mode_after(start, messages),
        m,
    ) by {
        assert(messages.push(m).drop_last() =~= messages);
    }
}

} // verus!
