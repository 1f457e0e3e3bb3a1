use crate::event::ControlEvent;
use vstd::prelude::*;
use vstd::string::StringExecFns;

verus! {

/// What a tray menu entry asks for.
#[derive(Clone, Copy, Debug, PartialEq, Eq, Structural)]
pub enum TrayCommand {
    Quit,
    Pause,
    Resume,
    Reset,
    Settings,
}

/// The command behind a menu entry's identifier; `None` for an identifier
/// that no entry has.
pub open spec fn command_of(id: Seq<char>) -> Option<TrayCommand> {
    if id == "quit"@ {
        Some(TrayCommand::Quit)
    } else if id == "puase"@ {
        Some(TrayCommand::Pause)
    } else if id == "resume"@ {
        Some(TrayCommand::Resume)
    } else if id == "setting"@ {
        Some(TrayCommand::Settings)
    } else if id == "reset"@ {
        Some(TrayCommand::Reset)
    } else {
        None
    }
}

/// The control event that a command sends to the timer. Quitting and
/// opening the settings are the application's business and send nothing.
pub open spec fn event_of(command: TrayCommand) -> Option<ControlEvent> {
    match command {
        TrayCommand::Pause => Some(ControlEvent::Pause),
        TrayCommand::Resume => Some(ControlEvent::Resume),
        TrayCommand::Reset => Some(ControlEvent::Reset),
        TrayCommand::Quit => None,
        TrayCommand::Settings => None,
    }
}

impl TrayCommand {
    /// The identifier of the menu entry for this command.
    pub fn id(&self) -> (id: &'static str)
        ensures
            command_of(id@) == Some(*self),
    {
        proof {
            reveal_strlit("quit");
            reveal_strlit("puase");
            reveal_strlit("resume");
            reveal_strlit("setting");
            reveal_strlit("reset");
            assert("puase"@.len() == 5 && "puase"@[0] == 'p');
            assert("resume"@.len() == 6);
            assert("setting"@.len() == 7);
            assert("reset"@.len() == 5 && "reset"@[0] == 'r');
        }
        match self {
            TrayCommand::Quit => "quit",
            TrayCommand::Pause => "puase",
            TrayCommand::Resume => "resume",
            TrayCommand::Settings => "setting",
            TrayCommand::Reset => "reset",
        }
    }

    /// The title of the menu entry for this command.
    pub fn title(&self) -> (title: &'static str)
        ensures
            title@ == match *self {
                TrayCommand::Quit => "退出"@,
                TrayCommand::Pause => "暂停"@,
                TrayCommand::Resume => "继续"@,
                TrayCommand::Settings => "设置"@,
                TrayCommand::Reset => "重置"@,
            },
    {
        match self {
            TrayCommand::Quit => "退出",
            TrayCommand::Pause => "暂停",
            TrayCommand::Resume => "继续",
            TrayCommand::Settings => "设置",
            TrayCommand::Reset => "重置",
        }
    }

    /// The control event that this command sends to the timer, if any.
    pub fn event(&self) -> (event: Option<ControlEvent>)
        ensures
            event == event_of(*self),
    {
        match self {
            TrayCommand::Pause => Some(ControlEvent::Pause),
            TrayCommand::Resume => Some(ControlEvent::Resume),
            TrayCommand::Reset => Some(ControlEvent::Reset),
            TrayCommand::Quit => None,
            TrayCommand::Settings => None,
        }
    }
}

/// Finds the command of a clicked menu entry by its identifier.
pub fn tray_command(id: &str) -> (command: Option<TrayCommand>)
    ensures
        command == command_of(id@),
{
    let id = id.to_owned();
    if id == String::from_str("quit") {
        Some(TrayCommand::Quit)
    } else if id == String::from_str("puase") {
        Some(TrayCommand::Pause)
    } else if id == String::from_str("resume") {
        Some(TrayCommand::Resume)
    } else if id == String::from_str("setting") {
        Some(TrayCommand::Settings)
    } else if id == String::from_str("reset") {
        Some(TrayCommand::Reset)
    } else {
        None
    }
}

} // verus!
