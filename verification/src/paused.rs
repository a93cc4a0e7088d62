//! The pause menu: a selection cursor over four fixed choices.
use vstd::prelude::*;
use crate::command::Command;

verus! {

/// The choices in the pause menu.
#[derive(Clone, Copy, Debug, PartialEq, Eq, Structural)]
pub enum PauseOpt {
    /// Unpause and resume the game.
    Resume,
    /// Start the game over.
    Restart,
    /// Return to the main menu.
    MainMenu,
    /// Quit the application.
    Quit,
}

impl PauseOpt {
    /// The first choice in display order.
    pub fn first() -> (r: PauseOpt)
        ensures
            r == PauseOpt::Resume,
    {
        PauseOpt::Resume
    }

    /// The last choice in display order.
    pub fn last() -> (r: PauseOpt)
        ensures
            r == PauseOpt::Quit,
    {
        PauseOpt::Quit
    }

    /// The choice after this one in display order, if any.
    pub fn next(self) -> (r: Option<PauseOpt>)
        ensures
            r == (match self {
                PauseOpt::Resume => Some(PauseOpt::Restart),
                PauseOpt::Restart => Some(PauseOpt::MainMenu),
                PauseOpt::MainMenu => Some(PauseOpt::Quit),
                PauseOpt::Quit => None::<PauseOpt>,
            }),
    {
        match self {
            PauseOpt::Resume => Some(PauseOpt::Restart),
            PauseOpt::Restart => Some(PauseOpt::MainMenu),
            PauseOpt::MainMenu => Some(PauseOpt::Quit),
            PauseOpt::Quit => None,
        }
    }

    /// The choice before this one in display order, if any.
    pub fn prev(self) -> (r: Option<PauseOpt>)
        ensures
            r == (match self {
                PauseOpt::Resume => None::<PauseOpt>,
                PauseOpt::Restart => Some(PauseOpt::Resume),
                PauseOpt::MainMenu => Some(PauseOpt::Restart),
                PauseOpt::Quit => Some(PauseOpt::MainMenu),
            }),
    {
        match self {
            PauseOpt::Resume => None,
            PauseOpt::Restart => Some(PauseOpt::Resume),
            PauseOpt::MainMenu => Some(PauseOpt::Restart),
            PauseOpt::Quit => Some(PauseOpt::MainMenu),
        }
    }

    /// All choices in display order.
    pub fn all() -> (r: Vec<PauseOpt>)
        ensures
            r@ == seq![PauseOpt::Resume, PauseOpt::Restart, PauseOpt::MainMenu, PauseOpt::Quit],
    {
        let mut v: Vec<PauseOpt> = Vec::new();
        v.push(PauseOpt::Resume);
        v.push(PauseOpt::Restart);
        v.push(PauseOpt::MainMenu);
        v.push(PauseOpt::Quit);
        proof {
            assert(v@ =~= seq![
                PauseOpt::Resume,
                PauseOpt::Restart,
                PauseOpt::MainMenu,
                PauseOpt::Quit,
            ]);
        }
        v
    }
}

/// The user's choice, if any, that a command settles while the pause menu
/// with selection `sel` is open.
pub open spec fn spec_pause_choice(sel: PauseOpt, cmd: Command) -> Option<PauseOpt> {
    match cmd {
        Command::Esc => Some(PauseOpt::Resume),
        Command::R => Some(PauseOpt::Restart),
        Command::M => Some(PauseOpt::MainMenu),
        Command::Q => Some(PauseOpt::Quit),
        Command::Quit => Some(PauseOpt::Quit),
        Command::Enter => Some(sel),
        _ => None,
    }
}

/// Where the selection cursor stands after a command that does not settle
/// a choice.
pub open spec fn spec_pause_selection(sel: PauseOpt, cmd: Command) -> PauseOpt {
    match cmd {
        Command::Up => match sel {
            PauseOpt::Resume => PauseOpt::Resume,
            PauseOpt::Restart => PauseOpt::Resume,
            PauseOpt::MainMenu => PauseOpt::Restart,
            PauseOpt::Quit => PauseOpt::MainMenu,
        },
        Command::Down => match sel {
            PauseOpt::Resume => PauseOpt::Restart,
            PauseOpt::Restart => PauseOpt::MainMenu,
            PauseOpt::MainMenu => PauseOpt::Quit,
            PauseOpt::Quit => PauseOpt::Quit,
        },
        Command::Next => match sel {
            PauseOpt::Resume => PauseOpt::Restart,
            PauseOpt::Restart => PauseOpt::MainMenu,
            PauseOpt::MainMenu => PauseOpt::Quit,
            PauseOpt::Quit => PauseOpt::Resume,
        },
        Command::Prev => match sel {
            PauseOpt::Resume => PauseOpt::Quit,
            PauseOpt::Restart => PauseOpt::Resume,
            PauseOpt::MainMenu => PauseOpt::Restart,
            PauseOpt::Quit => PauseOpt::MainMenu,
        },
        Command::Home => PauseOpt::Resume,
        Command::End => PauseOpt::Quit,
        _ => sel,
    }
}

/// The pause menu pop-up: a selection cursor over the four choices.
#[derive(Clone, Copy, Debug, PartialEq, Eq, Structural)]
pub struct Paused {
    /// The currently selected item in the pause menu.
    selection: PauseOpt,
}

impl Paused {
    /// The height of the rectangle the pause menu is drawn in.
    pub const HEIGHT: u16 = 6;

    /// The width of the rectangle the pause menu is drawn in.
    pub const WIDTH: u16 = 19;

    pub closed spec fn spec_selection(self) -> PauseOpt {
        self.selection
    }

    /// A fresh pause menu with the first choice selected.
    pub fn new() -> (r: Paused)
        ensures
            r.spec_selection() == PauseOpt::Resume,
    {
        Paused { selection: PauseOpt::Resume }
    }

    /// The currently selected item.
    pub fn selection(&self) -> (r: PauseOpt)
        ensures
            r == self.spec_selection(),
    {
        self.selection
    }

    /// Handle an input command.  Returns `Some` if the user made a
    /// choice; otherwise the command may move the selection cursor.
    pub fn handle_command(&mut self, cmd: Command) -> (r: Option<PauseOpt>)
        ensures
            r == spec_pause_choice(old(self).spec_selection(), cmd),
            r is Some ==> *final(self) == *old(self),
            final(self).spec_selection() == (if r is Some {
                old(self).spec_selection()
            } else {
                spec_pause_selection(old(self).spec_selection(), cmd)
            }),
    {
        match cmd {
            Command::Esc => return Some(PauseOpt::Resume),
            Command::R => return Some(PauseOpt::Restart),
            Command::M => return Some(PauseOpt::MainMenu),
            Command::Q | Command::Quit => return Some(PauseOpt::Quit),
            Command::Enter => return Some(self.selection),
            Command::Up => {
                if let Some(opt) = self.selection.prev() {
                    self.selection = opt;
                }
            }
            Command::Down => {
                if let Some(opt) = self.selection.next() {
                    self.selection = opt;
                }
            }
            Command::Next => {
                self.selection = match self.selection.next() {
                    Some(opt) => opt,
                    None => PauseOpt::first(),
                };
            }
            Command::Prev => {
                self.selection = match self.selection.prev() {
                    Some(opt) => opt,
                    None => PauseOpt::last(),
                };
            }
            Command::Home => self.selection = PauseOpt::first(),
            Command::End => self.selection = PauseOpt::last(),
            _ => (),
        }
        None
    }
}

} // verus!
