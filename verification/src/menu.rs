//! The main menu: play and quit buttons around an options editor.
use vstd::prelude::*;
use crate::command::{spec_from_key_event, Command, InputEvent};
use crate::game::Globals;
use crate::options::{
    spec_decreased_options, spec_increased_options, spec_toggled_options, OptKey, OptValue,
    Options,
};
use crate::warning::{spec_offset_after, spec_warning_like, Warning, WarningOutcome};

verus! {

/// What the application should do after a main-menu event.
#[derive(Clone, Copy, Debug, PartialEq, Eq, Structural)]
pub enum MenuRequest {
    /// Save the chosen options and start a game with them.
    Play,
    /// Quit the application.
    Quit,
}

/// An enum of the main menu's form elements.
#[derive(Clone, Copy, Debug, PartialEq, Eq, Structural)]
pub enum Selection {
    /// The play button.
    PlayButton,
    /// The options sub-menu.
    Options,
    /// The quit button.
    QuitButton,
}

/// An enum of the states that the main menu can be in.
#[derive(Clone, Debug, PartialEq, Eq)]
pub enum MenuState {
    /// Normal operation.
    Normal,
    /// A warning is being displayed about a failure to save the chosen
    /// options.  Because options are saved when the user chooses to play,
    /// dismissing this warning continues into the game.
    SaveWarning(Warning),
}

/// State of the options sub-menu.
#[derive(Clone, Copy, Debug, PartialEq, Eq, Structural)]
pub struct OptionsMenu {
    /// If the currently selected main-menu item is an element of this
    /// menu, the key of the selected item; `None` otherwise.
    pub selection: Option<OptKey>,
    /// The option values currently displayed in the sub-menu.
    pub settings: Options,
}

impl OptionsMenu {
    /// A new sub-menu showing the given options, with nothing selected.
    pub fn new(options: Options) -> (r: OptionsMenu)
        ensures
            r.selection is None,
            r.settings == options,
    {
        OptionsMenu { selection: None, settings: options }
    }

    /// The options currently chosen in the menu.
    pub fn to_options(&self) -> (r: Options)
        ensures
            r == self.settings,
    {
        self.settings
    }

    /// Select the previous option in the sub-menu.  If there is no
    /// previous option, return the form element to move the selection to
    /// instead.
    pub fn move_up(&mut self) -> (r: Option<Selection>)
        ensures
            final(self).settings == old(self).settings,
            match old(self).selection {
                None => r is None && final(self).selection is None,
                Some(k) => {
                    &&& final(self).selection == (match k {
                        OptKey::Wraparound => None::<OptKey>,
                        OptKey::Obstacles => Some(OptKey::Wraparound),
                        OptKey::Fruits => Some(OptKey::Obstacles),
                        OptKey::LevelSize => Some(OptKey::Fruits),
                    })
                    &&& r == (if k is Wraparound {
                        Some(Selection::PlayButton)
                    } else {
                        None::<Selection>
                    })
                },
            },
    {
        match self.selection {
            None => None,
            Some(k) => {
                self.selection = k.prev();
                match self.selection {
                    None => Some(Selection::PlayButton),
                    Some(_) => None,
                }
            },
        }
    }

    /// Select the next option in the sub-menu.  If there is no next
    /// option, return the form element to move the selection to instead.
    pub fn move_down(&mut self) -> (r: Option<Selection>)
        ensures
            final(self).settings == old(self).settings,
            match old(self).selection {
                None => r is None && final(self).selection is None,
                Some(k) => {
                    &&& final(self).selection == (match k {
                        OptKey::Wraparound => Some(OptKey::Obstacles),
                        OptKey::Obstacles => Some(OptKey::Fruits),
                        OptKey::Fruits => Some(OptKey::LevelSize),
                        OptKey::LevelSize => None::<OptKey>,
                    })
                    &&& r == (if k is LevelSize {
                        Some(Selection::QuitButton)
                    } else {
                        None::<Selection>
                    })
                },
            },
    {
        match self.selection {
            None => None,
            Some(k) => {
                self.selection = k.next();
                match self.selection {
                    None => Some(Selection::QuitButton),
                    Some(_) => None,
                }
            },
        }
    }

    /// Respond to a "Left" input by lowering the selected option, if
    /// possible.
    pub fn move_left(&mut self)
        requires
            old(self).settings.wf(),
        ensures
            final(self).selection == old(self).selection,
            final(self).settings.wf(),
            match old(self).selection {
                None => final(self).settings == old(self).settings,
                Some(k) => spec_decreased_options(old(self).settings, k, final(self).settings),
            },
    {
        if let Some(k) = self.selection {
            let mut v = self.settings.get(k);
            v.decrease();
            self.settings.set(k, v);
        }
    }

    /// Respond to a "Right" input by raising the selected option, if
    /// possible.
    pub fn move_right(&mut self)
        requires
            old(self).settings.wf(),
        ensures
            final(self).selection == old(self).selection,
            final(self).settings.wf(),
            match old(self).selection {
                None => final(self).settings == old(self).settings,
                Some(k) => spec_increased_options(old(self).settings, k, final(self).settings),
            },
    {
        if let Some(k) = self.selection {
            let mut v = self.settings.get(k);
            v.increase();
            self.settings.set(k, v);
        }
    }

    /// Toggle the selected option, if possible.
    pub fn toggle(&mut self)
        requires
            old(self).settings.wf(),
        ensures
            final(self).selection == old(self).selection,
            final(self).settings.wf(),
            match old(self).selection {
                None => final(self).settings == old(self).settings,
                Some(k) => spec_toggled_options(old(self).settings, k, final(self).settings),
            },
    {
        if let Some(k) = self.selection {
            let mut v = self.settings.get(k);
            v.toggle();
            self.settings.set(k, v);
        }
    }
}

/// The main menu `m` after selecting form element `sel`.  When the
/// options sub-menu is entered, `first` says whether its cursor lands on
/// the first or the last option; `None` leaves the sub-menu cursor
/// untouched.
pub open spec fn spec_selected(m: MainMenu, sel: Selection, first: Option<bool>) -> MainMenu {
    MainMenu {
        selection: sel,
        opts_menu: OptionsMenu {
            selection: if sel is Options {
                match first {
                    Some(true) => Some(OptKey::Wraparound),
                    Some(false) => Some(OptKey::LevelSize),
                    None => m.opts_menu.selection,
                }
            } else {
                m.opts_menu.selection
            },
            settings: m.opts_menu.settings,
        },
        ..m
    }
}

/// What a command does to the main menu in its normal state.  The arms
/// mirror the menu's key bindings: Home and End jump to the buttons,
/// Enter or `p` on the play button chooses the current options and asks
/// to play, arrows and Tab walk the form, and arrows, Space and Enter
/// edit the option under the cursor.
pub open spec fn spec_menu_normal_rel(
    m: MainMenu,
    cmd: Command,
    m2: MainMenu,
    r: Option<MenuRequest>,
) -> bool {
    if cmd == Command::Home {
        r is None && m2 == spec_selected(m, Selection::PlayButton, None::<bool>)
    } else if cmd == Command::End {
        r is None && m2 == spec_selected(m, Selection::QuitButton, None::<bool>)
    } else if (m.selection is PlayButton && cmd == Command::Enter) || cmd == Command::P {
        &&& r == Some(MenuRequest::Play)
        &&& m2 == (MainMenu {
            globals: Globals {
                options: m.opts_menu.settings,
                high_scores: m.globals.high_scores,
            },
            ..m
        })
    } else if m.selection is PlayButton && cmd == Command::Prev {
        r is None && m2 == spec_selected(m, Selection::QuitButton, None::<bool>)
    } else if m.selection is PlayButton && (cmd == Command::Down || cmd == Command::Next) {
        r is None && m2 == spec_selected(m, Selection::Options, Some(true))
    } else if m.selection is Options && (cmd == Command::Up || cmd == Command::Prev) {
        &&& r is None
        &&& match m.opts_menu.selection {
            None => m2 == m,
            Some(OptKey::Wraparound) => m2 == spec_selected(
                MainMenu {
                    opts_menu: OptionsMenu {
                        selection: None,
                        settings: m.opts_menu.settings,
                    },
                    ..m
                },
                Selection::PlayButton,
                None::<bool>,
            ),
            Some(k) => m2 == (MainMenu {
                opts_menu: OptionsMenu {
                    selection: match k {
                        OptKey::Obstacles => Some(OptKey::Wraparound),
                        OptKey::Fruits => Some(OptKey::Obstacles),
                        _ => Some(OptKey::Fruits),
                    },
                    settings: m.opts_menu.settings,
                },
                ..m
            }),
        }
    } else if m.selection is Options && (cmd == Command::Down || cmd == Command::Next) {
        &&& r is None
        &&& match m.opts_menu.selection {
            None => m2 == m,
            Some(OptKey::LevelSize) => m2 == spec_selected(
                MainMenu {
                    opts_menu: OptionsMenu {
                        selection: None,
                        settings: m.opts_menu.settings,
                    },
                    ..m
                },
                Selection::QuitButton,
                None::<bool>,
            ),
            Some(k) => m2 == (MainMenu {
                opts_menu: OptionsMenu {
                    selection: match k {
                        OptKey::Wraparound => Some(OptKey::Obstacles),
                        OptKey::Obstacles => Some(OptKey::Fruits),
                        _ => Some(OptKey::LevelSize),
                    },
                    settings: m.opts_menu.settings,
                },
                ..m
            }),
        }
    } else if m.selection is Options && cmd == Command::Left {
        &&& r is None
        &&& m2.selection == m.selection
        &&& m2.opts_menu.selection == m.opts_menu.selection
        &&& m2.state == m.state
        &&& m2.globals == m.globals
        &&& match m.opts_menu.selection {
            None => m2.opts_menu.settings == m.opts_menu.settings,
            Some(k) => spec_decreased_options(m.opts_menu.settings, k, m2.opts_menu.settings),
        }
    } else if m.selection is Options && cmd == Command::Right {
        &&& r is None
        &&& m2.selection == m.selection
        &&& m2.opts_menu.selection == m.opts_menu.selection
        &&& m2.state == m.state
        &&& m2.globals == m.globals
        &&& match m.opts_menu.selection {
            None => m2.opts_menu.settings == m.opts_menu.settings,
            Some(k) => spec_increased_options(m.opts_menu.settings, k, m2.opts_menu.settings),
        }
    } else if m.selection is Options && (cmd == Command::Space || cmd == Command::Enter) {
        &&& r is None
        &&& m2.selection == m.selection
        &&& m2.opts_menu.selection == m.opts_menu.selection
        &&& m2.state == m.state
        &&& m2.globals == m.globals
        &&& match m.opts_menu.selection {
            None => m2.opts_menu.settings == m.opts_menu.settings,
            Some(k) => spec_toggled_options(m.opts_menu.settings, k, m2.opts_menu.settings),
        }
    } else if (m.selection is QuitButton && cmd == Command::Enter) || cmd == Command::Q {
        r == Some(MenuRequest::Quit) && m2 == m
    } else if m.selection is QuitButton && cmd == Command::Next {
        r is None && m2 == spec_selected(m, Selection::PlayButton, None::<bool>)
    } else if m.selection is QuitButton && (cmd == Command::Up || cmd == Command::Prev) {
        r is None && m2 == spec_selected(m, Selection::Options, Some(false))
    } else {
        r is None && m2 == m
    }
}

/// What [`MainMenu::handle_event`] does: Ctrl-C always asks to quit; in
/// the normal state commands drive the form (see
/// [`spec_menu_normal_rel`]); while a save warning is shown, the command
/// drives the pop-up, and dismissing it continues into the game.
pub open spec fn spec_menu_rel(
    m: MainMenu,
    event: InputEvent,
    m2: MainMenu,
    r: Option<MenuRequest>,
) -> bool {
    match event {
        InputEvent::Key(k) => match spec_from_key_event(k) {
            Some(cmd) => if cmd == Command::Quit {
                r == Some(MenuRequest::Quit) && m2 == m
            } else {
                match m.state {
                    MenuState::Normal => spec_menu_normal_rel(m, cmd, m2, r),
                    MenuState::SaveWarning(w) => {
                        &&& m2.selection == m.selection
                        &&& m2.opts_menu == m.opts_menu
                        &&& m2.globals == m.globals
                        &&& match cmd {
                            Command::Enter => r == Some(MenuRequest::Play) && m2 == m,
                            _ => r is None && (m2.state matches MenuState::SaveWarning(w2)
                                && spec_warning_like(w2, w, spec_offset_after(w, cmd))),
                        }
                    },
                }
            },
            None => r is None && m2 == m,
        },
        _ => r is None && m2 == m,
    }
}

/// The main menu: play and quit buttons around the options editor.
#[derive(Clone, Debug, PartialEq, Eq)]
pub struct MainMenu {
    /// The currently selected form element.
    pub selection: Selection,
    /// The state of the options sub-menu.
    pub opts_menu: OptionsMenu,
    /// The state that the menu is currently in.
    pub state: MenuState,
    /// Options and high scores, carried between screens.
    pub globals: Globals,
}

impl MainMenu {
    /// The chosen option values stay in range, the carried globals are
    /// well formed, and so is a save warning, if one is up.
    pub open spec fn wf(self) -> bool {
        &&& self.opts_menu.settings.wf()
        &&& self.globals.wf()
        &&& (self.state matches MenuState::SaveWarning(w) ==> w.wf())
    }

    /// A new main menu over the given globals, with the play button
    /// selected and the options editor showing the current options.
    pub fn new(globals: Globals) -> (r: MainMenu)
        requires
            globals.wf(),
        ensures
            r.selection == Selection::PlayButton,
            r.opts_menu.selection is None,
            r.opts_menu.settings == globals.options,
            r.state == MenuState::Normal,
            r.globals == globals,
            r.wf(),
    {
        MainMenu {
            selection: Selection::PlayButton,
            opts_menu: OptionsMenu::new(globals.options),
            state: MenuState::Normal,
            globals,
        }
    }

    /// Select the given form element.  If it is the options sub-menu, the
    /// sub-menu's cursor is put on the first option (if `first_option` is
    /// `Some(true)`), the last option (if `Some(false)`), or left alone.
    fn select(&mut self, selection: Selection, first_option: Option<bool>)
        ensures
            *final(self) == spec_selected(*old(self), selection, first_option),
    {
        self.selection = selection;
        if matches!(selection, Selection::Options) {
            match first_option {
                Some(true) => self.opts_menu.selection = Some(OptKey::first()),
                Some(false) => self.opts_menu.selection = Some(OptKey::last()),
                None => (),
            }
        }
    }

    /// Record that saving the chosen options failed, putting the given
    /// warning pop-up over the menu.
    pub fn save_failed(&mut self, w: Warning)
        requires
            old(self).wf(),
            w.wf(),
        ensures
            final(self).wf(),
            final(self).selection == old(self).selection,
            final(self).opts_menu == old(self).opts_menu,
            final(self).globals == old(self).globals,
            final(self).state == MenuState::SaveWarning(w),
    {
        self.state = MenuState::SaveWarning(w);
    }

    /// Handle one input event.  Returns `Some(request)` if the
    /// application should start a game or quit; see [`spec_menu_rel`].
    pub fn handle_event(&mut self, event: InputEvent) -> (r: Option<MenuRequest>)
        requires
            old(self).wf(),
        ensures
            final(self).wf(),
            spec_menu_rel(*old(self), event, *final(self), r),
    {
        let k = match event {
            InputEvent::Key(k) => k,
            _ => {
                return None;
            },
        };
        let cmd = match Command::from_key_event(k) {
            Some(cmd) => cmd,
            None => {
                return None;
            },
        };
        if matches!(cmd, Command::Quit) {
            return Some(MenuRequest::Quit);
        }
        let mut st = MenuState::Normal;
        core::mem::swap(&mut st, &mut self.state);
        match st {
            MenuState::Normal => {
                match cmd {
                    Command::Home => {
                        self.select(Selection::PlayButton, None);
                        None
                    },
                    Command::End => {
                        self.select(Selection::QuitButton, None);
                        None
                    },
                    _ => self.handle_normal_command(cmd),
                }
            },
            MenuState::SaveWarning(w) => {
                let mut w = w;
                match w.handle_command(cmd) {
                    Some(WarningOutcome::Dismissed) => {
                        self.state = MenuState::SaveWarning(w);
                        Some(MenuRequest::Play)
                    },
                    Some(WarningOutcome::Quit) => {
                        self.state = MenuState::SaveWarning(w);
                        Some(MenuRequest::Quit)
                    },
                    None => {
                        self.state = MenuState::SaveWarning(w);
                        None
                    },
                }
            },
        }
    }

    /// The normal-state key bindings past Home and End; the menu state is
    /// `Normal` on entry.
    fn handle_normal_command(&mut self, cmd: Command) -> (r: Option<MenuRequest>)
        requires
            old(self).wf(),
            old(self).state is Normal,
            !(cmd == Command::Quit),
            !(cmd == Command::Home),
            !(cmd == Command::End),
        ensures
            final(self).wf(),
            spec_menu_normal_rel(*old(self), cmd, *final(self), r),
    {
        match (self.selection, cmd) {
            (Selection::PlayButton, Command::Enter) | (_, Command::P) => {
                let options = self.opts_menu.to_options();
                self.globals.options = options;
                Some(MenuRequest::Play)
            },
            (Selection::PlayButton, Command::Prev) => {
                self.select(Selection::QuitButton, None);
                None
            },
            (Selection::PlayButton, Command::Down) | (Selection::PlayButton, Command::Next) => {
                self.select(Selection::Options, Some(true));
                None
            },
            (Selection::Options, Command::Up) | (Selection::Options, Command::Prev) => {
                if let Some(sel) = self.opts_menu.move_up() {
                    self.select(sel, None);
                }
                None
            },
            (Selection::Options, Command::Down) | (Selection::Options, Command::Next) => {
                if let Some(sel) = self.opts_menu.move_down() {
                    self.select(sel, None);
                }
                None
            },
            (Selection::Options, Command::Left) => {
                self.opts_menu.move_left();
                None
            },
            (Selection::Options, Command::Right) => {
                self.opts_menu.move_right();
                None
            },
            (Selection::Options, Command::Space) | (Selection::Options, Command::Enter) => {
                self.opts_menu.toggle();
                None
            },
            (Selection::QuitButton, Command::Enter) | (_, Command::Q) => {
                Some(MenuRequest::Quit)
            },
            (Selection::QuitButton, Command::Next) => {
                self.select(Selection::PlayButton, None);
                None
            },
            (Selection::QuitButton, Command::Up) | (Selection::QuitButton, Command::Prev) => {
                self.select(Selection::Options, Some(false));
                None
            },
            _ => None,
        }
    }
}

} // verus!
