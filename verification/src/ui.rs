//! The state of the screens: which screen shows, what is selected, and what
//! a key does. Nothing here draws or reads a terminal.

use vstd::prelude::*;
use crate::model::ModelType;

verus! {

/// A screen of the front-end.
#[derive(Debug, Clone, Copy, PartialEq, Eq, Structural)]
pub enum Screen {
    Home,
    ModelSelection,
    Config,
    Training,
    Inference,
    Validation,
}

/// A key, as far as the screens tell keys apart.
#[derive(Debug, Clone, Copy, PartialEq, Eq)]
pub enum Key {
    Char(char),
    Enter,
    Up,
    Down,
    Esc,
    Other,
}

/// What happened to a key.
#[derive(Debug, Clone, Copy, PartialEq, Eq, Structural)]
pub enum KeyKind {
    Press,
    Repeat,
    Release,
}

/// The state of the front-end.
#[derive(Debug, Clone, Copy)]
pub struct App {
    pub screen: Screen,
    pub selected_index: usize,
    pub previous_screen: Option<Screen>,
    pub help_visible: bool,
    pub selected_model: Option<ModelType>,
    pub should_quit: bool,
}

impl Screen {
    /// The index of the last entry of this screen's menu; 0 where the screen
    /// has no menu.
    pub open spec fn last_index(self) -> int {
        match self {
            Screen::Home => 6,
            Screen::ModelSelection => ModelType::catalog().len() - 1,
            _ => 0,
        }
    }
}

impl App {
    /// The state at launch: the home screen, its first entry selected.
    pub open spec fn initial() -> App {
        App {
            screen: Screen::Home,
            selected_index: 0,
            previous_screen: None,
            help_visible: false,
            selected_model: None,
            should_quit: false,
        }
    }

    /// The selection lies inside the menu of the screen.
    pub open spec fn in_menu(self) -> bool {
        self.selected_index <= self.screen.last_index()
    }

    /// Enter on the home screen opens the model selection; there it picks
    /// the selected model; elsewhere it does nothing.
    pub open spec fn after_enter(self) -> App {
        match self.screen {
            Screen::Home => App {
                previous_screen: Some(Screen::Home),
                screen: Screen::ModelSelection,
                selected_index: 0,
                ..self
            },
            Screen::ModelSelection => if self.selected_index < ModelType::catalog().len() {
                App {
                    selected_model: Some(ModelType::catalog()[self.selected_index as int]),
                    ..self
                }
            } else {
                self
            },
            _ => self,
        }
    }

    /// Up moves the selection one entry up, and stays at the first.
    pub open spec fn after_up(self) -> App {
        if self.selected_index > 0 {
            App { selected_index: (self.selected_index - 1) as usize, ..self }
        } else {
            self
        }
    }

    /// Down moves the selection one entry down, and stays at the last.
    pub open spec fn after_down(self) -> App {
        if self.selected_index < self.screen.last_index() {
            App { selected_index: (self.selected_index + 1) as usize, ..self }
        } else {
            self
        }
    }

    /// Escape goes back to the home screen, and quits from there.
    pub open spec fn after_esc(self) -> App {
        match self.screen {
            Screen::Home => App { should_quit: true, ..self },
            _ => App {
                previous_screen: Some(self.screen),
                screen: Screen::Home,
                selected_index: 0,
                ..self
            },
        }
    }

    /// What a key event does. Only a press counts. While the help shows,
    /// any key dismisses it and does nothing else.
    pub open spec fn after_key(self, kind: KeyKind, key: Key) -> App {
        if kind != KeyKind::Press {
            self
        } else if self.help_visible {
            App { help_visible: false, ..self }
        } else {
            match key {
                Key::Char(c) => if c == 'q' {
                    App { should_quit: true, ..self }
                } else if c == 'h' {
                    App { help_visible: true, ..self }
                } else {
                    self
                },
                Key::Enter => self.after_enter(),
                Key::Up => self.after_up(),
                Key::Down => self.after_down(),
                Key::Esc => self.after_esc(),
                Key::Other => self,
            }
        }
    }

    pub fn new() -> (app: App)
        ensures
            app == App::initial(),
            app.in_menu(),
    {
        App {
            screen: Screen::Home,
            selected_index: 0,
            previous_screen: None,
            help_visible: false,
            selected_model: None,
            should_quit: false,
        }
    }

    pub fn handle_enter(&mut self)
        ensures
            *final(self) == old(self).after_enter(),
    {
        match self.screen {
            Screen::Home => {
                self.previous_screen = Some(Screen::Home);
                self.screen = Screen::ModelSelection;
                self.selected_index = 0;
            },
            Screen::ModelSelection => {
                let models = ModelType::all_models();
                if self.selected_index < models.len() {
                    self.selected_model = Some(models[self.selected_index]);
                }
            },
            _ => {},
        }
    }

    pub fn handle_up(&mut self)
        ensures
            *final(self) == old(self).after_up(),
    {
        if self.selected_index > 0 {
            self.selected_index -= 1;
        }
    }

    pub fn handle_down(&mut self)
        ensures
            *final(self) == old(self).after_down(),
    {
        let max_index = match self.screen {
            Screen::Home => 6,
            Screen::ModelSelection => ModelType::all_models().len() - 1,
            _ => 0,
        };
        if self.selected_index < max_index {
            self.selected_index += 1;
        }
    }

    pub fn handle_esc(&mut self)
        ensures
            *final(self) == old(self).after_esc(),
    {
        match self.screen {
            Screen::Home => {
                self.should_quit = true;
            },
            _ => {
                self.previous_screen = Some(self.screen);
                self.screen = Screen::Home;
                self.selected_index = 0;
            },
        }
    }

    /// Takes in one key event.
    pub fn handle_key(&mut self, kind: KeyKind, key: Key)
        ensures
            *final(self) == old(self).after_key(kind, key),
    {
        match kind {
            KeyKind::Press => {},
            _ => {
                return ;
            },
        }
        if self.help_visible {
            self.help_visible = false;
            return ;
        }
        match key {
            Key::Char(c) => {
                if c == 'q' {
                    self.should_quit = true;
                } else if c == 'h' {
                    self.help_visible = true;
                }
            },
            Key::Enter => self.handle_enter(),
            Key::Up => self.handle_up(),
            Key::Down => self.handle_down(),
            Key::Esc => self.handle_esc(),
            Key::Other => {},
        }
    }

    /// Whatever the keys, the selection stays inside the menu of the screen
    /// that shows.
    pub proof fn lemma_selection_stays_in_menu(self, kind: KeyKind, key: Key)
        requires
            self.in_menu(),
        ensures
            self.after_key(kind, key).in_menu(),
    {
    }

    /// While the help shows, a key press only dismisses it.
    pub proof fn lemma_help_swallows_key(self, key: Key)
        requires
            self.help_visible,
        ensures
            self.after_key(KeyKind::Press, key) == (App { help_visible: false, ..self }),
    {
    }
}

} // verus!
