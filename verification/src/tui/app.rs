//! The dashboard's state machine.

use crate::models::{ActionLog, Database, Vision};
use crate::text::{pop_char, push_char};
use crate::tui::events::EventHandler;
use vstd::prelude::*;

verus! {

#[derive(Debug, Clone, Copy, PartialEq, Eq, Structural)]
pub enum Screen {
    VisionList,
    VisionDetail,
    ActionForm,
    MetricsSummary,
}

#[derive(Debug, Clone, Copy, PartialEq, Eq, Structural)]
pub enum InputMode {
    Normal,
    Editing,
}

/// A key, as far as the dashboard tells keys apart.
#[derive(Debug, Clone, Copy, PartialEq, Eq, Structural)]
pub enum Key {
    Char(char),
    Backspace,
    Enter,
    Esc,
    Up,
    Down,
    Other,
}

/// What the dashboard holds.
#[derive(Debug)]
pub struct App {
    pub db: Database,
    pub screen: Screen,
    pub input_mode: InputMode,
    pub selected_vision: Option<u128>,
    pub input_buffer: String,
    pub should_quit: bool,
}

/// What handling a key has led to.
#[derive(Debug, Clone, Copy, PartialEq, Eq, Structural)]
pub struct Handled {
    /// The dashboard is to be closed.
    pub should_quit: bool,
    /// The snapshot has changed and is to be stored.
    pub must_save: bool,
}

/// The state of the dashboard apart from its snapshot.
pub struct Controls {
    pub screen: Screen,
    pub input_mode: InputMode,
    pub selected_vision: Option<u128>,
    pub input: Seq<char>,
    pub should_quit: bool,
}

/// The identifier that is selected after a step up from `selected`: the one
/// before it; the first where nothing was selected; and `selected` itself
/// where it is the first or belongs to no vision.
pub open spec fn previous_selection(db: &Database, selected: Option<u128>) -> Option<u128> {
    match selected {
        Some(id) => if db.has_vision(id) && db.place_of(id) > 0 {
            Some(db.visions@[db.place_of(id) - 1].id)
        } else {
            selected
        },
        None => if db.visions@.len() > 0 {
            Some(db.visions@[0].id)
        } else {
            None
        },
    }
}

/// The identifier that is selected after a step down from `selected`: the
/// one after it; the first where nothing was selected; and `selected` itself
/// where it is the last or belongs to no vision.
pub open spec fn next_selection(db: &Database, selected: Option<u128>) -> Option<u128> {
    match selected {
        Some(id) => if db.has_vision(id) && db.place_of(id) + 1 < db.visions@.len() {
            Some(db.visions@[db.place_of(id) + 1].id)
        } else {
            selected
        },
        None => if db.visions@.len() > 0 {
            Some(db.visions@[0].id)
        } else {
            None
        },
    }
}

/// The controls after a key in normal mode.
pub open spec fn after_normal_key(db: &Database, c: Controls, key: Key) -> Controls {
    match key {
        Key::Char('q') => Controls { should_quit: true, ..c },
        Key::Char('1') => Controls { screen: Screen::VisionList, ..c },
        Key::Char('2') => Controls { screen: Screen::MetricsSummary, ..c },
        Key::Char('a') => Controls {
            screen: Screen::ActionForm,
            input_mode: InputMode::Editing,
            input: Seq::empty(),
            ..c
        },
        Key::Char('n') => Controls {
            screen: Screen::VisionList,
            input_mode: InputMode::Editing,
            input: Seq::empty(),
            ..c
        },
        Key::Up => Controls { selected_vision: previous_selection(db, c.selected_vision), ..c },
        Key::Down => Controls { selected_vision: next_selection(db, c.selected_vision), ..c },
        Key::Enter => if c.selected_vision is Some {
            Controls { screen: Screen::VisionDetail, ..c }
        } else {
            c
        },
        _ => c,
    }
}

/// The controls after a key in editing mode.
pub open spec fn after_editing_key(c: Controls, key: Key) -> Controls {
    match key {
        Key::Char(ch) => Controls { input: c.input.push(ch), ..c },
        Key::Backspace => Controls {
            input: if c.input.len() > 0 {
                c.input.drop_last()
            } else {
                c.input
            },
            ..c
        },
        Key::Enter => Controls { input_mode: InputMode::Normal, input: Seq::empty(), ..c },
        Key::Esc => Controls {
            input_mode: InputMode::Normal,
            input: Seq::empty(),
            screen: Screen::VisionList,
            ..c
        },
        _ => c,
    }
}

/// What the input is worth when it is entered.
pub enum Entry {
    /// An action toward the selected vision.
    Action(u128),
    /// A new vision.
    Vision,
    /// Nothing.
    Nothing,
}

/// What entering the input makes: an action where the action form is open
/// and a vision selected, a vision where the list is open in editing mode,
/// and nothing else.
pub open spec fn entry_of(c: Controls) -> Entry {
    match c.screen {
        Screen::ActionForm => match c.selected_vision {
            Some(id) => Entry::Action(id),
            None => Entry::Nothing,
        },
        Screen::VisionList => if c.input_mode == InputMode::Editing {
            Entry::Vision
        } else {
            Entry::Nothing
        },
        _ => Entry::Nothing,
    }
}

/// `after` is `before` with what entering the input of `c` makes, and
/// `saved` tells whether that was anything.
pub open spec fn enters_input(before: Database, after: Database, c: Controls, saved: bool) -> bool {
    match entry_of(c) {
        Entry::Action(id) => saved && crate::cli::commands::action::adds_action(
            before,
            after,
            id,
            c.input,
        ),
        Entry::Vision => saved && exists|id: u128, title: String|
            #![trigger crate::cli::commands::vision::adds_vision(before, after, title, id)]
            title@ == c.input && crate::cli::commands::vision::adds_vision(
                before,
                after,
                title,
                id,
            ),
        Entry::Nothing => !saved && after == before,
    }
}

impl App {
    /// The state of the dashboard apart from its snapshot.
    pub open spec fn controls(&self) -> Controls {
        Controls {
            screen: self.screen,
            input_mode: self.input_mode,
            selected_vision: self.selected_vision,
            input: self.input_buffer@,
            should_quit: self.should_quit,
        }
    }

    /// The dashboard as it opens on a snapshot: the list of visions, in
    /// normal mode, with nothing selected and nothing typed.
    pub fn new(db: Database) -> (app: App)
        ensures
            app.db == db,
            app.controls() == (Controls {
                screen: Screen::VisionList,
                input_mode: InputMode::Normal,
                selected_vision: None,
                input: Seq::empty(),
                should_quit: false,
            }),
    {
        App {
            db,
            screen: Screen::VisionList,
            input_mode: InputMode::Normal,
            selected_vision: None,
            input_buffer: String::new(),
            should_quit: false,
        }
    }

    /// Takes in the snapshot as it was loaded anew.
    pub fn refresh(&mut self, db: Database)
        ensures
            final(self).db == db,
            final(self).controls() == old(self).controls(),
    {
        self.db = db;
    }

    /// Handles the key of the latest poll, if there was one.
    pub fn handle_events(&mut self, event_handler: &EventHandler) -> (handled: Handled)
        ensures
            handled.should_quit == final(self).should_quit,
            match event_handler.spec_last_key_event() {
                None => *final(self) == *old(self) && !handled.must_save,
                Some(key) => match old(self).input_mode {
                    InputMode::Normal => final(self).db == old(self).db && !handled.must_save
                        && final(self).controls() == after_normal_key(
                        &old(self).db,
                        old(self).controls(),
                        key,
                    ),
                    InputMode::Editing => final(self).controls() == after_editing_key(
                        old(self).controls(),
                        key,
                    ) && if key == Key::Enter {
                        enters_input(
                            old(self).db,
                            final(self).db,
                            old(self).controls(),
                            handled.must_save,
                        )
                    } else {
                        !handled.must_save && final(self).db == old(self).db
                    },
                },
            },
    {
        let mut must_save = false;
        match event_handler.last_key_event() {
            Some(key) => {
                match self.input_mode {
                    InputMode::Normal => {
                        self.handle_normal_mode(key);
                    },
                    InputMode::Editing => {
                        must_save = self.handle_editing_mode(key);
                    },
                }
            },
            None => {},
        }
        Handled { should_quit: self.should_quit, must_save }
    }

    /// Handles a key in normal mode.
    pub fn handle_normal_mode(&mut self, key: Key)
        ensures
            final(self).db == old(self).db,
            final(self).controls() == after_normal_key(&old(self).db, old(self).controls(), key),
    {
        match key {
            Key::Char('q') => {
                self.should_quit = true;
            },
            Key::Char('1') => {
                self.screen = Screen::VisionList;
            },
            Key::Char('2') => {
                self.screen = Screen::MetricsSummary;
            },
            Key::Char('a') => {
                self.screen = Screen::ActionForm;
                self.input_mode = InputMode::Editing;
                self.input_buffer = String::new();
            },
            Key::Char('n') => {
                self.screen = Screen::VisionList;
                self.input_mode = InputMode::Editing;
                self.input_buffer = String::new();
            },
            Key::Up => {
                self.select_previous_vision();
            },
            Key::Down => {
                self.select_next_vision();
            },
            Key::Enter => {
                if self.selected_vision.is_some() {
                    self.screen = Screen::VisionDetail;
                }
            },
            _ => {},
        }
    }

    /// Handles a key in editing mode. Tells whether the snapshot is to be
    /// stored.
    pub fn handle_editing_mode(&mut self, key: Key) -> (must_save: bool)
        ensures
            final(self).controls() == after_editing_key(old(self).controls(), key),
            if key == Key::Enter {
                enters_input(old(self).db, final(self).db, old(self).controls(), must_save)
            } else {
                !must_save && final(self).db == old(self).db
            },
    {
        match key {
            Key::Char(c) => {
                push_char(&mut self.input_buffer, c);
                false
            },
            Key::Backspace => {
                pop_char(&mut self.input_buffer);
                false
            },
            Key::Enter => {
                let must_save = self.process_input();
                self.input_mode = InputMode::Normal;
                self.input_buffer = String::new();
                must_save
            },
            Key::Esc => {
                self.input_mode = InputMode::Normal;
                self.input_buffer = String::new();
                self.screen = Screen::VisionList;
                false
            },
            _ => false,
        }
    }

    /// Enters the input: as an action toward the selected vision, or as a new
    /// vision. Tells whether the snapshot is to be stored.
    pub fn process_input(&mut self) -> (must_save: bool)
        ensures
            final(self).controls() == old(self).controls(),
            enters_input(old(self).db, final(self).db, old(self).controls(), must_save),
    {
        match self.screen {
            Screen::ActionForm => {
                match self.selected_vision {
                    Some(vision_id) => {
                        let action = ActionLog::new(vision_id, self.input_buffer.clone());
                        self.db.actions.push(action);
                        proof {
                            assert(self.db.actions@.drop_last() == old(self).db.actions@);
                        }
                        true
                    },
                    None => false,
                }
            },
            Screen::VisionList => {
                if self.input_mode == InputMode::Editing {
                    let title = self.input_buffer.clone();
                    let vision = Vision::new(title.clone());
                    let ghost id = vision.id;
                    self.db.visions.push(vision);
                    proof {
                        assert(self.db.visions@.drop_last() == old(self).db.visions@);
                        assert(crate::cli::commands::vision::adds_vision(
                            old(self).db,
                            self.db,
                            title,
                            id,
                        ));
                    }
                    true
                } else {
                    false
                }
            },
            _ => false,
        }
    }

    /// Moves the selection one vision up.
    pub fn select_previous_vision(&mut self)
        ensures
            final(self).db == old(self).db,
            final(self).controls() == (Controls {
                selected_vision: previous_selection(&old(self).db, old(self).selected_vision),
                ..old(self).controls()
            }),
    {
        match self.selected_vision {
            Some(selected) => {
                match self.db.find_vision(selected) {
                    Some(place) => {
                        if place > 0 {
                            self.selected_vision = Some(self.db.visions[place - 1].id);
                        }
                    },
                    None => {},
                }
            },
            None => {
                if self.db.visions.len() > 0 {
                    self.selected_vision = Some(self.db.visions[0].id);
                }
            },
        }
    }

    /// Moves the selection one vision down.
    pub fn select_next_vision(&mut self)
        ensures
            final(self).db == old(self).db,
            final(self).controls() == (Controls {
                selected_vision: next_selection(&old(self).db, old(self).selected_vision),
                ..old(self).controls()
            }),
    {
        match self.selected_vision {
            Some(selected) => {
                match self.db.find_vision(selected) {
                    Some(place) => {
                        if place < self.db.visions.len() - 1 {
                            self.selected_vision = Some(self.db.visions[place + 1].id);
                        }
                    },
                    None => {},
                }
            },
            None => {
                if self.db.visions.len() > 0 {
                    self.selected_vision = Some(self.db.visions[0].id);
                }
            },
        }
    }

    /// The selected vision: the first that has the selected identifier.
    pub fn get_selected_vision(&self) -> (vision: Option<&Vision>)
        ensures
            match self.selected_vision {
                Some(id) => if self.db.has_vision(id) {
                    vision matches Some(v) && *v == self.db.vision_with_id(id)
                } else {
                    vision is None
                },
                None => vision is None,
            },
    {
        match self.selected_vision {
            Some(id) => match self.db.find_vision(id) {
                Some(place) => Some(&self.db.visions[place]),
                None => None,
            },
            None => None,
        }
    }

    /// How many visions are in progress and not completed.
    pub fn get_active_visions_count(&self) -> (count: usize)
        ensures
            count == self.db.spec_active_vision_count(),
    {
        self.db.active_vision_count()
    }

    /// How many actions the snapshot holds.
    pub fn get_total_actions(&self) -> (count: usize)
        ensures
            count == self.db.actions@.len(),
    {
        self.db.actions.len()
    }
}

} // verus!
