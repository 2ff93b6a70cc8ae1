//! The mode state machine: it owns the interactive state, routes key
//! events to the line editor or to the navigation keys depending on the
//! mode, and performs the mode transitions, including on command commit.
//!
//! The transition relation is written out as spec predicates, one per
//! mode family, so a step can be checked against the table they form
//! without any terminal attached.

use vstd::prelude::*;
use crate::editor::EditorState;
use crate::state::{Mode, SortDirection, ViewState};

verus! {

/// A key event, already reduced to the values the state machine routes.
/// The terminal layer turns raw events into these; the Space key arrives
/// as the literal space character.
#[derive(Clone, Copy, PartialEq, Eq, Structural, Debug)]
pub enum Key {
    Char(char),
    Left,
    Right,
    Up,
    Down,
    Enter,
    Esc,
    Backspace,
}

/// What the caller must show after a step, beyond the state itself.
#[derive(Clone, Copy, PartialEq, Eq, Structural, Debug)]
pub enum UiEffect {
    /// Nothing beyond re-rendering the state.
    Quiet,
    /// The inline help text for the command set.
    ShowHelp,
    /// The inline error for an unknown command.
    ShowError,
}

/// What a committed command line means: the single-letter command set,
/// matched case-sensitively against the whole buffer.
#[derive(Clone, Copy, PartialEq, Eq, Structural, Debug)]
pub enum Command {
    Print,
    Quit,
    Navigate,
    Search,
    Help,
    Unknown,
}

/// The meaning of a committed command buffer.
pub open spec fn spec_command_of(b: Seq<char>) -> Command {
    if b == seq!['p'] {
        Command::Print
    } else if b == seq!['q'] {
        Command::Quit
    } else if b == seq!['n'] {
        Command::Navigate
    } else if b == seq!['s'] {
        Command::Search
    } else if b == seq!['h'] {
        Command::Help
    } else {
        Command::Unknown
    }
}

/// Parses a committed command buffer.
pub fn command_of(buffer: &Vec<char>) -> (c: Command)
    ensures
        c == spec_command_of(buffer@),
{
    if buffer.len() != 1 {
        return Command::Unknown;
    }
    let ch = buffer[0];
    let c = if ch == 'p' {
        Command::Print
    } else if ch == 'q' {
        Command::Quit
    } else if ch == 'n' {
        Command::Navigate
    } else if ch == 's' {
        Command::Search
    } else if ch == 'h' {
        Command::Help
    } else {
        Command::Unknown
    };
    proof {
        if ch == 'p' {
            assert(buffer@ =~= seq!['p']);
        } else if ch == 'q' {
            assert(buffer@ =~= seq!['q']);
        } else if ch == 'n' {
            assert(buffer@ =~= seq!['n']);
        } else if ch == 's' {
            assert(buffer@ =~= seq!['s']);
        } else if ch == 'h' {
            assert(buffer@ =~= seq!['h']);
        }
    }
    c
}

/// The whole interactive state: the mode, the table's view settings, and
/// the live editor that INPUT and SEARCH modes carry.
pub struct AppState {
    pub mode: Mode,
    pub view: ViewState,
    pub editor: Option<EditorState>,
}

/// A fresh command editor: the ":" prompt and no text.
pub open spec fn fresh_input_editor(e: EditorState) -> bool {
    &&& e.prefix@ == ":"@
    &&& e.buffer@ == Seq::<char>::empty()
    &&& e.cursor_offset == 0
}

/// A search editor pre-seeded with the committed filter text, cursor at
/// its end.
pub open spec fn seeded_search_editor(v: ViewState, e: EditorState) -> bool {
    &&& e.prefix@ == "Search: "@
    &&& e.buffer@ == v.filter_text@
    &&& e.cursor_offset == v.filter_text@.len()
}

/// The editor after a character was inserted at the cursor.
pub open spec fn editor_inserted(e: EditorState, c: char, e2: EditorState) -> bool {
    &&& e2.prefix == e.prefix
    &&& e2.buffer@ == e.buffer@.insert(e.cursor_offset as int, c)
    &&& e2.cursor_offset == e.cursor_offset + 1
}

/// The editor after a delete before the cursor (a no-op at the start).
pub open spec fn editor_deleted(e: EditorState, e2: EditorState) -> bool {
    &&& e2.prefix == e.prefix
    &&& if e.cursor_offset == 0 {
        e2.buffer@ == e.buffer@ && e2.cursor_offset == 0
    } else {
        e2.buffer@ == e.buffer@.remove(e.cursor_offset - 1) && e2.cursor_offset == e.cursor_offset
            - 1
    }
}

/// The editor after the cursor moved one place left, clamped.
pub open spec fn editor_moved_left(e: EditorState, e2: EditorState) -> bool {
    &&& e2.prefix == e.prefix
    &&& e2.buffer == e.buffer
    &&& e2.cursor_offset == (if e.cursor_offset > 0 {
        e.cursor_offset - 1
    } else {
        0int
    })
}

/// The editor after the cursor moved one place right, clamped.
pub open spec fn editor_moved_right(e: EditorState, e2: EditorState) -> bool {
    &&& e2.prefix == e.prefix
    &&& e2.buffer == e.buffer
    &&& e2.cursor_offset == (if e.cursor_offset < e.buffer@.len() {
        e.cursor_offset + 1
    } else {
        e.buffer@.len() as int
    })
}

/// The view with only the selected column changed.
pub open spec fn view_col_changed(v: ViewState, v2: ViewState, col: int) -> bool {
    &&& v2.selected_column == col
    &&& v2.sort_direction == v.sort_direction
    &&& v2.filter_text == v.filter_text
}

/// The view with only the sort direction changed.
pub open spec fn view_dir_changed(v: ViewState, v2: ViewState, dir: SortDirection) -> bool {
    &&& v2.selected_column == v.selected_column
    &&& v2.sort_direction == dir
    &&& v2.filter_text == v.filter_text
}

/// One step in PRINT or NAVIGATE mode. The arrow keys adjust the selected
/// column and the sort direction in both modes, as the dashboard always
/// has, and `:` opens the command line.
pub open spec fn nav_step(pre: AppState, key: Key, post: AppState, eff: UiEffect) -> bool {
    match key {
        Key::Left => {
            &&& post.mode == pre.mode
            &&& post.editor is None
            &&& view_col_changed(
                pre.view,
                post.view,
                if pre.view.selected_column > 0 {
                    pre.view.selected_column - 1
                } else {
                    0int
                },
            )
            &&& eff == UiEffect::Quiet
        },
        Key::Right => {
            &&& post.mode == pre.mode
            &&& post.editor is None
            &&& view_col_changed(
                pre.view,
                post.view,
                if pre.view.selected_column < 4 {
                    pre.view.selected_column + 1
                } else {
                    pre.view.selected_column as int
                },
            )
            &&& eff == UiEffect::Quiet
        },
        Key::Up => {
            &&& post.mode == pre.mode
            &&& post.editor is None
            &&& view_dir_changed(pre.view, post.view, SortDirection::Ascending)
            &&& eff == UiEffect::Quiet
        },
        Key::Down => {
            &&& post.mode == pre.mode
            &&& post.editor is None
            &&& view_dir_changed(pre.view, post.view, SortDirection::Descending)
            &&& eff == UiEffect::Quiet
        },
        Key::Char(c) => {
            if c == ':' {
                &&& post.mode == Mode::INPUT
                &&& post.view == pre.view
                &&& post.editor is Some
                &&& fresh_input_editor(post.editor->0)
                &&& eff == UiEffect::Quiet
            } else {
                post == pre && eff == UiEffect::Quiet
            }
        },
        _ => post == pre && eff == UiEffect::Quiet,
    }
}

/// One step in INPUT mode: editing keys go to the line editor; Enter with
/// a non-empty buffer commits it as a command; Esc discards the line and
/// returns to PRINT. Help and an unknown command keep INPUT mode with a
/// cleared line and ask the caller to show the help text or the inline
/// error.
pub open spec fn input_step(pre: AppState, key: Key, post: AppState, eff: UiEffect) -> bool {
    let e = pre.editor->0;
    match key {
        Key::Esc => {
            &&& post.mode == Mode::PRINT
            &&& post.editor is None
            &&& post.view == pre.view
            &&& eff == UiEffect::Quiet
        },
        Key::Enter => {
            if e.buffer@.len() == 0 {
                post == pre && eff == UiEffect::Quiet
            } else {
                match spec_command_of(e.buffer@) {
                    Command::Print => {
                        &&& post.mode == Mode::PRINT
                        &&& post.editor is None
                        &&& post.view == pre.view
                        &&& eff == UiEffect::Quiet
                    },
                    Command::Quit => {
                        &&& post.mode == Mode::EXIT
                        &&& post.editor is None
                        &&& post.view == pre.view
                        &&& eff == UiEffect::Quiet
                    },
                    Command::Navigate => {
                        &&& post.mode == Mode::NAVIGATE
                        &&& post.editor is None
                        &&& post.view == pre.view
                        &&& eff == UiEffect::Quiet
                    },
                    Command::Search => {
                        &&& post.mode == Mode::SEARCH
                        &&& post.editor is Some
                        &&& seeded_search_editor(pre.view, post.editor->0)
                        &&& post.view == pre.view
                        &&& eff == UiEffect::Quiet
                    },
                    Command::Help => {
                        &&& post.mode == Mode::INPUT
                        &&& post.editor is Some
                        &&& fresh_input_editor(post.editor->0)
                        &&& post.view == pre.view
                        &&& eff == UiEffect::ShowHelp
                    },
                    Command::Unknown => {
                        &&& post.mode == Mode::INPUT
                        &&& post.editor is Some
                        &&& fresh_input_editor(post.editor->0)
                        &&& post.view == pre.view
                        &&& eff == UiEffect::ShowError
                    },
                }
            }
        },
        Key::Backspace => {
            &&& post.mode == Mode::INPUT
            &&& post.view == pre.view
            &&& post.editor is Some
            &&& editor_deleted(e, post.editor->0)
            &&& eff == UiEffect::Quiet
        },
        Key::Left => {
            &&& post.mode == Mode::INPUT
            &&& post.view == pre.view
            &&& post.editor is Some
            &&& editor_moved_left(e, post.editor->0)
            &&& eff == UiEffect::Quiet
        },
        Key::Right => {
            &&& post.mode == Mode::INPUT
            &&& post.view == pre.view
            &&& post.editor is Some
            &&& editor_moved_right(e, post.editor->0)
            &&& eff == UiEffect::Quiet
        },
        Key::Char(c) => {
            &&& post.mode == Mode::INPUT
            &&& post.view == pre.view
            &&& post.editor is Some
            &&& editor_inserted(e, c, post.editor->0)
            &&& eff == UiEffect::Quiet
        },
        _ => post == pre && eff == UiEffect::Quiet,
    }
}

/// One step in SEARCH mode: editing keys go to the pre-seeded editor;
/// Enter commits the buffer as the new filter text and returns to PRINT;
/// Esc discards the edits and leaves the filter unchanged.
pub open spec fn search_step(pre: AppState, key: Key, post: AppState, eff: UiEffect) -> bool {
    let e = pre.editor->0;
    match key {
        Key::Esc => {
            &&& post.mode == Mode::PRINT
            &&& post.editor is None
            &&& post.view == pre.view
            &&& eff == UiEffect::Quiet
        },
        Key::Enter => {
            &&& post.mode == Mode::PRINT
            &&& post.editor is None
            &&& post.view.selected_column == pre.view.selected_column
            &&& post.view.sort_direction == pre.view.sort_direction
            &&& post.view.filter_text@ == e.buffer@
            &&& eff == UiEffect::Quiet
        },
        Key::Backspace => {
            &&& post.mode == Mode::SEARCH
            &&& post.view == pre.view
            &&& post.editor is Some
            &&& editor_deleted(e, post.editor->0)
            &&& eff == UiEffect::Quiet
        },
        Key::Left => {
            &&& post.mode == Mode::SEARCH
            &&& post.view == pre.view
            &&& post.editor is Some
            &&& editor_moved_left(e, post.editor->0)
            &&& eff == UiEffect::Quiet
        },
        Key::Right => {
            &&& post.mode == Mode::SEARCH
            &&& post.view == pre.view
            &&& post.editor is Some
            &&& editor_moved_right(e, post.editor->0)
            &&& eff == UiEffect::Quiet
        },
        Key::Char(c) => {
            &&& post.mode == Mode::SEARCH
            &&& post.view == pre.view
            &&& post.editor is Some
            &&& editor_inserted(e, c, post.editor->0)
            &&& eff == UiEffect::Quiet
        },
        _ => post == pre && eff == UiEffect::Quiet,
    }
}

impl AppState {
    /// The state is well formed: the view names a real column, exactly the
    /// editing modes carry a live editor, and its cursor is in bounds.
    pub open spec fn wf(&self) -> bool {
        &&& self.view.wf()
        &&& (self.mode == Mode::INPUT || self.mode == Mode::SEARCH) <==> self.editor is Some
        &&& self.editor is Some ==> self.editor->0.wf()
    }

    /// The state the dashboard starts in: PRINT mode, first column
    /// selected, ascending order, no filter.
    pub fn new() -> (s: AppState)
        ensures
            s.wf(),
            s.mode == Mode::PRINT,
            s.view.selected_column == 0,
            s.view.sort_direction == SortDirection::Ascending,
            s.view.filter_text@ == Seq::<char>::empty(),
            s.editor is None,
    {
        AppState {
            mode: Mode::PRINT,
            view: ViewState {
                selected_column: 0,
                sort_direction: SortDirection::Ascending,
                filter_text: String::new(),
            },
            editor: None,
        }
    }

    /// Switches the interaction mode, creating or discarding the editor
    /// the target mode needs: INPUT gets an empty command line behind the
    /// ":" prompt, SEARCH gets the committed filter text behind the
    /// "Search: " prompt, every other mode carries none.
    pub fn switch_mode(&mut self, mode: Mode)
        requires
            old(self).wf(),
        ensures
            final(self).wf(),
            final(self).mode == mode,
            final(self).view == old(self).view,
            mode == Mode::INPUT ==> final(self).editor is Some && fresh_input_editor(
                final(self).editor->0,
            ),
            mode == Mode::SEARCH ==> final(self).editor is Some && seeded_search_editor(
                old(self).view,
                final(self).editor->0,
            ),
            mode != Mode::INPUT && mode != Mode::SEARCH ==> final(self).editor is None,
    {
        match mode {
            Mode::INPUT => {
                let e = EditorState::begin(":", "");
                proof {
                    reveal_strlit("");
                    assert(""@ =~= Seq::<char>::empty());
                }
                self.editor = Some(e);
            },
            Mode::SEARCH => {
                let e = EditorState::begin("Search: ", self.view.filter_text.as_str());
                self.editor = Some(e);
            },
            _ => {
                self.editor = None;
            },
        }
        self.mode = mode;
    }

    /// Routes one key event according to the current mode and performs
    /// the transition the mode table gives for it.
    pub fn handle_key(&mut self, key: Key) -> (eff: UiEffect)
        requires
            old(self).wf(),
        ensures
            final(self).wf(),
            old(self).mode == Mode::PRINT || old(self).mode == Mode::NAVIGATE ==> nav_step(
                *old(self),
                key,
                *final(self),
                eff,
            ),
            old(self).mode == Mode::INPUT ==> input_step(*old(self), key, *final(self), eff),
            old(self).mode == Mode::SEARCH ==> search_step(*old(self), key, *final(self), eff),
            old(self).mode == Mode::EXIT ==> *final(self) == *old(self) && eff == UiEffect::Quiet,
    {
        match self.mode {
            Mode::PRINT | Mode::NAVIGATE => self.handle_nav_key(key),
            Mode::INPUT => self.handle_input_key(key),
            Mode::SEARCH => self.handle_search_key(key),
            Mode::EXIT => UiEffect::Quiet,
        }
    }

    /// The PRINT and NAVIGATE half of the key table.
    fn handle_nav_key(&mut self, key: Key) -> (eff: UiEffect)
        requires
            old(self).wf(),
            old(self).mode == Mode::PRINT || old(self).mode == Mode::NAVIGATE,
        ensures
            final(self).wf(),
            nav_step(*old(self), key, *final(self), eff),
    {
        match key {
            Key::Left => {
                if self.view.selected_column > 0 {
                    self.view.selected_column = self.view.selected_column - 1;
                }
            },
            Key::Right => {
                if self.view.selected_column < 4 {
                    self.view.selected_column = self.view.selected_column + 1;
                }
            },
            Key::Up => {
                self.view.sort_direction = SortDirection::Ascending;
            },
            Key::Down => {
                self.view.sort_direction = SortDirection::Descending;
            },
            Key::Char(c) => {
                if c == ':' {
                    self.switch_mode(Mode::INPUT);
                }
            },
            _ => {},
        }
        UiEffect::Quiet
    }

    /// The INPUT half of the key table.
    fn handle_input_key(&mut self, key: Key) -> (eff: UiEffect)
        requires
            old(self).wf(),
            old(self).mode == Mode::INPUT,
        ensures
            final(self).wf(),
            input_step(*old(self), key, *final(self), eff),
    {
        match key {
            Key::Esc => {
                self.switch_mode(Mode::PRINT);
                UiEffect::Quiet
            },
            Key::Enter => {
                let buffer_len = match &self.editor {
                    Some(e) => e.buffer.len(),
                    None => 0,
                };
                if buffer_len == 0 {
                    return UiEffect::Quiet;
                }
                let cmd = match &self.editor {
                    Some(e) => command_of(&e.buffer),
                    None => Command::Unknown,
                };
                match cmd {
                    Command::Print => {
                        self.switch_mode(Mode::PRINT);
                        UiEffect::Quiet
                    },
                    Command::Quit => {
                        self.switch_mode(Mode::EXIT);
                        UiEffect::Quiet
                    },
                    Command::Navigate => {
                        self.switch_mode(Mode::NAVIGATE);
                        UiEffect::Quiet
                    },
                    Command::Search => {
                        self.switch_mode(Mode::SEARCH);
                        UiEffect::Quiet
                    },
                    Command::Help => {
                        self.switch_mode(Mode::INPUT);
                        UiEffect::ShowHelp
                    },
                    Command::Unknown => {
                        self.switch_mode(Mode::INPUT);
                        UiEffect::ShowError
                    },
                }
            },
            Key::Backspace => {
                let taken = self.editor.take();
                match taken {
                    Some(mut e) => {
                        e.delete_before_cursor();
                        self.editor = Some(e);
                    },
                    None => {},
                }
                UiEffect::Quiet
            },
            Key::Left => {
                let taken = self.editor.take();
                match taken {
                    Some(mut e) => {
                        e.move_left();
                        self.editor = Some(e);
                    },
                    None => {},
                }
                UiEffect::Quiet
            },
            Key::Right => {
                let taken = self.editor.take();
                match taken {
                    Some(mut e) => {
                        e.move_right();
                        self.editor = Some(e);
                    },
                    None => {},
                }
                UiEffect::Quiet
            },
            Key::Char(c) => {
                let taken = self.editor.take();
                match taken {
                    Some(mut e) => {
                        e.insert_char(c);
                        self.editor = Some(e);
                    },
                    None => {},
                }
                UiEffect::Quiet
            },
            _ => UiEffect::Quiet,
        }
    }

    /// The SEARCH half of the key table.
    fn handle_search_key(&mut self, key: Key) -> (eff: UiEffect)
        requires
            old(self).wf(),
            old(self).mode == Mode::SEARCH,
        ensures
            final(self).wf(),
            search_step(*old(self), key, *final(self), eff),
    {
        match key {
            Key::Esc => {
                self.switch_mode(Mode::PRINT);
                UiEffect::Quiet
            },
            Key::Enter => {
                let committed = match &self.editor {
                    Some(e) => e.commit(),
                    None => String::new(),
                };
                self.view.filter_text = committed;
                self.editor = None;
                self.mode = Mode::PRINT;
                UiEffect::Quiet
            },
            Key::Backspace => {
                let taken = self.editor.take();
                match taken {
                    Some(mut e) => {
                        e.delete_before_cursor();
                        self.editor = Some(e);
                    },
                    None => {},
                }
                UiEffect::Quiet
            },
            Key::Left => {
                let taken = self.editor.take();
                match taken {
                    Some(mut e) => {
                        e.move_left();
                        self.editor = Some(e);
                    },
                    None => {},
                }
                UiEffect::Quiet
            },
            Key::Right => {
                let taken = self.editor.take();
                match taken {
                    Some(mut e) => {
                        e.move_right();
                        self.editor = Some(e);
                    },
                    None => {},
                }
                UiEffect::Quiet
            },
            Key::Char(c) => {
                let taken = self.editor.take();
                match taken {
                    Some(mut e) => {
                        e.insert_char(c);
                        self.editor = Some(e);
                    },
                    None => {},
                }
                UiEffect::Quiet
            },
            _ => UiEffect::Quiet,
        }
    }
}

} // verus!
