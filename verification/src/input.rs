//! The key table: which key does what to the state.

use vstd::prelude::*;
use crate::app::{alternate_items, App, AppModel};

verus! {

/// A key press, as the terminal reports it.
#[derive(Clone, Copy, Debug, PartialEq, Eq)]
pub enum Key {
    Backspace,
    Enter,
    Left,
    Right,
    Up,
    Down,
    Home,
    End,
    PageUp,
    PageDown,
    Tab,
    BackTab,
    Delete,
    Insert,
    /// A function key, by its number.
    F(u8),
    /// A character key.
    Char(char),
    Null,
    Esc,
    /// Any key that has no variant of its own.
    Other,
}

/// What a key press asks for.
#[derive(Clone, Copy, Debug, PartialEq, Eq)]
pub enum Command {
    /// Leave the event loop.
    Quit,
    /// Step forward in the list panel.
    ItemsNext,
    /// Step back in the list panel.
    ItemsPrevious,
    /// Clear the cursor of the list panel.
    ItemsUnselect,
    /// Load the alternate entries into the list panel.
    ItemsReplace,
    /// Step back in the tab strip.
    TitlesPrevious,
    /// Step forward in the tab strip.
    TitlesNext,
    /// Nothing: the key has no meaning.
    Ignore,
}

/// Whether the event loop goes on.
#[derive(Clone, Copy, Debug, PartialEq, Eq)]
pub enum Flow {
    Running,
    Terminating,
}

/// The key table.
pub open spec fn command_for(key: Key) -> Command {
    match key {
        Key::Char(c) => if c == 'q' {
            Command::Quit
        } else if c == 'j' {
            Command::ItemsNext
        } else if c == 'k' {
            Command::ItemsPrevious
        } else if c == 'u' {
            Command::ItemsUnselect
        } else if c == 'm' {
            Command::ItemsReplace
        } else {
            Command::Ignore
        },
        Key::Down => Command::ItemsNext,
        Key::Tab => Command::ItemsNext,
        Key::Up => Command::ItemsPrevious,
        Key::Left => Command::TitlesPrevious,
        Key::Right => Command::TitlesNext,
        _ => Command::Ignore,
    }
}

/// The state after a command.
pub open spec fn apply(state: AppModel, command: Command) -> AppModel {
    match command {
        Command::Quit => state,
        Command::ItemsNext => AppModel { items: state.items.next(), titles: state.titles },
        Command::ItemsPrevious => AppModel { items: state.items.previous(), titles: state.titles },
        Command::ItemsUnselect => AppModel { items: state.items.unselect(), titles: state.titles },
        Command::ItemsReplace => AppModel {
            items: state.items.replace_items(alternate_items()),
            titles: state.titles,
        },
        Command::TitlesPrevious => AppModel {
            items: state.items,
            titles: state.titles.previous(),
        },
        Command::TitlesNext => AppModel { items: state.items, titles: state.titles.next() },
        Command::Ignore => state,
    }
}

/// Whether the loop goes on after a command.
pub open spec fn flow_after(command: Command) -> Flow {
    if command == Command::Quit {
        Flow::Terminating
    } else {
        Flow::Running
    }
}

/// The key table, key by key: `q` ends the loop and leaves the state as it
/// is; Down, `j` and Tab step forward in the list panel; Up and `k` step
/// back in it; `u` clears its cursor; `m` loads the alternate entries; Left
/// and Right step back and forward in the tab strip; every other key leaves
/// the state as it is and the loop running.
pub proof fn lemma_key_table(state: AppModel, key: Key)
    ensures
        key == Key::Char('q') ==> apply(state, command_for(key)) == state
            && flow_after(command_for(key)) == Flow::Terminating,
        key != Key::Char('q') ==> flow_after(command_for(key)) == Flow::Running,
        key == Key::Down || key == Key::Char('j') || key == Key::Tab
            ==> apply(state, command_for(key))
            == (AppModel { items: state.items.next(), titles: state.titles }),
        key == Key::Up || key == Key::Char('k') ==> apply(state, command_for(key)) == (AppModel {
            items: state.items.previous(),
            titles: state.titles,
        }),
        key == Key::Char('u') ==> apply(state, command_for(key)) == (AppModel {
            items: state.items.unselect(),
            titles: state.titles,
        }),
        key == Key::Char('m') ==> apply(state, command_for(key)) == (AppModel {
            items: state.items.replace_items(alternate_items()),
            titles: state.titles,
        }),
        key == Key::Left ==> apply(state, command_for(key)) == (AppModel {
            items: state.items,
            titles: state.titles.previous(),
        }),
        key == Key::Right ==> apply(state, command_for(key)) == (AppModel {
            items: state.items,
            titles: state.titles.next(),
        }),
        !is_mapped(key) ==> apply(state, command_for(key)) == state,
{
}

/// Whether the key table gives the key a meaning.
pub open spec fn is_mapped(key: Key) -> bool {
    ||| key == Key::Char('q')
    ||| key == Key::Down
    ||| key == Key::Char('j')
    ||| key == Key::Tab
    ||| key == Key::Up
    ||| key == Key::Char('k')
    ||| key == Key::Char('u')
    ||| key == Key::Char('m')
    ||| key == Key::Left
    ||| key == Key::Right
}

/// Every command keeps a well-formed state well formed.
pub proof fn lemma_apply_keeps_wf(state: AppModel, command: Command)
    requires
        state.wf(),
    ensures
        apply(state, command).wf(),
{
}

/// Looks a key up in the key table.
pub fn command(key: Key) -> (command: Command)
    ensures
        command == command_for(key),
{
    match key {
        Key::Char('q') => Command::Quit,
        Key::Down => Command::ItemsNext,
        Key::Up => Command::ItemsPrevious,
        Key::Char('j') => Command::ItemsNext,
        Key::Char('k') => Command::ItemsPrevious,
        Key::Tab => Command::ItemsNext,
        Key::Char('u') => Command::ItemsUnselect,
        Key::Char('m') => Command::ItemsReplace,
        Key::Left => Command::TitlesPrevious,
        Key::Right => Command::TitlesNext,
        _ => Command::Ignore,
    }
}

/// Carries a command out on the state.
pub fn execute(app: &mut App, command: Command) -> (flow: Flow)
    requires
        old(app).wf(),
    ensures
        final(app).wf(),
        final(app)@ == apply(old(app)@, command),
        flow == flow_after(command),
        command == Command::Ignore || command == Command::Quit ==> *final(app) == *old(app),
{
    match command {
        Command::Quit => {
            return Flow::Terminating;
        },
        Command::ItemsNext => app.items.next(),
        Command::ItemsPrevious => app.items.previous(),
        Command::ItemsUnselect => app.items.unselect(),
        Command::ItemsReplace => app.load_alternate_items(),
        Command::TitlesPrevious => app.titles.previous(),
        Command::TitlesNext => app.titles.next(),
        Command::Ignore => {},
    }
    Flow::Running
}

/// Handles one key press: the command that the key table gives for it is
/// carried out on the state. A key without a meaning changes nothing.
pub fn dispatch(app: &mut App, key: Key) -> (flow: Flow)
    requires
        old(app).wf(),
    ensures
        final(app).wf(),
        final(app)@ == apply(old(app)@, command_for(key)),
        flow == flow_after(command_for(key)),
        command_for(key) == Command::Ignore || command_for(key) == Command::Quit
            ==> *final(app) == *old(app),
{
    let c = command(key);
    execute(app, c)
}

} // verus!
