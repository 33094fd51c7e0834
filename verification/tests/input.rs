use dashboard::app::App;
use dashboard::input::{command, dispatch, execute, Command, Flow, Key};

fn labels(app: &App) -> Vec<&'static str> {
    let mut out = Vec::new();
    for entry in app.items.items() {
        let label: &'static str = match entry.0 {
            "Item0" => "Item0",
            "Item1" => "Item1",
            "Item2" => "Item2",
            "test" => "test",
            "Testing" => "Testing",
            _ => "?",
        };
        out.push(label);
    }
    out
}

#[test]
fn new_app_holds_the_seed_entries() {
    let app = App::new();
    assert_eq!(
        app.items.items(),
        &vec![("Item0", 1), ("Item1", 2), ("Item2", 3)]
    );
    assert_eq!(
        app.titles.items(),
        &vec![("Test0", 1), ("Test1", 2), ("Test2", 3), ("Test3", 4)]
    );
    assert_eq!(app.items.selected(), None);
    assert_eq!(app.titles.selected(), None);
}

#[test]
fn on_tick_changes_nothing() {
    let mut app = App::new();
    app.items.next();
    app.titles.previous();
    app.on_tick();
    assert_eq!(app.items.selected(), Some(0));
    assert_eq!(app.titles.selected(), Some(0));
    assert_eq!(app.items.len(), 3);
    assert_eq!(app.titles.len(), 4);
}

#[test]
fn key_table_maps_the_nine_keys() {
    assert_eq!(command(Key::Char('q')), Command::Quit);
    assert_eq!(command(Key::Down), Command::ItemsNext);
    assert_eq!(command(Key::Char('j')), Command::ItemsNext);
    assert_eq!(command(Key::Tab), Command::ItemsNext);
    assert_eq!(command(Key::Up), Command::ItemsPrevious);
    assert_eq!(command(Key::Char('k')), Command::ItemsPrevious);
    assert_eq!(command(Key::Char('u')), Command::ItemsUnselect);
    assert_eq!(command(Key::Char('m')), Command::ItemsReplace);
    assert_eq!(command(Key::Left), Command::TitlesPrevious);
    assert_eq!(command(Key::Right), Command::TitlesNext);
}

#[test]
fn key_table_ignores_other_keys() {
    let others = [
        Key::Backspace,
        Key::Enter,
        Key::Home,
        Key::End,
        Key::PageUp,
        Key::PageDown,
        Key::BackTab,
        Key::Delete,
        Key::Insert,
        Key::F(1),
        Key::Char('Q'),
        Key::Char('J'),
        Key::Char('x'),
        Key::Char(' '),
        Key::Null,
        Key::Esc,
        Key::Other,
    ];
    for key in others {
        assert_eq!(command(key), Command::Ignore);
    }
}

#[test]
fn ignored_key_changes_nothing() {
    let mut app = App::new();
    app.items.next();
    app.items.next();
    app.titles.next();
    for key in [Key::Enter, Key::Char('x'), Key::F(5), Key::Esc, Key::Other] {
        assert_eq!(dispatch(&mut app, key), Flow::Running);
        assert_eq!(app.items.selected(), Some(1));
        assert_eq!(app.titles.selected(), Some(0));
        assert_eq!(labels(&app), vec!["Item0", "Item1", "Item2"]);
    }
}

#[test]
fn quit_key_ends_the_loop_and_changes_nothing() {
    let mut app = App::new();
    app.items.next();
    assert_eq!(dispatch(&mut app, Key::Char('q')), Flow::Terminating);
    assert_eq!(app.items.selected(), Some(0));
    assert_eq!(app.titles.selected(), None);
    assert_eq!(app.items.len(), 3);
}

#[test]
fn list_keys_move_the_list_cursor_only() {
    let mut app = App::new();
    for key in [Key::Down, Key::Char('j'), Key::Tab] {
        let mut fresh = App::new();
        assert_eq!(dispatch(&mut fresh, key), Flow::Running);
        assert_eq!(fresh.items.selected(), Some(0));
        assert_eq!(fresh.titles.selected(), None);
    }
    dispatch(&mut app, Key::Down);
    dispatch(&mut app, Key::Char('j'));
    assert_eq!(app.items.selected(), Some(1));
    dispatch(&mut app, Key::Up);
    assert_eq!(app.items.selected(), Some(0));
    dispatch(&mut app, Key::Char('k'));
    assert_eq!(app.items.selected(), Some(2));
    assert_eq!(app.titles.selected(), None);
}

#[test]
fn tab_keys_move_the_tab_cursor_only() {
    let mut app = App::new();
    assert_eq!(dispatch(&mut app, Key::Right), Flow::Running);
    assert_eq!(app.titles.selected(), Some(0));
    dispatch(&mut app, Key::Right);
    assert_eq!(app.titles.selected(), Some(1));
    dispatch(&mut app, Key::Left);
    dispatch(&mut app, Key::Left);
    assert_eq!(app.titles.selected(), Some(3));
    dispatch(&mut app, Key::Right);
    assert_eq!(app.titles.selected(), Some(0));
    assert_eq!(app.items.selected(), None);
}

#[test]
fn execute_carries_each_command_out() {
    let mut app = App::new();
    assert_eq!(execute(&mut app, Command::ItemsNext), Flow::Running);
    assert_eq!(execute(&mut app, Command::ItemsNext), Flow::Running);
    assert_eq!(app.items.selected(), Some(1));
    assert_eq!(execute(&mut app, Command::ItemsPrevious), Flow::Running);
    assert_eq!(app.items.selected(), Some(0));
    assert_eq!(execute(&mut app, Command::TitlesNext), Flow::Running);
    assert_eq!(app.titles.selected(), Some(0));
    assert_eq!(execute(&mut app, Command::TitlesPrevious), Flow::Running);
    assert_eq!(app.titles.selected(), Some(3));
    assert_eq!(execute(&mut app, Command::ItemsUnselect), Flow::Running);
    assert_eq!(app.items.selected(), None);
    assert_eq!(execute(&mut app, Command::Ignore), Flow::Running);
    assert_eq!(execute(&mut app, Command::ItemsReplace), Flow::Running);
    assert_eq!(app.items.items(), &vec![("test", 1), ("Testing", 2)]);
    assert_eq!(execute(&mut app, Command::Quit), Flow::Terminating);
    assert_eq!(app.titles.selected(), Some(3));
}

#[test]
fn replace_key_loads_the_alternate_entries() {
    let mut app = App::new();
    dispatch(&mut app, Key::Down);
    dispatch(&mut app, Key::Down);
    dispatch(&mut app, Key::Right);
    assert_eq!(dispatch(&mut app, Key::Char('m')), Flow::Running);
    assert_eq!(labels(&app), vec!["test", "Testing"]);
    assert_eq!(app.items.items(), &vec![("test", 1), ("Testing", 2)]);
    assert_eq!(app.items.selected(), None);
    assert_eq!(app.titles.selected(), Some(0));
    assert_eq!(app.titles.len(), 4);
}

#[test]
fn load_alternate_items_twice_gives_the_same_entries() {
    let mut app = App::new();
    app.load_alternate_items();
    app.items.next();
    app.load_alternate_items();
    assert_eq!(app.items.items(), &vec![("test", 1), ("Testing", 2)]);
    assert_eq!(app.items.selected(), None);
}
