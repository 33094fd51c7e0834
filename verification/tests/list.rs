use dashboard::list::StatefulList;

fn letters(n: usize) -> StatefulList<char> {
    StatefulList::with_items("abcdefghij".chars().take(n).collect())
}

#[test]
fn with_items_has_no_cursor() {
    let list = StatefulList::with_items(vec![10, 20, 30]);
    assert_eq!(list.selected(), None);
    assert_eq!(list.len(), 3);
    assert_eq!(list.items(), &vec![10, 20, 30]);
}

#[test]
fn next_from_no_cursor_takes_the_first_item() {
    let mut list = letters(4);
    list.next();
    assert_eq!(list.selected(), Some(0));
}

#[test]
fn next_visits_every_index_once_then_wraps() {
    for n in 1..=10 {
        let mut list = letters(n);
        let mut seen = Vec::new();
        for _ in 0..n {
            list.next();
            seen.push(list.selected().unwrap());
        }
        assert_eq!(seen, (0..n).collect::<Vec<usize>>());
        list.next();
        assert_eq!(list.selected(), Some(0));
    }
}

#[test]
fn next_repeats_with_the_period_of_the_length() {
    let mut list = letters(3);
    let mut seen = Vec::new();
    for _ in 0..7 {
        list.next();
        seen.push(list.selected());
    }
    assert_eq!(
        seen,
        vec![Some(0), Some(1), Some(2), Some(0), Some(1), Some(2), Some(0)]
    );
}

#[test]
fn previous_from_no_cursor_takes_the_first_item() {
    let mut list = letters(4);
    list.previous();
    assert_eq!(list.selected(), Some(0));
}

#[test]
fn previous_wraps_from_the_first_to_the_last() {
    let mut list = letters(4);
    list.next();
    list.previous();
    assert_eq!(list.selected(), Some(3));
    list.previous();
    assert_eq!(list.selected(), Some(2));
}

#[test]
fn previous_undoes_next_from_every_cursor() {
    for n in 1..=6 {
        for start in 0..n {
            let mut list = letters(n);
            for _ in 0..=start {
                list.next();
            }
            assert_eq!(list.selected(), Some(start));
            list.next();
            list.previous();
            assert_eq!(list.selected(), Some(start));
            list.previous();
            list.next();
            assert_eq!(list.selected(), Some(start));
        }
    }
}

#[test]
fn next_then_previous_from_no_cursor_lands_on_the_last_item() {
    let mut list = letters(3);
    list.next();
    list.previous();
    assert_eq!(list.selected(), Some(2));
}

#[test]
fn unselect_then_next_takes_the_first_item() {
    for n in 1..=5 {
        for start in 0..n {
            let mut list = letters(n);
            for _ in 0..=start {
                list.next();
            }
            list.unselect();
            assert_eq!(list.selected(), None);
            list.next();
            assert_eq!(list.selected(), Some(0));
        }
    }
}

#[test]
fn unselect_without_a_cursor_changes_nothing() {
    let mut list = letters(2);
    list.unselect();
    assert_eq!(list.selected(), None);
    assert_eq!(list.items(), &vec!['a', 'b']);
}

#[test]
fn replace_items_clears_the_cursor() {
    let mut list = letters(5);
    for _ in 0..5 {
        list.next();
    }
    assert_eq!(list.selected(), Some(4));
    list.replace_items(vec!['x', 'y']);
    assert_eq!(list.selected(), None);
    assert_eq!(list.items(), &vec!['x', 'y']);
    list.next();
    assert_eq!(list.selected(), Some(0));
}

#[test]
fn replace_items_without_a_cursor_keeps_none() {
    let mut list = letters(0);
    list.replace_items(vec!['x']);
    assert_eq!(list.selected(), None);
    assert_eq!(list.len(), 1);
}

#[test]
fn single_item_list_stays_on_its_item() {
    let mut list = letters(1);
    list.next();
    assert_eq!(list.selected(), Some(0));
    list.next();
    assert_eq!(list.selected(), Some(0));
    list.previous();
    assert_eq!(list.selected(), Some(0));
}

#[test]
fn empty_list_is_left_alone() {
    let mut list = letters(0);
    list.next();
    assert_eq!(list.selected(), None);
    list.previous();
    assert_eq!(list.selected(), None);
    list.unselect();
    assert_eq!(list.selected(), None);
    assert_eq!(list.len(), 0);
}

#[test]
fn navigation_keeps_the_items() {
    let mut list = StatefulList::with_items(vec!["a", "b", "c"]);
    list.next();
    list.next();
    list.previous();
    list.unselect();
    list.previous();
    assert_eq!(list.items(), &vec!["a", "b", "c"]);
}

#[test]
fn previous_walks_from_the_last_item_to_the_first() {
    for n in 1..=8 {
        let mut list = letters(n);
        list.previous();
        assert_eq!(list.selected(), Some(0));
        for k in 2..=n + 1 {
            list.previous();
            assert_eq!(list.selected(), Some(n + 1 - k));
        }
        assert_eq!(list.selected(), Some(0));
    }
}
