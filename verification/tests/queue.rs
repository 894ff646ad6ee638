use std::collections::HashSet;

use foksal::audio::queue::{Queue, QueueError, QueueMode};

fn init_queue(n: usize) -> Queue {
    let mut q = Queue::new();
    for i in 0..n {
        q.push(format!("{}", i));
    }
    q
}

#[test]
fn test_sequential_next() {
    let mut q = init_queue(3);
    q.move_to_next();
    assert_eq!(q.pos(), Some(0));
    q.move_to_next();
    assert_eq!(q.pos(), Some(1));
    q.move_to_next();
    assert_eq!(q.pos(), Some(2));
    q.move_to_next();
    assert_eq!(q.pos(), None);
}

#[test]
fn test_random_next_plays_all() {
    let n = 10;
    let mut q = init_queue(n);
    q.set_mode_random();
    let mut vis = HashSet::new();
    for _ in 0..n {
        q.move_to_next();
        let pos = q.pos().expect("should still have unplayed songs");
        assert!(vis.insert(pos), "position {} visited twice in random mode", pos);
    }
    assert_eq!(vis.len(), n);
    q.move_to_next();
    assert_eq!(q.pos(), None);
}

#[test]
fn test_remove() {
    let mut q = init_queue(5);
    q.move_to_next();
    q.move_to_next();
    q.remove(0).unwrap();
    assert_eq!(q.pos(), Some(0));
    q.remove(3).unwrap();
    assert_eq!(q.pos(), Some(0));
    assert_eq!(q.list().len(), 3);
}

#[test]
fn remove_out_of_bounds_is_refused() {
    let mut q = init_queue(2);
    let err = q.remove(2).unwrap_err();
    assert_eq!(err, QueueError::OutOfBounds { index: 2, len: 2 });
    assert_eq!(err.message(), "index 2 out of bounds (length: 2)");
    assert_eq!(q.list().len(), 2);
}

#[test]
fn insert_places_song_and_refuses_past_the_end() {
    let mut q = init_queue(2);
    q.insert("x".to_string(), 1).unwrap();
    assert_eq!(q.list(), &["0".to_string(), "x".to_string(), "1".to_string()]);
    assert!(q.insert("y".to_string(), 5).is_err());
    assert_eq!(q.get(1).unwrap(), "x");
    assert!(q.get(3).is_err());
}

#[test]
fn move_to_prev_goes_back_then_stops() {
    let mut q = init_queue(3);
    q.move_to(2).unwrap();
    q.move_to_prev();
    assert_eq!(q.pos(), Some(1));
    q.move_to_prev();
    assert_eq!(q.pos(), Some(0));
    q.move_to_prev();
    assert_eq!(q.pos(), None);
    q.move_to_prev();
    assert_eq!(q.pos(), Some(2));
}

#[test]
fn move_to_checks_bounds() {
    let mut q = init_queue(3);
    assert!(q.move_to(3).is_err());
    assert_eq!(q.pos(), None);
    q.move_to(1).unwrap();
    assert_eq!(q.cur(), Some("1"));
}

#[test]
fn modes_switch() {
    let mut q = init_queue(2);
    assert_eq!(q.mode(), QueueMode::Sequential);
    q.set_mode_random();
    assert_eq!(q.mode(), QueueMode::Random);
    q.set_mode_seq();
    assert_eq!(q.mode(), QueueMode::Sequential);
}

#[test]
fn removing_the_current_song_moves_back() {
    let mut q = init_queue(3);
    q.move_to(1).unwrap();
    q.remove(1).unwrap();
    assert_eq!(q.list_cloned(), vec!["0".to_string(), "2".to_string()]);
    assert_eq!(q.pos(), Some(0));
}

#[test]
fn random_mode_keeps_the_current_song_in_the_pool() {
    let mut q = init_queue(2);
    q.move_to(0).unwrap();
    q.set_mode_random();
    let mut seen = Vec::new();
    for _ in 0..2 {
        q.move_to_next();
        seen.push(q.pos().expect("the pool still holds a song"));
    }
    seen.sort();
    assert_eq!(seen, vec![0, 1]);
    q.move_to_next();
    assert_eq!(q.pos(), None);
}

#[test]
fn random_mode_from_the_middle_plays_the_rest() {
    let mut q = init_queue(5);
    q.move_to(2).unwrap();
    q.set_mode_random();
    let mut seen = Vec::new();
    for _ in 0..3 {
        q.move_to_next();
        seen.push(q.pos().unwrap());
    }
    seen.sort();
    assert_eq!(seen, vec![2, 3, 4]);
    q.move_to_next();
    assert_eq!(q.pos(), None);
}

#[test]
fn loop_mode_repeats_the_current_song() {
    let mut q = init_queue(3);
    q.set_mode_loop();
    assert_eq!(q.mode(), QueueMode::Loop);
    q.move_to_next();
    assert_eq!(q.pos(), Some(0));
    q.move_to_next();
    assert_eq!(q.pos(), Some(0));
    q.move_to(2).unwrap();
    q.move_to_next();
    assert_eq!(q.pos(), Some(2));
}

#[test]
fn single_mode_ends_after_the_current_song() {
    let mut q = init_queue(3);
    q.set_mode_single();
    assert_eq!(q.mode(), QueueMode::Single);
    q.move_to(1).unwrap();
    q.move_to_next();
    assert_eq!(q.pos(), None);
    q.move_to_next();
    assert_eq!(q.pos(), Some(0));
}

#[test]
fn clear_empties_the_queue_and_keeps_the_mode() {
    let mut q = init_queue(3);
    q.set_mode_random();
    q.move_to(1).unwrap();
    q.clear();
    assert!(q.list().is_empty());
    assert_eq!(q.pos(), None);
    assert_eq!(q.mode(), QueueMode::Random);
    q.move_to_next();
    assert_eq!(q.pos(), None);
}

#[test]
fn moving_a_song_keeps_the_current_song() {
    let mut q = init_queue(4);
    q.move_to(1).unwrap();
    q.move_pos(0, 3).unwrap();
    assert_eq!(q.list_cloned(), vec!["1", "2", "3", "0"]);
    assert_eq!(q.cur(), Some("1"));
    assert_eq!(q.pos(), Some(0));
    q.move_pos(0, 2).unwrap();
    assert_eq!(q.list_cloned(), vec!["2", "3", "1", "0"]);
    assert_eq!(q.pos(), Some(2));
    q.move_pos(3, 0).unwrap();
    assert_eq!(q.list_cloned(), vec!["0", "2", "3", "1"]);
    assert_eq!(q.pos(), Some(3));
    assert_eq!(q.move_pos(4, 0), Err(QueueError::OutOfBounds { index: 4, len: 4 }));
    assert_eq!(q.move_pos(0, 9), Err(QueueError::OutOfBounds { index: 9, len: 4 }));
}

#[test]
fn push_and_move_to_makes_the_first_new_song_current() {
    let mut q = init_queue(2);
    q.push_and_move_to(&vec!["a".to_string(), "b".to_string()]);
    assert_eq!(q.list_cloned(), vec!["0", "1", "a", "b"]);
    assert_eq!(q.pos(), Some(2));
    q.push_and_move_to(&vec![]);
    assert_eq!(q.pos(), Some(2));
}
