use vocal_analyzer::history::FrequencyHistory;

#[test]
fn a_new_history_is_full() {
    let history = FrequencyHistory::new(201, None::<f32>);
    assert_eq!(history.len(), 201);
    assert!(history.values().iter().all(|v| v.is_none()));
}

#[test]
fn push_drops_the_oldest_entry() {
    let mut history = FrequencyHistory::new(3, 0u32);
    history.push(1);
    assert_eq!(history.values(), vec![0, 0, 1]);
    history.push(2);
    assert_eq!(history.values(), vec![0, 1, 2]);
    history.push(3);
    assert_eq!(history.values(), vec![1, 2, 3]);
    history.push(4);
    assert_eq!(history.values(), vec![2, 3, 4]);
    assert_eq!(history.len(), 3);
}

#[test]
fn more_pushes_than_capacity_leave_only_the_newest() {
    let capacity = 201;
    let mut history = FrequencyHistory::new(capacity, Some(-1.0f32));
    let pushes = 500;
    for n in 0..pushes {
        history.push(Some(n as f32));
        assert_eq!(history.len(), capacity);
    }
    let values = history.values();
    assert_eq!(values.len(), capacity);
    for (i, v) in values.iter().enumerate() {
        assert_eq!(*v, Some((pushes - capacity + i) as f32));
    }
}

#[test]
fn old_entries_leave_oldest_first() {
    let mut history = FrequencyHistory::new(4, 'x');
    history.push('a');
    history.push('b');
    let mut old = FrequencyHistory::new(4, 'x');
    old.push('a');
    assert_eq!(old.values(), vec!['x', 'x', 'x', 'a']);
    assert_eq!(history.values(), vec!['x', 'x', 'a', 'b']);
    history.push('c');
    history.push('d');
    assert_eq!(history.values(), vec!['a', 'b', 'c', 'd']);
    history.push('e');
    assert_eq!(history.values(), vec!['b', 'c', 'd', 'e']);
}

#[test]
fn a_history_without_capacity_keeps_nothing() {
    let mut history = FrequencyHistory::new(0, 0u8);
    history.push(1);
    assert_eq!(history.len(), 0);
    assert_eq!(history.values(), Vec::<u8>::new());
}

#[test]
fn unvoiced_cycles_are_recorded_as_none() {
    let mut history = FrequencyHistory::new(2, None);
    history.push(Some(220.0f32));
    history.push(None);
    assert_eq!(history.values(), vec![Some(220.0), None]);
}
