use word_board::{
    build_words, on_connect, on_disconnect, on_move, split_lines, DocumentStore, MoveError,
    MoveRequest, PresenceCounter, PresenceEvent, CANVAS_SIZE,
};

fn labels(store: &DocumentStore) -> Vec<String> {
    store.snapshot().into_iter().map(|t| t.label).collect()
}

#[test]
fn lines_split_like_str_lines() {
    let text = "foo\nbar\n\r\nbaz\r";
    let expected: Vec<String> = text.lines().map(String::from).collect();
    assert_eq!(split_lines(text), expected);
    assert_eq!(split_lines(text), vec!["foo", "bar", "", "baz\r"]);
}

#[test]
fn lines_edge_cases() {
    assert!(split_lines("").is_empty());
    assert_eq!(split_lines("\n"), vec![""]);
    assert_eq!(split_lines("a\r\nb\r\n"), vec!["a", "b"]);
    assert_eq!(split_lines("one"), vec!["one"]);
    assert_eq!(split_lines("é\nñ"), vec!["é", "ñ"]);
}

#[test]
fn build_words_gives_dense_ids_and_canvas_coordinates() {
    let words = build_words("alpha\nbeta\ngamma\n");
    assert_eq!(words.len(), 3);
    for (i, w) in words.iter().enumerate() {
        assert_eq!(w.id, i);
        assert!(w.x < CANVAS_SIZE);
        assert!(w.y < CANVAS_SIZE);
    }
    assert_eq!(words[0].label, "alpha");
    assert_eq!(words[2].label, "gamma");
}

#[test]
fn coordinates_stay_below_the_canvas_bound_over_many_draws() {
    let text = vec!["w"; 500].join("\n");
    let words = build_words(&text);
    assert_eq!(words.len(), 500);
    assert!(words.iter().all(|w| w.x < 1000 && w.y < 1000));
}

#[test]
fn load_red_green_then_move_token_one() {
    let mut store = DocumentStore::new();
    store.load("red\ngreen");
    let before = store.snapshot();
    assert_eq!(before.len(), 2);
    assert_eq!((before[0].id, before[0].label.as_str()), (0, "red"));
    assert_eq!((before[1].id, before[1].label.as_str()), (1, "green"));

    let request = MoveRequest { id: 1, version: 1, x: 42, y: 7 };
    let relayed = on_move(&mut store, Some(request));
    assert_eq!(relayed, Some(MoveRequest { id: 1, version: 1, x: 42, y: 7 }));

    let after = store.snapshot();
    assert_eq!((after[1].x, after[1].y), (42, 7));
    assert_eq!(after[1].label, "green");
    assert_eq!((after[0].x, after[0].y), (before[0].x, before[0].y));
    assert_eq!(after[0].label, "red");
}

#[test]
fn move_of_unknown_token_is_dropped() {
    let mut store = DocumentStore::new();
    store.load("red\ngreen");
    let before = store.snapshot();

    let relayed = on_move(&mut store, Some(MoveRequest { id: 99, version: 3, x: 1, y: 2 }));
    assert_eq!(relayed, None);

    let after = store.snapshot();
    for (a, b) in after.iter().zip(before.iter()) {
        assert_eq!((a.id, &a.label, a.x, a.y), (b.id, &b.label, b.x, b.y));
    }
    assert_eq!(after.len(), before.len());
}

#[test]
fn malformed_move_is_dropped() {
    let mut store = DocumentStore::new();
    store.load("red");
    let before = store.snapshot();
    assert_eq!(on_move(&mut store, None), None);
    assert_eq!((store.snapshot()[0].x, store.snapshot()[0].y), (before[0].x, before[0].y));
}

#[test]
fn apply_move_reports_not_found() {
    let mut store = DocumentStore::new();
    assert_eq!(store.apply_move(0, 1, 1).err(), Some(MoveError::NotFound));
    store.load("a\nb");
    assert_eq!(store.apply_move(2, 1, 1).err(), Some(MoveError::NotFound));
    let moved = store.apply_move(0, 5000, 6000).unwrap();
    assert_eq!((moved.id, moved.label.as_str(), moved.x, moved.y), (0, "a", 5000, 6000));
}

#[test]
fn moves_on_two_tokens_both_apply_in_either_order() {
    let mut first = DocumentStore::new();
    first.load("a\nb\nc");
    let mut second = DocumentStore::new();
    second.replace(first.snapshot());

    first.apply_move(0, 10, 11).unwrap();
    first.apply_move(2, 20, 21).unwrap();
    second.apply_move(2, 20, 21).unwrap();
    second.apply_move(0, 10, 11).unwrap();

    let a = first.snapshot();
    let b = second.snapshot();
    assert_eq!((a[0].x, a[0].y, a[2].x, a[2].y), (10, 11, 20, 21));
    for (x, y) in a.iter().zip(b.iter()) {
        assert_eq!((x.id, &x.label, x.x, x.y), (y.id, &y.label, y.x, y.y));
    }
}

#[test]
fn loading_replaces_the_whole_document() {
    let mut store = DocumentStore::new();
    store.load("old one\nold two\nold three");
    store.load("new");
    assert_eq!(labels(&store), vec!["new"]);
    assert_eq!(store.len(), 1);
    store.load("");
    assert_eq!(store.len(), 0);
}

#[test]
fn connect_and_disconnect_track_presence() {
    let mut store = DocumentStore::new();
    store.load("red\ngreen");
    let mut presence = PresenceCounter::new();

    let greeting = on_connect(&store, &mut presence);
    assert_eq!(greeting.poets, 1);
    assert_eq!(greeting.words.len(), 2);
    assert_eq!(greeting.words[1].label, "green");

    assert_eq!(on_connect(&store, &mut presence).poets, 2);
    assert_eq!(on_disconnect(&mut presence), 1);
    assert_eq!(on_disconnect(&mut presence), 0);
    assert_eq!(on_disconnect(&mut presence), 0);
    assert_eq!(presence.count(), 0);
}

#[test]
fn presence_after_paired_stream_is_connects_minus_disconnects() {
    let (c, d) = (PresenceEvent::Connect, PresenceEvent::Disconnect);
    let events = [c, c, d, c, d, c, c];
    let mut presence = PresenceCounter::new();
    let mut open: i64 = 0;
    for e in events {
        open += if e == PresenceEvent::Connect { 1 } else { -1 };
        let n = presence.record(e);
        assert!(open >= 0);
        assert_eq!(n as i64, open);
    }
    assert_eq!(presence.count(), 3);
}
