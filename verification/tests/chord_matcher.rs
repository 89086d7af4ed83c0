use std::fmt::Debug;
use std::hash::Hash;
use std::time::Instant;

use keytap::chord::{Chord, ChordEvent, MatcherState};
use keytap::{Event, EventKind, Key};

fn down(k: Key) -> Event {
    Event {
        time: Instant::now(),
        kind: EventKind::KeyDown(k),
    }
}

fn up(k: Key) -> Event {
    Event {
        time: Instant::now(),
        kind: EventKind::KeyUp(k),
    }
}

fn repeat(k: Key) -> Event {
    Event {
        time: Instant::now(),
        kind: EventKind::KeyRepeat(k),
    }
}

fn run<Id: Clone + Debug + Eq + Hash>(
    registered: Vec<(Id, Chord)>,
    events: Vec<Event>,
) -> Vec<ChordEvent<Id>> {
    let mut state = MatcherState::new(registered);
    let mut out = Vec::new();
    for e in events {
        out.extend(state.process(e));
    }
    out
}

fn ids<Id: Clone + Debug>(evs: &[ChordEvent<Id>]) -> Vec<String> {
    evs.iter()
        .map(|e| match e {
            ChordEvent::Start { id, .. } => format!("start({id:?})"),
            ChordEvent::End { id, .. } => format!("end({id:?})"),
        })
        .collect()
}

#[test]
fn single_key_chord_emits_start_and_end() {
    let out = run(
        vec![("esc", Chord::of([Key::Escape]))],
        vec![down(Key::Escape), up(Key::Escape)],
    );
    assert_eq!(ids(&out), vec!["start(\"esc\")", "end(\"esc\")"]);
}

#[test]
fn two_key_chord_activates_on_second_key() {
    let out = run(
        vec![("ptt", Chord::of([Key::MetaRight, Key::AltRight]))],
        vec![
            down(Key::MetaRight), // not active yet
            down(Key::AltRight),  // now active
            up(Key::AltRight),    // end
            up(Key::MetaRight),
        ],
    );
    assert_eq!(ids(&out), vec!["start(\"ptt\")", "end(\"ptt\")"]);
}

#[test]
fn end_fires_when_any_chord_key_released() {
    let out = run(
        vec![("ptt", Chord::of([Key::MetaRight, Key::AltRight]))],
        vec![
            down(Key::MetaRight),
            down(Key::AltRight),
            up(Key::MetaRight), // releasing either ends
            up(Key::AltRight),
        ],
    );
    assert_eq!(ids(&out), vec!["start(\"ptt\")", "end(\"ptt\")"]);
}

#[test]
fn chord_left_right_modifiers_are_distinct() {
    // MetaRight+AltRight is the chord; MetaLeft+AltLeft must NOT match.
    let out = run::<&str>(
        vec![("ptt", Chord::of([Key::MetaRight, Key::AltRight]))],
        vec![
            down(Key::MetaLeft),
            down(Key::AltLeft),
            up(Key::AltLeft),
            up(Key::MetaLeft),
        ],
    );
    assert!(out.is_empty(), "unexpected: {out:?}");
}

#[test]
fn longest_match_wins() {
    // If "a" and "a+b" both match, "a+b" wins.
    let out = run(
        vec![
            ("short", Chord::of([Key::A])),
            ("long", Chord::of([Key::A, Key::B])),
        ],
        vec![
            down(Key::A), // "short" active
            down(Key::B), // transition to "long"
            up(Key::B),   // back to "short"
            up(Key::A),
        ],
    );
    assert_eq!(
        ids(&out),
        vec![
            "start(\"short\")",
            "end(\"short\")",
            "start(\"long\")",
            "end(\"long\")",
            "start(\"short\")",
            "end(\"short\")",
        ]
    );
}

#[test]
fn transitioning_between_chords_emits_end_then_start() {
    let out = run(
        vec![("a", Chord::of([Key::A])), ("b", Chord::of([Key::B]))],
        vec![
            down(Key::A),
            down(Key::B), // both match with one key; "a" was registered first and stays.
        ],
    );
    assert_eq!(ids(&out), vec!["start(\"a\")"]);
}

#[test]
fn key_repeat_does_not_affect_state() {
    let out = run(
        vec![("esc", Chord::of([Key::Escape]))],
        vec![
            down(Key::Escape),
            repeat(Key::Escape),
            repeat(Key::Escape),
            repeat(Key::Escape),
            up(Key::Escape),
        ],
    );
    // Exactly one start, one end: repeats must not emit spurious events.
    assert_eq!(ids(&out), vec!["start(\"esc\")", "end(\"esc\")"]);
}

#[test]
fn non_chord_keys_do_not_trigger() {
    let out = run::<&str>(
        vec![("ptt", Chord::of([Key::MetaRight]))],
        vec![down(Key::A), up(Key::A), down(Key::B), up(Key::B)],
    );
    assert!(out.is_empty());
}

#[test]
fn every_start_has_matching_end() {
    // After any finite event sequence ending with all keys released,
    // starts count == ends count.
    let events = vec![
        down(Key::A),
        down(Key::B),
        up(Key::A),
        down(Key::A),
        up(Key::B),
        up(Key::A),
    ];
    let out = run(
        vec![
            ("a", Chord::of([Key::A])),
            ("b", Chord::of([Key::B])),
            ("ab", Chord::of([Key::A, Key::B])),
        ],
        events,
    );
    let starts = out
        .iter()
        .filter(|e| matches!(e, ChordEvent::Start { .. }))
        .count();
    let ends = out
        .iter()
        .filter(|e| matches!(e, ChordEvent::End { .. }))
        .count();
    assert_eq!(starts, ends);
}

#[test]
fn empty_chord_never_matches() {
    let out = run::<&str>(
        vec![("empty", Chord::of([]))],
        vec![down(Key::A), up(Key::A)],
    );
    assert!(out.is_empty());
}

// ---------------------------------------------------------------------
// Further cases.
// ---------------------------------------------------------------------

#[test]
fn direct_switch_emits_end_before_start() {
    // Release of A while B is held moves from "a" to "b" in one event.
    let out = run(
        vec![("a", Chord::of([Key::A])), ("b", Chord::of([Key::B]))],
        vec![down(Key::A), down(Key::B), up(Key::A), up(Key::B)],
    );
    assert_eq!(
        ids(&out),
        vec!["start(\"a\")", "end(\"a\")", "start(\"b\")", "end(\"b\")"]
    );
}

#[test]
fn events_carry_the_raw_event_time() {
    let mut state = MatcherState::new(vec![("esc", Chord::of([Key::Escape]))]);
    let press = down(Key::Escape);
    let out = state.process(press);
    assert_eq!(out, vec![ChordEvent::Start { id: "esc", time: press.time }]);
    let release = up(Key::Escape);
    let out = state.process(release);
    assert_eq!(out, vec![ChordEvent::End { id: "esc", time: release.time }]);
}

#[test]
fn starts_and_ends_alternate() {
    let out = run(
        vec![
            ("a", Chord::of([Key::A])),
            ("b", Chord::of([Key::B])),
            ("ab", Chord::of([Key::A, Key::B])),
        ],
        vec![
            down(Key::A),
            down(Key::B),
            up(Key::A),
            down(Key::A),
            up(Key::B),
            up(Key::A),
        ],
    );
    for (i, e) in out.iter().enumerate() {
        assert_eq!(matches!(e, ChordEvent::Start { .. }), i % 2 == 0, "{out:?}");
    }
    for pair in out.chunks(2) {
        if let [ChordEvent::Start { id: s, .. }, ChordEvent::End { id: e, .. }] = pair {
            assert_eq!(s, e);
        } else {
            panic!("unpaired: {pair:?}");
        }
    }
}

#[test]
fn same_id_registrations_do_not_retrigger() {
    // Two registrations share the id "x"; moving from one to the other is
    // no change of identity.
    let out = run(
        vec![("x", Chord::of([Key::A])), ("x", Chord::of([Key::A, Key::B]))],
        vec![down(Key::A), down(Key::B), up(Key::B), up(Key::A)],
    );
    assert_eq!(ids(&out), vec!["start(\"x\")", "end(\"x\")"]);
}

#[test]
fn releasing_unheld_key_is_harmless() {
    let out = run(
        vec![("a", Chord::of([Key::A]))],
        vec![up(Key::B), down(Key::A), up(Key::C), up(Key::A)],
    );
    assert_eq!(ids(&out), vec!["start(\"a\")", "end(\"a\")"]);
}

#[test]
fn longest_match_prefers_more_keys_then_earlier_registration() {
    let mut state = MatcherState::new(vec![
        ("one", Chord::of([Key::A])),
        ("two", Chord::of([Key::A, Key::B])),
        ("other_two", Chord::of([Key::B, Key::A])),
    ]);
    assert_eq!(state.longest_match(), None);
    state.process(down(Key::A));
    assert_eq!(state.longest_match(), Some(0));
    state.process(down(Key::B));
    assert_eq!(state.longest_match(), Some(1));
}

#[test]
fn chord_is_a_set_of_keys() {
    let c = Chord::of([Key::A, Key::B, Key::A]);
    assert_eq!(c.len(), 2);
    assert!(!c.is_empty());
    assert_eq!(c.keys().len(), 2);
    assert!(c.keys().contains(&Key::A) && c.keys().contains(&Key::B));
    assert_eq!(c, Chord::of([Key::B, Key::A]));
    assert_ne!(c, Chord::of([Key::A]));
    assert_ne!(c, Chord::of([Key::A, Key::C]));
    assert_eq!(c.clone(), c);
    let from_list = Chord::from_keys(&vec![Key::B, Key::A, Key::B]);
    assert_eq!(from_list, c);
    assert_eq!(from_list.len(), 2);
    let empty = Chord::of([]);
    assert!(empty.is_empty());
    assert_eq!(empty.len(), 0);
}

#[test]
fn chord_matches_needs_every_key() {
    let c = Chord::of([Key::ControlLeft, Key::C]);
    assert!(c.matches(&[Key::C, Key::X, Key::ControlLeft]));
    assert!(!c.matches(&[Key::C]));
    assert!(!Chord::of([]).matches(&[Key::C]));
}

#[test]
fn string_ids_work() {
    let out = run(
        vec![(String::from("ptt"), Chord::from_keys(&[Key::MetaRight, Key::AltRight]))],
        vec![down(Key::MetaRight), down(Key::AltRight), up(Key::MetaRight)],
    );
    assert_eq!(ids(&out), vec!["start(\"ptt\")", "end(\"ptt\")"]);
}
