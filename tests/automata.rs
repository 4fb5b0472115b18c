use hime_output::lexer::{
    select_terminal, serialize_lexer, CharSpan, LexerAutomaton, LexerError, LexerMatch, LexerState, LexerTransition,
};
use hime_output::reader::deserialize_lexer;
use hime_output::parser::{
    actions_for, build_row, distinct_actions, resolve, row_ambiguities, ConflictKind, LrAction, LrCell, LrEntry,
};

fn span(begin: u32, end: u32) -> CharSpan {
    CharSpan { begin, end }
}

/// The automaton that accepts exactly `a` (terminal 3 in context 0).
fn single_a() -> LexerAutomaton {
    LexerAutomaton {
        contexts: vec![0],
        states: vec![
            LexerState { matches: vec![], transitions: vec![LexerTransition { spans: vec![span(0x61, 0x61)], target: 1 }] },
            LexerState { matches: vec![LexerMatch { context: 0, terminal: 3 }], transitions: vec![] },
        ],
    }
}

#[test]
fn serialize_trivial_lexer() {
    let bytes = serialize_lexer(&single_a()).unwrap();
    assert_eq!(
        bytes,
        vec![
            1, 0, 0, 0, // contexts
            0, 0, 0, 0, // context 0
            2, 0, 0, 0, // states
            0, 0, // state 0: no match
            1, 0, // one transition
            1, 0, 0x61, 0, 0, 0, 0x61, 0, 0, 0, 1, 0, 0, 0, // [a] -> 1
            1, 0, 0, 0, 3, 0, // state 1: terminal 3 in context 0
            0, 0, // no transition
        ]
    );
}

#[test]
fn serialization_is_deterministic() {
    assert_eq!(serialize_lexer(&single_a()), serialize_lexer(&single_a()));
}

#[test]
fn overlapping_edges_are_refused() {
    let mut a = single_a();
    a.states[0].transitions.push(LexerTransition { spans: vec![span(0x30, 0x39), span(0x60, 0x62)], target: 0 });
    assert!(!a.states[0].has_disjoint_edges());
    assert_eq!(Err(LexerError::Internal { state: 0 }), serialize_lexer(&a));
    a.states[0].transitions[1].spans[1] = span(0x62, 0x7A);
    assert!(a.states[0].has_disjoint_edges());
    assert!(serialize_lexer(&a).is_ok());
}

#[test]
fn missing_target_is_refused() {
    let mut a = single_a();
    a.states[1].transitions.push(LexerTransition { spans: vec![span(0x20, 0x20)], target: 2 });
    assert_eq!(Err(LexerError::Internal { state: 1 }), serialize_lexer(&a));
}

#[test]
fn too_many_matches_are_refused() {
    let mut a = single_a();
    a.states[1].matches = vec![LexerMatch { context: 0, terminal: 3 }; 0x1_0000];
    assert_eq!(Err(LexerError::TooLarge), serialize_lexer(&a));
}

#[test]
fn terminal_chosen_by_context() {
    // `ID` (4) in the default context, `KEYWORD` (5) in context 1, by priority
    let matches = vec![LexerMatch { context: 1, terminal: 5 }, LexerMatch { context: 0, terminal: 4 }];
    assert_eq!(Some(5), select_terminal(&matches, &vec![0, 1]));
    assert_eq!(Some(4), select_terminal(&matches, &vec![0]));
    assert_eq!(None, select_terminal(&matches, &vec![2]));
    assert_eq!(None, select_terminal(&vec![], &vec![0]));
}

fn dangling_else_cells() -> Vec<LrCell> {
    vec![
        LrCell { terminal: 3, candidates: vec![LrAction::Reduce { production: 1 }] },
        LrCell { terminal: 4, candidates: vec![LrAction::Reduce { production: 2 }, LrAction::Shift { target: 9 }] },
    ]
}

#[test]
fn dangling_else_conflict_is_reported_and_shifts() {
    let (row, conflicts) = build_row(7, &dangling_else_cells(), false);
    assert_eq!(1, conflicts.len());
    assert_eq!(7, conflicts[0].state);
    assert_eq!(4, conflicts[0].terminal);
    assert_eq!(ConflictKind::ShiftReduce, conflicts[0].kind);
    assert_eq!(Some(9), conflicts[0].shift_target);
    assert_eq!(Some(2), conflicts[0].reduce_production);
    assert_eq!(vec![LrAction::Shift { target: 9 }], row[1].actions);
    assert_eq!(vec![LrAction::Reduce { production: 1 }], row[0].actions);
}

#[test]
fn dangling_else_in_generalized_table() {
    let (row, conflicts) = build_row(7, &dangling_else_cells(), true);
    assert!(conflicts.is_empty());
    assert_eq!(vec![LrAction::Reduce { production: 2 }, LrAction::Shift { target: 9 }], row[1].actions);
    assert_eq!(1, row.iter().filter(|e| e.actions.len() > 1).count());
    let warnings = row_ambiguities(7, &dangling_else_cells());
    assert_eq!(1, warnings.len());
    assert_eq!(4, warnings[0].terminal);
    assert_eq!(ConflictKind::ShiftReduce, warnings[0].kind);
}

#[test]
fn reduce_reduce_keeps_earliest_production() {
    let cells = vec![LrCell {
        terminal: 2,
        candidates: vec![LrAction::Reduce { production: 5 }, LrAction::Reduce { production: 3 }, LrAction::Reduce { production: 5 }],
    }];
    let (row, conflicts) = build_row(0, &cells, false);
    assert_eq!(ConflictKind::ReduceReduce, conflicts[0].kind);
    assert_eq!(None, conflicts[0].shift_target);
    assert_eq!(Some(5), conflicts[0].reduce_production);
    assert_eq!(vec![LrAction::Reduce { production: 3 }], row[0].actions);
    assert_eq!(LrAction::Accept, resolve(&vec![LrAction::Shift { target: 1 }, LrAction::Accept]));
    assert_eq!(LrAction::Error, resolve(&vec![]));
}

#[test]
fn repeated_candidates_are_no_conflict() {
    let cells = vec![LrCell { terminal: 2, candidates: vec![LrAction::Shift { target: 4 }, LrAction::Shift { target: 4 }] }];
    let (row, conflicts) = build_row(0, &cells, false);
    assert!(conflicts.is_empty());
    assert!(row_ambiguities(0, &cells).is_empty());
    assert_eq!(vec![LrAction::Shift { target: 4 }], row[0].actions);
    assert_eq!(vec![LrAction::Shift { target: 4 }], distinct_actions(&cells[0].candidates));
}

#[test]
fn lookup_is_total() {
    let row = vec![
        LrEntry { terminal: 2, actions: vec![LrAction::Accept] },
        LrEntry { terminal: 5, actions: vec![LrAction::Shift { target: 3 }] },
    ];
    assert_eq!(vec![LrAction::Shift { target: 3 }], actions_for(&row, 5));
    assert_eq!(vec![LrAction::Accept], actions_for(&row, 2));
    assert_eq!(vec![LrAction::Error], actions_for(&row, 9));
}

#[test]
fn read_back_what_was_written() {
    let mut a = single_a();
    a.contexts.push(7);
    a.states[1].matches.push(LexerMatch { context: 7, terminal: 0x1234 });
    a.states[0].transitions.push(LexerTransition { spans: vec![span(0x30, 0x39), span(0x10000, 0x10FFFF)], target: 0 });
    let bytes = serialize_lexer(&a).unwrap();
    let back = deserialize_lexer(&bytes).unwrap();
    assert_eq!(a.contexts, back.contexts);
    assert_eq!(2, back.states.len());
    assert_eq!(a.states[1].matches, back.states[1].matches);
    assert_eq!(a.states[0].transitions[1].spans, back.states[0].transitions[1].spans);
    assert_eq!(0, back.states[0].transitions[1].target);
    assert_eq!(Ok(bytes), serialize_lexer(&back));
}

#[test]
fn malformed_bytes_are_refused() {
    let bytes = serialize_lexer(&single_a()).unwrap();
    assert!(deserialize_lexer(&bytes[..bytes.len() - 1].to_vec()).is_none());
    let mut longer = bytes.clone();
    longer.push(0);
    assert!(deserialize_lexer(&longer).is_none());
    assert!(deserialize_lexer(&vec![]).is_none());
    let empty = deserialize_lexer(&vec![0, 0, 0, 0, 0, 0, 0, 0]).unwrap();
    assert!(empty.contexts.is_empty() && empty.states.is_empty());
}
