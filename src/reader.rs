//! Reading the binary form of a lexer automaton back, as a runtime does,
//! and the proof that it yields the automaton that was serialized.
use vstd::prelude::*;

use crate::binary::le_bytes;
use crate::lexer::{
    lexer_bytes, lexer_fault, matches_bytes, spans_bytes, state_bytes, state_fits, states_bytes,
    transition_bytes, transitions_bytes, contexts_bytes, first_fault, AutomatonView, CharSpan, LexerAutomaton,
    LexerMatch, LexerState, LexerTransition, StateView, TransitionView,
};

verus! {

/// The number that bytes stand for, least significant first.
pub open spec fn le_value(s: Seq<u8>) -> nat
    decreases s.len(),
{
    if s.len() == 0 {
        0
    } else {
        s[0] as nat + 256 * le_value(s.drop_first())
    }
}

/// The integer of `n` bytes at position `p`, and the position after it.
pub open spec fn read_int(b: Seq<u8>, p: int, n: nat) -> Option<(nat, int)> {
    if 0 <= p && p + n <= b.len() {
        Some((le_value(b.subrange(p, p + n)), p + n))
    } else {
        None
    }
}

pub open spec fn parse_span(b: Seq<u8>, p: int) -> Option<(CharSpan, int)> {
    match read_int(b, p, 4) {
        None => None,
        Some((begin, q1)) => match read_int(b, q1, 4) {
            None => None,
            Some((end, q2)) => Some((CharSpan { begin: begin as u32, end: end as u32 }, q2)),
        },
    }
}

pub open spec fn parse_spans(b: Seq<u8>, p: int, k: nat) -> Option<(Seq<CharSpan>, int)>
    decreases k,
{
    if k == 0 {
        Some((Seq::<CharSpan>::empty(), p))
    } else {
        match parse_spans(b, p, (k - 1) as nat) {
            None => None,
            Some((s, q)) => match parse_span(b, q) {
                None => None,
                Some((x, r)) => Some((s.push(x), r)),
            },
        }
    }
}

pub open spec fn parse_transition(b: Seq<u8>, p: int) -> Option<(TransitionView, int)> {
    match read_int(b, p, 2) {
        None => None,
        Some((k, q1)) => match parse_spans(b, q1, k) {
            None => None,
            Some((spans, q2)) => match read_int(b, q2, 4) {
                None => None,
                Some((target, q3)) => Some((TransitionView { spans, target: target as u32 }, q3)),
            },
        },
    }
}

pub open spec fn parse_transitions(b: Seq<u8>, p: int, k: nat) -> Option<(Seq<TransitionView>, int)>
    decreases k,
{
    if k == 0 {
        Some((Seq::<TransitionView>::empty(), p))
    } else {
        match parse_transitions(b, p, (k - 1) as nat) {
            None => None,
            Some((s, q)) => match parse_transition(b, q) {
                None => None,
                Some((x, r)) => Some((s.push(x), r)),
            },
        }
    }
}

pub open spec fn parse_match(b: Seq<u8>, p: int) -> Option<(LexerMatch, int)> {
    match read_int(b, p, 2) {
        None => None,
        Some((context, q1)) => match read_int(b, q1, 2) {
            None => None,
            Some((terminal, q2)) => Some((LexerMatch { context: context as u16, terminal: terminal as u16 }, q2)),
        },
    }
}

pub open spec fn parse_matches(b: Seq<u8>, p: int, k: nat) -> Option<(Seq<LexerMatch>, int)>
    decreases k,
{
    if k == 0 {
        Some((Seq::<LexerMatch>::empty(), p))
    } else {
        match parse_matches(b, p, (k - 1) as nat) {
            None => None,
            Some((s, q)) => match parse_match(b, q) {
                None => None,
                Some((x, r)) => Some((s.push(x), r)),
            },
        }
    }
}

pub open spec fn parse_state(b: Seq<u8>, p: int) -> Option<(StateView, int)> {
    match read_int(b, p, 2) {
        None => None,
        Some((m, q1)) => match parse_matches(b, q1, m) {
            None => None,
            Some((matches, q2)) => match read_int(b, q2, 2) {
                None => None,
                Some((t, q3)) => match parse_transitions(b, q3, t) {
                    None => None,
                    Some((transitions, q4)) => Some((StateView { matches, transitions }, q4)),
                },
            },
        },
    }
}

pub open spec fn parse_states(b: Seq<u8>, p: int, k: nat) -> Option<(Seq<StateView>, int)>
    decreases k,
{
    if k == 0 {
        Some((Seq::<StateView>::empty(), p))
    } else {
        match parse_states(b, p, (k - 1) as nat) {
            None => None,
            Some((s, q)) => match parse_state(b, q) {
                None => None,
                Some((x, r)) => Some((s.push(x), r)),
            },
        }
    }
}

pub open spec fn parse_contexts(b: Seq<u8>, p: int, k: nat) -> Option<(Seq<u32>, int)>
    decreases k,
{
    if k == 0 {
        Some((Seq::<u32>::empty(), p))
    } else {
        match parse_contexts(b, p, (k - 1) as nat) {
            None => None,
            Some((s, q)) => match read_int(b, q, 4) {
                None => None,
                Some((x, r)) => Some((s.push(x as u32), r)),
            },
        }
    }
}

/// The automaton that the bytes hold, when they hold exactly one.
pub open spec fn parse_lexer(b: Seq<u8>) -> Option<AutomatonView> {
    match read_int(b, 0, 4) {
        None => None,
        Some((nc, q1)) => match parse_contexts(b, q1, nc) {
            None => None,
            Some((contexts, q2)) => match read_int(b, q2, 4) {
                None => None,
                Some((ns, q3)) => match parse_states(b, q3, ns) {
                    None => None,
                    Some((states, q4)) => if q4 == b.len() {
                        Some(AutomatonView { contexts, states })
                    } else {
                        None
                    },
                },
            },
        },
    }
}

/// 256 to the power `n`.
pub open spec fn pow256(n: nat) -> nat
    decreases n,
{
    if n == 0 {
        1
    } else {
        256 * pow256((n - 1) as nat)
    }
}

/// Whether the bytes `x` stand in `b` at position `p`.
pub open spec fn at(b: Seq<u8>, p: int, x: Seq<u8>) -> bool {
    0 <= p && p + x.len() <= b.len() && b.subrange(p, p + x.len()) == x
}

proof fn lemma_le_bytes_len(v: nat, n: nat)
    ensures
        le_bytes(v, n).len() == n,
    decreases n,
{
    if n > 0 {
        lemma_le_bytes_len(v / 256, (n - 1) as nat);
    }
}

proof fn lemma_le_value_of_bytes(v: nat, n: nat)
    requires
        v < pow256(n),
    ensures
        le_value(le_bytes(v, n)) == v,
    decreases n,
{
    if n > 0 {
        let rest = le_bytes(v / 256, (n - 1) as nat);
        assert(v / 256 < pow256((n - 1) as nat)) by (nonlinear_arith)
            requires
                v < 256 * pow256((n - 1) as nat),
        ;
        lemma_le_value_of_bytes(v / 256, (n - 1) as nat);
        assert(le_bytes(v, n).drop_first() =~= rest);
        assert(v == v % 256 + 256 * (v / 256)) by (nonlinear_arith);
    } else {
        assert(v == 0);
    }
}

proof fn lemma_split(b: Seq<u8>, p: int, x: Seq<u8>, y: Seq<u8>)
    requires
        at(b, p, x + y),
    ensures
        at(b, p, x),
        at(b, p + x.len(), y),
{
    assert forall|i: int| 0 <= i < x.len() implies b.subrange(p, p + x.len())[i] == x[i] by {
        assert(b.subrange(p, p + (x + y).len())[i] == (x + y)[i]);
    }
    assert(b.subrange(p, p + x.len()) =~= x);
    assert forall|i: int| 0 <= i < y.len() implies b.subrange(p + x.len(), p + x.len() + y.len())[i] == y[i] by {
        assert(b.subrange(p, p + (x + y).len())[x.len() + i] == (x + y)[x.len() + i]);
    }
    assert(b.subrange(p + x.len(), p + x.len() + y.len()) =~= y);
}

proof fn lemma_read(b: Seq<u8>, p: int, v: nat, n: nat)
    requires
        at(b, p, le_bytes(v, n)),
        v < pow256(n),
    ensures
        read_int(b, p, n) == Some((v, p + n)),
{
    lemma_le_bytes_len(v, n);
    lemma_le_value_of_bytes(v, n);
}

proof fn lemma_pow256_values()
    ensures
        pow256(2) == 0x1_0000,
        pow256(4) == 0x1_0000_0000,
{
    reveal_with_fuel(pow256, 5);
}

proof fn lemma_parse_spans(b: Seq<u8>, p: int, s: Seq<CharSpan>)
    requires
        at(b, p, spans_bytes(s)),
    ensures
        parse_spans(b, p, s.len()) == Some((s, p + spans_bytes(s).len())),
    decreases s.len(),
{
    if s.len() > 0 {
        let init = s.drop_last();
        let x = s.last();
        lemma_pow256_values();
        lemma_le_bytes_len(x.begin as nat, 4);
        lemma_le_bytes_len(x.end as nat, 4);
        lemma_split(b, p, spans_bytes(init) + le_bytes(x.begin as nat, 4), le_bytes(x.end as nat, 4));
        lemma_split(b, p, spans_bytes(init), le_bytes(x.begin as nat, 4));
        lemma_parse_spans(b, p, init);
        let q = p + spans_bytes(init).len();
        lemma_read(b, q, x.begin as nat, 4);
        lemma_read(b, q + 4, x.end as nat, 4);
        assert(init.push(x) =~= s);
    } else {
        assert(s =~= Seq::<CharSpan>::empty());
    }
}

/// The transitions of a state have spans whose count fits 16 bits.
pub open spec fn transitions_fit(ts: Seq<TransitionView>) -> bool {
    forall|k: int| 0 <= k < ts.len() ==> (#[trigger] ts[k]).spans.len() <= 0xFFFF
}

proof fn lemma_parse_transitions(b: Seq<u8>, p: int, s: Seq<TransitionView>)
    requires
        at(b, p, transitions_bytes(s)),
        transitions_fit(s),
    ensures
        parse_transitions(b, p, s.len()) == Some((s, p + transitions_bytes(s).len())),
    decreases s.len(),
{
    if s.len() > 0 {
        let init = s.drop_last();
        let x = s.last();
        assert(x.spans.len() <= 0xFFFF);
        assert(transitions_fit(init)) by {
            assert forall|k: int| 0 <= k < init.len() implies (#[trigger] init[k]).spans.len() <= 0xFFFF by {
                assert(init[k] == s[k]);
            }
        }
        lemma_pow256_values();
        lemma_split(b, p, transitions_bytes(init), transition_bytes(x));
        lemma_parse_transitions(b, p, init);
        let q = p + transitions_bytes(init).len();
        let count = le_bytes(x.spans.len(), 2);
        let target = le_bytes(x.target as nat, 4);
        lemma_le_bytes_len(x.spans.len(), 2);
        lemma_split(b, q, count + spans_bytes(x.spans), target);
        lemma_split(b, q, count, spans_bytes(x.spans));
        lemma_read(b, q, x.spans.len(), 2);
        lemma_parse_spans(b, q + 2, x.spans);
        lemma_read(b, q + 2 + spans_bytes(x.spans).len(), x.target as nat, 4);
        lemma_le_bytes_len(x.target as nat, 4);
        assert(init.push(x) =~= s);
    } else {
        assert(s =~= Seq::<TransitionView>::empty());
    }
}

proof fn lemma_parse_matches(b: Seq<u8>, p: int, s: Seq<LexerMatch>)
    requires
        at(b, p, matches_bytes(s)),
    ensures
        parse_matches(b, p, s.len()) == Some((s, p + matches_bytes(s).len())),
    decreases s.len(),
{
    if s.len() > 0 {
        let init = s.drop_last();
        let x = s.last();
        lemma_pow256_values();
        lemma_le_bytes_len(x.context as nat, 2);
        lemma_le_bytes_len(x.terminal as nat, 2);
        lemma_split(b, p, matches_bytes(init) + le_bytes(x.context as nat, 2), le_bytes(x.terminal as nat, 2));
        lemma_split(b, p, matches_bytes(init), le_bytes(x.context as nat, 2));
        lemma_parse_matches(b, p, init);
        let q = p + matches_bytes(init).len();
        lemma_read(b, q, x.context as nat, 2);
        lemma_read(b, q + 2, x.terminal as nat, 2);
        assert(init.push(x) =~= s);
    } else {
        assert(s =~= Seq::<LexerMatch>::empty());
    }
}

proof fn lemma_parse_state(b: Seq<u8>, p: int, x: StateView)
    requires
        at(b, p, state_bytes(x)),
        state_fits(x),
    ensures
        parse_state(b, p) == Some((x, p + state_bytes(x).len())),
{
    lemma_pow256_values();
    let m = le_bytes(x.matches.len(), 2);
    let t = le_bytes(x.transitions.len(), 2);
    lemma_le_bytes_len(x.matches.len(), 2);
    lemma_le_bytes_len(x.transitions.len(), 2);
    lemma_split(b, p, m + matches_bytes(x.matches) + t, transitions_bytes(x.transitions));
    lemma_split(b, p, m + matches_bytes(x.matches), t);
    lemma_split(b, p, m, matches_bytes(x.matches));
    lemma_read(b, p, x.matches.len(), 2);
    lemma_parse_matches(b, p + 2, x.matches);
    let q = p + 2 + matches_bytes(x.matches).len();
    lemma_read(b, q, x.transitions.len(), 2);
    lemma_parse_transitions(b, q + 2, x.transitions);
}

proof fn lemma_parse_states(b: Seq<u8>, p: int, s: Seq<StateView>)
    requires
        at(b, p, states_bytes(s)),
        forall|k: int| 0 <= k < s.len() ==> state_fits(#[trigger] s[k]),
    ensures
        parse_states(b, p, s.len()) == Some((s, p + states_bytes(s).len())),
    decreases s.len(),
{
    if s.len() > 0 {
        let init = s.drop_last();
        let x = s.last();
        assert(state_fits(x));
        assert forall|k: int| 0 <= k < init.len() implies state_fits(#[trigger] init[k]) by {
            assert(init[k] == s[k]);
        }
        lemma_split(b, p, states_bytes(init), state_bytes(x));
        lemma_parse_states(b, p, init);
        lemma_parse_state(b, p + states_bytes(init).len(), x);
        assert(init.push(x) =~= s);
    } else {
        assert(s =~= Seq::<StateView>::empty());
    }
}

proof fn lemma_parse_contexts(b: Seq<u8>, p: int, s: Seq<u32>)
    requires
        at(b, p, contexts_bytes(s)),
    ensures
        parse_contexts(b, p, s.len()) == Some((s, p + contexts_bytes(s).len())),
    decreases s.len(),
{
    if s.len() > 0 {
        let init = s.drop_last();
        let x = s.last();
        lemma_pow256_values();
        lemma_le_bytes_len(x as nat, 4);
        lemma_split(b, p, contexts_bytes(init), le_bytes(x as nat, 4));
        lemma_parse_contexts(b, p, init);
        lemma_read(b, p + contexts_bytes(init).len(), x as nat, 4);
        assert(init.push(x) =~= s);
    } else {
        assert(s =~= Seq::<u32>::empty());
    }
}

proof fn lemma_faultless_states_fit(states: Seq<StateView>, from: int, k: int)
    requires
        0 <= from <= k < states.len(),
        first_fault(states, from) is None,
    ensures
        state_fits(states[k]),
    decreases k - from,
{
    if from < k {
        lemma_faultless_states_fit(states, from + 1, k);
    }
}

/// Reading back the bytes of an automaton that serializes yields that
/// automaton: the binary form loses nothing.
pub proof fn lemma_read_back_serialized(a: AutomatonView)
    requires
        lexer_fault(a) is None,
    ensures
        parse_lexer(lexer_bytes(a)) == Some(a),
{
    let b = lexer_bytes(a);
    lemma_pow256_values();
    assert forall|k: int| 0 <= k < a.states.len() implies state_fits(#[trigger] a.states[k]) by {
        lemma_faultless_states_fit(a.states, 0, k);
    }
    let nc = le_bytes(a.contexts.len(), 4);
    let ns = le_bytes(a.states.len(), 4);
    lemma_le_bytes_len(a.contexts.len(), 4);
    lemma_le_bytes_len(a.states.len(), 4);
    assert(at(b, 0, b)) by {
        assert(b.subrange(0, b.len() as int) =~= b);
    }
    lemma_split(b, 0, nc + contexts_bytes(a.contexts) + ns, states_bytes(a.states));
    lemma_split(b, 0, nc + contexts_bytes(a.contexts), ns);
    lemma_split(b, 0, nc, contexts_bytes(a.contexts));
    lemma_read(b, 0, a.contexts.len(), 4);
    lemma_parse_contexts(b, 4, a.contexts);
    let q = 4 + contexts_bytes(a.contexts).len() as int;
    lemma_read(b, q, a.states.len(), 4);
    lemma_parse_states(b, q + 4, a.states);
}

fn read_u16(b: &Vec<u8>, p: usize) -> (r: Option<(u16, usize)>)
    ensures
        match read_int(b@, p as int, 2) {
            None => r is None,
            Some((v, q)) => r matches Some((x, y)) && x as nat == v && y as int == q,
        },
{
    if p > b.len() || b.len() - p < 2 {
        return None;
    }
    let v: u16 = b[p] as u16 + 256 * (b[p + 1] as u16);
    proof {
        let s = b@.subrange(p as int, p + 2);
        reveal_with_fuel(le_value, 3);
        assert(s.drop_first().drop_first() =~= Seq::<u8>::empty());
        assert(le_value(s) == s[0] as nat + 256 * (s[1] as nat));
    }
    Some((v, p + 2))
}

fn read_u32(b: &Vec<u8>, p: usize) -> (r: Option<(u32, usize)>)
    ensures
        match read_int(b@, p as int, 4) {
            None => r is None,
            Some((v, q)) => r matches Some((x, y)) && x as nat == v && y as int == q,
        },
{
    if p > b.len() || b.len() - p < 4 {
        return None;
    }
    let b0 = b[p] as u32;
    let b1 = b[p + 1] as u32;
    let b2 = b[p + 2] as u32;
    let b3 = b[p + 3] as u32;
    let v: u32 = b0 + 256 * (b1 + 256 * (b2 + 256 * b3));
    proof {
        let s = b@.subrange(p as int, p + 4);
        reveal_with_fuel(le_value, 5);
        assert(s.drop_first().drop_first().drop_first().drop_first() =~= Seq::<u8>::empty());
        assert(le_value(s) == s[0] as nat + 256 * (s[1] as nat + 256 * (s[2] as nat + 256 * (s[3] as nat))));
    }
    Some((v, p + 4))
}

fn read_span(b: &Vec<u8>, p: usize) -> (r: Option<(CharSpan, usize)>)
    ensures
        match parse_span(b@, p as int) {
            None => r is None,
            Some((x, q)) => r matches Some((v, y)) && v == x && y as int == q,
        },
{
    match read_u32(b, p) {
        None => None,
        Some((begin, q1)) => match read_u32(b, q1) {
            None => None,
            Some((end, q2)) => Some((CharSpan { begin, end }, q2)),
        },
    }
}

fn read_spans(b: &Vec<u8>, p: usize, k: u16) -> (r: Option<(Vec<CharSpan>, usize)>)
    ensures
        match parse_spans(b@, p as int, k as nat) {
            None => r is None,
            Some((x, q)) => r matches Some((v, y)) && v@ == x && y as int == q,
        },
{
    let mut v: Vec<CharSpan> = Vec::new();
    let mut pos = p;
    let mut i: u16 = 0;
    assert(v@ =~= Seq::<CharSpan>::empty());
    while i < k
        invariant
            i <= k,
            parse_spans(b@, p as int, i as nat) == Some((v@, pos as int)),
        decreases k - i,
    {
        match read_span(b, pos) {
            None => {
                proof {
                    lemma_spans_none_after(b@, p as int, (i + 1) as nat, k as nat);
                }
                return None;
            },
            Some((x, q)) => {
                v.push(x);
                pos = q;
            },
        }
        i += 1;
    }
    Some((v, pos))
}

proof fn lemma_spans_none_after(b: Seq<u8>, p: int, j: nat, k: nat)
    requires
        j <= k,
        parse_spans(b, p, j) is None,
    ensures
        parse_spans(b, p, k) is None,
    decreases k - j,
{
    if j < k {
        lemma_spans_none_after(b, p, j + 1, k);
    }
}

fn read_transition(b: &Vec<u8>, p: usize) -> (r: Option<(LexerTransition, usize)>)
    ensures
        match parse_transition(b@, p as int) {
            None => r is None,
            Some((x, q)) => r matches Some((v, y)) && v@ == x && y as int == q,
        },
{
    match read_u16(b, p) {
        None => None,
        Some((k, q1)) => match read_spans(b, q1, k) {
            None => None,
            Some((spans, q2)) => match read_u32(b, q2) {
                None => None,
                Some((target, q3)) => Some((LexerTransition { spans, target }, q3)),
            },
        },
    }
}

proof fn lemma_transitions_none_after(b: Seq<u8>, p: int, j: nat, k: nat)
    requires
        j <= k,
        parse_transitions(b, p, j) is None,
    ensures
        parse_transitions(b, p, k) is None,
    decreases k - j,
{
    if j < k {
        lemma_transitions_none_after(b, p, j + 1, k);
    }
}

fn read_transitions(b: &Vec<u8>, p: usize, k: u16) -> (r: Option<(Vec<LexerTransition>, usize)>)
    ensures
        match parse_transitions(b@, p as int, k as nat) {
            None => r is None,
            Some((x, q)) => r matches Some((v, y)) && v@.map_values(|t: LexerTransition| t@) == x && y as int == q,
        },
{
    let mut v: Vec<LexerTransition> = Vec::new();
    let mut pos = p;
    let mut i: u16 = 0;
    assert(v@.map_values(|t: LexerTransition| t@) =~= Seq::<TransitionView>::empty());
    while i < k
        invariant
            i <= k,
            parse_transitions(b@, p as int, i as nat) == Some((v@.map_values(|t: LexerTransition| t@), pos as int)),
        decreases k - i,
    {
        match read_transition(b, pos) {
            None => {
                proof {
                    lemma_transitions_none_after(b@, p as int, (i + 1) as nat, k as nat);
                }
                return None;
            },
            Some((x, q)) => {
                let ghost before = v@;
                v.push(x);
                assert(v@.map_values(|t: LexerTransition| t@) =~= before.map_values(|t: LexerTransition| t@).push(x@));
                pos = q;
            },
        }
        i += 1;
    }
    Some((v, pos))
}

fn read_match(b: &Vec<u8>, p: usize) -> (r: Option<(LexerMatch, usize)>)
    ensures
        match parse_match(b@, p as int) {
            None => r is None,
            Some((x, q)) => r matches Some((v, y)) && v == x && y as int == q,
        },
{
    match read_u16(b, p) {
        None => None,
        Some((context, q1)) => match read_u16(b, q1) {
            None => None,
            Some((terminal, q2)) => Some((LexerMatch { context, terminal }, q2)),
        },
    }
}

proof fn lemma_matches_none_after(b: Seq<u8>, p: int, j: nat, k: nat)
    requires
        j <= k,
        parse_matches(b, p, j) is None,
    ensures
        parse_matches(b, p, k) is None,
    decreases k - j,
{
    if j < k {
        lemma_matches_none_after(b, p, j + 1, k);
    }
}

fn read_matches(b: &Vec<u8>, p: usize, k: u16) -> (r: Option<(Vec<LexerMatch>, usize)>)
    ensures
        match parse_matches(b@, p as int, k as nat) {
            None => r is None,
            Some((x, q)) => r matches Some((v, y)) && v@ == x && y as int == q,
        },
{
    let mut v: Vec<LexerMatch> = Vec::new();
    let mut pos = p;
    let mut i: u16 = 0;
    assert(v@ =~= Seq::<LexerMatch>::empty());
    while i < k
        invariant
            i <= k,
            parse_matches(b@, p as int, i as nat) == Some((v@, pos as int)),
        decreases k - i,
    {
        match read_match(b, pos) {
            None => {
                proof {
                    lemma_matches_none_after(b@, p as int, (i + 1) as nat, k as nat);
                }
                return None;
            },
            Some((x, q)) => {
                v.push(x);
                pos = q;
            },
        }
        i += 1;
    }
    Some((v, pos))
}

fn read_state(b: &Vec<u8>, p: usize) -> (r: Option<(LexerState, usize)>)
    ensures
        match parse_state(b@, p as int) {
            None => r is None,
            Some((x, q)) => r matches Some((v, y)) && v@ == x && y as int == q,
        },
{
    match read_u16(b, p) {
        None => None,
        Some((m, q1)) => match read_matches(b, q1, m) {
            None => None,
            Some((matches, q2)) => match read_u16(b, q2) {
                None => None,
                Some((t, q3)) => match read_transitions(b, q3, t) {
                    None => None,
                    Some((transitions, q4)) => Some((LexerState { matches, transitions }, q4)),
                },
            },
        },
    }
}

proof fn lemma_states_none_after(b: Seq<u8>, p: int, j: nat, k: nat)
    requires
        j <= k,
        parse_states(b, p, j) is None,
    ensures
        parse_states(b, p, k) is None,
    decreases k - j,
{
    if j < k {
        lemma_states_none_after(b, p, j + 1, k);
    }
}

proof fn lemma_contexts_none_after(b: Seq<u8>, p: int, j: nat, k: nat)
    requires
        j <= k,
        parse_contexts(b, p, j) is None,
    ensures
        parse_contexts(b, p, k) is None,
    decreases k - j,
{
    if j < k {
        lemma_contexts_none_after(b, p, j + 1, k);
    }
}

/// Reads a lexer automaton from its binary form; none when the bytes do
/// not hold exactly one automaton
pub fn deserialize_lexer(b: &Vec<u8>) -> (r: Option<LexerAutomaton>)
    ensures
        match parse_lexer(b@) {
            None => r is None,
            Some(a) => r matches Some(v) && v@ == a,
        },
{
    let (nc, q1) = match read_u32(b, 0) {
        None => {
            return None;
        },
        Some(x) => x,
    };
    let mut contexts: Vec<u32> = Vec::new();
    let mut pos = q1;
    let mut i: u32 = 0;
    assert(contexts@ =~= Seq::<u32>::empty());
    while i < nc
        invariant
            i <= nc,
            read_int(b@, 0, 4) == Some((nc as nat, q1 as int)),
            parse_contexts(b@, q1 as int, i as nat) == Some((contexts@, pos as int)),
        decreases nc - i,
    {
        match read_u32(b, pos) {
            None => {
                proof {
                    lemma_contexts_none_after(b@, q1 as int, (i + 1) as nat, nc as nat);
                }
                return None;
            },
            Some((x, q)) => {
                contexts.push(x);
                pos = q;
            },
        }
        i += 1;
    }
    let q2 = pos;
    let (ns, q3) = match read_u32(b, q2) {
        None => {
            return None;
        },
        Some(x) => x,
    };
    let mut states: Vec<LexerState> = Vec::new();
    let mut pos = q3;
    let mut j: u32 = 0;
    assert(states@.map_values(|s: LexerState| s@) =~= Seq::<StateView>::empty());
    while j < ns
        invariant
            j <= ns,
            read_int(b@, 0, 4) == Some((nc as nat, q1 as int)),
            parse_contexts(b@, q1 as int, nc as nat) == Some((contexts@, q2 as int)),
            read_int(b@, q2 as int, 4) == Some((ns as nat, q3 as int)),
            parse_states(b@, q3 as int, j as nat) == Some((states@.map_values(|s: LexerState| s@), pos as int)),
        decreases ns - j,
    {
        match read_state(b, pos) {
            None => {
                proof {
                    lemma_states_none_after(b@, q3 as int, (j + 1) as nat, ns as nat);
                }
                return None;
            },
            Some((x, q)) => {
                let ghost before = states@;
                states.push(x);
                assert(states@.map_values(|s: LexerState| s@) =~= before.map_values(|s: LexerState| s@).push(x@));
                pos = q;
            },
        }
        j += 1;
    }
    if pos != b.len() {
        return None;
    }
    let a = LexerAutomaton { contexts, states };
    Some(a)
}

} // verus!
