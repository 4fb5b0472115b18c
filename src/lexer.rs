//! The lexer automaton as it is serialized for the runtimes: its states,
//! their accepting terminals by context and priority, their transitions on
//! spans of code points; how a terminal is chosen in a state for the
//! contexts a parser allows; and the binary form of the whole.
use vstd::prelude::*;

use crate::binary::{le_bytes, write_u16, write_u32};

verus! {

/// A closed interval of code points
#[derive(Clone, Copy, Debug, PartialEq, Eq, Structural)]
pub struct CharSpan {
    /// The first code point of the span
    pub begin: u32,
    /// The last code point of the span
    pub end: u32,
}

/// A terminal that a state accepts, in a context
#[derive(Clone, Copy, Debug, PartialEq, Eq, Structural)]
pub struct LexerMatch {
    /// The context in which the terminal is matched
    pub context: u16,
    /// The identifier of the terminal
    pub terminal: u16,
}

/// A transition of the automaton: the code points that take it, and the
/// state it leads to
pub struct LexerTransition {
    /// The spans of code points that trigger the transition
    pub spans: Vec<CharSpan>,
    /// The index of the target state
    pub target: u32,
}

/// A state of the automaton
pub struct LexerState {
    /// The accepted terminals, by decreasing priority
    pub matches: Vec<LexerMatch>,
    /// The outgoing transitions
    pub transitions: Vec<LexerTransition>,
}

/// The lexer automaton
pub struct LexerAutomaton {
    /// The identifiers of the contexts
    pub contexts: Vec<u32>,
    /// The states; the first is the initial one
    pub states: Vec<LexerState>,
}

/// The mathematical content of a transition.
pub struct TransitionView {
    pub spans: Seq<CharSpan>,
    pub target: u32,
}

/// The mathematical content of a state.
pub struct StateView {
    pub matches: Seq<LexerMatch>,
    pub transitions: Seq<TransitionView>,
}

/// The mathematical content of an automaton.
pub struct AutomatonView {
    pub contexts: Seq<u32>,
    pub states: Seq<StateView>,
}

impl View for LexerTransition {
    type V = TransitionView;

    open spec fn view(&self) -> TransitionView {
        TransitionView { spans: self.spans@, target: self.target }
    }
}

impl View for LexerState {
    type V = StateView;

    open spec fn view(&self) -> StateView {
        StateView { matches: self.matches@, transitions: self.transitions@.map_values(|t: LexerTransition| t@) }
    }
}

impl View for LexerAutomaton {
    type V = AutomatonView;

    open spec fn view(&self) -> AutomatonView {
        AutomatonView { contexts: self.contexts@, states: self.states@.map_values(|s: LexerState| s@) }
    }
}

/// Whether the code point `c` lies in one of the spans.
pub open spec fn in_spans(spans: Seq<CharSpan>, c: int) -> bool {
    exists|k: int| 0 <= k < spans.len() && #[trigger] spans[k].begin <= c <= spans[k].end
}

/// Whether two spans share a code point.
pub open spec fn spans_overlap(a: CharSpan, b: CharSpan) -> bool {
    a.begin <= b.end && b.begin <= a.end && a.begin <= a.end && b.begin <= b.end
}

/// Whether no code point lies in both sets of spans.
pub open spec fn charsets_disjoint(a: Seq<CharSpan>, b: Seq<CharSpan>) -> bool {
    forall|k: int, l: int| 0 <= k < a.len() && 0 <= l < b.len() ==> !spans_overlap(#[trigger] a[k], #[trigger] b[l])
}

/// Whether the outgoing transitions of a state have pairwise disjoint
/// charsets, so that each code point leads to one state at most.
pub open spec fn edges_disjoint(s: StateView) -> bool {
    forall|i: int, j: int|
        0 <= i < s.transitions.len() && 0 <= j < s.transitions.len() && i != j ==> charsets_disjoint(
            #[trigger] s.transitions[i].spans,
            #[trigger] s.transitions[j].spans,
        )
}

/// Two disjoint charsets share no code point.
pub proof fn lemma_disjoint_charsets_share_nothing(a: Seq<CharSpan>, b: Seq<CharSpan>, c: int)
    requires
        charsets_disjoint(a, b),
    ensures
        !(in_spans(a, c) && in_spans(b, c)),
{
    if in_spans(a, c) && in_spans(b, c) {
        let k = choose|k: int| 0 <= k < a.len() && #[trigger] a[k].begin <= c <= a[k].end;
        let l = choose|l: int| 0 <= l < b.len() && #[trigger] b[l].begin <= c <= b[l].end;
        assert(spans_overlap(a[k], b[l]));
    }
}

fn spans_overlap_exec(a: CharSpan, b: CharSpan) -> (r: bool)
    ensures
        r == spans_overlap(a, b),
{
    a.begin <= b.end && b.begin <= a.end && a.begin <= a.end && b.begin <= b.end
}

fn charsets_disjoint_exec(a: &Vec<CharSpan>, b: &Vec<CharSpan>) -> (r: bool)
    ensures
        r == charsets_disjoint(a@, b@),
{
    let mut k: usize = 0;
    while k < a.len()
        invariant
            k <= a@.len(),
            forall|k2: int, l: int| 0 <= k2 < k && 0 <= l < b@.len() ==> !spans_overlap(#[trigger] a@[k2], #[trigger] b@[l]),
        decreases a.len() - k,
    {
        let mut l: usize = 0;
        while l < b.len()
            invariant
                k < a@.len(),
                l <= b@.len(),
                forall|k2: int, l2: int| 0 <= k2 < k && 0 <= l2 < b@.len() ==> !spans_overlap(#[trigger] a@[k2], #[trigger] b@[l2]),
                forall|l2: int| 0 <= l2 < l ==> !spans_overlap(a@[k as int], #[trigger] b@[l2]),
            decreases b.len() - l,
        {
            if spans_overlap_exec(a[k], b[l]) {
                return false;
            }
            l += 1;
        }
        k += 1;
    }
    true
}

impl LexerState {
    /// Whether the outgoing transitions have pairwise disjoint charsets
    pub fn has_disjoint_edges(&self) -> (r: bool)
        ensures
            r == edges_disjoint(self@),
    {
        let n = self.transitions.len();
        let mut i: usize = 0;
        while i < n
            invariant
                n == self.transitions@.len(),
                i <= n,
                forall|i2: int, j: int|
                    0 <= i2 < i && 0 <= j < n && i2 != j ==> charsets_disjoint(
                        #[trigger] self@.transitions[i2].spans,
                        #[trigger] self@.transitions[j].spans,
                    ),
            decreases n - i,
        {
            let mut j: usize = 0;
            while j < n
                invariant
                    n == self.transitions@.len(),
                    i < n,
                    j <= n,
                    forall|i2: int, j2: int|
                        0 <= i2 < i && 0 <= j2 < n && i2 != j2 ==> charsets_disjoint(
                            #[trigger] self@.transitions[i2].spans,
                            #[trigger] self@.transitions[j2].spans,
                        ),
                    forall|j2: int|
                        0 <= j2 < j && i != j2 ==> charsets_disjoint(
                            self@.transitions[i as int].spans,
                            #[trigger] self@.transitions[j2].spans,
                        ),
                decreases n - j,
            {
                assert(self@.transitions[i as int].spans == self.transitions@[i as int].spans@);
                assert(self@.transitions[j as int].spans == self.transitions@[j as int].spans@);
                if i != j && !charsets_disjoint_exec(&self.transitions[i].spans, &self.transitions[j].spans) {
                    assert(!charsets_disjoint(self@.transitions[i as int].spans, self@.transitions[j as int].spans));
                    return false;
                }
                j += 1;
            }
            i += 1;
        }
        true
    }
}

/// The first of the matches, by priority, whose context is allowed.
pub open spec fn first_allowed(matches: Seq<LexerMatch>, allowed: Seq<u16>) -> Option<LexerMatch>
    decreases matches.len(),
{
    if matches.len() == 0 {
        None
    } else if allowed.contains(matches[0].context) {
        Some(matches[0])
    } else {
        first_allowed(matches.drop_first(), allowed)
    }
}

/// Chooses the terminal that a state produces while the parser allows the
/// contexts in `allowed`: the first of its matches, by priority, whose
/// context is allowed; none when no such match exists
pub fn select_terminal(matches: &Vec<LexerMatch>, allowed: &Vec<u16>) -> (r: Option<u16>)
    ensures
        r == match first_allowed(matches@, allowed@) {
            Some(m) => Some(m.terminal),
            None => None,
        },
{
    let mut i: usize = 0;
    assert(matches@.subrange(0, matches@.len() as int) =~= matches@);
    while i < matches.len()
        invariant
            i <= matches@.len(),
            first_allowed(matches@, allowed@) == first_allowed(
                matches@.subrange(i as int, matches@.len() as int),
                allowed@,
            ),
        decreases matches.len() - i,
    {
        let m = matches[i];
        let ghost rest = matches@.subrange(i as int, matches@.len() as int);
        let mut found = false;
        let mut k: usize = 0;
        while k < allowed.len()
            invariant
                k <= allowed@.len(),
                found == (exists|k2: int| 0 <= k2 < k && allowed@[k2] == m.context),
            decreases allowed.len() - k,
        {
            if allowed[k] == m.context {
                found = true;
            }
            k += 1;
        }
        assert(found == allowed@.contains(m.context));
        if found {
            return Some(m.terminal);
        }
        assert(rest.drop_first() =~= matches@.subrange(i + 1, matches@.len() as int));
        i += 1;
    }
    None
}

/// Whatever terminal a state produces, one of its matches produces it in a
/// context that the parser allows: a terminal is never emitted outside
/// its context.
pub proof fn lemma_selected_terminal_in_allowed_context(matches: Seq<LexerMatch>, allowed: Seq<u16>)
    ensures
        first_allowed(matches, allowed) matches Some(m) ==> allowed.contains(m.context) && matches.contains(m),
    decreases matches.len(),
{
    if matches.len() > 0 && !allowed.contains(matches[0].context) {
        lemma_selected_terminal_in_allowed_context(matches.drop_first(), allowed);
        if let Some(m) = first_allowed(matches, allowed) {
            let k = choose|k: int| 0 <= k < matches.drop_first().len() && matches.drop_first()[k] == m;
            assert(matches[k + 1] == m);
        }
    } else if matches.len() > 0 {
        assert(matches[0] == matches[0]);
    }
}

/// Why an automaton cannot be serialized
#[derive(Clone, Copy, Debug, PartialEq, Eq, Structural)]
pub enum LexerError {
    /// A count does not fit the field that holds it
    TooLarge,
    /// A state breaks an invariant of the automaton: a transition leads to
    /// no state, or two transitions share a code point
    Internal {
        /// The index of the offending state
        state: usize,
    },
}

/// Whether the counts of a state fit their 16-bit fields.
pub open spec fn state_fits(s: StateView) -> bool {
    &&& s.matches.len() <= 0xFFFF
    &&& s.transitions.len() <= 0xFFFF
    &&& forall|k: int| 0 <= k < s.transitions.len() ==> (#[trigger] s.transitions[k]).spans.len() <= 0xFFFF
}

/// Whether every transition of a state leads to one of the `n` states.
pub open spec fn targets_exist(s: StateView, n: int) -> bool {
    forall|k: int| 0 <= k < s.transitions.len() ==> (#[trigger] s.transitions[k]).target < n
}

/// The error of the state `s` at position `index` of `n` states, if any.
pub open spec fn state_fault(s: StateView, index: int, n: int) -> Option<LexerError> {
    if !state_fits(s) {
        Some(LexerError::TooLarge)
    } else if !targets_exist(s, n) || !edges_disjoint(s) {
        Some(LexerError::Internal { state: index as usize })
    } else {
        None
    }
}

/// The error of the first faulty state from position `from` on, if any.
pub open spec fn first_fault(states: Seq<StateView>, from: int) -> Option<LexerError>
    decreases states.len() - from,
{
    if from < 0 || from >= states.len() {
        None
    } else if state_fault(states[from], from, states.len() as int) is Some {
        state_fault(states[from], from, states.len() as int)
    } else {
        first_fault(states, from + 1)
    }
}

/// Why the automaton cannot be serialized, if it cannot.
pub open spec fn lexer_fault(a: AutomatonView) -> Option<LexerError> {
    if a.contexts.len() > 0xFFFF_FFFF || a.states.len() > 0xFFFF_FFFF {
        Some(LexerError::TooLarge)
    } else {
        first_fault(a.states, 0)
    }
}

pub open spec fn spans_bytes(spans: Seq<CharSpan>) -> Seq<u8>
    decreases spans.len(),
{
    if spans.len() == 0 {
        Seq::<u8>::empty()
    } else {
        spans_bytes(spans.drop_last()) + le_bytes(spans.last().begin as nat, 4) + le_bytes(spans.last().end as nat, 4)
    }
}

pub open spec fn transition_bytes(t: TransitionView) -> Seq<u8> {
    le_bytes(t.spans.len(), 2) + spans_bytes(t.spans) + le_bytes(t.target as nat, 4)
}

pub open spec fn transitions_bytes(ts: Seq<TransitionView>) -> Seq<u8>
    decreases ts.len(),
{
    if ts.len() == 0 {
        Seq::<u8>::empty()
    } else {
        transitions_bytes(ts.drop_last()) + transition_bytes(ts.last())
    }
}

pub open spec fn matches_bytes(ms: Seq<LexerMatch>) -> Seq<u8>
    decreases ms.len(),
{
    if ms.len() == 0 {
        Seq::<u8>::empty()
    } else {
        matches_bytes(ms.drop_last()) + le_bytes(ms.last().context as nat, 2) + le_bytes(ms.last().terminal as nat, 2)
    }
}

pub open spec fn state_bytes(s: StateView) -> Seq<u8> {
    le_bytes(s.matches.len(), 2) + matches_bytes(s.matches) + le_bytes(s.transitions.len(), 2) + transitions_bytes(
        s.transitions,
    )
}

pub open spec fn states_bytes(ss: Seq<StateView>) -> Seq<u8>
    decreases ss.len(),
{
    if ss.len() == 0 {
        Seq::<u8>::empty()
    } else {
        states_bytes(ss.drop_last()) + state_bytes(ss.last())
    }
}

pub open spec fn contexts_bytes(cs: Seq<u32>) -> Seq<u8>
    decreases cs.len(),
{
    if cs.len() == 0 {
        Seq::<u8>::empty()
    } else {
        contexts_bytes(cs.drop_last()) + le_bytes(cs.last() as nat, 4)
    }
}

/// The binary form of a lexer automaton, integers in little endian: the
/// contexts, then each state with its matches and its transitions.
pub open spec fn lexer_bytes(a: AutomatonView) -> Seq<u8> {
    le_bytes(a.contexts.len(), 4) + contexts_bytes(a.contexts) + le_bytes(a.states.len(), 4) + states_bytes(a.states)
}

fn write_spans(out: &mut Vec<u8>, spans: &Vec<CharSpan>)
    ensures
        final(out)@ == old(out)@ + spans_bytes(spans@),
{
    let ghost start = out@;
    let mut i: usize = 0;
    while i < spans.len()
        invariant
            i <= spans@.len(),
            out@ == start + spans_bytes(spans@.subrange(0, i as int)),
        decreases spans.len() - i,
    {
        write_u32(out, spans[i].begin);
        write_u32(out, spans[i].end);
        assert(spans@.subrange(0, i + 1).drop_last() =~= spans@.subrange(0, i as int));
        i += 1;
        assert(out@ =~= start + spans_bytes(spans@.subrange(0, i as int)));
    }
    assert(spans@.subrange(0, spans@.len() as int) =~= spans@);
}

fn write_transitions(out: &mut Vec<u8>, ts: &Vec<LexerTransition>)
    requires
        forall|k: int| 0 <= k < ts@.len() ==> (#[trigger] ts@[k]).spans@.len() <= 0xFFFF,
    ensures
        final(out)@ == old(out)@ + transitions_bytes(ts@.map_values(|t: LexerTransition| t@)),
{
    let ghost start = out@;
    let ghost tv = ts@.map_values(|t: LexerTransition| t@);
    let mut i: usize = 0;
    while i < ts.len()
        invariant
            i <= ts@.len(),
            tv == ts@.map_values(|t: LexerTransition| t@),
            forall|k: int| 0 <= k < ts@.len() ==> (#[trigger] ts@[k]).spans@.len() <= 0xFFFF,
            out@ == start + transitions_bytes(tv.subrange(0, i as int)),
        decreases ts.len() - i,
    {
        let t = &ts[i];
        let ghost before = out@;
        write_u16(out, t.spans.len() as u16);
        write_spans(out, &t.spans);
        write_u32(out, t.target);
        assert(out@ =~= before + transition_bytes(t@));
        assert(tv.subrange(0, i + 1).drop_last() =~= tv.subrange(0, i as int));
        assert(tv.subrange(0, i + 1).last() == t@);
        i += 1;
        assert(out@ =~= start + transitions_bytes(tv.subrange(0, i as int)));
    }
    assert(tv.subrange(0, ts@.len() as int) =~= tv);
}

fn write_matches(out: &mut Vec<u8>, ms: &Vec<LexerMatch>)
    ensures
        final(out)@ == old(out)@ + matches_bytes(ms@),
{
    let ghost start = out@;
    let mut i: usize = 0;
    while i < ms.len()
        invariant
            i <= ms@.len(),
            out@ == start + matches_bytes(ms@.subrange(0, i as int)),
        decreases ms.len() - i,
    {
        write_u16(out, ms[i].context);
        write_u16(out, ms[i].terminal);
        assert(ms@.subrange(0, i + 1).drop_last() =~= ms@.subrange(0, i as int));
        i += 1;
        assert(out@ =~= start + matches_bytes(ms@.subrange(0, i as int)));
    }
    assert(ms@.subrange(0, ms@.len() as int) =~= ms@);
}

fn write_state(out: &mut Vec<u8>, s: &LexerState)
    requires
        state_fits(s@),
    ensures
        final(out)@ == old(out)@ + state_bytes(s@),
{
    let ghost start = out@;
    write_u16(out, s.matches.len() as u16);
    write_matches(out, &s.matches);
    write_u16(out, s.transitions.len() as u16);
    assert forall|k: int| 0 <= k < s.transitions@.len() implies (#[trigger] s.transitions@[k]).spans@.len() <= 0xFFFF by {
        assert(s@.transitions[k] == s.transitions@[k]@);
    }
    write_transitions(out, &s.transitions);
    assert(out@ =~= start + state_bytes(s@));
}

/// Whether the state at `index` can be serialized, else its error.
fn check_state(a: &LexerAutomaton, index: usize) -> (r: Option<LexerError>)
    requires
        index < a.states@.len(),
        index < a@.states.len(),
    ensures
        r == state_fault(a@.states[index as int], index as int, a@.states.len() as int),
{
    assert(a@.states.len() == a.states@.len());
    let s = &a.states[index];
    let ghost sv = a@.states[index as int];
    assert(sv == s@);
    assert(sv.matches.len() == s.matches@.len());
    assert(sv.transitions.len() == s.transitions@.len());
    if s.matches.len() > 0xFFFF || s.transitions.len() > 0xFFFF {
        return Some(LexerError::TooLarge);
    }
    let n = a.states.len();
    let mut k: usize = 0;
    let mut targets_ok = true;
    while k < s.transitions.len()
        invariant
            sv == s@,
            sv == a@.states[index as int],
            sv.matches.len() <= 0xFFFF,
            sv.transitions.len() <= 0xFFFF,
            n == a@.states.len(),
            k <= s.transitions@.len(),
            forall|k2: int| 0 <= k2 < k ==> (#[trigger] sv.transitions[k2]).spans.len() <= 0xFFFF,
            targets_ok == (forall|k2: int| 0 <= k2 < k ==> (#[trigger] sv.transitions[k2]).target < n),
        decreases s.transitions.len() - k,
    {
        let t = &s.transitions[k];
        assert(sv.transitions[k as int] == t@);
        if t.spans.len() > 0xFFFF {
            return Some(LexerError::TooLarge);
        }
        if (t.target as usize) >= n {
            targets_ok = false;
        }
        k += 1;
    }
    if !targets_ok || !s.has_disjoint_edges() {
        return Some(LexerError::Internal { state: index });
    }
    None
}

/// Serializes a lexer automaton: the number of contexts and their
/// identifiers, then the number of states and each state with its matches
/// (context and terminal) by priority and its transitions (spans of code
/// points and target), all integers in little endian. Fails when a count
/// does not fit its field, or on the first state that has a transition to
/// no state or two transitions that share a code point; on success the
/// transitions of every state have pairwise disjoint charsets
pub fn serialize_lexer(a: &LexerAutomaton) -> (r: Result<Vec<u8>, LexerError>)
    ensures
        match r {
            Ok(bytes) => lexer_fault(a@) is None && bytes@ == lexer_bytes(a@),
            Err(e) => lexer_fault(a@) == Some(e),
        },
        r is Ok ==> forall|i: int| 0 <= i < a@.states.len() ==> edges_disjoint(#[trigger] a@.states[i]),
{
    if a.contexts.len() > 0xFFFF_FFFF || a.states.len() > 0xFFFF_FFFF {
        return Err(LexerError::TooLarge);
    }
    let n = a.states.len();
    let mut i: usize = 0;
    while i < n
        invariant
            n == a@.states.len(),
            i <= n,
            lexer_fault(a@) == first_fault(a@.states, i as int),
        decreases n - i,
    {
        match check_state(a, i) {
            Some(e) => {
                return Err(e);
            },
            None => {},
        }
        i += 1;
    }
    proof {
        assert forall|i2: int| 0 <= i2 < n implies state_fits(#[trigger] a@.states[i2]) && targets_exist(
            a@.states[i2],
            n as int,
        ) && edges_disjoint(a@.states[i2]) by {
            lemma_no_fault_from(a@.states, 0, i2);
        }
    }
    let mut out: Vec<u8> = Vec::new();
    write_u32(&mut out, a.contexts.len() as u32);
    let mut c: usize = 0;
    let ghost after_count = out@;
    while c < a.contexts.len()
        invariant
            c <= a.contexts@.len(),
            out@ == after_count + contexts_bytes(a.contexts@.subrange(0, c as int)),
        decreases a.contexts.len() - c,
    {
        write_u32(&mut out, a.contexts[c]);
        assert(a.contexts@.subrange(0, c + 1).drop_last() =~= a.contexts@.subrange(0, c as int));
        c += 1;
        assert(out@ =~= after_count + contexts_bytes(a.contexts@.subrange(0, c as int)));
    }
    assert(a.contexts@.subrange(0, a.contexts@.len() as int) =~= a.contexts@);
    write_u32(&mut out, n as u32);
    let ghost before_states = out@;
    let ghost sv = a@.states;
    let mut j: usize = 0;
    while j < n
        invariant
            n == a@.states.len(),
            sv == a@.states,
            j <= n,
            forall|i2: int| 0 <= i2 < n ==> state_fits(#[trigger] sv[i2]),
            out@ == before_states + states_bytes(sv.subrange(0, j as int)),
        decreases n - j,
    {
        assert(sv[j as int] == a.states@[j as int]@);
        write_state(&mut out, &a.states[j]);
        assert(sv.subrange(0, j + 1).drop_last() =~= sv.subrange(0, j as int));
        j += 1;
        assert(out@ =~= before_states + states_bytes(sv.subrange(0, j as int)));
    }
    assert(sv.subrange(0, n as int) =~= sv);
    assert(out@ =~= lexer_bytes(a@));
    Ok(out)
}

proof fn lemma_no_fault_from(states: Seq<StateView>, from: int, i: int)
    requires
        0 <= from <= i < states.len(),
        first_fault(states, from) is None,
    ensures
        state_fits(states[i]) && targets_exist(states[i], states.len() as int) && edges_disjoint(states[i]),
    decreases i - from,
{
    if from < i {
        lemma_no_fault_from(states, from + 1, i);
    }
}

/// The binary form depends on the automaton's content alone: two automata
/// with the same states, matches, transitions and contexts serialize to the
/// same bytes, or fail alike.
pub proof fn lemma_serialization_deterministic(a: AutomatonView, b: AutomatonView)
    requires
        a == b,
    ensures
        lexer_fault(a) == lexer_fault(b),
        lexer_bytes(a) == lexer_bytes(b),
{
}

} // verus!
