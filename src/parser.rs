//! Rows of the LR action table: how the candidate actions of a cell are
//! resolved (accept before shift before reduce, the earliest production
//! first), which cells are reported as conflicts, how generalized (RNGLR)
//! tables keep every action instead, and how a row is looked up.
use vstd::prelude::*;

verus! {

/// An action of an LR automaton
#[derive(Clone, Copy, Debug, PartialEq, Eq, Structural)]
pub enum LrAction {
    /// Shift the token and go to the state
    Shift {
        /// The index of the target state
        target: u32,
    },
    /// Reduce by the production
    Reduce {
        /// The index of the production
        production: u32,
    },
    /// Accept the input
    Accept,
    /// No action: the input is rejected
    Error,
}

/// The candidate actions for one terminal in one state
pub struct LrCell {
    /// The terminal
    pub terminal: u16,
    /// The actions that the items of the state call for, in the order found
    pub candidates: Vec<LrAction>,
}

/// The entry of a row of the action table for one terminal
pub struct LrEntry {
    /// The terminal
    pub terminal: u16,
    /// The actions: one for deterministic methods, possibly more for RNGLR
    pub actions: Vec<LrAction>,
}

/// The kinds of conflicts
#[derive(Clone, Copy, Debug, PartialEq, Eq, Structural)]
pub enum ConflictKind {
    /// A shift competes with a reduction
    ShiftReduce,
    /// Reductions (accepting counts as reducing the axiom) compete
    ReduceReduce,
}

/// A conflict reported on a cell of the table
#[derive(Clone, Copy, Debug, PartialEq, Eq, Structural)]
pub struct Conflict {
    /// The state of the cell
    pub state: u32,
    /// The terminal of the cell
    pub terminal: u16,
    /// The kind of conflict
    pub kind: ConflictKind,
    /// The target of the first shift among the cell's actions, if any
    pub shift_target: Option<u32>,
    /// The production of the first reduction among the cell's actions, if any
    pub reduce_production: Option<u32>,
}

/// The precedence of an action: accept, then shift, then reduce.
pub open spec fn rank(a: LrAction) -> int {
    match a {
        LrAction::Accept => 0,
        LrAction::Shift { .. } => 1,
        LrAction::Reduce { .. } => 2,
        LrAction::Error => 3,
    }
}

/// Whether `b` takes precedence over `a`: a better rank, or a reduction
/// by an earlier production.
pub open spec fn preferred(a: LrAction, b: LrAction) -> bool {
    rank(b) < rank(a) || (match (a, b) {
        (LrAction::Reduce { production: p }, LrAction::Reduce { production: q }) => q < p,
        _ => false,
    })
}

/// The action that a deterministic table keeps among the candidates: the
/// first of those with the best precedence.
pub open spec fn resolved(c: Seq<LrAction>) -> LrAction
    decreases c.len(),
{
    if c.len() == 0 {
        LrAction::Error
    } else if c.len() == 1 {
        c[0]
    } else if preferred(resolved(c.drop_last()), c.last()) {
        c.last()
    } else {
        resolved(c.drop_last())
    }
}

/// The candidates without repetition, in the order of their first
/// occurrence.
pub open spec fn distinct(c: Seq<LrAction>) -> Seq<LrAction>
    decreases c.len(),
{
    if c.len() == 0 {
        c
    } else if distinct(c.drop_last()).contains(c.last()) {
        distinct(c.drop_last())
    } else {
        distinct(c.drop_last()).push(c.last())
    }
}

/// Whether the cell holds two different actions.
pub open spec fn is_conflict(c: Seq<LrAction>) -> bool {
    distinct(c).len() > 1
}

/// The target of the first shift among the candidates, if any.
pub open spec fn first_shift(c: Seq<LrAction>) -> Option<u32>
    decreases c.len(),
{
    if c.len() == 0 {
        None
    } else {
        match c[0] {
            LrAction::Shift { target } => Some(target),
            _ => first_shift(c.drop_first()),
        }
    }
}

/// The production of the first reduction among the candidates, if any.
pub open spec fn first_reduce(c: Seq<LrAction>) -> Option<u32>
    decreases c.len(),
{
    if c.len() == 0 {
        None
    } else {
        match c[0] {
            LrAction::Reduce { production } => Some(production),
            _ => first_reduce(c.drop_first()),
        }
    }
}

/// The kind of conflict of a cell: shift-reduce when a shift is among
/// the candidates, else reduce-reduce.
pub open spec fn conflict_kind(c: Seq<LrAction>) -> ConflictKind {
    if first_shift(c) is Some {
        ConflictKind::ShiftReduce
    } else {
        ConflictKind::ReduceReduce
    }
}

/// The conflict reported on a cell of `state`: its terminal, its kind,
/// the shift and the reduction that compete in it.
pub open spec fn conflict_of(state: u32, cell: LrCell) -> Conflict {
    Conflict {
        state,
        terminal: cell.terminal,
        kind: conflict_kind(cell.candidates@),
        shift_target: first_shift(cell.candidates@),
        reduce_production: first_reduce(cell.candidates@),
    }
}

/// The conflicts of the first `n` cells of a state, in the cells' order.
pub open spec fn conflicts_of(state: u32, cells: Seq<LrCell>, n: int) -> Seq<Conflict>
    decreases n,
{
    if n <= 0 {
        Seq::<Conflict>::empty()
    } else if is_conflict(cells[n - 1].candidates@) {
        conflicts_of(state, cells, n - 1).push(conflict_of(state, cells[n - 1]))
    } else {
        conflicts_of(state, cells, n - 1)
    }
}

/// The number of cells, among the first `n`, with two different actions.
pub open spec fn ambiguous_cells(cells: Seq<LrCell>, n: int) -> int
    decreases n,
{
    if n <= 0 {
        0
    } else {
        ambiguous_cells(cells, n - 1) + if is_conflict(cells[n - 1].candidates@) { 1int } else { 0int }
    }
}

fn is_preferred(a: LrAction, b: LrAction) -> (r: bool)
    ensures
        r == preferred(a, b),
{
    let ra: u8 = match a {
        LrAction::Accept => 0,
        LrAction::Shift { .. } => 1,
        LrAction::Reduce { .. } => 2,
        LrAction::Error => 3,
    };
    let rb: u8 = match b {
        LrAction::Accept => 0,
        LrAction::Shift { .. } => 1,
        LrAction::Reduce { .. } => 2,
        LrAction::Error => 3,
    };
    rb < ra || match (a, b) {
        (LrAction::Reduce { production: p }, LrAction::Reduce { production: q }) => q < p,
        _ => false,
    }
}

/// The action that a deterministic table keeps for the candidates.
pub fn resolve(candidates: &Vec<LrAction>) -> (r: LrAction)
    ensures
        r == resolved(candidates@),
{
    if candidates.len() == 0 {
        return LrAction::Error;
    }
    let mut best = candidates[0];
    let mut i: usize = 1;
    assert(candidates@.subrange(0, 1) =~= seq![candidates@[0]]);
    while i < candidates.len()
        invariant
            1 <= i <= candidates@.len(),
            best == resolved(candidates@.subrange(0, i as int)),
        decreases candidates.len() - i,
    {
        let c = candidates[i];
        assert(candidates@.subrange(0, i + 1).drop_last() =~= candidates@.subrange(0, i as int));
        if is_preferred(best, c) {
            best = c;
        }
        i += 1;
    }
    assert(candidates@.subrange(0, candidates@.len() as int) =~= candidates@);
    best
}

/// The candidates without repetition, in the order of their first
/// occurrence.
pub fn distinct_actions(candidates: &Vec<LrAction>) -> (r: Vec<LrAction>)
    ensures
        r@ == distinct(candidates@),
{
    let mut r: Vec<LrAction> = Vec::new();
    let mut i: usize = 0;
    while i < candidates.len()
        invariant
            i <= candidates@.len(),
            r@ == distinct(candidates@.subrange(0, i as int)),
        decreases candidates.len() - i,
    {
        let c = candidates[i];
        let mut seen = false;
        let mut k: usize = 0;
        while k < r.len()
            invariant
                k <= r@.len(),
                seen == (exists|k2: int| 0 <= k2 < k && r@[k2] == c),
            decreases r.len() - k,
        {
            if r[k] == c {
                seen = true;
            }
            k += 1;
        }
        assert(seen == r@.contains(c));
        assert(candidates@.subrange(0, i + 1).drop_last() =~= candidates@.subrange(0, i as int));
        if !seen {
            r.push(c);
        }
        i += 1;
    }
    assert(candidates@.subrange(0, candidates@.len() as int) =~= candidates@);
    r
}

fn first_shift_exec(candidates: &Vec<LrAction>) -> (r: Option<u32>)
    ensures
        r == first_shift(candidates@),
{
    let mut i: usize = 0;
    assert(candidates@.subrange(0, candidates@.len() as int) =~= candidates@);
    while i < candidates.len()
        invariant
            i <= candidates@.len(),
            first_shift(candidates@) == first_shift(candidates@.subrange(i as int, candidates@.len() as int)),
        decreases candidates.len() - i,
    {
        let ghost rest = candidates@.subrange(i as int, candidates@.len() as int);
        if let LrAction::Shift { target } = candidates[i] {
            return Some(target);
        }
        assert(rest.drop_first() =~= candidates@.subrange(i + 1, candidates@.len() as int));
        i += 1;
    }
    None
}

fn first_reduce_exec(candidates: &Vec<LrAction>) -> (r: Option<u32>)
    ensures
        r == first_reduce(candidates@),
{
    let mut i: usize = 0;
    assert(candidates@.subrange(0, candidates@.len() as int) =~= candidates@);
    while i < candidates.len()
        invariant
            i <= candidates@.len(),
            first_reduce(candidates@) == first_reduce(candidates@.subrange(i as int, candidates@.len() as int)),
        decreases candidates.len() - i,
    {
        let ghost rest = candidates@.subrange(i as int, candidates@.len() as int);
        if let LrAction::Reduce { production } = candidates[i] {
            return Some(production);
        }
        assert(rest.drop_first() =~= candidates@.subrange(i + 1, candidates@.len() as int));
        i += 1;
    }
    None
}

/// The conflict reported on a cell.
fn cell_conflict(state: u32, cell: &LrCell) -> (r: Conflict)
    ensures
        r == conflict_of(state, *cell),
{
    let shift_target = first_shift_exec(&cell.candidates);
    let reduce_production = first_reduce_exec(&cell.candidates);
    let kind = if shift_target.is_some() {
        ConflictKind::ShiftReduce
    } else {
        ConflictKind::ReduceReduce
    };
    Conflict { state, terminal: cell.terminal, kind, shift_target, reduce_production }
}

proof fn lemma_distinct_not_empty(c: Seq<LrAction>)
    ensures
        c.len() > 0 ==> distinct(c).len() > 0,
    decreases c.len(),
{
    if c.len() > 0 {
        lemma_distinct_not_empty(c.drop_last());
    }
}

/// Builds the row of the action table of `state` from its cells. A
/// deterministic table (`generalized` false) keeps the preferred action of
/// each cell and reports each cell with two different actions as a
/// conflict, in the cells' order; a generalized (RNGLR) table keeps every
/// different action of each cell and reports nothing
pub fn build_row(state: u32, cells: &Vec<LrCell>, generalized: bool) -> (r: (Vec<LrEntry>, Vec<Conflict>))
    ensures
        r.0@.len() == cells@.len(),
        forall|i: int|
            0 <= i < cells@.len() ==> {
                &&& (#[trigger] r.0@[i]).terminal == cells@[i].terminal
                &&& generalized ==> r.0@[i].actions@ == distinct(cells@[i].candidates@)
                &&& !generalized ==> r.0@[i].actions@ == seq![resolved(cells@[i].candidates@)]
            },
        forall|i: int|
            0 <= i < cells@.len() && cells@[i].candidates@.len() > 0 ==> (#[trigger] r.0@[i]).actions@.len() > 0,
        generalized ==> r.1@.len() == 0,
        !generalized ==> r.1@ == conflicts_of(state, cells@, cells@.len() as int),
{
    let mut row: Vec<LrEntry> = Vec::new();
    let mut conflicts: Vec<Conflict> = Vec::new();
    let mut i: usize = 0;
    while i < cells.len()
        invariant
            i <= cells@.len(),
            row@.len() == i,
            forall|i2: int|
                0 <= i2 < i ==> {
                    &&& (#[trigger] row@[i2]).terminal == cells@[i2].terminal
                    &&& generalized ==> row@[i2].actions@ == distinct(cells@[i2].candidates@)
                    &&& !generalized ==> row@[i2].actions@ == seq![resolved(cells@[i2].candidates@)]
                },
            forall|i2: int|
                0 <= i2 < i && cells@[i2].candidates@.len() > 0 ==> (#[trigger] row@[i2]).actions@.len() > 0,
            generalized ==> conflicts@.len() == 0,
            !generalized ==> conflicts@ == conflicts_of(state, cells@, i as int),
        decreases cells.len() - i,
    {
        let cell = &cells[i];
        let actions = distinct_actions(&cell.candidates);
        proof {
            lemma_distinct_not_empty(cell.candidates@);
        }
        if generalized {
            row.push(LrEntry { terminal: cell.terminal, actions });
        } else {
            if actions.len() > 1 {
                conflicts.push(cell_conflict(state, cell));
            }
            let chosen = resolve(&cell.candidates);
            let mut one: Vec<LrAction> = Vec::new();
            one.push(chosen);
            assert(one@ =~= seq![resolved(cells@[i as int].candidates@)]);
            row.push(LrEntry { terminal: cell.terminal, actions: one });
        }
        i += 1;
    }
    (row, conflicts)
}

/// In a deterministic table, the conflicts reported for a state are
/// exactly its cells that have two different actions, one for each such
/// cell, and as many as there are such cells.
pub proof fn lemma_conflicts_match_cells(state: u32, cells: Seq<LrCell>, n: int)
    requires
        0 <= n <= cells.len(),
    ensures
        conflicts_of(state, cells, n).len() == ambiguous_cells(cells, n),
        forall|c: Conflict|
            #[trigger] conflicts_of(state, cells, n).contains(c) <==> exists|i: int|
                0 <= i < n && is_conflict(cells[i].candidates@) && c == conflict_of(state, cells[i]),
    decreases n,
{
    if n > 0 {
        lemma_conflicts_match_cells(state, cells, n - 1);
        let prev = conflicts_of(state, cells, n - 1);
        let x = conflict_of(state, cells[n - 1]);
        assert forall|c: Conflict|
            #[trigger] conflicts_of(state, cells, n).contains(c) <==> exists|i: int|
                0 <= i < n && is_conflict(cells[i].candidates@) && c == conflict_of(state, cells[i]) by {
            if is_conflict(cells[n - 1].candidates@) {
                assert(conflicts_of(state, cells, n) == prev.push(x));
                if prev.push(x).contains(c) {
                    let k = choose|k: int| 0 <= k < prev.push(x).len() && prev.push(x)[k] == c;
                    if k < prev.len() {
                        assert(prev.contains(c));
                    } else {
                        assert(c == x);
                    }
                }
                if exists|i: int|
                    0 <= i < n && is_conflict(cells[i].candidates@) && c == conflict_of(state, cells[i]) {
                    let i = choose|i: int|
                        0 <= i < n && is_conflict(cells[i].candidates@) && c == conflict_of(state, cells[i]);
                    if i < n - 1 {
                        assert(prev.contains(c));
                        let k = choose|k: int| 0 <= k < prev.len() && prev[k] == c;
                        assert(prev.push(x)[k] == c);
                    } else {
                        assert(prev.push(x)[prev.len() as int] == c);
                    }
                }
            } else {
                if exists|i: int|
                    0 <= i < n && is_conflict(cells[i].candidates@) && c == conflict_of(state, cells[i]) {
                    let i = choose|i: int|
                        0 <= i < n && is_conflict(cells[i].candidates@) && c == conflict_of(state, cells[i]);
                    assert(i < n - 1);
                }
            }
        }
    }
}

/// The actions of a row for a terminal: those of its first entry for the
/// terminal, else error alone.
pub open spec fn table_actions(row: Seq<LrEntry>, terminal: u16) -> Seq<LrAction>
    decreases row.len(),
{
    if row.len() == 0 {
        seq![LrAction::Error]
    } else if row[0].terminal == terminal {
        row[0].actions@
    } else {
        table_actions(row.drop_first(), terminal)
    }
}

/// The action table is total: for every terminal, a row yields the actions
/// of an entry for that terminal, or error when it has none; when no entry
/// is empty, no cell is left undefined.
pub proof fn lemma_table_total(row: Seq<LrEntry>, terminal: u16)
    ensures
        (exists|i: int| 0 <= i < row.len() && row[i].terminal == terminal && table_actions(row, terminal) == row[i].actions@)
            || ((forall|i: int| 0 <= i < row.len() ==> row[i].terminal != terminal) && table_actions(row, terminal) == seq![LrAction::Error]),
        (forall|i: int| 0 <= i < row.len() ==> (#[trigger] row[i]).actions@.len() > 0) ==> table_actions(row, terminal).len() > 0,
    decreases row.len(),
{
    if row.len() > 0 && row[0].terminal != terminal {
        let rest = row.drop_first();
        lemma_table_total(rest, terminal);
        if exists|i: int| 0 <= i < rest.len() && rest[i].terminal == terminal && table_actions(rest, terminal) == rest[i].actions@ {
            let i = choose|i: int| 0 <= i < rest.len() && rest[i].terminal == terminal && table_actions(rest, terminal) == rest[i].actions@;
            assert(row[i + 1] == rest[i]);
        } else {
            assert forall|i: int| 0 <= i < row.len() implies row[i].terminal != terminal by {
                if i > 0 {
                    assert(row[i] == rest[i - 1]);
                }
            }
        }
        if forall|i: int| 0 <= i < row.len() ==> (#[trigger] row[i]).actions@.len() > 0 {
            assert forall|i: int| 0 <= i < rest.len() implies (#[trigger] rest[i]).actions@.len() > 0 by {
                assert(rest[i] == row[i + 1]);
            }
        }
    } else if row.len() > 0 {
        assert(row[0].terminal == terminal);
    }
}

/// Looks up the actions of a row for a terminal: those of the first entry
/// for the terminal, else error alone
pub fn actions_for(row: &Vec<LrEntry>, terminal: u16) -> (r: Vec<LrAction>)
    ensures
        r@ == table_actions(row@, terminal),
{
    let mut i: usize = 0;
    assert(row@.subrange(0, row@.len() as int) =~= row@);
    while i < row.len()
        invariant
            i <= row@.len(),
            table_actions(row@, terminal) == table_actions(row@.subrange(i as int, row@.len() as int), terminal),
        decreases row.len() - i,
    {
        let ghost rest = row@.subrange(i as int, row@.len() as int);
        if row[i].terminal == terminal {
            let actions = &row[i].actions;
            let mut r: Vec<LrAction> = Vec::new();
            let mut k: usize = 0;
            while k < actions.len()
                invariant
                    k <= actions@.len(),
                    r@ == actions@.subrange(0, k as int),
                decreases actions.len() - k,
            {
                r.push(actions[k]);
                k += 1;
                assert(r@ =~= actions@.subrange(0, k as int));
            }
            assert(actions@.subrange(0, actions@.len() as int) =~= actions@);
            return r;
        }
        assert(rest.drop_first() =~= row@.subrange(i + 1, row@.len() as int));
        i += 1;
    }
    let mut r: Vec<LrAction> = Vec::new();
    r.push(LrAction::Error);
    assert(r@ =~= seq![LrAction::Error]);
    r
}

/// Reports the ambiguities of a row of a generalized (RNGLR) table as
/// warnings: one for each cell with two different actions, in the cells'
/// order
pub fn row_ambiguities(state: u32, cells: &Vec<LrCell>) -> (r: Vec<Conflict>)
    ensures
        r@ == conflicts_of(state, cells@, cells@.len() as int),
{
    let mut warnings: Vec<Conflict> = Vec::new();
    let mut i: usize = 0;
    while i < cells.len()
        invariant
            i <= cells@.len(),
            warnings@ == conflicts_of(state, cells@, i as int),
        decreases cells.len() - i,
    {
        let cell = &cells[i];
        let actions = distinct_actions(&cell.candidates);
        if actions.len() > 1 {
            warnings.push(cell_conflict(state, cell));
        }
        i += 1;
    }
    warnings
}

/// The number of entries, among the first `n` of a row, that keep more than
/// one action.
pub open spec fn multi_action_entries(row: Seq<LrEntry>, n: int) -> int
    decreases n,
{
    if n <= 0 {
        0
    } else {
        multi_action_entries(row, n - 1) + if row[n - 1].actions@.len() > 1 { 1int } else { 0int }
    }
}

/// In a generalized table, the entries that keep more than one action are
/// exactly as many as the ambiguities reported for the row.
pub proof fn lemma_generalized_entries_match_ambiguities(state: u32, cells: Seq<LrCell>, row: Seq<LrEntry>)
    requires
        row.len() == cells.len(),
        forall|i: int| 0 <= i < cells.len() ==> (#[trigger] row[i]).actions@ == distinct(cells[i].candidates@),
    ensures
        multi_action_entries(row, row.len() as int) == conflicts_of(state, cells, cells.len() as int).len(),
{
    lemma_conflicts_match_cells(state, cells, cells.len() as int);
    lemma_multi_action_entries(cells, row, row.len() as int);
}

proof fn lemma_multi_action_entries(cells: Seq<LrCell>, row: Seq<LrEntry>, n: int)
    requires
        0 <= n <= row.len() == cells.len(),
        forall|i: int| 0 <= i < cells.len() ==> (#[trigger] row[i]).actions@ == distinct(cells[i].candidates@),
    ensures
        multi_action_entries(row, n) == ambiguous_cells(cells, n),
    decreases n,
{
    if n > 0 {
        lemma_multi_action_entries(cells, row, n - 1);
        assert(row[n - 1].actions@ == distinct(cells[n - 1].candidates@));
    }
}

} // verus!
