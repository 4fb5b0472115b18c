//! What the emitters read of a grammar, and the lines they write for each
//! symbol of its lists.
use vstd::prelude::*;

use crate::text::{
    dec_text, escaped_quotes, hex_text, lower_camel_text, push_dec, push_escaped_quotes, push_hex, push_lower_camel,
    push_upper_camel, push_upper_case, upper_camel_text, upper_case_text,
};

verus! {

/// A grammar symbol as the emitters see it
pub struct Symbol {
    /// The symbol's unique identifier
    pub id: u32,
    /// The symbol's name
    pub name: String,
    /// The symbol's value as written in the grammar (for a terminal, the
    /// text it matches when that is fixed, else its definition)
    pub value: String,
}

/// What the emitters read of a grammar
pub struct Grammar {
    /// The grammar's name
    pub name: String,
    /// The names of the lexical contexts; the first is the default one
    pub contexts: Vec<String>,
    /// The terminals, in declaration order
    pub terminals: Vec<Symbol>,
    /// The variables, in the automaton's order
    pub variables: Vec<Symbol>,
    /// The virtual symbols, in the automaton's order
    pub virtuals: Vec<Symbol>,
    /// The semantic actions, in the automaton's order
    pub actions: Vec<Symbol>,
}

/// The parsing methods
#[derive(Clone, Copy, Debug, PartialEq, Eq, Structural)]
pub enum ParsingMethod {
    /// The LR(0) parsing method
    LR0,
    /// The LR(1) parsing method
    LR1,
    /// The LALR(1) parsing method
    LALR1,
    /// The RNGLR parsing method based on an LR(1) automaton
    RNGLR1,
    /// The RNGLR parsing method based on an LALR(1) automaton
    RNGLALR1,
}

impl ParsingMethod {
    /// Whether the method yields a generalized (RNGLR) parser.
    pub open spec fn spec_is_rnglr(&self) -> bool {
        *self == ParsingMethod::RNGLR1 || *self == ParsingMethod::RNGLALR1
    }

    /// Gets whether this method is a RNGLR method
    pub fn is_rnglr(&self) -> (r: bool)
        ensures
            r == self.spec_is_rnglr(),
    {
        match self {
            ParsingMethod::RNGLR1 | ParsingMethod::RNGLALR1 => true,
            _ => false,
        }
    }
}

/// The access modifier of generated code
#[derive(Clone, Copy, Debug, PartialEq, Eq, Structural)]
pub enum Modifier {
    /// Public access
    Public,
    /// Access restricted to the assembly or package
    Internal,
}

/// Whether `name` starts with `__` followed by `marker`: generated terminals
/// (for inline literals) are named `__T...`, generated variables `__V...`.
pub open spec fn is_generated(name: Seq<char>, marker: char) -> bool {
    name.len() >= 3 && name[0] == '_' && name[1] == '_' && name[2] == marker
}

/// The first terminal of `terminals` whose identifier is `id`.
pub open spec fn find_terminal(terminals: Seq<Symbol>, id: u32) -> Option<Symbol>
    decreases terminals.len(),
{
    if terminals.len() == 0 {
        None
    } else if terminals[0].id == id {
        Some(terminals[0])
    } else {
        find_terminal(terminals.drop_first(), id)
    }
}

impl Grammar {
    /// Gets the terminal with the given identifier
    pub fn get_terminal(&self, sid: u32) -> (r: Option<&Symbol>)
        ensures
            match r {
                Some(t) => find_terminal(self.terminals@, sid) == Some(*t),
                None => find_terminal(self.terminals@, sid) is None,
            },
    {
        let mut i: usize = 0;
        assert(self.terminals@.subrange(0, self.terminals@.len() as int) =~= self.terminals@);
        while i < self.terminals.len()
            invariant
                i <= self.terminals@.len(),
                find_terminal(self.terminals@, sid) == find_terminal(
                    self.terminals@.subrange(i as int, self.terminals@.len() as int),
                    sid,
                ),
            decreases self.terminals.len() - i,
        {
            let ghost rest = self.terminals@.subrange(i as int, self.terminals@.len() as int);
            if self.terminals[i].id == sid {
                return Some(&self.terminals[i]);
            }
            assert(rest.drop_first() =~= self.terminals@.subrange(i + 1, self.terminals@.len() as int));
            i += 1;
        }
        None
    }
}

/// The kind of a line that the emitter writes for each symbol of a list
#[derive(Clone, Copy, Debug, PartialEq, Eq, Structural)]
pub enum RowKind {
    /// A member of the enumeration of identifiers, for a variable
    VariableId,
    /// A member of the enumeration of identifiers, for a virtual
    VirtualId,
    /// An entry of the table of variables or virtuals
    SymbolEntry,
    /// An entry of the table of semantic actions, from an object
    ActionEntry,
    /// An entry of the table of semantic actions, from a record
    ActionMapEntry,
    /// A method of the class of semantic actions
    ActionMethod,
    /// A case of the visitor's dispatch, for a terminal
    TerminalCase,
    /// A case of the visitor's dispatch, for a variable
    VariableCase,
    /// A case of the visitor's dispatch, for a virtual
    VirtualCase,
    /// A method of the default visitor, for a terminal
    TerminalVisit,
    /// A method of the default visitor, for a variable
    VariableVisit,
    /// A method of the default visitor, for a virtual
    VirtualVisit,
    /// An entry of the TypeScript lexer's table of terminals
    LexerEntry,
    /// A member of the TypeScript lexer's enumeration of terminals
    LexerTerminalId,
    /// An entry of the Java lexer's table of terminals
    JavaLexerEntry,
    /// A constant of the Java lexer's class of terminal identifiers
    JavaTerminalId,
}

/// Whether the rows of this kind leave out generated symbols: terminals
/// for `'T'`, variables for `'V'`.
pub open spec fn skipped(sym: Symbol, kind: RowKind) -> bool {
    match kind {
        RowKind::VariableId | RowKind::VariableCase | RowKind::VariableVisit => is_generated(sym.name@, 'V'),
        RowKind::TerminalCase
        | RowKind::TerminalVisit
        | RowKind::LexerTerminalId
        | RowKind::JavaTerminalId => is_generated(sym.name@, 'T'),
        _ => false,
    }
}

/// The text written for the symbol `sym`, at position `index` of its list.
pub open spec fn row(sym: Symbol, index: int, kind: RowKind) -> Seq<char> {
    if skipped(sym, kind) {
        Seq::<char>::empty()
    } else {
        match kind {
            RowKind::VariableId => Seq::<char>::empty() + "    /**\n"@
                + "     * The unique identifier for variable "@ + sym.name@ + "\n"@ + "     */\n"@
                + "    Variable"@ + upper_camel_text(sym.name@) + " = 0x"@ + hex_text(sym.id as nat)
                + ",\n"@,
            RowKind::VirtualId => Seq::<char>::empty() + "    /**\n"@
                + "     * The unique identifier for virtual "@ + sym.name@ + "\n"@ + "     */\n"@
                + "    Virtual"@ + upper_camel_text(sym.name@) + " = 0x"@ + hex_text(sym.id as nat) + ",\n"@,
            RowKind::SymbolEntry => Seq::<char>::empty() + "    new GSymbol(0x"@ + hex_text(sym.id as nat)
                + ", '"@ + sym.name@ + "'),\n"@,
            RowKind::ActionEntry => Seq::<char>::empty() + "    result["@ + dec_text(index as nat)
                + "] = input."@ + lower_camel_text(sym.name@) + "\n"@,
            RowKind::ActionMapEntry => Seq::<char>::empty() + "    result["@ + dec_text(index as nat)
                + "] = input['"@ + lower_camel_text(sym.name@) + "']!\n"@,
            RowKind::ActionMethod => Seq::<char>::empty() + "    /**\n"@ + "     * The "@ + sym.name@
                + " semantic action\n"@ + "     */\n"@ + "    "@ + lower_camel_text(sym.name@)
                + "(_: GSymbol, __: SemanticBody): void { }\n"@,
            RowKind::TerminalCase => Seq::<char>::empty() + "      case 0x"@ + hex_text(sym.id as nat)
                + ": visitor.onTerminal"@ + upper_camel_text(sym.name@) + "(node); break;\n"@,
            RowKind::VariableCase => Seq::<char>::empty() + "      case 0x"@ + hex_text(sym.id as nat)
                + ": visitor.onVariable"@ + upper_camel_text(sym.name@) + "(node); break;\n"@,
            RowKind::VirtualCase => Seq::<char>::empty() + "      case 0x"@ + hex_text(sym.id as nat)
                + ": visitor.onVirtual"@ + upper_camel_text(sym.name@) + "(node); break;\n"@,
            RowKind::TerminalVisit => Seq::<char>::empty() + "    onTerminal"@ + upper_camel_text(sym.name@)
                + "(_: ASTNode): void { }\n"@,
            RowKind::VariableVisit => Seq::<char>::empty() + "    onVariable"@ + upper_camel_text(sym.name@)
                + "(_: ASTNode): void { }\n"@,
            RowKind::VirtualVisit => Seq::<char>::empty() + "    onVirtual"@ + upper_camel_text(sym.name@)
                + "(_: ASTNode): void { }\n"@,
            RowKind::LexerEntry => Seq::<char>::empty() + "    new GSymbol(0x"@ + hex_text(sym.id as nat)
                + ", '"@ + sym.value@ + "'),\n"@,
            RowKind::LexerTerminalId => Seq::<char>::empty() + "    /**\n"@
                + "     * The unique identifier for terminal "@ + sym.name@ + "\n"@ + "     */\n"@
                + "    Terminal"@ + upper_camel_text(sym.name@) + " = 0x"@ + hex_text(sym.id as nat) + ",\n"@,
            RowKind::JavaLexerEntry => Seq::<char>::empty() + ",\n"@ + "        "@ + "new Symbol(0x"@
                + hex_text(sym.id as nat) + ", \""@ + escaped_quotes(sym.value@) + "\")"@,
            RowKind::JavaTerminalId => Seq::<char>::empty() + "        /**\n"@
                + "         * The unique identifier for terminal "@ + sym.name@ + "\n"@ + "         */\n"@
                + "        public static final int TERMINAL_"@ + upper_case_text(sym.name@) + " = 0x"@
                + hex_text(sym.id as nat) + ";\n"@,
        }
    }
}

/// The rows written for a list of symbols, in order.
pub open spec fn rows(symbols: Seq<Symbol>, kind: RowKind) -> Seq<char>
    decreases symbols.len(),
{
    if symbols.len() == 0 {
        Seq::<char>::empty()
    } else {
        rows(symbols.drop_last(), kind) + row(symbols.last(), symbols.len() - 1, kind)
    }
}

/// The rows written for the expected terminals, in order; an identifier
/// that names no terminal writes nothing.
pub open spec fn terminal_rows(terminals: Seq<Symbol>, expected: Seq<u32>, kind: RowKind) -> Seq<char>
    decreases expected.len(),
{
    if expected.len() == 0 {
        Seq::<char>::empty()
    } else {
        terminal_rows(terminals, expected.drop_last(), kind) + match find_terminal(terminals, expected.last()) {
            None => Seq::<char>::empty(),
            Some(t) => row(t, 0, kind),
        }
    }
}

/// Whether `name` starts with `__` followed by `marker`.
fn is_generated_name(name: &String, marker: char) -> (r: bool)
    ensures
        r == is_generated(name@, marker),
{
    let s = name.as_str();
    let n = s.unicode_len();
    n >= 3 && s.get_char(0) == '_' && s.get_char(1) == '_' && s.get_char(2) == marker
}

fn skipped_exec(sym: &Symbol, kind: RowKind) -> (r: bool)
    ensures
        r == skipped(*sym, kind),
{
    match kind {
        RowKind::VariableId | RowKind::VariableCase | RowKind::VariableVisit => is_generated_name(&sym.name, 'V'),
        RowKind::TerminalCase
        | RowKind::TerminalVisit
        | RowKind::LexerTerminalId
        | RowKind::JavaTerminalId => is_generated_name(&sym.name, 'T'),
        _ => false,
    }
}

/// The text written for one symbol.
fn row_text(sym: &Symbol, index: usize, kind: RowKind) -> (t: String)
    ensures
        t@ == row(*sym, index as int, kind),
{
    let mut t = String::new();
    if skipped_exec(sym, kind) {
        return t;
    }
    match kind {
        RowKind::VariableId => {
            t.append("    /**\n");
            t.append("     * The unique identifier for variable ");
            t.append(sym.name.as_str());
            t.append("\n");
            t.append("     */\n");
            t.append("    Variable");
            push_upper_camel(&mut t, &sym.name);
            t.append(" = 0x");
            push_hex(&mut t, sym.id as u64);
            t.append(",\n");
        },
        RowKind::VirtualId => {
            t.append("    /**\n");
            t.append("     * The unique identifier for virtual ");
            t.append(sym.name.as_str());
            t.append("\n");
            t.append("     */\n");
            t.append("    Virtual");
            push_upper_camel(&mut t, &sym.name);
            t.append(" = 0x");
            push_hex(&mut t, sym.id as u64);
            t.append(",\n");
        },
        RowKind::SymbolEntry => {
            t.append("    new GSymbol(0x");
            push_hex(&mut t, sym.id as u64);
            t.append(", '");
            t.append(sym.name.as_str());
            t.append("'),\n");
        },
        RowKind::ActionEntry => {
            t.append("    result[");
            push_dec(&mut t, index);
            t.append("] = input.");
            push_lower_camel(&mut t, &sym.name);
            t.append("\n");
        },
        RowKind::ActionMapEntry => {
            t.append("    result[");
            push_dec(&mut t, index);
            t.append("] = input['");
            push_lower_camel(&mut t, &sym.name);
            t.append("']!\n");
        },
        RowKind::ActionMethod => {
            t.append("    /**\n");
            t.append("     * The ");
            t.append(sym.name.as_str());
            t.append(" semantic action\n");
            t.append("     */\n");
            t.append("    ");
            push_lower_camel(&mut t, &sym.name);
            t.append("(_: GSymbol, __: SemanticBody): void { }\n");
        },
        RowKind::TerminalCase => {
            t.append("      case 0x");
            push_hex(&mut t, sym.id as u64);
            t.append(": visitor.onTerminal");
            push_upper_camel(&mut t, &sym.name);
            t.append("(node); break;\n");
        },
        RowKind::VariableCase => {
            t.append("      case 0x");
            push_hex(&mut t, sym.id as u64);
            t.append(": visitor.onVariable");
            push_upper_camel(&mut t, &sym.name);
            t.append("(node); break;\n");
        },
        RowKind::VirtualCase => {
            t.append("      case 0x");
            push_hex(&mut t, sym.id as u64);
            t.append(": visitor.onVirtual");
            push_upper_camel(&mut t, &sym.name);
            t.append("(node); break;\n");
        },
        RowKind::TerminalVisit => {
            t.append("    onTerminal");
            push_upper_camel(&mut t, &sym.name);
            t.append("(_: ASTNode): void { }\n");
        },
        RowKind::VariableVisit => {
            t.append("    onVariable");
            push_upper_camel(&mut t, &sym.name);
            t.append("(_: ASTNode): void { }\n");
        },
        RowKind::VirtualVisit => {
            t.append("    onVirtual");
            push_upper_camel(&mut t, &sym.name);
            t.append("(_: ASTNode): void { }\n");
        },
        RowKind::LexerEntry => {
            t.append("    new GSymbol(0x");
            push_hex(&mut t, sym.id as u64);
            t.append(", '");
            t.append(sym.value.as_str());
            t.append("'),\n");
        },
        RowKind::LexerTerminalId => {
            t.append("    /**\n");
            t.append("     * The unique identifier for terminal ");
            t.append(sym.name.as_str());
            t.append("\n");
            t.append("     */\n");
            t.append("    Terminal");
            push_upper_camel(&mut t, &sym.name);
            t.append(" = 0x");
            push_hex(&mut t, sym.id as u64);
            t.append(",\n");
        },
        RowKind::JavaLexerEntry => {
            t.append(",\n");
            t.append("        ");
            t.append("new Symbol(0x");
            push_hex(&mut t, sym.id as u64);
            t.append(", \"");
            push_escaped_quotes(&mut t, &sym.value);
            t.append("\")");
        },
        RowKind::JavaTerminalId => {
            t.append("        /**\n");
            t.append("         * The unique identifier for terminal ");
            t.append(sym.name.as_str());
            t.append("\n");
            t.append("         */\n");
            t.append("        public static final int TERMINAL_");
            push_upper_case(&mut t, &sym.name);
            t.append(" = 0x");
            push_hex(&mut t, sym.id as u64);
            t.append(";\n");
        },
    }
    t
}

/// Appends the rows for a list of symbols.
pub(crate) fn push_rows(t: &mut String, symbols: &Vec<Symbol>, kind: RowKind)
    ensures
        final(t)@ == old(t)@ + rows(symbols@, kind),
{
    let ghost start = t@;
    let mut i: usize = 0;
    while i < symbols.len()
        invariant
            i <= symbols@.len(),
            t@ == start + rows(symbols@.subrange(0, i as int), kind),
        decreases symbols.len() - i,
    {
        let r = row_text(&symbols[i], i, kind);
        t.append(r.as_str());
        proof {
            let next = symbols@.subrange(0, i + 1);
            assert(next.drop_last() =~= symbols@.subrange(0, i as int));
            assert(next.last() == symbols@[i as int]);
        }
        i += 1;
        assert(t@ =~= start + rows(symbols@.subrange(0, i as int), kind));
    }
    assert(symbols@.subrange(0, symbols@.len() as int) =~= symbols@);
}

/// Appends the rows for the expected terminals.
pub(crate) fn push_terminal_rows(t: &mut String, grammar: &Grammar, expected: &Vec<u32>, kind: RowKind)
    ensures
        final(t)@ == old(t)@ + terminal_rows(grammar.terminals@, expected@, kind),
{
    let ghost start = t@;
    let mut i: usize = 0;
    while i < expected.len()
        invariant
            i <= expected@.len(),
            t@ == start + terminal_rows(grammar.terminals@, expected@.subrange(0, i as int), kind),
        decreases expected.len() - i,
    {
        let ghost next = expected@.subrange(0, i + 1);
        assert(next.drop_last() =~= expected@.subrange(0, i as int));
        match grammar.get_terminal(expected[i]) {
            None => {
                assert(t@ =~= start + terminal_rows(grammar.terminals@, next, kind));
            },
            Some(terminal) => {
                let r = row_text(terminal, 0, kind);
                t.append(r.as_str());
                assert(t@ =~= start + terminal_rows(grammar.terminals@, next, kind));
            },
        }
        i += 1;
    }
    assert(expected@.subrange(0, expected@.len() as int) =~= expected@);
}


/// The text written for the context `name` at position `index`, in the
/// TypeScript lexer or in the Java one.
pub open spec fn context_row(name: Seq<char>, index: int, java: bool) -> Seq<char> {
    if java {
        Seq::<char>::empty() + "        /**\n"@ + "         * The unique identifier for context "@ + name + "\n"@
            + "         */\n"@ + "        public static final int "@ + upper_case_text(name) + " = 0x"@
            + hex_text(index as nat) + ";\n"@
    } else {
        Seq::<char>::empty() + "    /**\n"@ + "     * The unique identifier for context "@ + name + "\n"@
            + "     */\n"@ + "    "@ + upper_camel_text(name) + " = 0x"@ + hex_text(index as nat) + ",\n"@
    }
}

/// The rows for the contexts at positions `1..n`: the default context at
/// position 0 is written apart.
pub open spec fn context_rows(contexts: Seq<String>, n: int, java: bool) -> Seq<char>
    decreases n,
{
    if n <= 1 {
        Seq::<char>::empty()
    } else {
        context_rows(contexts, n - 1, java) + context_row(contexts[n - 1]@, n - 1, java)
    }
}

/// The expected terminals but the first two (ε and $), written apart.
pub open spec fn after_two(expected: Seq<u32>) -> Seq<u32> {
    if expected.len() >= 2 {
        expected.subrange(2, expected.len() as int)
    } else {
        Seq::<u32>::empty()
    }
}

pub(crate) fn after_two_exec(expected: &Vec<u32>) -> (r: Vec<u32>)
    ensures
        r@ == after_two(expected@),
{
    let mut r: Vec<u32> = Vec::new();
    let mut i: usize = 2;
    while i < expected.len()
        invariant
            2 <= i,
            expected@.len() >= 2 ==> i <= expected@.len(),
            expected@.len() >= 2 ==> r@ == expected@.subrange(2, i as int),
            expected@.len() < 2 ==> r@.len() == 0,
        decreases expected.len() - i,
    {
        r.push(expected[i]);
        i += 1;
        assert(r@ =~= expected@.subrange(2, i as int));
    }
    assert(expected@.len() < 2 ==> r@ =~= Seq::<u32>::empty());
    r
}

fn context_row_text(name: &String, index: usize, java: bool) -> (t: String)
    ensures
        t@ == context_row(name@, index as int, java),
{
    let mut t = String::new();
    if java {
        t.append("        /**\n");
        t.append("         * The unique identifier for context ");
        t.append(name.as_str());
        t.append("\n");
        t.append("         */\n");
        t.append("        public static final int ");
        push_upper_case(&mut t, name);
        t.append(" = 0x");
        push_hex(&mut t, index as u64);
        t.append(";\n");
    } else {
        t.append("    /**\n");
        t.append("     * The unique identifier for context ");
        t.append(name.as_str());
        t.append("\n");
        t.append("     */\n");
        t.append("    ");
        push_upper_camel(&mut t, name);
        t.append(" = 0x");
        push_hex(&mut t, index as u64);
        t.append(",\n");
    }
    t
}

/// Appends the rows for the contexts but the default one.
pub(crate) fn push_context_rows(t: &mut String, contexts: &Vec<String>, java: bool)
    ensures
        final(t)@ == old(t)@ + context_rows(contexts@, contexts@.len() as int, java),
{
    let ghost start = t@;
    let mut i: usize = 1;
    while i < contexts.len()
        invariant
            1 <= i,
            contexts@.len() >= 1 ==> i <= contexts@.len(),
            contexts@.len() == 0 ==> i == 1,
            t@ == start + context_rows(contexts@, i as int, java),
        decreases contexts.len() - i,
    {
        let r = context_row_text(&contexts[i], i, java);
        t.append(r.as_str());
        i += 1;
        assert(t@ =~= start + context_rows(contexts@, i as int, java));
    }
    proof {
        if contexts@.len() == 0 {
            assert(context_rows(contexts@, 1, java) == Seq::<char>::empty());
            assert(context_rows(contexts@, 0, java) == Seq::<char>::empty());
            assert(t@ =~= start + context_rows(contexts@, 0, java));
        } else {
            assert(i == contexts@.len());
        }
    }
}

/// The identifiers of contexts in generated lexers are their positions in
/// the grammar, the ones the automata use: the rows written for the
/// contexts hold, for each context at position `i >= 1`, its row with the
/// value `i`, in order.
pub proof fn lemma_context_rows_hold_each(contexts: Seq<String>, n: int, java: bool, i: int)
    requires
        1 <= i < n <= contexts.len(),
    ensures
        exists|before: Seq<char>, after: Seq<char>|
            context_rows(contexts, n, java) == before + context_row(contexts[i]@, i, java) + after,
    decreases n,
{
    let row = context_row(contexts[n - 1]@, n - 1, java);
    if i == n - 1 {
        assert(context_rows(contexts, n, java) == context_rows(contexts, n - 1, java) + row + Seq::<char>::empty());
    } else {
        lemma_context_rows_hold_each(contexts, n - 1, java, i);
        let (before, after) = choose|before: Seq<char>, after: Seq<char>|
            context_rows(contexts, n - 1, java) == before + context_row(contexts[i]@, i, java) + after;
        assert(context_rows(contexts, n, java) == before + context_row(contexts[i]@, i, java) + (after + row));
    }
}

} // verus!
