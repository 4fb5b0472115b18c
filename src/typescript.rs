//! Generation of the TypeScript sources of a lexer and a parser: the symbol
//! tables, the semantic actions, the constructors and the visitor, for the
//! automata that are serialized next to them.
use vstd::prelude::*;

use crate::grammar::{
    after_two, after_two_exec, context_rows, push_context_rows, push_rows, push_terminal_rows, rows, terminal_rows,
    find_terminal, Grammar, Modifier, ParsingMethod, RowKind,
};
use crate::text::{dec_text, hex_text, push_dec, push_hex, push_upper_camel, upper_camel_text};

verus! {

/// The enumeration of the identifiers of the variables and virtuals.
pub open spec fn symbols_code(grammar: Grammar, version: &str) -> Seq<char> {
    Seq::<char>::empty()
        + "  /**\n"@
        + "   * Contains the constant IDs for the variables and virtuals in this parser\n"@
        + "   *\n"@
        + "   * Hime.SDK "@
        + version@
        + "\n"@
        + "   */\n"@
        + "  export enum ID {\n"@
        + rows(grammar.variables@, RowKind::VariableId)
        + rows(grammar.virtuals@, RowKind::VirtualId)
        + "  }\n"@
}

/// Generates the code for the symbols
pub fn write_code_symbols(out: &mut String, grammar: &Grammar, version: &str)
    ensures
        final(out)@ == old(out)@ + symbols_code(*grammar, version),
{
    let mut t = String::new();
    t.append("  /**\n");
    t.append("   * Contains the constant IDs for the variables and virtuals in this parser\n");
    t.append("   *\n");
    t.append("   * Hime.SDK ");
    t.append(version);
    t.append("\n");
    t.append("   */\n");
    t.append("  export enum ID {\n");
    push_rows(&mut t, &grammar.variables, RowKind::VariableId);
    push_rows(&mut t, &grammar.virtuals, RowKind::VirtualId);
    t.append("  }\n");
    out.append(t.as_str());
}

/// The table of the variables.
pub open spec fn variables_code(grammar: Grammar) -> Seq<char> {
    Seq::<char>::empty()
        + "  /**\n"@
        + "   * The collection of variables matched by this parser\n"@
        + "   *\n"@
        + "   * @remarks\n"@
        + "   *\n"@
        + "   * The variables are in an order consistent with the automaton,\n"@
        + "   * so that variable indices in the automaton can be used to retrieve the variables in this table\n"@
        + "   */\n"@
        + "  static readonly variables: GSymbol[] = [\n"@
        + rows(grammar.variables@, RowKind::SymbolEntry)
        + "  ]\n"@
}

/// Generates the code for the variables
pub fn write_code_variables(out: &mut String, grammar: &Grammar)
    ensures
        final(out)@ == old(out)@ + variables_code(*grammar),
{
    let mut t = String::new();
    t.append("  /**\n");
    t.append("   * The collection of variables matched by this parser\n");
    t.append("   *\n");
    t.append("   * @remarks\n");
    t.append("   *\n");
    t.append("   * The variables are in an order consistent with the automaton,\n");
    t.append("   * so that variable indices in the automaton can be used to retrieve the variables in this table\n");
    t.append("   */\n");
    t.append("  static readonly variables: GSymbol[] = [\n");
    push_rows(&mut t, &grammar.variables, RowKind::SymbolEntry);
    t.append("  ]\n");
    out.append(t.as_str());
}

/// The table of the virtuals.
pub open spec fn virtuals_code(grammar: Grammar) -> Seq<char> {
    Seq::<char>::empty()
        + "  /**\n"@
        + "   * The collection of virtuals matched by this parser\n"@
        + "   *\n"@
        + "   *\n"@
        + "   * The virtuals are in an order consistent with the automaton,\n"@
        + "   * so that virtual indices in the automaton can be used to retrieve the virtuals in this table\n"@
        + "   */\n"@
        + "  private static readonly virtuals: GSymbol[] = [\n"@
        + rows(grammar.virtuals@, RowKind::SymbolEntry)
        + "  ]\n"@
}

/// Generates the code for the virtual symbols
pub fn write_code_virtuals(out: &mut String, grammar: &Grammar)
    ensures
        final(out)@ == old(out)@ + virtuals_code(*grammar),
{
    let mut t = String::new();
    t.append("  /**\n");
    t.append("   * The collection of virtuals matched by this parser\n");
    t.append("   *\n");
    t.append("   *\n");
    t.append("   * The virtuals are in an order consistent with the automaton,\n");
    t.append("   * so that virtual indices in the automaton can be used to retrieve the virtuals in this table\n");
    t.append("   */\n");
    t.append("  private static readonly virtuals: GSymbol[] = [\n");
    push_rows(&mut t, &grammar.virtuals, RowKind::SymbolEntry);
    t.append("  ]\n");
    out.append(t.as_str());
}

/// The functions that gather the semantic actions in a table; nothing without actions.
pub open spec fn get_actions_code(grammar: Grammar) -> Seq<char> {
    if grammar.actions@.len() == 0 {
        Seq::<char>::empty()
    } else {
        Seq::<char>::empty()
        + "  /**\n"@
        + "   * Gets the set of semantic actions in the form a table consistent with the automaton\n"@
        + "   *\n"@
        + "   * @param input - A set of semantic actions\n"@
        + "   */\n"@
        + "  private static getUserActions(input: "@
        + upper_camel_text(grammar.name@)
        + "Parser.Actions): SemanticAction[] {\n"@
        + "    const result = new Array<SemanticAction>("@
        + dec_text(grammar.actions@.len())
        + ")\n"@
        + rows(grammar.actions@, RowKind::ActionEntry)
        + "    return result\n"@
        + "  }\n"@
        + "  /**\n"@
        + "   * Gets the set of semantic actions in the form a table consistent with the automaton\n"@
        + "   *\n"@
        + "   * @param input - A set of semantic actions\n"@
        + "   */\n"@
        + "  private static getUserActionsFromMap(input: Record<string, SemanticAction>) {\n"@
        + "    const result = new Array<SemanticAction>("@
        + dec_text(grammar.actions@.len())
        + ")\n"@
        + rows(grammar.actions@, RowKind::ActionMapEntry)
        + "    return result\n"@
        + "  }\n"@
    }
}

/// Generates the code for the functions of the semantic actions getting
pub fn write_code_get_actions(out: &mut String, grammar: &Grammar)
    ensures
        final(out)@ == old(out)@ + get_actions_code(*grammar),
{
    if grammar.actions.len() == 0 {
        assert(old(out)@ + Seq::<char>::empty() =~= old(out)@);
        return;
    }
    let mut t = String::new();
    t.append("  /**\n");
    t.append("   * Gets the set of semantic actions in the form a table consistent with the automaton\n");
    t.append("   *\n");
    t.append("   * @param input - A set of semantic actions\n");
    t.append("   */\n");
    t.append("  private static getUserActions(input: ");
    push_upper_camel(&mut t, &grammar.name);
    t.append("Parser.Actions): SemanticAction[] {\n");
    t.append("    const result = new Array<SemanticAction>(");
    push_dec(&mut t, grammar.actions.len());
    t.append(")\n");
    push_rows(&mut t, &grammar.actions, RowKind::ActionEntry);
    t.append("    return result\n");
    t.append("  }\n");
    t.append("  /**\n");
    t.append("   * Gets the set of semantic actions in the form a table consistent with the automaton\n");
    t.append("   *\n");
    t.append("   * @param input - A set of semantic actions\n");
    t.append("   */\n");
    t.append("  private static getUserActionsFromMap(input: Record<string, SemanticAction>) {\n");
    t.append("    const result = new Array<SemanticAction>(");
    push_dec(&mut t, grammar.actions.len());
    t.append(")\n");
    push_rows(&mut t, &grammar.actions, RowKind::ActionMapEntry);
    t.append("    return result\n");
    t.append("  }\n");
    out.append(t.as_str());
}

/// The class of the semantic actions; nothing without actions.
pub open spec fn actions_code(grammar: Grammar) -> Seq<char> {
    if grammar.actions@.len() == 0 {
        Seq::<char>::empty()
    } else {
        Seq::<char>::empty()
        + "\n"@
        + "  /**\n"@
        + "   * Represents a set of semantic actions in this parser\n"@
        + "   */\n"@
        + "  export class Actions {\n"@
        + rows(grammar.actions@, RowKind::ActionMethod)
        + "  }\n"@
    }
}

/// Generates the code for the semantic actions
pub fn write_code_actions(out: &mut String, grammar: &Grammar)
    ensures
        final(out)@ == old(out)@ + actions_code(*grammar),
{
    if grammar.actions.len() == 0 {
        assert(old(out)@ + Seq::<char>::empty() =~= old(out)@);
        return;
    }
    let mut t = String::new();
    t.append("\n");
    t.append("  /**\n");
    t.append("   * Represents a set of semantic actions in this parser\n");
    t.append("   */\n");
    t.append("  export class Actions {\n");
    push_rows(&mut t, &grammar.actions, RowKind::ActionMethod);
    t.append("  }\n");
    out.append(t.as_str());
}

/// The constructors of the parser, and the functions that build one from text.
pub open spec fn constructors_code(grammar: Grammar, automaton_type: &str, bin_name: &str) -> Seq<char> {
    if grammar.actions@.len() == 0 {
        Seq::<char>::empty()
        + "\n"@
        + "  /**\n"@
        + "   * Initializes a new instance of the parser\n"@
        + "   *\n"@
        + "   * @param automaton - The parser's automaton\n"@
        + "   * @param actions - The set of semantic actions\n"@
        + "   * @param lexer - The input lexer\n"@
        + "   */\n"@
        + "  constructor(automaton: "@
        + automaton_type@
        + ", actions: SemanticAction[], lexer: "@
        + upper_camel_text(grammar.name@)
        + "Lexer) {\n"@
        + "    super(automaton, "@
        + upper_camel_text(grammar.name@)
        + "Parser.variables, "@
        + upper_camel_text(grammar.name@)
        + "Parser.virtuals, actions, lexer)\n"@
        + "  }\n"@
        + "\n"@
        + "  /**\n"@
        + "   * Initializes a new instance of the parser from string input\n"@
        + "   *\n"@
        + "   * @param input - The input\n"@
        + "   */\n"@
        + "  static async fromString(input: string) {\n"@
        + "    const lexer = await "@
        + upper_camel_text(grammar.name@)
        + "Lexer.fromString(input)\n"@
        + "    const buffer = await readFile('./"@
        + bin_name@
        + "')\n"@
        + "    const automaton = new "@
        + automaton_type@
        + "(BinaryReader.Create(buffer))\n"@
        + "    return new "@
        + upper_camel_text(grammar.name@)
        + "Parser(automaton, [], lexer)\n"@
        + "  }\n"@
    } else {
        Seq::<char>::empty()
        + "\n"@
        + "  /**\n"@
        + "   * Initializes a new instance of the parser\n"@
        + "   *\n"@
        + "   * @param automaton - The parser's automaton\n"@
        + "   * @param actions - The set of semantic actions\n"@
        + "   * @param lexer - The input lexer\n"@
        + "   */\n"@
        + "  constructor(automaton: "@
        + automaton_type@
        + ", actions: SemanticAction[], lexer: "@
        + upper_camel_text(grammar.name@)
        + "Lexer) {\n"@
        + "    super(automaton, "@
        + upper_camel_text(grammar.name@)
        + "Parser.variables, "@
        + upper_camel_text(grammar.name@)
        + "Parser.virtuals, actions, lexer)\n"@
        + "  }\n"@
        + "\n"@
        + "  /**\n"@
        + "   * Initializes a new instance of the parser from string input\n"@
        + "   *\n"@
        + "   * @param input - The input\n"@
        + "   */\n"@
        + "  static async fromString(input: string) {\n"@
        + "    const lexer = await "@
        + upper_camel_text(grammar.name@)
        + "Lexer.fromString(input)\n"@
        + "    const buffer = await readFile('./"@
        + bin_name@
        + "')\n"@
        + "    const automaton = new "@
        + automaton_type@
        + "(BinaryReader.Create(buffer))\n"@
        + "    return new "@
        + upper_camel_text(grammar.name@)
        + "Parser(automaton, this.getUserActions(new "@
        + upper_camel_text(grammar.name@)
        + "Parser.Actions()), lexer)\n"@
        + "  }\n"@
        + "\n"@
        + "  /**\n"@
        + "   * Initializes a new instance of the parser from string input with actions\n"@
        + "   *\n"@
        + "   * @param input - The input\n"@
        + "   * @param actions - The set of semantic actions\n"@
        + "   */\n"@
        + "  static async fromStringWithActions(input: string, actions: "@
        + upper_camel_text(grammar.name@)
        + "Parser.Actions) {\n"@
        + "    const lexer = await "@
        + upper_camel_text(grammar.name@)
        + "Lexer.fromString(input)\n"@
        + "    const buffer = await readFile('./"@
        + bin_name@
        + "')\n"@
        + "    const automaton = new "@
        + automaton_type@
        + "(BinaryReader.Create(buffer))\n"@
        + "    return new "@
        + upper_camel_text(grammar.name@)
        + "Parser(automaton, this.getUserActions(actions), lexer)\n"@
        + "  }\n"@
        + "\n"@
        + "  /**\n"@
        + "   * Initializes a new instance of the parser from string input with actions\n"@
        + "   *\n"@
        + "   * @param input - The input\n"@
        + "   * @param actions - The set of semantic actions\n"@
        + "   */\n"@
        + "  static async fromStringWithActionMap(input: string, actions: Record<string, SemanticAction>) {\n"@
        + "    const lexer = await "@
        + upper_camel_text(grammar.name@)
        + "Lexer.fromString(input)\n"@
        + "    const buffer = await readFile('./"@
        + bin_name@
        + "')\n"@
        + "    const automaton = new "@
        + automaton_type@
        + "(BinaryReader.Create(buffer))\n"@
        + "    return new "@
        + upper_camel_text(grammar.name@)
        + "Parser(automaton, this.getUserActionsFromMap(actions), lexer)\n"@
        + "  }\n"@
    }
}

/// Generates the code for the constructors
pub fn write_code_constructors(out: &mut String, grammar: &Grammar, automaton_type: &str, bin_name: &str)
    ensures
        final(out)@ == old(out)@ + constructors_code(*grammar, automaton_type, bin_name),
{
    let mut t = String::new();
    t.append("\n");
    t.append("  /**\n");
    t.append("   * Initializes a new instance of the parser\n");
    t.append("   *\n");
    t.append("   * @param automaton - The parser's automaton\n");
    t.append("   * @param actions - The set of semantic actions\n");
    t.append("   * @param lexer - The input lexer\n");
    t.append("   */\n");
    t.append("  constructor(automaton: ");
    t.append(automaton_type);
    t.append(", actions: SemanticAction[], lexer: ");
    push_upper_camel(&mut t, &grammar.name);
    t.append("Lexer) {\n");
    t.append("    super(automaton, ");
    push_upper_camel(&mut t, &grammar.name);
    t.append("Parser.variables, ");
    push_upper_camel(&mut t, &grammar.name);
    t.append("Parser.virtuals, actions, lexer)\n");
    t.append("  }\n");
    t.append("\n");
    if grammar.actions.len() == 0 {
        t.append("  /**\n");
        t.append("   * Initializes a new instance of the parser from string input\n");
        t.append("   *\n");
        t.append("   * @param input - The input\n");
        t.append("   */\n");
        t.append("  static async fromString(input: string) {\n");
        t.append("    const lexer = await ");
        push_upper_camel(&mut t, &grammar.name);
        t.append("Lexer.fromString(input)\n");
        t.append("    const buffer = await readFile('./");
        t.append(bin_name);
        t.append("')\n");
        t.append("    const automaton = new ");
        t.append(automaton_type);
        t.append("(BinaryReader.Create(buffer))\n");
        t.append("    return new ");
        push_upper_camel(&mut t, &grammar.name);
        t.append("Parser(automaton, [], lexer)\n");
        t.append("  }\n");
    } else {
        t.append("  /**\n");
        t.append("   * Initializes a new instance of the parser from string input\n");
        t.append("   *\n");
        t.append("   * @param input - The input\n");
        t.append("   */\n");
        t.append("  static async fromString(input: string) {\n");
        t.append("    const lexer = await ");
        push_upper_camel(&mut t, &grammar.name);
        t.append("Lexer.fromString(input)\n");
        t.append("    const buffer = await readFile('./");
        t.append(bin_name);
        t.append("')\n");
        t.append("    const automaton = new ");
        t.append(automaton_type);
        t.append("(BinaryReader.Create(buffer))\n");
        t.append("    return new ");
        push_upper_camel(&mut t, &grammar.name);
        t.append("Parser(automaton, this.getUserActions(new ");
        push_upper_camel(&mut t, &grammar.name);
        t.append("Parser.Actions()), lexer)\n");
        t.append("  }\n");
        t.append("\n");
        t.append("  /**\n");
        t.append("   * Initializes a new instance of the parser from string input with actions\n");
        t.append("   *\n");
        t.append("   * @param input - The input\n");
        t.append("   * @param actions - The set of semantic actions\n");
        t.append("   */\n");
        t.append("  static async fromStringWithActions(input: string, actions: ");
        push_upper_camel(&mut t, &grammar.name);
        t.append("Parser.Actions) {\n");
        t.append("    const lexer = await ");
        push_upper_camel(&mut t, &grammar.name);
        t.append("Lexer.fromString(input)\n");
        t.append("    const buffer = await readFile('./");
        t.append(bin_name);
        t.append("')\n");
        t.append("    const automaton = new ");
        t.append(automaton_type);
        t.append("(BinaryReader.Create(buffer))\n");
        t.append("    return new ");
        push_upper_camel(&mut t, &grammar.name);
        t.append("Parser(automaton, this.getUserActions(actions), lexer)\n");
        t.append("  }\n");
        t.append("\n");
        t.append("  /**\n");
        t.append("   * Initializes a new instance of the parser from string input with actions\n");
        t.append("   *\n");
        t.append("   * @param input - The input\n");
        t.append("   * @param actions - The set of semantic actions\n");
        t.append("   */\n");
        t.append("  static async fromStringWithActionMap(input: string, actions: Record<string, SemanticAction>) {\n");
        t.append("    const lexer = await ");
        push_upper_camel(&mut t, &grammar.name);
        t.append("Lexer.fromString(input)\n");
        t.append("    const buffer = await readFile('./");
        t.append(bin_name);
        t.append("')\n");
        t.append("    const automaton = new ");
        t.append(automaton_type);
        t.append("(BinaryReader.Create(buffer))\n");
        t.append("    return new ");
        push_upper_camel(&mut t, &grammar.name);
        t.append("Parser(automaton, this.getUserActionsFromMap(actions), lexer)\n");
        t.append("  }\n");
    }
    out.append(t.as_str());
}

/// The functions that walk a parse result with a visitor.
pub open spec fn visitor_result_code(grammar: Grammar, expected: Seq<u32>) -> Seq<char> {
    Seq::<char>::empty()
        + "\n"@
        + "  /**\n"@
        + "   * Walk the AST of a result using a visitor\n"@
        + "   * \n"@
        + "   * @param result - The parse result\n"@
        + "   * @param visitor - The visitor to use\n"@
        + "   */\n"@
        + "  static visit(result: ParseResult, visitor: "@
        + upper_camel_text(grammar.name@)
        + "Parser.Visitor): void {\n"@
        + "    this.visitASTNode(result.Root, visitor)\n"@
        + "  }\n"@
        + "\n"@
        + "  /**\n"@
        + "   * Walk the sub-AST from the specified node using a visitor\n"@
        + "   * \n"@
        + "   * @param node - The AST node to start from\n"@
        + "   * @param visitor - The visitor to use\n"@
        + "   */\n"@
        + "  static visitASTNode(node: ASTNode, visitor: "@
        + upper_camel_text(grammar.name@)
        + "Parser.Visitor): void {\n"@
        + "    for (let i = 0; i < node.Children.Count; ++i) {\n"@
        + "      this.visitASTNode(node.Children[i]!, visitor)\n"@
        + "    }\n"@
        + "    switch (node.Symbol.ID) {\n"@
        + terminal_rows(grammar.terminals@, expected, RowKind::TerminalCase)
        + rows(grammar.variables@, RowKind::VariableCase)
        + rows(grammar.virtuals@, RowKind::VirtualCase)
        + "    }\n"@
        + "  }\n"@
}

/// Generates the visitor for the parse result
pub fn write_code_visitor_result(out: &mut String, grammar: &Grammar, expected: &Vec<u32>)
    ensures
        final(out)@ == old(out)@ + visitor_result_code(*grammar, expected@),
{
    let mut t = String::new();
    t.append("\n");
    t.append("  /**\n");
    t.append("   * Walk the AST of a result using a visitor\n");
    t.append("   * \n");
    t.append("   * @param result - The parse result\n");
    t.append("   * @param visitor - The visitor to use\n");
    t.append("   */\n");
    t.append("  static visit(result: ParseResult, visitor: ");
    push_upper_camel(&mut t, &grammar.name);
    t.append("Parser.Visitor): void {\n");
    t.append("    this.visitASTNode(result.Root, visitor)\n");
    t.append("  }\n");
    t.append("\n");
    t.append("  /**\n");
    t.append("   * Walk the sub-AST from the specified node using a visitor\n");
    t.append("   * \n");
    t.append("   * @param node - The AST node to start from\n");
    t.append("   * @param visitor - The visitor to use\n");
    t.append("   */\n");
    t.append("  static visitASTNode(node: ASTNode, visitor: ");
    push_upper_camel(&mut t, &grammar.name);
    t.append("Parser.Visitor): void {\n");
    t.append("    for (let i = 0; i < node.Children.Count; ++i) {\n");
    t.append("      this.visitASTNode(node.Children[i]!, visitor)\n");
    t.append("    }\n");
    t.append("    switch (node.Symbol.ID) {\n");
    push_terminal_rows(&mut t, grammar, expected, RowKind::TerminalCase);
    push_rows(&mut t, &grammar.variables, RowKind::VariableCase);
    push_rows(&mut t, &grammar.virtuals, RowKind::VirtualCase);
    t.append("    }\n");
    t.append("  }\n");
    out.append(t.as_str());
}

/// The default visitor class.
pub open spec fn visitor_code(grammar: Grammar, expected: Seq<u32>) -> Seq<char> {
    Seq::<char>::empty()
        + "\n"@
        + "  /**\n"@
        + "   * Default visitor class\n"@
        + "   */\n"@
        + "  export class Visitor {\n"@
        + terminal_rows(grammar.terminals@, expected, RowKind::TerminalVisit)
        + rows(grammar.variables@, RowKind::VariableVisit)
        + rows(grammar.virtuals@, RowKind::VirtualVisit)
        + "  }\n"@
}

/// Generates the visitor
pub fn write_code_visitor(out: &mut String, grammar: &Grammar, expected: &Vec<u32>)
    ensures
        final(out)@ == old(out)@ + visitor_code(*grammar, expected@),
{
    let mut t = String::new();
    t.append("\n");
    t.append("  /**\n");
    t.append("   * Default visitor class\n");
    t.append("   */\n");
    t.append("  export class Visitor {\n");
    push_terminal_rows(&mut t, grammar, expected, RowKind::TerminalVisit);
    push_rows(&mut t, &grammar.variables, RowKind::VariableVisit);
    push_rows(&mut t, &grammar.virtuals, RowKind::VirtualVisit);
    t.append("  }\n");
    out.append(t.as_str());
}

/// The functions that print a parse result.
pub open spec fn utils_code() -> Seq<char> {
    Seq::<char>::empty()
        + "\n"@
        + "  /**\n"@
        + "   * Prints the result of the parsing\n"@
        + "   *\n"@
        + "   * @param result - The result of the parsing\n"@
        + "   */\n"@
        + "  static Print(result: ParseResult): void {\n"@
        + "    if (result.IsSuccess) {\n"@
        + "      const output: string[] = []\n"@
        + "      this.PrintNode(result.Root, new Array<boolean>(), output)\n"@
        + "      console.log(output.join(''))\n"@
        + "    }\n"@
        + "    else {\n"@
        + "      for (const err of result.Errors) {\n"@
        + "        console.log(err)\n"@
        + "      }\n"@
        + "    }\n"@
        + "  }\n"@
        + "\n"@
        + "  /**\n"@
        + "   * Prints the node of the parsing\n"@
        + "   *\n"@
        + "   * @param node - The node of the parsing\n"@
        + "   * @param crossings - The crossings flags\n"@
        + "   * @param output - The array of output lines\n"@
        + "   */\n"@
        + "  static PrintNode(node: ASTNode, crossings: boolean[], output: string[]): void {\n"@
        + "    const line: string[] = []\n"@
        + "    for (let i = 0; i < crossings.length - 1; ++i) {\n"@
        + "      line.push(crossings[i] ? '|   ' : '    ')\n"@
        + "    }\n"@
        + "    if (crossings.length > 0) {\n"@
        + "      line.push('+-> ')\n"@
        + "    }\n"@
        + "    line.push(node.toString())\n"@
        + "    line.push('\\n')\n"@
        + "    output.push(line.join(''))\n"@
        + "    for (let i = 0; i < node.Children.Count; ++i) {\n"@
        + "      const childCrossings = new Array<boolean>(crossings.length + 1)\n"@
        + "      ArrayCopy(crossings, 0, childCrossings, 0, crossings.length)\n"@
        + "      childCrossings[childCrossings.length - 1] = (i < node.Children.Count - 1)\n"@
        + "      this.PrintNode(node.Children[i]!, childCrossings, output)\n"@
        + "    }\n"@
        + "  }\n"@
}

/// Generates the code for the utils functions
pub fn write_code_utils(out: &mut String)
    ensures
        final(out)@ == old(out)@ + utils_code(),
{
    let mut t = String::new();
    t.append("\n");
    t.append("  /**\n");
    t.append("   * Prints the result of the parsing\n");
    t.append("   *\n");
    t.append("   * @param result - The result of the parsing\n");
    t.append("   */\n");
    t.append("  static Print(result: ParseResult): void {\n");
    t.append("    if (result.IsSuccess) {\n");
    t.append("      const output: string[] = []\n");
    t.append("      this.PrintNode(result.Root, new Array<boolean>(), output)\n");
    t.append("      console.log(output.join(''))\n");
    t.append("    }\n");
    t.append("    else {\n");
    t.append("      for (const err of result.Errors) {\n");
    t.append("        console.log(err)\n");
    t.append("      }\n");
    t.append("    }\n");
    t.append("  }\n");
    t.append("\n");
    t.append("  /**\n");
    t.append("   * Prints the node of the parsing\n");
    t.append("   *\n");
    t.append("   * @param node - The node of the parsing\n");
    t.append("   * @param crossings - The crossings flags\n");
    t.append("   * @param output - The array of output lines\n");
    t.append("   */\n");
    t.append("  static PrintNode(node: ASTNode, crossings: boolean[], output: string[]): void {\n");
    t.append("    const line: string[] = []\n");
    t.append("    for (let i = 0; i < crossings.length - 1; ++i) {\n");
    t.append("      line.push(crossings[i] ? '|   ' : '    ')\n");
    t.append("    }\n");
    t.append("    if (crossings.length > 0) {\n");
    t.append("      line.push('+-> ')\n");
    t.append("    }\n");
    t.append("    line.push(node.toString())\n");
    t.append("    line.push('\\n')\n");
    t.append("    output.push(line.join(''))\n");
    t.append("    for (let i = 0; i < node.Children.Count; ++i) {\n");
    t.append("      const childCrossings = new Array<boolean>(crossings.length + 1)\n");
    t.append("      ArrayCopy(crossings, 0, childCrossings, 0, crossings.length)\n");
    t.append("      childCrossings[childCrossings.length - 1] = (i < node.Children.Count - 1)\n");
    t.append("      this.PrintNode(node.Children[i]!, childCrossings, output)\n");
    t.append("    }\n");
    t.append("  }\n");
    out.append(t.as_str());
}

/// The TypeScript source of the parser of `grammar`.
pub open spec fn parser_code_text(
    grammar: Grammar,
    expected: Seq<u32>,
    version: &str,
    namespace: &str,
    modifier: &str,
    lexer_module: &str,
    parser_type: &str,
    automaton_type: &str,
    bin_name: &str,
) -> Seq<char> {
    Seq::<char>::empty()
        + "/*\n"@
        + " * WARNING: this file has been generated by\n"@
        + " * Hime Parser Generator "@
        + version@
        + "\n"@
        + " */\n"@
        + "\n"@
        + "import { readFile } from 'fs/promises'\n"@
        + "import {\n"@
        + "  ArrayCopy,\n"@
        + "  ASTNode,\n"@
        + "  BinaryReader,\n"@
        + "  GSymbol,\n"@
        + "  ParseResult,\n"@
        + "  "@
        + automaton_type@
        + ",\n"@
        + "  "@
        + parser_type@
        + ",\n"@
        + "  SemanticAction,\n"@
        + "  SemanticBody,\n"@
        + "} from 'hime-redist-ts'\n"@
        + "\n"@
        + "import { "@
        + upper_camel_text(grammar.name@)
        + "Lexer } from './"@
        + lexer_module@
        + ".lexer'\n"@
        + "/**\n"@
        + " * Represents a parser (namespace "@
        + namespace@
        + ")\n"@
        + " * @"@
        + modifier@
        + "\n"@
        + " *\n"@
        + " * Hime.SDK "@
        + version@
        + "\n"@
        + " */\n"@
        + "export class "@
        + upper_camel_text(grammar.name@)
        + "Parser extends "@
        + parser_type@
        + " {\n"@
        + variables_code(grammar)
        + virtuals_code(grammar)
        + get_actions_code(grammar)
        + visitor_result_code(grammar, expected)
        + constructors_code(grammar, automaton_type, bin_name)
        + utils_code()
        + "}\n"@
        + "\n"@
        + "export namespace "@
        + upper_camel_text(grammar.name@)
        + "Parser {\n"@
        + symbols_code(grammar, version)
        + actions_code(grammar)
        + visitor_code(grammar, expected)
        + "}\n"@
}

/// Appends the whole source once the names that depend on the options are
/// chosen.
fn write_parser_code(
    out: &mut String,
    grammar: &Grammar,
    expected: &Vec<u32>,
    version: &str,
    namespace: &str,
    modifier: &str,
    lexer_module: &str,
    parser_type: &str,
    automaton_type: &str,
    bin_name: &str,
)
    ensures
        final(out)@ == old(out)@ + parser_code_text(
            *grammar,
            expected@,
            version,
            namespace,
            modifier,
            lexer_module,
            parser_type,
            automaton_type,
            bin_name,
        ),
{
    let mut t = String::new();
    t.append("/*\n");
    t.append(" * WARNING: this file has been generated by\n");
    t.append(" * Hime Parser Generator ");
    t.append(version);
    t.append("\n");
    t.append(" */\n");
    t.append("\n");
    t.append("import { readFile } from 'fs/promises'\n");
    t.append("import {\n");
    t.append("  ArrayCopy,\n");
    t.append("  ASTNode,\n");
    t.append("  BinaryReader,\n");
    t.append("  GSymbol,\n");
    t.append("  ParseResult,\n");
    t.append("  ");
    t.append(automaton_type);
    t.append(",\n");
    t.append("  ");
    t.append(parser_type);
    t.append(",\n");
    t.append("  SemanticAction,\n");
    t.append("  SemanticBody,\n");
    t.append("} from 'hime-redist-ts'\n");
    t.append("\n");
    t.append("import { ");
    push_upper_camel(&mut t, &grammar.name);
    t.append("Lexer } from './");
    t.append(lexer_module);
    t.append(".lexer'\n");
    t.append("/**\n");
    t.append(" * Represents a parser (namespace ");
    t.append(namespace);
    t.append(")\n");
    t.append(" * @");
    t.append(modifier);
    t.append("\n");
    t.append(" *\n");
    t.append(" * Hime.SDK ");
    t.append(version);
    t.append("\n");
    t.append(" */\n");
    t.append("export class ");
    push_upper_camel(&mut t, &grammar.name);
    t.append("Parser extends ");
    t.append(parser_type);
    t.append(" {\n");
    write_code_variables(&mut t, grammar);
    write_code_virtuals(&mut t, grammar);
    write_code_get_actions(&mut t, grammar);
    write_code_visitor_result(&mut t, grammar, expected);
    write_code_constructors(&mut t, grammar, automaton_type, bin_name);
    write_code_utils(&mut t);
    t.append("}\n");
    t.append("\n");
    t.append("export namespace ");
    push_upper_camel(&mut t, &grammar.name);
    t.append("Parser {\n");
    write_code_symbols(&mut t, grammar, version);
    write_code_actions(&mut t, grammar);
    write_code_visitor(&mut t, grammar, expected);
    t.append("}\n");
    out.append(t.as_str());
}


/// The TypeScript source of the parser of `grammar` for `method`.
pub open spec fn parser_code_spec(
    grammar: Grammar,
    expected: Seq<u32>,
    method: ParsingMethod,
    namespace: &str,
    modifier: Modifier,
    version: &str,
    lexer_module: &str,
    bin_name: &str,
) -> Seq<char> {
    parser_code_text(
        grammar,
        expected,
        version,
        namespace,
        match modifier {
            Modifier::Public => "public",
            Modifier::Internal => "internal",
        },
        lexer_module,
        if method.spec_is_rnglr() { "RNGLRParser" } else { "LRkParser" },
        if method.spec_is_rnglr() { "RNGLRAutomaton" } else { "LRkAutomaton" },
        bin_name,
    )
}

/// Generates the TypeScript source of the parser of `grammar`, where
/// `expected` lists the identifiers of the terminals the parser expects,
/// `lexer_module` names the module of the lexer and `bin_name` the file of
/// the serialized automaton
pub fn parser_code(
    grammar: &Grammar,
    expected: &Vec<u32>,
    method: ParsingMethod,
    namespace: &str,
    modifier: Modifier,
    version: &str,
    lexer_module: &str,
    bin_name: &str,
) -> (r: String)
    ensures
        r@ == parser_code_spec(*grammar, expected@, method, namespace, modifier, version, lexer_module, bin_name),
{
    let modifier_text = match modifier {
        Modifier::Public => "public",
        Modifier::Internal => "internal",
    };
    let (parser_type, automaton_type) = if method.is_rnglr() {
        ("RNGLRParser", "RNGLRAutomaton")
    } else {
        ("LRkParser", "LRkAutomaton")
    };
    let mut out = String::new();
    write_parser_code(
        &mut out,
        grammar,
        expected,
        version,
        namespace,
        modifier_text,
        lexer_module,
        parser_type,
        automaton_type,
        bin_name,
    );
    assert(out@ =~= parser_code_spec(*grammar, expected@, method, namespace, modifier, version, lexer_module, bin_name));
    out
}


/// The TypeScript source of the lexer of `grammar`.
pub open spec fn lexer_typescript_text(
    grammar: Grammar,
    expected: Seq<u32>,
    separator: u32,
    version: &str,
    namespace: &str,
    modifier: &str,
    base_lexer: &str,
    bin_name: &str,
) -> Seq<char> {
    Seq::<char>::empty()
        + "/*\n"@
        + " * WARNING: this file has been generated by\n"@
        + " * Hime Parser Generator "@
        + version@
        + "\n"@
        + " */\n"@
        + "\n"@
        + "import { readFile } from 'fs/promises'\n"@
        + "import {\n"@
        + "  Automaton,\n"@
        + "  BinaryReader,\n"@
        + "  "@
        + base_lexer@
        + ",\n"@
        + "  GSymbol,\n"@
        + "} from 'hime-redist-ts'\n"@
        + "\n"@
        + "/**\n"@
        + " * Represents a lexer (namespace "@
        + namespace@
        + ")\n"@
        + " * @"@
        + modifier@
        + "\n"@
        + " *\n"@
        + " * Hime.SDK "@
        + version@
        + "\n"@
        + " */\n"@
        + "export class "@
        + upper_camel_text(grammar.name@)
        + "Lexer extends "@
        + base_lexer@
        + " {\n"@
        + "  /**\n"@
        + "   * The collection of terminals matched by this lexer\n"@
        + "   *\n"@
        + "   * @remarks\n"@
        + "   *\n"@
        + "   * The terminals are in an order consistent with the automaton,\n"@
        + "   * so that terminal indices in the automaton can be used to retrieve the terminals in this table\n"@
        + "   */\n"@
        + "  private static readonly terminals = [\n"@
        + "    new GSymbol(0x0001, 'ε'),\n"@
        + "    new GSymbol(0x0002, '$'),\n"@
        + terminal_rows(grammar.terminals@, after_two(expected), RowKind::LexerEntry)
        + "  ]\n"@
        + "  /**\n"@
        + "   * Initializes a new instance of the lexer\n"@
        + "   *\n"@
        + "   * Hime.SDK "@
        + version@
        + "\n"@
        + "   *\n"@
        + "   * @param input - The lexer's input\n"@
        + "   */\n"@
        + "  static async fromString(input: string) {\n"@
        + "    const buffer = await readFile('./"@
        + bin_name@
        + "')\n"@
        + "    const automaton = new Automaton(BinaryReader.Create(buffer))\n"@
        + "    return new "@
        + upper_camel_text(grammar.name@)
        + "Lexer(automaton, this.terminals, 0x"@
        + hex_text(separator as nat)
        + ", input)\n"@
        + "  }\n"@
        + "}\n"@
        + "\n"@
        + "export namespace "@
        + upper_camel_text(grammar.name@)
        + "Lexer {\n"@
        + "  /**\n"@
        + "   * Contains the constant IDs for the terminals for this lexer\n"@
        + "   *\n"@
        + "   * Hime.SDK "@
        + version@
        + "\n"@
        + "   */\n"@
        + "  export enum ID {\n"@
        + terminal_rows(grammar.terminals@, after_two(expected), RowKind::LexerTerminalId)
        + "  }\n"@
        + "  /**\n"@
        + "   * Contains the constant IDs for the contexts for this lexer\n"@
        + "   *\n"@
        + "   * Hime.SDK "@
        + version@
        + "\n"@
        + "   */\n"@
        + "  export enum Context {\n"@
        + "    /**\n"@
        + "     * The unique identifier for the default context\n"@
        + "     */\n"@
        + "    Default = 0,\n"@
        + context_rows(grammar.contexts@, grammar.contexts@.len() as int, false)
        + "  }\n"@
        + "}\n"@
}

/// Appends the source once the names that depend on the options are chosen.
fn write_lexer_typescript(
    out: &mut String,
    grammar: &Grammar,
    expected: &Vec<u32>,
    separator: u32,
    version: &str,
    namespace: &str,
    modifier: &str,
    base_lexer: &str,
    bin_name: &str,
)
    ensures
        final(out)@ == old(out)@ + lexer_typescript_text(*grammar, expected@, separator, version, namespace, modifier, base_lexer, bin_name),
{
    let rest = after_two_exec(expected);
    let mut t = String::new();
    t.append("/*\n");
    t.append(" * WARNING: this file has been generated by\n");
    t.append(" * Hime Parser Generator ");
    t.append(version);
    t.append("\n");
    t.append(" */\n");
    t.append("\n");
    t.append("import { readFile } from 'fs/promises'\n");
    t.append("import {\n");
    t.append("  Automaton,\n");
    t.append("  BinaryReader,\n");
    t.append("  ");
    t.append(base_lexer);
    t.append(",\n");
    t.append("  GSymbol,\n");
    t.append("} from 'hime-redist-ts'\n");
    t.append("\n");
    t.append("/**\n");
    t.append(" * Represents a lexer (namespace ");
    t.append(namespace);
    t.append(")\n");
    t.append(" * @");
    t.append(modifier);
    t.append("\n");
    t.append(" *\n");
    t.append(" * Hime.SDK ");
    t.append(version);
    t.append("\n");
    t.append(" */\n");
    t.append("export class ");
    push_upper_camel(&mut t, &grammar.name);
    t.append("Lexer extends ");
    t.append(base_lexer);
    t.append(" {\n");
    t.append("  /**\n");
    t.append("   * The collection of terminals matched by this lexer\n");
    t.append("   *\n");
    t.append("   * @remarks\n");
    t.append("   *\n");
    t.append("   * The terminals are in an order consistent with the automaton,\n");
    t.append("   * so that terminal indices in the automaton can be used to retrieve the terminals in this table\n");
    t.append("   */\n");
    t.append("  private static readonly terminals = [\n");
    t.append("    new GSymbol(0x0001, 'ε'),\n");
    t.append("    new GSymbol(0x0002, '$'),\n");
    push_terminal_rows(&mut t, grammar, &rest, RowKind::LexerEntry);
    t.append("  ]\n");
    t.append("  /**\n");
    t.append("   * Initializes a new instance of the lexer\n");
    t.append("   *\n");
    t.append("   * Hime.SDK ");
    t.append(version);
    t.append("\n");
    t.append("   *\n");
    t.append("   * @param input - The lexer's input\n");
    t.append("   */\n");
    t.append("  static async fromString(input: string) {\n");
    t.append("    const buffer = await readFile('./");
    t.append(bin_name);
    t.append("')\n");
    t.append("    const automaton = new Automaton(BinaryReader.Create(buffer))\n");
    t.append("    return new ");
    push_upper_camel(&mut t, &grammar.name);
    t.append("Lexer(automaton, this.terminals, 0x");
    push_hex(&mut t, separator as u64);
    t.append(", input)\n");
    t.append("  }\n");
    t.append("}\n");
    t.append("\n");
    t.append("export namespace ");
    push_upper_camel(&mut t, &grammar.name);
    t.append("Lexer {\n");
    t.append("  /**\n");
    t.append("   * Contains the constant IDs for the terminals for this lexer\n");
    t.append("   *\n");
    t.append("   * Hime.SDK ");
    t.append(version);
    t.append("\n");
    t.append("   */\n");
    t.append("  export enum ID {\n");
    push_terminal_rows(&mut t, grammar, &rest, RowKind::LexerTerminalId);
    t.append("  }\n");
    t.append("  /**\n");
    t.append("   * Contains the constant IDs for the contexts for this lexer\n");
    t.append("   *\n");
    t.append("   * Hime.SDK ");
    t.append(version);
    t.append("\n");
    t.append("   */\n");
    t.append("  export enum Context {\n");
    t.append("    /**\n");
    t.append("     * The unique identifier for the default context\n");
    t.append("     */\n");
    t.append("    Default = 0,\n");
    push_context_rows(&mut t, &grammar.contexts, false);
    t.append("  }\n");
    t.append("}\n");
    out.append(t.as_str());
}

/// The TypeScript source of the lexer of `grammar`, as the options choose
/// the names in it.
pub open spec fn lexer_typescript_spec(
    grammar: Grammar,
    expected: Seq<u32>,
    separator: Option<u32>,
    namespace: &str,
    modifier: Modifier,
    version: &str,
    bin_name: &str,
) -> Seq<char> {
    lexer_typescript_text(
        grammar,
        expected,
        match separator {
            Some(id) => id,
            None => 0xFFFF,
        },
        version,
        namespace,
        match modifier {
            Modifier::Public => "public",
            Modifier::Internal => "internal",
        },
        if grammar.contexts@.len() > 1 { "ContextSensitiveLexer" } else { "ContextFreeLexer" },
        bin_name,
    )
}

/// Generates the TypeScript source of the lexer of `grammar`, where
/// `expected` lists the identifiers of the terminals (ε and $ first),
/// `separator` is the identifier of the separator terminal if there is one
/// and `bin_name` names the file of the serialized automaton
pub fn lexer_typescript_code(
    grammar: &Grammar,
    expected: &Vec<u32>,
    separator: Option<u32>,
    namespace: &str,
    modifier: Modifier,
    version: &str,
    bin_name: &str,
) -> (r: String)
    requires
        forall|k: int| 2 <= k < expected@.len() ==> find_terminal(grammar.terminals@, #[trigger] expected@[k]) is Some,
    ensures
        r@ == lexer_typescript_spec(*grammar, expected@, separator, namespace, modifier, version, bin_name),
{
    let separator_id = match separator {
        Some(id) => id,
        None => 0xFFFF,
    };
    let modifier_text = match modifier {
        Modifier::Public => "public",
        Modifier::Internal => "internal",
    };
    let base_lexer = if grammar.contexts.len() > 1 {
        "ContextSensitiveLexer"
    } else {
        "ContextFreeLexer"
    };
    let mut out = String::new();
    write_lexer_typescript(&mut out, grammar, expected, separator_id, version, namespace, modifier_text, base_lexer, bin_name);
    assert(out@ =~= lexer_typescript_spec(*grammar, expected@, separator, namespace, modifier, version, bin_name));
    out
}

} // verus!
