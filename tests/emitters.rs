use hime_output::grammar::{Grammar, Modifier, ParsingMethod, Symbol};
use hime_output::java::lexer_java_code;
use hime_output::typescript::{
    lexer_typescript_code, parser_code, write_code_actions, write_code_get_actions, write_code_symbols,
    write_code_utils, write_code_variables, write_code_virtuals, write_code_visitor,
};

fn symbol(id: u32, name: &str, value: &str) -> Symbol {
    Symbol { id, name: name.to_string(), value: value.to_string() }
}

fn sample() -> Grammar {
    Grammar {
        name: "math_exp".to_string(),
        contexts: vec!["default".to_string(), "inner_text".to_string()],
        terminals: vec![symbol(3, "NUMBER", "NUMBER"), symbol(4, "__T4", "+"), symbol(0x12345, "QUOTE", "\"q\"")],
        variables: vec![symbol(5, "exp", "exp"), symbol(6, "__VAxiom", "__VAxiom")],
        virtuals: vec![symbol(7, "range", "range")],
        actions: vec![symbol(8, "on_number", "on_number"), symbol(9, "OnPlus", "OnPlus")],
    }
}

fn no_actions() -> Grammar {
    let mut g = sample();
    g.actions = Vec::new();
    g
}

#[test]
fn variables_table() {
    let mut out = String::new();
    write_code_variables(&mut out, &sample());
    assert_eq!(
        out,
        "  /**\n   * The collection of variables matched by this parser\n   *\n   * @remarks\n   *\n   * The variables are in an order consistent with the automaton,\n   * so that variable indices in the automaton can be used to retrieve the variables in this table\n   */\n  static readonly variables: GSymbol[] = [\n    new GSymbol(0x0005, 'exp'),\n    new GSymbol(0x0006, '__VAxiom'),\n  ]\n"
    );
}

#[test]
fn virtuals_table() {
    let mut out = String::new();
    write_code_virtuals(&mut out, &sample());
    assert!(out.ends_with("  private static readonly virtuals: GSymbol[] = [\n    new GSymbol(0x0007, 'range'),\n  ]\n"));
}

#[test]
fn symbol_identifiers_skip_generated_variables() {
    let mut out = String::new();
    write_code_symbols(&mut out, &sample(), "4.4.0");
    assert_eq!(
        out,
        "  /**\n   * Contains the constant IDs for the variables and virtuals in this parser\n   *\n   * Hime.SDK 4.4.0\n   */\n  export enum ID {\n    /**\n     * The unique identifier for variable exp\n     */\n    VariableExp = 0x0005,\n    /**\n     * The unique identifier for virtual range\n     */\n    VirtualRange = 0x0007,\n  }\n"
    );
}

#[test]
fn user_actions_tables() {
    let mut out = String::new();
    write_code_get_actions(&mut out, &sample());
    assert!(out.contains("  private static getUserActions(input: MathExpParser.Actions): SemanticAction[] {\n    const result = new Array<SemanticAction>(2)\n    result[0] = input.onNumber\n    result[1] = input.onPlus\n    return result\n  }\n"));
    assert!(out.contains("    result[0] = input['onNumber']!\n    result[1] = input['onPlus']!\n"));
    let mut none = String::from("x");
    write_code_get_actions(&mut none, &no_actions());
    assert_eq!(none, "x");
}

#[test]
fn actions_class() {
    let mut out = String::new();
    write_code_actions(&mut out, &sample());
    assert_eq!(
        out,
        "\n  /**\n   * Represents a set of semantic actions in this parser\n   */\n  export class Actions {\n    /**\n     * The on_number semantic action\n     */\n    onNumber(_: GSymbol, __: SemanticBody): void { }\n    /**\n     * The OnPlus semantic action\n     */\n    onPlus(_: GSymbol, __: SemanticBody): void { }\n  }\n"
    );
    let mut none = String::new();
    write_code_actions(&mut none, &no_actions());
    assert_eq!(none, "");
}

#[test]
fn default_visitor() {
    let mut out = String::new();
    write_code_visitor(&mut out, &sample(), &vec![1, 2, 3, 4, 0x12345, 99]);
    assert_eq!(
        out,
        "\n  /**\n   * Default visitor class\n   */\n  export class Visitor {\n    onTerminalNumber(_: ASTNode): void { }\n    onTerminalQuote(_: ASTNode): void { }\n    onVariableExp(_: ASTNode): void { }\n    onVirtualRange(_: ASTNode): void { }\n  }\n"
    );
}

#[test]
fn utils_functions() {
    let mut out = String::new();
    write_code_utils(&mut out);
    assert!(out.starts_with("\n  /**\n   * Prints the result of the parsing\n"));
    assert!(out.contains("    line.push('\\n')\n"));
    assert!(out.ends_with("      this.PrintNode(node.Children[i]!, childCrossings, output)\n    }\n  }\n"));
}

#[test]
fn parser_for_lalr() {
    let code = parser_code(&sample(), &vec![1, 2, 3, 4], ParsingMethod::LALR1, "math", Modifier::Public, "4.4.0", "math-exp", "math-exp.parser.bin");
    assert!(code.starts_with("/*\n * WARNING: this file has been generated by\n * Hime Parser Generator 4.4.0\n */\n\nimport { readFile } from 'fs/promises'\n"));
    assert!(code.contains("  LRkAutomaton,\n  LRkParser,\n"));
    assert!(code.contains("import { MathExpLexer } from './math-exp.lexer'\n/**\n * Represents a parser (namespace math)\n * @public\n"));
    assert!(code.contains("export class MathExpParser extends LRkParser {\n"));
    assert!(code.contains("      case 0x0003: visitor.onTerminalNumber(node); break;\n      case 0x0005: visitor.onVariableExp(node); break;\n      case 0x0007: visitor.onVirtualRange(node); break;\n"));
    assert!(code.contains("    const buffer = await readFile('./math-exp.parser.bin')\n"));
    assert!(code.contains("    return new MathExpParser(automaton, this.getUserActionsFromMap(actions), lexer)\n"));
    let mut renamed = sample();
    renamed.name = "json_doc".to_string();
    let other = parser_code(&renamed, &vec![1, 2], ParsingMethod::LALR1, "j", Modifier::Public, "4.4.0", "json-doc", "j.bin");
    assert!(other.contains("  static async fromStringWithActions(input: string, actions: JsonDocParser.Actions) {\n"));
    assert!(!other.contains("MathExp"));
    assert!(code.ends_with("    onVirtualRange(_: ASTNode): void { }\n  }\n}\n"));
}

#[test]
fn parser_for_rnglr_without_actions() {
    let code = parser_code(&no_actions(), &vec![1, 2], ParsingMethod::RNGLALR1, "m", Modifier::Internal, "1.0", "g", "g.bin");
    assert!(code.contains("  RNGLRAutomaton,\n  RNGLRParser,\n"));
    assert!(code.contains(" * @internal\n"));
    assert!(code.contains("    return new MathExpParser(automaton, [], lexer)\n"));
    assert!(!code.contains("getUserActions"));
}

#[test]
fn typescript_lexer() {
    let code = lexer_typescript_code(&sample(), &vec![1, 2, 3, 4, 0x12345], Some(3), "math", Modifier::Public, "4.4.0", "lexer.bin");
    assert!(code.contains("  ContextSensitiveLexer,\n"));
    assert!(code.contains("    new GSymbol(0x0001, '\u{3b5}'),\n    new GSymbol(0x0002, '$'),\n    new GSymbol(0x0003, 'NUMBER'),\n    new GSymbol(0x0004, '+'),\n    new GSymbol(0x12345, '\"q\"'),\n  ]\n"));
    assert!(code.contains("    return new MathExpLexer(automaton, this.terminals, 0x0003, input)\n"));
    assert!(code.contains("    TerminalNumber = 0x0003,\n"));
    assert!(!code.contains("Terminal__T4"));
    assert!(code.ends_with("    Default = 0,\n    /**\n     * The unique identifier for context inner_text\n     */\n    InnerText = 0x0001,\n  }\n}\n"));
}

#[test]
fn java_lexer() {
    let mut g = sample();
    g.contexts = vec!["default".to_string()];
    let code = lexer_java_code(&g, &vec![1, 2, 3, 0x12345], None, "org.math", Modifier::Internal, "4.4.0", "lexer.bin");
    assert!(code.contains("package org.math;\n"));
    assert!(code.contains("import fr.cenotelie.hime.redist.lexer.ContextFreeLexer;\n"));
    assert!(code.contains("\nclass MathExpLexer extends ContextFreeLexer {\n"));
    assert!(code.contains("Automaton.find(MathExpLexer.class, \"lexer.bin\");\n"));
    assert!(code.contains("        public static final int TERMINAL_QUOTE = 0x12345;\n"));
    assert!(code.contains("        new Symbol(0x0002, \"$\"),\n        new Symbol(0x0003, \"NUMBER\"),\n        new Symbol(0x12345, \"\\\"q\\\"\") };\n"));
    assert!(code.contains("        super(commonAutomaton, terminals, 0xFFFF, input);\n"));
    assert!(code.contains("        public static final int DEFAULT = 0;\n    }\n"));
}

#[test]
fn action_indices_in_decimal() {
    let mut g = sample();
    g.actions = (0..12).map(|i| symbol(100 + i, &format!("act_{i}"), "")).collect();
    let mut out = String::new();
    write_code_get_actions(&mut out, &g);
    assert!(out.contains("    const result = new Array<SemanticAction>(12)\n"));
    assert!(out.contains("    result[9] = input.act9\n    result[10] = input.act10\n    result[11] = input.act11\n"));
}
