//! Generation of the Java source of a lexer: the identifiers of its
//! terminals and contexts, and its table of terminals, for the automaton
//! that is serialized next to it.
use vstd::prelude::*;

use crate::grammar::{after_two, after_two_exec, context_rows, find_terminal, push_context_rows, push_terminal_rows, terminal_rows, Grammar, Modifier, RowKind};
use crate::text::{hex_text, push_hex, push_upper_camel, upper_camel_text};

verus! {

/// The Java source of the lexer of `grammar`.
pub open spec fn lexer_java_text(
    grammar: Grammar,
    expected: Seq<u32>,
    separator: u32,
    version: &str,
    namespace: &str,
    modifier: &str,
    base_lexer: &str,
    bin_name: &str,
) -> Seq<char> {
    Seq::<char>::empty()
        + "/*\n"@
        + " * WARNING: this file has been generated by\n"@
        + " * Hime Parser Generator "@
        + version@
        + "\n"@
        + " */\n"@
        + "\n"@
        + "package "@
        + namespace@
        + ";\n"@
        + "\n"@
        + "import fr.cenotelie.hime.redist.Symbol;\n"@
        + "import fr.cenotelie.hime.redist.lexer.Automaton;\n"@
        + "import fr.cenotelie.hime.redist.lexer."@
        + base_lexer@
        + ";\n"@
        + "\n"@
        + "import java.io.InputStreamReader;\n"@
        + "\n"@
        + "/**\n"@
        + " * Represents a lexer\n"@
        + " */\n"@
        + modifier@
        + "class "@
        + upper_camel_text(grammar.name@)
        + "Lexer extends "@
        + base_lexer@
        + " {\n"@
        + "    /**\n"@
        + "     * The automaton for this lexer\n"@
        + "     */\n"@
        + "    private static final Automaton commonAutomaton = Automaton.find("@
        + upper_camel_text(grammar.name@)
        + "Lexer.class, \""@
        + bin_name@
        + "\");\n"@
        + "    /**\n"@
        + "     * Contains the constant IDs for the terminals for this lexer\n"@
        + "     */\n"@
        + "    public static class ID {\n"@
        + terminal_rows(grammar.terminals@, after_two(expected), RowKind::JavaTerminalId)
        + "    }\n"@
        + "    /**\n"@
        + "     * Contains the constant IDs for the contexts for this lexer\n"@
        + "     */\n"@
        + "    public static class Context {\n"@
        + "        /**\n"@
        + "         * The unique identifier for the default context\n"@
        + "         */\n"@
        + "        public static final int DEFAULT = 0;\n"@
        + context_rows(grammar.contexts@, grammar.contexts@.len() as int, true)
        + "    }\n"@
        + "    /**\n"@
        + "     * The collection of terminals matched by this lexer\n"@
        + "     *\n"@
        + "     * The terminals are in an order consistent with the automaton,\n"@
        + "     * so that terminal indices in the automaton can be used to retrieve the terminals in this table\n"@
        + "     */\n"@
        + "    private static final Symbol[] terminals = {\n"@
        + "        new Symbol(0x0001, \"ε\"),\n"@
        + "        new Symbol(0x0002, \"$\")"@
        + terminal_rows(grammar.terminals@, after_two(expected), RowKind::JavaLexerEntry)
        + " };\n"@
        + "    /**\n"@
        + "     * Initializes a new instance of the lexer\n"@
        + "     *\n"@
        + "     * @param input The lexer's input\n"@
        + "     */\n"@
        + "    public "@
        + upper_camel_text(grammar.name@)
        + "Lexer(String input) {\n"@
        + "        super(commonAutomaton, terminals, 0x"@
        + hex_text(separator as nat)
        + ", input);\n"@
        + "    }\n"@
        + "    /**\n"@
        + "     * Initializes a new instance of the lexer\n"@
        + "     *\n"@
        + "     * @param input The lexer's input\n"@
        + "     */\n"@
        + "    public "@
        + upper_camel_text(grammar.name@)
        + "Lexer(InputStreamReader input) {\n"@
        + "        super(commonAutomaton, terminals, 0x"@
        + hex_text(separator as nat)
        + ", input);\n"@
        + "    }\n"@
        + "}\n"@
}

/// Appends the source once the names that depend on the options are chosen.
fn write_lexer_java(
    out: &mut String,
    grammar: &Grammar,
    expected: &Vec<u32>,
    separator: u32,
    version: &str,
    namespace: &str,
    modifier: &str,
    base_lexer: &str,
    bin_name: &str,
)
    ensures
        final(out)@ == old(out)@ + lexer_java_text(*grammar, expected@, separator, version, namespace, modifier, base_lexer, bin_name),
{
    let rest = after_two_exec(expected);
    let mut t = String::new();
    t.append("/*\n");
    t.append(" * WARNING: this file has been generated by\n");
    t.append(" * Hime Parser Generator ");
    t.append(version);
    t.append("\n");
    t.append(" */\n");
    t.append("\n");
    t.append("package ");
    t.append(namespace);
    t.append(";\n");
    t.append("\n");
    t.append("import fr.cenotelie.hime.redist.Symbol;\n");
    t.append("import fr.cenotelie.hime.redist.lexer.Automaton;\n");
    t.append("import fr.cenotelie.hime.redist.lexer.");
    t.append(base_lexer);
    t.append(";\n");
    t.append("\n");
    t.append("import java.io.InputStreamReader;\n");
    t.append("\n");
    t.append("/**\n");
    t.append(" * Represents a lexer\n");
    t.append(" */\n");
    t.append(modifier);
    t.append("class ");
    push_upper_camel(&mut t, &grammar.name);
    t.append("Lexer extends ");
    t.append(base_lexer);
    t.append(" {\n");
    t.append("    /**\n");
    t.append("     * The automaton for this lexer\n");
    t.append("     */\n");
    t.append("    private static final Automaton commonAutomaton = Automaton.find(");
    push_upper_camel(&mut t, &grammar.name);
    t.append("Lexer.class, \"");
    t.append(bin_name);
    t.append("\");\n");
    t.append("    /**\n");
    t.append("     * Contains the constant IDs for the terminals for this lexer\n");
    t.append("     */\n");
    t.append("    public static class ID {\n");
    push_terminal_rows(&mut t, grammar, &rest, RowKind::JavaTerminalId);
    t.append("    }\n");
    t.append("    /**\n");
    t.append("     * Contains the constant IDs for the contexts for this lexer\n");
    t.append("     */\n");
    t.append("    public static class Context {\n");
    t.append("        /**\n");
    t.append("         * The unique identifier for the default context\n");
    t.append("         */\n");
    t.append("        public static final int DEFAULT = 0;\n");
    push_context_rows(&mut t, &grammar.contexts, true);
    t.append("    }\n");
    t.append("    /**\n");
    t.append("     * The collection of terminals matched by this lexer\n");
    t.append("     *\n");
    t.append("     * The terminals are in an order consistent with the automaton,\n");
    t.append("     * so that terminal indices in the automaton can be used to retrieve the terminals in this table\n");
    t.append("     */\n");
    t.append("    private static final Symbol[] terminals = {\n");
    t.append("        new Symbol(0x0001, \"ε\"),\n");
    t.append("        new Symbol(0x0002, \"$\")");
    push_terminal_rows(&mut t, grammar, &rest, RowKind::JavaLexerEntry);
    t.append(" };\n");
    t.append("    /**\n");
    t.append("     * Initializes a new instance of the lexer\n");
    t.append("     *\n");
    t.append("     * @param input The lexer's input\n");
    t.append("     */\n");
    t.append("    public ");
    push_upper_camel(&mut t, &grammar.name);
    t.append("Lexer(String input) {\n");
    t.append("        super(commonAutomaton, terminals, 0x");
    push_hex(&mut t, separator as u64);
    t.append(", input);\n");
    t.append("    }\n");
    t.append("    /**\n");
    t.append("     * Initializes a new instance of the lexer\n");
    t.append("     *\n");
    t.append("     * @param input The lexer's input\n");
    t.append("     */\n");
    t.append("    public ");
    push_upper_camel(&mut t, &grammar.name);
    t.append("Lexer(InputStreamReader input) {\n");
    t.append("        super(commonAutomaton, terminals, 0x");
    push_hex(&mut t, separator as u64);
    t.append(", input);\n");
    t.append("    }\n");
    t.append("}\n");
    out.append(t.as_str());
}

/// The Java source of the lexer of `grammar`, as the options choose
/// the names in it.
pub open spec fn lexer_java_spec(
    grammar: Grammar,
    expected: Seq<u32>,
    separator: Option<u32>,
    namespace: &str,
    modifier: Modifier,
    version: &str,
    bin_name: &str,
) -> Seq<char> {
    lexer_java_text(
        grammar,
        expected,
        match separator {
            Some(id) => id,
            None => 0xFFFF,
        },
        version,
        namespace,
        match modifier {
            Modifier::Public => "public ",
            Modifier::Internal => "",
        },
        if grammar.contexts@.len() > 1 { "ContextSensitiveLexer" } else { "ContextFreeLexer" },
        bin_name,
    )
}

/// Generates the Java source of the lexer of `grammar`, where
/// `expected` lists the identifiers of the terminals (ε and $ first),
/// `separator` is the identifier of the separator terminal if there is one
/// and `bin_name` names the file of the serialized automaton
pub fn lexer_java_code(
    grammar: &Grammar,
    expected: &Vec<u32>,
    separator: Option<u32>,
    namespace: &str,
    modifier: Modifier,
    version: &str,
    bin_name: &str,
) -> (r: String)
    requires
        forall|k: int| 2 <= k < expected@.len() ==> find_terminal(grammar.terminals@, #[trigger] expected@[k]) is Some,
    ensures
        r@ == lexer_java_spec(*grammar, expected@, separator, namespace, modifier, version, bin_name),
{
    let separator_id = match separator {
        Some(id) => id,
        None => 0xFFFF,
    };
    let modifier_text = match modifier {
        Modifier::Public => "public ",
        Modifier::Internal => "",
    };
    let base_lexer = if grammar.contexts.len() > 1 {
        "ContextSensitiveLexer"
    } else {
        "ContextFreeLexer"
    };
    let mut out = String::new();
    write_lexer_java(&mut out, grammar, expected, separator_id, version, namespace, modifier_text, base_lexer, bin_name);
    assert(out@ =~= lexer_java_spec(*grammar, expected@, separator, namespace, modifier, version, bin_name));
    out
}

} // verus!
