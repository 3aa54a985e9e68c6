# steel

The abstract syntax of the Steel scheme dialect, verified with Verus.

- `src/tokens.rs`: token types, spans, syntax objects, and how a token is written.
- `src/lexer.rs`: cutting source text into tokens.
- `src/reader.rs`: reading tokens into expressions (bracket structure, quote ticks).
- `src/ast.rs`: the expression tree and its constructors.
- `src/forms.rs`: turning a parenthesised list into its special form (`if`, `define`,
  `let`, `lambda`, ...), with the exact error for every malformed form.
- `src/display.rs`: the written form of every node.
- `src/text.rs`: decimal digits, character pushing, and joining with a separator.
- `src/laws.rs`: properties that span several functions (`define` and `let` are sugar,
  lists are fixed points, errors point at the form's keyword).
- `app/lib.rs`: the error type with `std::error::Error`, and the float-carrying token type
  of the small standalone tokenizer.
