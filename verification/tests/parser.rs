use crane::ast::keywords;
use crane::ast::tree::{
    Expr, ExprKind, FieldDecl, FnDecl, FnParam, Item, ItemKind, Literal, LiteralKind, Stmt,
    StmtKind, StructDecl, UnionDecl, Variant, VariantData,
};
use crane::ast::{Ident, Span};
use crane::lexer::token::{Token, TokenKind};
use crane::lexer::{LexError, LexErrorKind};
use crane::parser::error::{ParseError, ParseErrorKind};
use crane::parser::Parser;
use thin_vec::ThinVec;

fn at(start: usize) -> Span {
    Span { start, end: start + 1 }
}

fn token(kind: TokenKind, lexeme: &str, start: usize) -> Result<Token, LexError> {
    Ok(Token { kind, lexeme: lexeme.to_string(), span: at(start) })
}

/// Tokens for the words of `source`, one position each: identifiers,
/// integers, quoted strings without blanks, punctuation, and `//` for a
/// comment.
fn tokens(source: &str) -> Vec<Result<Token, LexError>> {
    source
        .split_whitespace()
        .enumerate()
        .map(|(start, word)| {
            let kind = match word {
                "(" => TokenKind::OpenParen,
                ")" => TokenKind::CloseParen,
                "{" => TokenKind::OpenBrace,
                "}" => TokenKind::CloseBrace,
                ":" => TokenKind::Colon,
                "," => TokenKind::Comma,
                ";" => TokenKind::Semicolon,
                "->" => TokenKind::RightArrow,
                "//" => TokenKind::Comment,
                "?" => {
                    return Err(LexError { kind: LexErrorKind::UnexpectedCharacter, span: at(start) })
                }
                _ if word.starts_with('"') => TokenKind::String,
                _ if word.starts_with(|c: char| c.is_ascii_digit()) => TokenKind::Integer,
                _ => TokenKind::Ident,
            };
            token(kind, word, start)
        })
        .collect()
}

fn parser(source: &str) -> Parser {
    Parser::new(tokens(source))
}

fn ident(name: &str, start: usize) -> Ident {
    Ident { name: name.to_string(), span: at(start) }
}

fn error(text: &str, span: Span) -> ParseError {
    ParseError { kind: ParseErrorKind::Error(text.to_string()), span }
}

fn variable(name: &str, start: usize) -> Expr {
    Expr { kind: ExprKind::Variable { name: ident(name, start) }, span: at(start) }
}

fn literal(kind: LiteralKind, text: &str, start: usize) -> Expr {
    Expr {
        kind: ExprKind::Literal(Literal { kind, value: text.to_string() }),
        span: at(start),
    }
}

fn call(name: &str, start: usize, args: Vec<Expr>) -> Expr {
    Expr {
        kind: ExprKind::Call { fun: Box::new(variable(name, start)), args },
        span: at(start),
    }
}

fn expr_stmt(expr: Expr) -> Stmt {
    let span = expr.span;
    Stmt { kind: StmtKind::Expr(expr), span }
}

fn param(name: &str, ty: &str, start: usize) -> FnParam {
    FnParam { name: ident(name, start), ty: ident(ty, start + 2), span: at(start) }
}

fn thin<T>(items: Vec<T>) -> ThinVec<T> {
    let mut list = ThinVec::new();
    for item in items {
        list.push(item);
    }
    list
}

#[test]
fn new_parser_stands_on_the_first_token() {
    let parser = parser("fn main");
    assert_eq!(parser.current().kind, TokenKind::Ident);
    assert_eq!(parser.current().lexeme, "fn");
    assert_eq!(parser.current().span, at(0));
    assert!(!parser.is_at_end());
}

#[test]
fn new_parser_on_no_input_is_at_the_end() {
    let parser = Parser::new(Vec::new());
    assert!(parser.is_at_end());
    assert_eq!(parser.current().kind, TokenKind::Eof);
    assert_eq!(parser.current().lexeme, "");
    assert_eq!(parser.current().span, Span { start: 0, end: 1 });
}

#[test]
fn advance_reads_token_by_token() {
    let mut parser = parser("a b");
    parser.advance();
    assert_eq!(parser.current().lexeme, "b");
    assert_eq!(parser.current().span, at(1));
    parser.advance();
    assert!(parser.is_at_end());
    assert_eq!(parser.current().span, Span { start: 2, end: 3 });
    parser.advance();
    assert!(parser.is_at_end());
    assert_eq!(parser.current().span, Span { start: 3, end: 4 });
}

#[test]
fn advance_passes_over_comments() {
    let mut parser = parser("// // a // // b //");
    assert_eq!(parser.current().lexeme, "a");
    parser.advance();
    assert_eq!(parser.current().lexeme, "b");
    parser.advance();
    assert!(parser.is_at_end());
    assert_eq!(parser.current().span, Span { start: 6, end: 7 });
}

#[test]
fn end_of_input_span_stops_at_the_last_position() {
    let last = Span { start: usize::MAX - 1, end: usize::MAX };
    let input = vec![Ok(Token { kind: TokenKind::Ident, lexeme: "a".to_string(), span: last })];
    let mut parser = Parser::new(input);
    parser.advance();
    assert_eq!(parser.current().span, Span { start: usize::MAX, end: usize::MAX });
}

#[test]
fn advance_keeps_an_error_of_the_tokenizer_and_stands_at_an_end() {
    let mut parser = parser("a ? b");
    parser.advance();
    assert!(parser.is_at_end());
    assert_eq!(parser.current().span, Span { start: 1, end: 2 });
    let kept = parser.ensure_no_errors(Ok(1));
    assert_eq!(
        kept,
        Err(ParseError {
            kind: ParseErrorKind::LexError(LexErrorKind::UnexpectedCharacter),
            span: at(1),
        })
    );
    parser.advance();
    assert_eq!(parser.current().lexeme, "b");
}

#[test]
fn ensure_no_errors_hands_the_result_on_without_errors() {
    let parser = parser("a");
    assert_eq!(parser.ensure_no_errors(Ok(7)), Ok(7));
    let failure = error("nothing", at(3));
    assert_eq!(
        parser.ensure_no_errors::<u8>(Err(error("nothing", at(3)))),
        Err(failure)
    );
}

#[test]
fn ensure_no_errors_reports_the_first_error_of_the_tokenizer() {
    let input = vec![
        Err(LexError { kind: LexErrorKind::UnterminatedString, span: at(4) }),
        Err(LexError { kind: LexErrorKind::UnexpectedCharacter, span: at(9) }),
    ];
    let mut parser = Parser::new(input);
    parser.advance();
    let first = ParseError {
        kind: ParseErrorKind::LexError(LexErrorKind::UnterminatedString),
        span: at(4),
    };
    assert_eq!(parser.ensure_no_errors(Ok(())), Err(first));
    let again = ParseError {
        kind: ParseErrorKind::LexError(LexErrorKind::UnterminatedString),
        span: at(4),
    };
    assert_eq!(parser.ensure_no_errors::<()>(Err(error("other", at(0)))), Err(again));
}

#[test]
fn check_tells_the_kind_and_reads_nothing() {
    let mut parser = parser("( a");
    assert!(parser.check(TokenKind::OpenParen));
    assert!(!parser.check(TokenKind::CloseParen));
    assert!(parser.check_without_expect(TokenKind::OpenParen));
    assert!(!parser.check_without_expect(TokenKind::Ident));
    assert_eq!(parser.current().kind, TokenKind::OpenParen);
}

#[test]
fn consume_takes_the_token_only_if_it_is_there() {
    let mut parser = parser("( a");
    assert!(!parser.consume(TokenKind::CloseParen));
    assert_eq!(parser.current().kind, TokenKind::OpenParen);
    assert!(parser.consume(TokenKind::OpenParen));
    assert_eq!(parser.current().lexeme, "a");
    assert!(parser.consume(TokenKind::Ident));
    assert!(parser.consume(TokenKind::Eof));
    assert!(parser.is_at_end());
}

#[test]
fn keyword_is_an_identifier_of_its_name() {
    let mut parser = parser("fn struct ( union");
    assert!(parser.check_keyword(keywords::function()));
    assert!(!parser.check_keyword(keywords::structure()));
    assert!(!parser.consume_keyword(keywords::public()));
    assert!(parser.consume_keyword(keywords::function()));
    assert!(parser.consume_keyword(keywords::structure()));
    assert!(!parser.consume_keyword(keywords::union()));
    assert_eq!(parser.current().kind, TokenKind::OpenParen);
}

#[test]
fn keyword_in_quotes_is_no_keyword() {
    let input = vec![token(TokenKind::String, "fn", 0)];
    let mut parser = Parser::new(input);
    assert!(!parser.consume_keyword(keywords::function()));
    assert_eq!(parser.current().kind, TokenKind::String);
}

#[test]
fn keywords_have_their_names() {
    assert_eq!(keywords::public().name, "pub");
    assert_eq!(keywords::function().name, "fn");
    assert_eq!(keywords::structure().name, "struct");
    assert_eq!(keywords::union().name, "union");
}

#[test]
fn parse_ident_takes_an_identifier() {
    let mut parser = parser("// name (");
    assert_eq!(parser.parse_ident(), Ok(ident("name", 1)));
    assert_eq!(parser.current().kind, TokenKind::OpenParen);
}

#[test]
fn parse_ident_refuses_anything_else_and_reads_nothing() {
    let mut parser = parser("( name");
    assert_eq!(parser.parse_ident(), Err(error("Expected an identifier", at(0))));
    assert_eq!(parser.current().kind, TokenKind::OpenParen);
    let mut empty = Parser::new(Vec::new());
    assert_eq!(
        empty.parse_ident(),
        Err(error("Expected an identifier", Span { start: 0, end: 1 }))
    );
}

#[test]
fn token_is_an_identifier_only_by_its_kind() {
    let name = Token { kind: TokenKind::Ident, lexeme: "x".to_string(), span: at(5) };
    assert_eq!(name.ident(), Some(ident("x", 5)));
    let text = Token { kind: TokenKind::String, lexeme: "x".to_string(), span: at(5) };
    assert_eq!(text.ident(), None);
    assert!(name.is_keyword(&ident("x", 0)));
    assert!(!name.is_keyword(&ident("y", 5)));
    assert!(!text.is_keyword(&ident("x", 5)));
}

#[test]
fn dummy_token_is_an_end_at_the_start() {
    let dummy = Token::dummy();
    assert_eq!(dummy.kind, TokenKind::Eof);
    assert_eq!(dummy.lexeme, "");
    assert_eq!(dummy.span, Span { start: 0, end: 0 });
    assert_eq!(Span::dummy(), Span { start: 0, end: 0 });
    assert_eq!(at(4).after(), Span { start: 5, end: 6 });
}

#[test]
fn expression_is_a_literal_a_name_or_a_call() {
    assert_eq!(
        parser("\"hi\" x").parse_expr(),
        Ok(Some(literal(LiteralKind::String, "\"hi\"", 0)))
    );
    assert_eq!(parser("42").parse_expr(), Ok(Some(literal(LiteralKind::Integer, "42", 0))));
    assert_eq!(parser("x ;").parse_expr(), Ok(Some(variable("x", 0))));
    assert_eq!(parser("f ( )").parse_expr(), Ok(Some(call("f", 0, vec![]))));
    assert_eq!(parser(") x").parse_expr(), Ok(None));
    assert_eq!(Parser::new(Vec::new()).parse_expr(), Ok(None));
}

#[test]
fn call_takes_its_arguments_left_to_right() {
    let mut parser = parser("f ( a , g ( 1 , \"s\" ) , 2 ) ;");
    let inner = call(
        "g",
        4,
        vec![literal(LiteralKind::Integer, "1", 6), literal(LiteralKind::String, "\"s\"", 8)],
    );
    let expected =
        call("f", 0, vec![variable("a", 2), inner, literal(LiteralKind::Integer, "2", 11)]);
    assert_eq!(parser.parse_expr(), Ok(Some(expected)));
    assert_eq!(parser.current().kind, TokenKind::Semicolon);
}

#[test]
fn call_may_lack_its_closing_parenthesis() {
    let mut parser = parser("f ( a ;");
    assert_eq!(parser.parse_expr(), Ok(Some(call("f", 0, vec![variable("a", 2)]))));
    assert_eq!(parser.current().kind, TokenKind::Semicolon);
}

#[test]
fn comma_must_be_followed_by_an_argument() {
    let mut parser = parser("f ( a , )");
    assert_eq!(parser.parse_expr(), Err(error("Expected an expression", at(4))));
}

#[test]
fn open_parenthesis_must_be_followed_by_an_argument_or_its_closing() {
    let mut parser = parser("f (");
    assert_eq!(parser.parse_expr(), Err(error("Expected an expression", Span { start: 2, end: 3 })));
}

#[test]
fn statement_is_an_expression_with_its_semicolon() {
    let mut parser = parser("f ( ) ; g");
    assert_eq!(parser.parse_stmt(), Ok(Some(expr_stmt(call("f", 0, vec![])))));
    assert_eq!(parser.current().lexeme, "g");
    assert_eq!(parser.parse_stmt(), Ok(Some(expr_stmt(variable("g", 4)))));
    assert_eq!(parser.parse_stmt(), Ok(None));
}

#[test]
fn statement_may_be_an_item() {
    let mut parser = parser("struct P { } x");
    let item = Item {
        name: ident("P", 1),
        kind: ItemKind::Struct(StructDecl(VariantData::Struct(ThinVec::new()))),
    };
    assert_eq!(parser.parse_stmt(), Ok(Some(Stmt { kind: StmtKind::Item(item), span: at(0) })));
    assert_eq!(parser.current().lexeme, "x");
}

#[test]
fn function_has_a_name_parameters_and_a_body() {
    let mut parser = parser("fn main ( ) { println ( \"hello\" ) ; }");
    let body = vec![expr_stmt(call(
        "println",
        5,
        vec![literal(LiteralKind::String, "\"hello\"", 7)],
    ))];
    let main = Item {
        name: ident("main", 1),
        kind: ItemKind::Fn(Box::new(FnDecl { params: ThinVec::new(), return_ty: None, body })),
    };
    assert_eq!(parser.parse_item(), Ok(Some(main)));
    assert!(parser.is_at_end());
}

#[test]
fn function_keeps_its_parameters_in_declared_order() {
    let mut parser = parser("pub fn add ( a : Uint64 , b : Uint64 ) -> Uint64 { a }");
    let fun = FnDecl {
        params: thin(vec![param("a", "Uint64", 4), param("b", "Uint64", 8)]),
        return_ty: Some(ident("Uint64", 13)),
        body: vec![expr_stmt(variable("a", 15))],
    };
    let add = Item { name: ident("add", 2), kind: ItemKind::Fn(Box::new(fun)) };
    assert_eq!(parser.parse_item(), Ok(Some(add)));
    assert!(parser.is_at_end());
}

#[test]
fn function_behind_its_keyword() {
    let mut parser = parser("f ( x : T ) { }");
    let fun = FnDecl { params: thin(vec![param("x", "T", 2)]), return_ty: None, body: vec![] };
    assert_eq!(parser.parse_fn(), Ok((ident("f", 0), fun)));
    assert!(parser.is_at_end());
}

#[test]
fn function_may_lack_its_punctuation() {
    let mut parser = parser("fn f x T y U g ( )");
    let x = FnParam { name: ident("x", 2), ty: ident("T", 3), span: at(2) };
    let item = parser.parse_item();
    let fun = FnDecl {
        params: thin(vec![x]),
        return_ty: None,
        body: vec![expr_stmt(variable("y", 4)), expr_stmt(variable("U", 5)), expr_stmt(call(
            "g",
            6,
            vec![],
        ))],
    };
    assert_eq!(item, Ok(Some(Item { name: ident("f", 1), kind: ItemKind::Fn(Box::new(fun)) })));
}

#[test]
fn function_needs_a_name() {
    assert_eq!(parser("fn ( )").parse_item(), Err(error("Expected an identifier", at(1))));
    assert_eq!(parser("fn f ( a : )").parse_item(), Err(error("Expected an identifier", at(5))));
    assert_eq!(parser("fn f ( ) -> {").parse_item(), Err(error("Expected an identifier", at(5))));
}

#[test]
fn functions_nest() {
    let mut parser = parser("fn outer ( ) { fn inner ( ) { } x }");
    let inner = Item {
        name: ident("inner", 6),
        kind: ItemKind::Fn(Box::new(FnDecl {
            params: ThinVec::new(),
            return_ty: None,
            body: vec![],
        })),
    };
    let body =
        vec![Stmt { kind: StmtKind::Item(inner), span: at(5) }, expr_stmt(variable("x", 11))];
    let outer = Item {
        name: ident("outer", 1),
        kind: ItemKind::Fn(Box::new(FnDecl { params: ThinVec::new(), return_ty: None, body })),
    };
    assert_eq!(parser.parse_item(), Ok(Some(outer)));
    assert!(parser.is_at_end());
}

#[test]
fn struct_has_named_fields() {
    let mut parser = parser("struct Point { x : Uint64 , y : Uint64 }");
    let field = |name: &str, start: usize| FieldDecl {
        name: Some(ident(name, start)),
        ty: ident("Uint64", start + 2),
        span: at(start),
    };
    let fields = thin(vec![field("x", 3), field("y", 7)]);
    let point = Item {
        name: ident("Point", 1),
        kind: ItemKind::Struct(StructDecl(VariantData::Struct(fields))),
    };
    assert_eq!(parser.parse_item(), Ok(Some(point)));
    assert!(parser.is_at_end());
}

#[test]
fn struct_behind_its_keyword_may_end_with_a_comma() {
    let mut parser = parser("P { x : T , }");
    let fields =
        thin(vec![FieldDecl { name: Some(ident("x", 2)), ty: ident("T", 4), span: at(2) }]);
    assert_eq!(
        parser.parse_struct_decl(),
        Ok((ident("P", 0), StructDecl(VariantData::Struct(fields))))
    );
    assert!(parser.is_at_end());
}

#[test]
fn struct_field_needs_a_type() {
    assert_eq!(
        parser("struct P { x : }").parse_item(),
        Err(error("Expected an identifier", at(5)))
    );
    assert_eq!(
        parser("struct P { x : T").parse_item(),
        Err(error("Expected an identifier", Span { start: 6, end: 7 }))
    );
}

#[test]
fn union_has_unit_variants() {
    let mut parser = parser("pub union Shape { Circle , Square }");
    let variant = |name: &str, start: usize| Variant {
        name: ident(name, start),
        data: VariantData::Unit,
        span: at(start),
    };
    let variants = thin(vec![variant("Circle", 4), variant("Square", 6)]);
    let shape = Item { name: ident("Shape", 2), kind: ItemKind::Union(UnionDecl { variants }) };
    assert_eq!(parser.parse_item(), Ok(Some(shape)));
    assert!(parser.is_at_end());
}

#[test]
fn union_behind_its_keyword_may_be_empty() {
    let mut parser = parser("Never { }");
    assert_eq!(
        parser.parse_union_decl(),
        Ok((ident("Never", 0), UnionDecl { variants: ThinVec::new() }))
    );
}

#[test]
fn item_kind_is_told_by_its_keyword() {
    let mut parser = parser("union U { } fn");
    let kind = ItemKind::Union(UnionDecl { variants: ThinVec::new() });
    assert_eq!(parser.parse_item_kind(), Ok(Some((ident("U", 1), kind))));
    assert_eq!(parser.parse_item_kind(), Err(error("Expected an identifier", Span {
        start: 5,
        end: 6,
    })));
}

#[test]
fn no_item_where_no_keyword_stands() {
    let mut parser = parser("pub x");
    assert_eq!(parser.parse_item(), Ok(None));
    assert_eq!(parser.current().lexeme, "x");
    assert_eq!(parser.parse_item_kind(), Ok(None));
    assert_eq!(parser.current().lexeme, "x");
}

#[test]
fn file_is_its_items_up_to_the_end() {
    let parser = parser("// fn a ( ) { } // struct B { } union C { }");
    let items = parser.parse().unwrap();
    let names: Vec<&str> = items.iter().map(|item| item.name.name.as_str()).collect();
    assert_eq!(names, vec!["a", "B", "C"]);
    assert!(matches!(items[0].kind, ItemKind::Fn(_)));
    assert!(matches!(items[1].kind, ItemKind::Struct(_)));
    assert!(matches!(items[2].kind, ItemKind::Union(_)));
}

#[test]
fn empty_file_has_no_items() {
    assert_eq!(Parser::new(Vec::new()).parse(), Ok(ThinVec::new()));
    assert_eq!(parser("// //").parse(), Ok(ThinVec::new()));
}

#[test]
fn module_items_stop_where_no_item_starts() {
    let mut parser = parser("fn a ( ) { } x fn b ( ) { }");
    let items = parser.parse_module_items().unwrap();
    assert_eq!(items.len(), 1);
    assert_eq!(items[0].name, ident("a", 1));
    assert_eq!(parser.current().lexeme, "x");
}

#[test]
fn file_must_end_behind_its_items() {
    assert_eq!(parser("fn a ( ) { } x").parse(), Err(error("Expected end of file", at(6))));
    assert_eq!(parser("x").parse(), Err(error("Expected end of file", at(0))));
}

#[test]
fn error_of_the_tokenizer_comes_before_any_other_failure() {
    let lexical = |start: usize| ParseError {
        kind: ParseErrorKind::LexError(LexErrorKind::UnexpectedCharacter),
        span: at(start),
    };
    assert_eq!(parser("fn a ( ) { } ?").parse(), Err(lexical(6)));
    assert_eq!(parser("fn ? ( )").parse(), Err(lexical(1)));
    assert_eq!(parser("fn a ( ) { } ? x").parse(), Err(lexical(6)));
}

#[test]
fn failure_of_an_item_fails_the_file() {
    assert_eq!(parser("fn a ( ) { } fn").parse(), Err(error("Expected an identifier", Span {
        start: 7,
        end: 8,
    })));
}
