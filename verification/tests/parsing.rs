use fragment::ast::Ast;
use fragment::ast::TopLevel;
use fragment::ast_nodes::BinaryExpression;
use fragment::ast_nodes::Expression;
use fragment::ast_nodes::Function;
use fragment::ast_nodes::FunctionCallExpression;
use fragment::ast_nodes::FunctionPrototype;
use fragment::ast_nodes::NumericExpression;
use fragment::ast_nodes::VariableExpression;
use fragment::error::CompilerError;
use fragment::lexer::Lexer;
use fragment::operator_precedence::OperatorPrecedence;
use fragment::token::SimpleBinaryOperater;
use fragment::token::Token;

fn parser_on(source: &str) -> Ast {
    Ast::new(Lexer::new("test.fr".to_string(), source.as_bytes().to_vec()), false)
}

fn parse(source: &str) -> Result<Vec<TopLevel>, CompilerError> {
    parser_on(source).parse_tokens()
}

/// A parser whose lookahead is the first token of `source`.
fn parser_at_first_token(source: &str) -> Ast {
    let mut ast = parser_on(source);
    ast.eat_current_token_and_advance_lexer().unwrap();
    ast
}

fn num(text: &str) -> Expression {
    Expression::Numeric(NumericExpression::new(text.to_string()))
}

fn var(name: &str) -> Expression {
    Expression::Variable(VariableExpression::new(name))
}

fn call(name: &str, args: Vec<Expression>) -> Expression {
    Expression::Call(FunctionCallExpression::new(name, args))
}

fn bin(c: char, l: Expression, r: Expression) -> Expression {
    Expression::Binary(BinaryExpression::new(
        SimpleBinaryOperater::new(c).unwrap(),
        Box::new(l),
        Box::new(r),
    ))
}

fn proto(name: &str, args: &[&str]) -> FunctionPrototype {
    FunctionPrototype::new(name, args.iter().map(|a| a.to_string()).collect())
}

fn bare(body: Expression) -> TopLevel {
    TopLevel::Expression(Function::new(Box::new(proto("", &[])), Box::new(body)))
}

fn def(name: &str, args: &[&str], body: Expression) -> TopLevel {
    TopLevel::Definition(Function::new(Box::new(proto(name, args)), Box::new(body)))
}

fn unexpected(token: Token) -> CompilerError {
    CompilerError::UnexpectedTokenError(token)
}

fn op_token(c: char) -> Token {
    Token::SimpleBinaryOperator(SimpleBinaryOperater::new(c).unwrap())
}

#[test]
fn multiplication_binds_tighter_than_addition() {
    assert_eq!(parse("1+2*3"), Ok(vec![bare(bin('+', num("1"), bin('*', num("2"), num("3"))))]));
    assert_eq!(parse("1*2+3"), Ok(vec![bare(bin('+', bin('*', num("1"), num("2")), num("3")))]));
}

#[test]
fn equal_precedence_associates_left() {
    assert_eq!(parse("1-2-3"), Ok(vec![bare(bin('-', bin('-', num("1"), num("2")), num("3")))]));
    assert_eq!(parse("1-2+3"), Ok(vec![bare(bin('+', bin('-', num("1"), num("2")), num("3")))]));
    assert_eq!(parse("a*b*c"), Ok(vec![bare(bin('*', bin('*', var("a"), var("b")), var("c")))]));
    assert_eq!(parse("a<b>c"), Ok(vec![bare(bin('>', bin('<', var("a"), var("b")), var("c")))]));
}

#[test]
fn comparisons_bind_loosest() {
    assert_eq!(
        parse("a<b+1"),
        Ok(vec![bare(bin('<', var("a"), bin('+', var("b"), num("1"))))])
    );
    assert_eq!(
        parse("a+1>b*2"),
        Ok(vec![bare(bin('>', bin('+', var("a"), num("1")), bin('*', var("b"), num("2"))))])
    );
}

#[test]
fn a_tighter_run_ends_at_a_looser_operator() {
    assert_eq!(
        parse("1+2*3*4-5"),
        Ok(vec![bare(bin(
            '-',
            bin('+', num("1"), bin('*', bin('*', num("2"), num("3")), num("4"))),
            num("5"),
        ))])
    );
    assert_eq!(
        parse("a<b+c*d"),
        Ok(vec![bare(bin('<', var("a"), bin('+', var("b"), bin('*', var("c"), var("d")))))])
    );
}

#[test]
fn parentheses_group_and_leave_no_node() {
    assert_eq!(parse("(1+2)*3"), Ok(vec![bare(bin('*', bin('+', num("1"), num("2")), num("3")))]));
    assert_eq!(parse("((x))"), Ok(vec![bare(var("x"))]));
    assert_eq!(parse("1-(2-3)"), Ok(vec![bare(bin('-', num("1"), bin('-', num("2"), num("3"))))]));
}

#[test]
fn definition_with_a_call_in_its_body() {
    let parsed = parse("def f(a) a+f(a,1)").unwrap();
    assert_eq!(
        parsed,
        vec![def("f", &["a"], bin('+', var("a"), call("f", vec![var("a"), num("1")])))]
    );
    match &parsed[0] {
        TopLevel::Definition(f) => {
            assert_eq!(f.prototype().name(), "f");
            assert_eq!(f.prototype().args(), &vec!["a".to_string()]);
            match f.body() {
                Expression::Binary(b) => {
                    assert_eq!(b.operator(), SimpleBinaryOperater::Addition);
                    assert_eq!(b.left_hand_side(), &var("a"));
                    match b.right_hand_side() {
                        Expression::Call(c) => {
                            assert_eq!(c.callee(), "f");
                            assert_eq!(c.arguments().len(), 2);
                            assert_eq!(c.arguments()[1], num("1"));
                        },
                        other => panic!("not a call: {:?}", other),
                    }
                },
                other => panic!("not a binary operation: {:?}", other),
            }
        },
        other => panic!("not a definition: {:?}", other),
    }
}

#[test]
fn a_trailing_operator_fails() {
    assert_eq!(parse("1 +"), Err(unexpected(Token::Eof)));
    assert_eq!(parse("1 + ;"), Err(unexpected(Token::SemiColon)));
    assert_eq!(parse("def f(x) x *"), Err(unexpected(Token::Eof)));
}

#[test]
fn an_empty_source_has_no_constructs() {
    assert_eq!(parse(""), Ok(vec![]));
    assert_eq!(parse(" # nothing\n"), Ok(vec![]));
    assert_eq!(parse(";;;"), Ok(vec![]));
}

#[test]
fn constructs_come_in_order() {
    assert_eq!(
        parse("extern sin(x); def sq(x) x*x; sq(2) ; y"),
        Ok(vec![
            TopLevel::Extern(proto("sin", &["x"])),
            def("sq", &["x"], bin('*', var("x"), var("x"))),
            bare(call("sq", vec![num("2")])),
            bare(var("y")),
        ])
    );
    assert_eq!(parse("1 2"), Ok(vec![bare(num("1")), bare(num("2"))]));
}

#[test]
fn prototypes() {
    assert_eq!(parse("extern f()"), Ok(vec![TopLevel::Extern(proto("f", &[]))]));
    assert_eq!(
        parse("extern atan(y x)"),
        Ok(vec![TopLevel::Extern(proto("atan", &["y", "x"]))])
    );
    assert_eq!(
        parse("extern f(a a)"),
        Ok(vec![TopLevel::Extern(proto("f", &["a", "a"]))])
    );
    assert_eq!(parse("def one() 1"), Ok(vec![def("one", &[], num("1"))]));
}

#[test]
fn a_prototype_needs_a_name() {
    assert_eq!(parse("def (x) x"), Err(CompilerError::FunctionNameNotFound));
    assert_eq!(parse("extern 1"), Err(CompilerError::FunctionNameNotFound));
    assert_eq!(parse("def"), Err(CompilerError::FunctionNameNotFound));
    assert_eq!(parse("def def"), Err(CompilerError::FunctionNameNotFound));
}

#[test]
fn a_prototype_needs_its_parentheses() {
    assert_eq!(parse("def f x"), Err(unexpected(Token::Identifier("x".to_string()))));
    assert_eq!(parse("def f"), Err(unexpected(Token::Eof)));
    assert_eq!(parse("def f(a, b) a"), Err(unexpected(Token::Comma)));
    assert_eq!(parse("def f(a 1) a"), Err(unexpected(Token::F64Literal("1".to_string()))));
    assert_eq!(parse("extern f(a"), Err(unexpected(Token::Eof)));
}

#[test]
fn calls() {
    assert_eq!(parse("f(1)"), Ok(vec![bare(call("f", vec![num("1")]))]));
    assert_eq!(
        parse("f(a+1, g(b), (c))"),
        Ok(vec![bare(call(
            "f",
            vec![bin('+', var("a"), num("1")), call("g", vec![var("b")]), var("c")],
        ))])
    );
    assert_eq!(
        parse("f(1)*2"),
        Ok(vec![bare(bin('*', call("f", vec![num("1")]), num("2")))])
    );
}

#[test]
fn malformed_calls() {
    assert_eq!(parse("f()"), Err(unexpected(Token::RightParenthesis)));
    assert_eq!(parse("f(1 2)"), Err(unexpected(Token::F64Literal("2".to_string()))));
    assert_eq!(parse("f(1,)"), Err(unexpected(Token::RightParenthesis)));
    assert_eq!(parse("f(1"), Err(unexpected(Token::Eof)));
    assert_eq!(parse("f(1;"), Err(unexpected(Token::SemiColon)));
}

#[test]
fn malformed_parentheses() {
    assert_eq!(parse("(1"), Err(unexpected(Token::Eof)));
    assert_eq!(parse("(1 2)"), Err(unexpected(Token::F64Literal("2".to_string()))));
    assert_eq!(parse("()"), Err(unexpected(Token::RightParenthesis)));
    assert_eq!(parse(")"), Err(unexpected(Token::RightParenthesis)));
}

#[test]
fn tokens_that_start_no_expression() {
    assert_eq!(parse("+1"), Err(unexpected(op_token('+'))));
    assert_eq!(parse("@"), Err(unexpected(Token::Unknown('@'))));
    assert_eq!(parse(","), Err(unexpected(Token::Comma)));
    assert_eq!(parse("1 = 2"), Err(unexpected(Token::Unknown('='))));
}

#[test]
fn division_is_no_infix_operator() {
    assert_eq!(parse("1/2"), Err(unexpected(op_token('/'))));
    let mut ast = parser_at_first_token("1/2");
    assert_eq!(ast.parse_expression(), Ok(num("1")));
    assert_eq!(ast.current_token(), &op_token('/'));
}

#[test]
fn a_failure_of_the_tokenizer_ends_the_parse() {
    assert_eq!(
        parse("1 + 2.3.4"),
        Err(CompilerError::ExpectedNumberError(0, "test.fr".to_string()))
    );
    assert_eq!(
        parse("x\ny\n.."),
        Err(CompilerError::ExpectedNumberError(2, "test.fr".to_string()))
    );
    let mut unbound = Ast::new(Lexer::init(), false);
    assert_eq!(unbound.parse_tokens(), Err(CompilerError::NonExistentFileError));
}

#[test]
fn the_lookahead_starts_at_the_sentinel() {
    let mut ast = parser_on("x y");
    assert_eq!(ast.current_token(), &Token::BeginningOfFile);
    assert!(!ast.is_verbose());
    assert_eq!(ast.eat_current_token_and_advance_lexer(), Ok(()));
    assert_eq!(ast.current_token(), &Token::Identifier("x".to_string()));
    assert_eq!(ast.eat_current_token_and_advance_lexer(), Ok(()));
    assert_eq!(ast.current_token(), &Token::Identifier("y".to_string()));
    assert_eq!(ast.eat_current_token_and_advance_lexer(), Ok(()));
    assert_eq!(ast.current_token(), &Token::Eof);
    assert_eq!(ast.eat_current_token_and_advance_lexer(), Ok(()));
    assert_eq!(ast.current_token(), &Token::Eof);
    assert!(Ast::new(Lexer::init(), true).is_verbose());
}

#[test]
fn a_number_is_expected_where_one_is_asked_for() {
    let mut ast = parser_at_first_token("\n\nx 1");
    assert_eq!(
        ast.parse_number_expression(),
        Err(CompilerError::ExpectedNumberError(2, "test.fr".to_string()))
    );
    assert_eq!(ast.current_token(), &Token::Identifier("x".to_string()));
    ast.eat_current_token_and_advance_lexer().unwrap();
    assert_eq!(ast.parse_number_expression(), Ok(NumericExpression::new("1".to_string())));
    assert_eq!(ast.current_token(), &Token::Eof);
    let mut unbound = Ast::new(Lexer::init(), false);
    assert_eq!(
        unbound.parse_number_expression(),
        Err(CompilerError::ExpectedNumberError(0, String::new()))
    );
}

#[test]
fn rules_refuse_a_lookahead_that_is_not_theirs() {
    assert_eq!(
        parser_at_first_token("1").parse_identifier(),
        Err(unexpected(Token::F64Literal("1".to_string())))
    );
    assert_eq!(
        parser_at_first_token("x").parse_parenthesis_expression(),
        Err(unexpected(Token::Identifier("x".to_string())))
    );
    assert_eq!(
        parser_at_first_token("f(x) x").parse_definition(),
        Err(unexpected(Token::Identifier("f".to_string())))
    );
    assert_eq!(
        parser_at_first_token("def f(x)").parse_extern(),
        Err(unexpected(Token::Def))
    );
    assert_eq!(parser_at_first_token("1").parse_prototype(), Err(CompilerError::FunctionNameNotFound));
}

#[test]
fn a_variable_leaves_the_token_after_it() {
    let mut ast = parser_at_first_token("x )");
    assert_eq!(ast.parse_identifier(), Ok(var("x")));
    assert_eq!(ast.current_token(), &Token::RightParenthesis);
    let mut ast = parser_at_first_token("x + 1");
    assert_eq!(ast.parse_primary(), Ok(var("x")));
    assert_eq!(ast.current_token(), &op_token('+'));
}

#[test]
fn the_threshold_decides_where_an_operand_ends() {
    let mut ast = parser_at_first_token("* 2 + 3");
    let tight = OperatorPrecedence::from_number(21);
    assert_eq!(
        ast.parse_binary_operation_rhs(tight, num("1")),
        Ok(bin('*', num("1"), num("2")))
    );
    assert_eq!(ast.current_token(), &op_token('+'));
    let mut ast = parser_at_first_token("+ 2");
    let above = OperatorPrecedence::from_number(21);
    assert_eq!(ast.parse_binary_operation_rhs(above, var("a")), Ok(var("a")));
    assert_eq!(ast.current_token(), &op_token('+'));
}

#[test]
fn below_every_tier_a_token_must_be_an_operator() {
    let mut ast = parser_at_first_token(")");
    let lowest = OperatorPrecedence::from_number(-1);
    assert_eq!(
        ast.parse_binary_operation_rhs(lowest, var("a")),
        Err(CompilerError::InvalidOperaterCharacter(' '))
    );
    let mut ast = parser_at_first_token("/ 2");
    let lowest = OperatorPrecedence::from_number(-1);
    assert_eq!(
        ast.parse_binary_operation_rhs(lowest, num("1")),
        Err(CompilerError::InvalidOperaterCharacter(' '))
    );
    assert_eq!(ast.current_token(), &Token::Eof);
}

#[test]
fn the_tokenizer_comes_back_where_the_parse_ended() {
    let mut ast = parser_on("a\nb\nc");
    assert_eq!(ast.parse_tokens(), Ok(vec![bare(var("a")), bare(var("b")), bare(var("c"))]));
    let mut lexer = ast.into_lexer();
    assert_eq!(lexer.current_line(), 2);
    assert_eq!(lexer.get_token(), Ok(Token::Eof));
}

#[test]
fn deep_nesting_within_bounds() {
    let depth = 200;
    let source = format!("{}x{}", "(".repeat(depth), ")".repeat(depth));
    assert_eq!(parse(&source), Ok(vec![bare(var("x"))]));
    let mut chain = String::from("1");
    let mut expected = num("1");
    for _ in 0..200 {
        chain.push_str("+1");
        expected = bin('+', expected, num("1"));
    }
    assert_eq!(parse(&chain), Ok(vec![bare(expected)]));
}

#[test]
fn constructs_are_handed_out_one_by_one() {
    let mut ast = parser_at_first_token("a; def f(x) x ;; extern g() 2*3");
    assert_eq!(ast.next_construct(), Ok(Some(bare(var("a")))));
    assert_eq!(ast.current_token(), &Token::SemiColon);
    assert_eq!(ast.next_construct(), Ok(Some(def("f", &["x"], var("x")))));
    assert_eq!(ast.next_construct(), Ok(Some(TopLevel::Extern(proto("g", &[])))));
    assert_eq!(ast.next_construct(), Ok(Some(bare(bin('*', num("2"), num("3"))))));
    assert_eq!(ast.next_construct(), Ok(None));
    assert_eq!(ast.next_construct(), Ok(None));
    assert_eq!(ast.current_token(), &Token::Eof);
}

#[test]
fn a_failure_comes_after_the_constructs_before_it() {
    let mut ast = parser_at_first_token("a; b +; c");
    assert_eq!(ast.next_construct(), Ok(Some(bare(var("a")))));
    assert_eq!(ast.next_construct(), Err(unexpected(Token::SemiColon)));
    assert_eq!(parse("a; b +; c"), Err(unexpected(Token::SemiColon)));
}

#[test]
fn parsing_from_the_middle_discards_the_lookahead() {
    let mut ast = parser_at_first_token("a b c");
    assert_eq!(ast.parse_tokens(), Ok(vec![bare(var("b")), bare(var("c"))]));
}
