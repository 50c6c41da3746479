use fragment::error::CompilerError;
use fragment::operator_precedence::OperatorPrecedence;
use fragment::token::SimpleBinaryOperater;
use fragment::token::Token;

#[test]
fn operators_are_read_from_their_characters() {
    assert_eq!(SimpleBinaryOperater::new('+'), Ok(SimpleBinaryOperater::Addition));
    assert_eq!(SimpleBinaryOperater::new('-'), Ok(SimpleBinaryOperater::Subtraction));
    assert_eq!(SimpleBinaryOperater::new('*'), Ok(SimpleBinaryOperater::Multiplication));
    assert_eq!(SimpleBinaryOperater::new('/'), Ok(SimpleBinaryOperater::Division));
    assert_eq!(SimpleBinaryOperater::new('<'), Ok(SimpleBinaryOperater::LessThan));
    assert_eq!(SimpleBinaryOperater::new('>'), Ok(SimpleBinaryOperater::GreaterThan));
}

#[test]
fn other_characters_are_no_operators() {
    assert_eq!(SimpleBinaryOperater::new('x'), Err(CompilerError::InvalidOperaterCharacter('x')));
    assert_eq!(SimpleBinaryOperater::new('='), Err(CompilerError::InvalidOperaterCharacter('=')));
    assert_eq!(SimpleBinaryOperater::new(' '), Err(CompilerError::InvalidOperaterCharacter(' ')));
}

#[test]
fn operators_spell_back_to_their_characters() {
    for c in ['+', '-', '*', '/', '<', '>'] {
        let op = SimpleBinaryOperater::new(c).unwrap();
        assert_eq!(op.to_char(), c);
    }
    assert_eq!(SimpleBinaryOperater::Addition.to_char(), '+');
    assert_eq!(SimpleBinaryOperater::GreaterThan.to_char(), '>');
}

#[test]
fn operator_of_a_token() {
    let token = Token::SimpleBinaryOperator(SimpleBinaryOperater::Division);
    assert_eq!(SimpleBinaryOperater::from_token(&token), Ok(SimpleBinaryOperater::Division));
    assert_eq!(
        SimpleBinaryOperater::from_token(&Token::Comma),
        Err(CompilerError::InvalidOperaterCharacter(' '))
    );
    assert_eq!(
        SimpleBinaryOperater::from_token(&Token::Identifier("plus".to_string())),
        Err(CompilerError::InvalidOperaterCharacter(' '))
    );
}

#[test]
fn tokens_compare_by_structure() {
    assert_eq!(Token::Identifier("a".to_string()), Token::Identifier("a".to_string()));
    assert_ne!(Token::Identifier("a".to_string()), Token::Identifier("b".to_string()));
    assert_ne!(Token::Identifier("a".to_string()), Token::F64Literal("a".to_string()));
    assert_ne!(Token::Eof, Token::BeginningOfFile);
    let token = Token::F64Literal("4.5".to_string());
    assert_eq!(token.clone(), token);
    let unknown = Token::Unknown('@');
    assert_eq!(unknown.clone(), Token::Unknown('@'));
}

fn tier(token: &Token) -> isize {
    OperatorPrecedence::new(token).get_precedence()
}

#[test]
fn precedence_table() {
    assert_eq!(tier(&Token::SimpleBinaryOperator(SimpleBinaryOperater::LessThan)), 10);
    assert_eq!(tier(&Token::SimpleBinaryOperator(SimpleBinaryOperater::GreaterThan)), 10);
    assert_eq!(tier(&Token::SimpleBinaryOperator(SimpleBinaryOperater::Addition)), 20);
    assert_eq!(tier(&Token::SimpleBinaryOperator(SimpleBinaryOperater::Subtraction)), 20);
    assert_eq!(tier(&Token::SimpleBinaryOperator(SimpleBinaryOperater::Multiplication)), 40);
}

#[test]
fn division_and_other_tokens_have_no_tier() {
    assert_eq!(tier(&Token::SimpleBinaryOperator(SimpleBinaryOperater::Division)), -1);
    assert_eq!(tier(&Token::Eof), -1);
    assert_eq!(tier(&Token::Identifier("x".to_string())), -1);
    assert_eq!(tier(&Token::F64Literal("1".to_string())), -1);
    assert_eq!(tier(&Token::RightParenthesis), -1);
    assert_eq!(tier(&Token::Unknown('+')), -1);
}

#[test]
fn precedence_from_number_and_increment() {
    let p = OperatorPrecedence::from_number(20);
    assert_eq!(p.get_precedence(), 20);
    assert_eq!(OperatorPrecedence::increment_other(&p).get_precedence(), 21);
    let sentinel = OperatorPrecedence::from_number(-1);
    assert_eq!(OperatorPrecedence::increment_other(&sentinel).get_precedence(), 0);
    assert_eq!(p.get_precedence(), 20);
}

#[test]
fn errors_compare_by_structure() {
    assert_eq!(
        CompilerError::FileIOError("a.fr".to_string(), "denied".to_string()),
        CompilerError::FileIOError("a.fr".to_string(), "denied".to_string())
    );
    assert_ne!(
        CompilerError::UnreadableLineError("a.fr".to_string(), 1, "x".to_string()),
        CompilerError::UnreadableLineError("a.fr".to_string(), 2, "x".to_string())
    );
    assert_ne!(
        CompilerError::ExpectedNumberError(0, "a.fr".to_string()),
        CompilerError::ExpectedNumberError(0, "b.fr".to_string())
    );
    assert_ne!(
        CompilerError::UnexpectedTokenError(Token::Eof),
        CompilerError::UnexpectedTokenError(Token::Comma)
    );
    assert_ne!(CompilerError::ExpectedExpressionError, CompilerError::FunctionNameNotFound);
    assert_ne!(
        CompilerError::UnreadableCharacterError(3),
        CompilerError::InvalidNumberError("3".to_string())
    );
}
