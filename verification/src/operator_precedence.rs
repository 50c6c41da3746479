//! Binding strength of the binary operators.

use vstd::prelude::*;
use crate::token::SimpleBinaryOperater;
use crate::token::Token;
use crate::token::TokenView;

verus! {

/// How tightly a token binds as an infix operator: comparisons 10, sums 20,
/// products 40. Division has no tier, and any token without one gets -1,
/// which is below every threshold an expression is parsed with.
pub open spec fn precedence_of(token: TokenView) -> int {
    match token {
        TokenView::SimpleBinaryOperator(SimpleBinaryOperater::LessThan) => 10,
        TokenView::SimpleBinaryOperator(SimpleBinaryOperater::GreaterThan) => 10,
        TokenView::SimpleBinaryOperator(SimpleBinaryOperater::Addition) => 20,
        TokenView::SimpleBinaryOperator(SimpleBinaryOperater::Subtraction) => 20,
        TokenView::SimpleBinaryOperator(SimpleBinaryOperater::Multiplication) => 40,
        _ => -1,
    }
}

pub struct OperatorPrecedence {
    precedence: isize,
}

impl View for OperatorPrecedence {
    type V = int;

    closed spec fn view(&self) -> int {
        self.precedence as int
    }
}

impl OperatorPrecedence {
    /// The binding strength of `precedence` as an infix operator.
    pub fn new(precedence: &Token) -> (r: OperatorPrecedence)
        ensures
            r@ == precedence_of(precedence@),
    {
        OperatorPrecedence {
            precedence: match precedence {
                Token::SimpleBinaryOperator(SimpleBinaryOperater::LessThan) => 10,
                Token::SimpleBinaryOperator(SimpleBinaryOperater::GreaterThan) => 10,
                Token::SimpleBinaryOperator(SimpleBinaryOperater::Addition) => 20,
                Token::SimpleBinaryOperator(SimpleBinaryOperater::Subtraction) => 20,
                Token::SimpleBinaryOperator(SimpleBinaryOperater::Multiplication) => 40,
                _ => -1,
            },
        }
    }

    pub fn from_number(number: isize) -> (r: OperatorPrecedence)
        ensures
            r@ == number,
    {
        OperatorPrecedence { precedence: number }
    }

    pub fn get_precedence(&self) -> (r: isize)
        ensures
            r == self@,
    {
        self.precedence
    }

    /// The next tighter threshold after `other`.
    pub fn increment_other(other: &OperatorPrecedence) -> (r: OperatorPrecedence)
        requires
            other@ < isize::MAX,
        ensures
            r@ == other@ + 1,
    {
        OperatorPrecedence { precedence: other.get_precedence() + 1 }
    }
}

/// Only an operator token has a tier, and every tier lies strictly between
/// the sentinel and the largest threshold that can still be tightened.
pub proof fn lemma_precedence_range(token: TokenView)
    ensures
        precedence_of(token) == -1 || 10 <= precedence_of(token) <= 40,
        precedence_of(token) >= 0 ==> token is SimpleBinaryOperator,
{
}

} // verus!
