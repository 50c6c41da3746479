//! The grammar, stated over a stream of tokens: which tree each rule builds
//! and which tokens it leaves, or the failure it reports.
//!
//! A rule looks at the first token of the stream, the current token, and
//! consumes tokens from the front. Expressions are built by precedence
//! climbing: an operator takes as its right operand everything that binds
//! tighter than itself, and operators of one tier group to the left.

use vstd::prelude::*;
use crate::ast_nodes::FunctionView;
use crate::ast_nodes::PrototypeView;
use crate::ast_nodes::Tree;
use crate::error::ErrorView;
use crate::lexis::TokenStream;
use crate::operator_precedence::precedence_of;
use crate::token::SimpleBinaryOperater;
use crate::token::TokenView;

verus! {

/// What a rule yields: the value it built and the stream it left, or the
/// failure.
pub type Parsed<T> = Result<(T, TokenStream), ErrorView>;

/// One construct at the top level of a source.
pub ghost enum TopLevelView {
    /// `def` with a prototype and a body.
    Definition(FunctionView),
    /// `extern` with a prototype.
    Extern(PrototypeView),
    /// A bare expression, as the body of a function without a name.
    Expression(FunctionView),
}

/// The threshold with which a whole expression is parsed: every operator
/// with a tier reaches it.
pub open spec fn lowest_threshold() -> int {
    0
}

/// The prototype of a bare expression: no name and no parameters.
pub open spec fn anonymous() -> PrototypeView {
    PrototypeView { name: Seq::empty(), args: Seq::empty() }
}

/// Whether `after` has fewer tokens than `before`. Every rule that builds a
/// node leaves such a stream; the rules test it where the recursion rests on
/// it.
pub open spec fn consumed(before: TokenStream, after: TokenStream) -> bool {
    after.tokens.len() < before.tokens.len()
}

/// Discards the current token. This fails where the tokenizer fails on the
/// request for the token after it.
pub open spec fn advance(s: TokenStream) -> Result<TokenStream, ErrorView> {
    if s.tokens.len() <= 1 && s.failure is Some {
        Err(s.failure->Some_0)
    } else if s.tokens.len() == 0 {
        Ok(s)
    } else {
        Ok(s.rest())
    }
}

/// A primary expression: a variable or a call, a number, or an expression
/// in parentheses.
pub open spec fn primary(s: TokenStream) -> Parsed<Tree>
    decreases s.tokens.len(), 2nat,
{
    match s.current() {
        TokenView::Identifier(_) => identifier(s),
        TokenView::F64Literal(text) => match advance(s) {
            Ok(s1) => Ok((Tree::Number(text), s1)),
            Err(e) => Err(e),
        },
        TokenView::LeftParenthesis => parenthesized(s),
        token => Err(ErrorView::UnexpectedTokenError(token)),
    }
}

/// An identifier alone is a variable; followed by `(` it is a call with one
/// or more arguments, separated by commas, up to `)`.
pub open spec fn identifier(s: TokenStream) -> Parsed<Tree>
    decreases s.tokens.len(), 1nat,
{
    match s.current() {
        TokenView::Identifier(name) => match advance(s) {
            Err(e) => Err(e),
            Ok(s1) => if s1.current() is LeftParenthesis {
                match advance(s1) {
                    Err(e) => Err(e),
                    Ok(s2) => match arguments(s2, Seq::empty()) {
                        Err(e) => Err(e),
                        Ok((args, s3)) => match advance(s3) {
                            Err(e) => Err(e),
                            Ok(s4) => Ok((Tree::Call(name, args), s4)),
                        },
                    },
                }
            } else {
                Ok((Tree::Variable(name), s1))
            },
        },
        token => Err(ErrorView::UnexpectedTokenError(token)),
    }
}

/// The arguments of a call after `found`: an expression, then either `)`,
/// which ends the list and stays current, or `,` and the arguments after it.
pub open spec fn arguments(s: TokenStream, found: Seq<Tree>) -> Parsed<Seq<Tree>>
    decreases s.tokens.len(), 4nat,
{
    match expression(s) {
        Err(e) => Err(e),
        Ok((argument, s1)) => if s1.current() is RightParenthesis {
            Ok((found.push(argument), s1))
        } else if s1.current() is Comma {
            match advance(s1) {
                Err(e) => Err(e),
                Ok(s2) => if consumed(s, s2) {
                    arguments(s2, found.push(argument))
                } else {
                    Err(ErrorView::ExpectedExpressionError)
                },
            }
        } else {
            Err(ErrorView::UnexpectedTokenError(s1.current()))
        },
    }
}

/// `(`, an expression, `)`: the expression itself.
pub open spec fn parenthesized(s: TokenStream) -> Parsed<Tree>
    decreases s.tokens.len(), 1nat,
{
    match s.current() {
        TokenView::LeftParenthesis => match advance(s) {
            Err(e) => Err(e),
            Ok(s1) => match expression(s1) {
                Err(e) => Err(e),
                Ok((inner, s2)) => if s2.current() is RightParenthesis {
                    match advance(s2) {
                        Err(e) => Err(e),
                        Ok(s3) => Ok((inner, s3)),
                    }
                } else {
                    Err(ErrorView::UnexpectedTokenError(s2.current()))
                },
            },
        },
        token => Err(ErrorView::UnexpectedTokenError(token)),
    }
}

/// An expression: a primary, and the operators and operands that follow it.
pub open spec fn expression(s: TokenStream) -> Parsed<Tree>
    decreases s.tokens.len(), 3nat,
{
    match primary(s) {
        Err(e) => Err(e),
        Ok((lhs, s1)) => if consumed(s, s1) {
            binary_rhs(s1, lowest_threshold(), lhs)
        } else {
            Err(ErrorView::ExpectedExpressionError)
        },
    }
}

/// Extends `lhs` by the operators that reach the threshold `least`.
///
/// A current token below the threshold ends the expression. Otherwise it is
/// an operator: its right operand is the primary after it, extended, where
/// the operator after that binds tighter, by everything that binds tighter
/// than the operator itself. The operation becomes the left operand of what
/// follows.
pub open spec fn binary_rhs(s: TokenStream, least: int, lhs: Tree) -> Parsed<Tree>
    decreases s.tokens.len(), 0nat,
{
    let tier = precedence_of(s.current());
    if tier < least {
        Ok((lhs, s))
    } else {
        match s.current() {
            TokenView::SimpleBinaryOperator(operator) => match advance(s) {
                Err(e) => Err(e),
                Ok(s1) => match primary(s1) {
                    Err(e) => Err(e),
                    Ok((operand, s2)) => {
                        let tighter = if tier < precedence_of(s2.current()) && consumed(s, s2) {
                            binary_rhs(s2, tier + 1, operand)
                        } else {
                            Ok((operand, s2))
                        };
                        match tighter {
                            Err(e) => Err(e),
                            Ok((rhs, s3)) => if consumed(s, s3) {
                                binary_rhs(
                                    s3,
                                    least,
                                    Tree::Binary(operator, Box::new(lhs), Box::new(rhs)),
                                )
                            } else {
                                Err(ErrorView::ExpectedExpressionError)
                            },
                        }
                    },
                },
            },
            _ => Err(ErrorView::InvalidOperaterCharacter(' ')),
        }
    }
}

/// The parameter names after `found`: the identifiers up to the first token
/// that is none, which stays current.
pub open spec fn parameters(s: TokenStream, found: Seq<Seq<char>>) -> Parsed<Seq<Seq<char>>>
    decreases s.tokens.len(),
{
    match s.current() {
        TokenView::Identifier(name) => match advance(s) {
            Err(e) => Err(e),
            Ok(s1) => parameters(s1, found.push(name)),
        },
        _ => Ok((found, s)),
    }
}

/// A prototype: a name, `(`, parameter names, `)`.
pub open spec fn prototype(s: TokenStream) -> Parsed<PrototypeView> {
    match s.current() {
        TokenView::Identifier(name) => match advance(s) {
            Err(e) => Err(e),
            Ok(s1) => if !(s1.current() is LeftParenthesis) {
                Err(ErrorView::UnexpectedTokenError(s1.current()))
            } else {
                match advance(s1) {
                    Err(e) => Err(e),
                    Ok(s2) => match parameters(s2, Seq::empty()) {
                        Err(e) => Err(e),
                        Ok((args, s3)) => if !(s3.current() is RightParenthesis) {
                            Err(ErrorView::UnexpectedTokenError(s3.current()))
                        } else {
                            match advance(s3) {
                                Err(e) => Err(e),
                                Ok(s4) => Ok((PrototypeView { name, args }, s4)),
                            }
                        },
                    },
                }
            },
        },
        _ => Err(ErrorView::FunctionNameNotFound),
    }
}

/// A definition: `def`, a prototype, and an expression as the body.
pub open spec fn definition(s: TokenStream) -> Parsed<FunctionView> {
    if !(s.current() is Def) {
        Err(ErrorView::UnexpectedTokenError(s.current()))
    } else {
        match advance(s) {
            Err(e) => Err(e),
            Ok(s1) => match prototype(s1) {
                Err(e) => Err(e),
                Ok((prototype, s2)) => match expression(s2) {
                    Err(e) => Err(e),
                    Ok((body, s3)) => Ok((FunctionView { prototype, body }, s3)),
                },
            },
        }
    }
}

/// An external declaration: `extern` and a prototype.
pub open spec fn external(s: TokenStream) -> Parsed<PrototypeView> {
    if !(s.current() is Extern) {
        Err(ErrorView::UnexpectedTokenError(s.current()))
    } else {
        match advance(s) {
            Err(e) => Err(e),
            Ok(s1) => prototype(s1),
        }
    }
}

/// A bare expression, wrapped as the body of a function without a name.
pub open spec fn top_level_expression(s: TokenStream) -> Parsed<FunctionView> {
    match expression(s) {
        Err(e) => Err(e),
        Ok((body, s1)) => Ok((FunctionView { prototype: anonymous(), body }, s1)),
    }
}

/// The construct that starts at a current token other than `;` and the end
/// of input.
pub open spec fn construct(s: TokenStream) -> Parsed<TopLevelView> {
    match s.current() {
        TokenView::Def => match definition(s) {
            Err(e) => Err(e),
            Ok((f, s1)) => Ok((TopLevelView::Definition(f), s1)),
        },
        TokenView::Extern => match external(s) {
            Err(e) => Err(e),
            Ok((p, s1)) => Ok((TopLevelView::Extern(p), s1)),
        },
        _ => match top_level_expression(s) {
            Err(e) => Err(e),
            Ok((f, s1)) => Ok((TopLevelView::Expression(f), s1)),
        },
    }
}

/// The next construct, if there is one: semicolons before it are skipped,
/// and at the end of input there is none.
pub open spec fn next_construct(s: TokenStream) -> Parsed<Option<TopLevelView>>
    decreases s.tokens.len(),
{
    match s.current() {
        TokenView::Eof => Ok((None, s)),
        TokenView::SemiColon => match advance(s) {
            Err(e) => Err(e),
            Ok(s1) => next_construct(s1),
        },
        _ => match construct(s) {
            Err(e) => Err(e),
            Ok((node, s1)) => Ok((Some(node), s1)),
        },
    }
}

/// The constructs after `found`, up to the end of input. The first failure
/// ends the run.
pub open spec fn constructs(s: TokenStream, found: Seq<TopLevelView>) -> Result<
    Seq<TopLevelView>,
    ErrorView,
>
    decreases s.tokens.len(),
{
    match next_construct(s) {
        Err(e) => Err(e),
        Ok((None, _)) => Ok(found),
        Ok((Some(node), s1)) => if consumed(s, s1) {
            constructs(s1, found.push(node))
        } else {
            Err(ErrorView::ExpectedExpressionError)
        },
    }
}

/// A whole source, seen from before its first token: the constructs after
/// the sentinel that stands for the beginning.
pub open spec fn program(s: TokenStream) -> Result<Seq<TopLevelView>, ErrorView> {
    match advance(s) {
        Err(e) => Err(e),
        Ok(s1) => constructs(s1, Seq::empty()),
    }
}

/// Extending an operand never gives tokens back.
pub proof fn lemma_binary_rhs_consumes(s: TokenStream, least: int, lhs: Tree)
    ensures
        binary_rhs(s, least, lhs) matches Ok((_, s1)) ==> s1.tokens.len() <= s.tokens.len(),
    decreases s.tokens.len(),
{
    let tier = precedence_of(s.current());
    if tier >= least {
        if let TokenView::SimpleBinaryOperator(operator) = s.current() {
            if let Ok(s1) = advance(s) {
                if let Ok((operand, s2)) = primary(s1) {
                    let tighter = if tier < precedence_of(s2.current()) && consumed(s, s2) {
                        binary_rhs(s2, tier + 1, operand)
                    } else {
                        Ok((operand, s2))
                    };
                    if let Ok((rhs, s3)) = tighter {
                        if consumed(s, s3) {
                            lemma_binary_rhs_consumes(
                                s3,
                                least,
                                Tree::Binary(operator, Box::new(lhs), Box::new(rhs)),
                            );
                        }
                    }
                }
            }
        }
    }
}

/// An expression consumes at least one token.
pub proof fn lemma_expression_consumes(s: TokenStream)
    ensures
        expression(s) matches Ok((_, s1)) ==> consumed(s, s1),
{
    if let Ok((lhs, s1)) = primary(s) {
        if consumed(s, s1) {
            lemma_binary_rhs_consumes(s1, lowest_threshold(), lhs);
        }
    }
}

/// A list of arguments consumes at least one token.
pub proof fn lemma_arguments_consume(s: TokenStream, found: Seq<Tree>)
    ensures
        arguments(s, found) matches Ok((_, s1)) ==> consumed(s, s1) && s1.current()
            is RightParenthesis,
    decreases s.tokens.len(),
{
    lemma_expression_consumes(s);
    if let Ok((argument, s1)) = expression(s) {
        if s1.current() is Comma {
            if let Ok(s2) = advance(s1) {
                if consumed(s, s2) {
                    lemma_arguments_consume(s2, found.push(argument));
                }
            }
        }
    }
}

/// A primary expression consumes at least one token.
pub proof fn lemma_primary_consumes(s: TokenStream)
    ensures
        primary(s) matches Ok((_, s1)) ==> consumed(s, s1),
        identifier(s) matches Ok((_, s1)) ==> consumed(s, s1),
        parenthesized(s) matches Ok((_, s1)) ==> consumed(s, s1),
{
    if s.tokens.len() > 0 {
        if let Ok(s1) = advance(s) {
            lemma_expression_consumes(s1);
            if s1.tokens.len() > 0 {
                if let Ok(s2) = advance(s1) {
                    lemma_arguments_consume(s2, Seq::empty());
                }
            }
        }
    }
}

/// A top-level construct consumes at least one token.
pub proof fn lemma_construct_consumes(s: TokenStream)
    ensures
        construct(s) matches Ok((_, s1)) ==> consumed(s, s1),
{
    lemma_expression_consumes(s);
    if let Ok(s1) = advance(s) {
        lemma_prototype_regular(s1);
        if let Ok((_, s2)) = prototype(s1) {
            lemma_expression_consumes(s2);
        }
    }
}

/// Where there is a next construct, it consumes at least one token; where
/// there is none, the end of input is current.
pub proof fn lemma_next_construct_consumes(s: TokenStream)
    ensures
        next_construct(s) matches Ok((Some(_), s1)) ==> consumed(s, s1),
        next_construct(s) matches Ok((None, s1)) ==> s1.current() is Eof,
    decreases s.tokens.len(),
{
    lemma_construct_consumes(s);
    if s.current() is SemiColon {
        if let Ok(s1) = advance(s) {
            lemma_next_construct_consumes(s1);
        }
    }
}

/// Whether the tokenizer hands out the token after the one before `s`:
/// `s` holds a token, or ends without a failure.
pub open spec fn reachable(s: TokenStream) -> bool {
    s.tokens.len() > 0 || s.failure is None
}

/// A token put in front of a stream is current, and discarding it gives the
/// stream back.
pub proof fn lemma_advance_after(s: TokenStream, token: TokenView)
    requires
        reachable(s),
    ensures
        s.after(token).current() == token,
        advance(s.after(token)) == Ok::<TokenStream, ErrorView>(s),
        reachable(s.after(token)),
{
    assert(s.after(token).rest().tokens =~= s.tokens);
}

/// A numeric literal in front of a stream is a primary expression.
pub proof fn lemma_number_is_primary(s: TokenStream, text: Seq<char>)
    requires
        reachable(s),
    ensures
        primary(s.after(TokenView::F64Literal(text))) == Ok::<(Tree, TokenStream), ErrorView>(
            (Tree::Number(text), s),
        ),
{
    lemma_advance_after(s, TokenView::F64Literal(text));
}

/// Precedence: in `a p b q c`, where `q` binds tighter than `p`, the
/// operand `b` goes to `q`, and the tree nests on the right. This holds for
/// all literals `a`, `b`, `c`, all operators `p` and `q` with a tier, and
/// whatever follows, as long as it extends no expression.
pub proof fn lemma_tighter_operator_takes_operand(
    a: Seq<char>,
    p: SimpleBinaryOperater,
    b: Seq<char>,
    q: SimpleBinaryOperater,
    c: Seq<char>,
    rest: TokenStream,
)
    requires
        reachable(rest),
        precedence_of(rest.current()) < lowest_threshold(),
        lowest_threshold() <= precedence_of(TokenView::SimpleBinaryOperator(p)) < precedence_of(
            TokenView::SimpleBinaryOperator(q),
        ),
    ensures
        expression(
            rest.after(TokenView::F64Literal(c)).after(TokenView::SimpleBinaryOperator(q)).after(
                TokenView::F64Literal(b),
            ).after(TokenView::SimpleBinaryOperator(p)).after(TokenView::F64Literal(a)),
        ) == Ok::<(Tree, TokenStream), ErrorView>(
            (
                Tree::Binary(
                    p,
                    Box::new(Tree::Number(a)),
                    Box::new(
                        Tree::Binary(q, Box::new(Tree::Number(b)), Box::new(Tree::Number(c))),
                    ),
                ),
                rest,
            ),
        ),
{
    let s4 = rest.after(TokenView::F64Literal(c));
    let s3 = s4.after(TokenView::SimpleBinaryOperator(q));
    let s2 = s3.after(TokenView::F64Literal(b));
    let s1 = s2.after(TokenView::SimpleBinaryOperator(p));
    let s0 = s1.after(TokenView::F64Literal(a));
    let inner = Tree::Binary(q, Box::new(Tree::Number(b)), Box::new(Tree::Number(c)));
    let outer = Tree::Binary(p, Box::new(Tree::Number(a)), Box::new(inner));
    let tier = precedence_of(TokenView::SimpleBinaryOperator(p));
    lemma_number_is_primary(rest, c);
    lemma_advance_after(s4, TokenView::SimpleBinaryOperator(q));
    lemma_number_is_primary(s3, b);
    lemma_advance_after(s2, TokenView::SimpleBinaryOperator(p));
    lemma_number_is_primary(s1, a);
    assert(binary_rhs(rest, tier + 1, inner) == Ok::<(Tree, TokenStream), ErrorView>(
        (inner, rest),
    ));
    assert(binary_rhs(s3, tier + 1, Tree::Number(b)) == Ok::<(Tree, TokenStream), ErrorView>(
        (inner, rest),
    ));
    assert(binary_rhs(rest, lowest_threshold(), outer) == Ok::<(Tree, TokenStream), ErrorView>(
        (outer, rest),
    ));
    assert(binary_rhs(s1, lowest_threshold(), Tree::Number(a)) == Ok::<
        (Tree, TokenStream),
        ErrorView,
    >((outer, rest)));
}

/// Associativity: in `a p b q c`, where `q` binds no tighter than `p`, the
/// operand `b` stays with `p`, and the tree nests on the left. So operators
/// of one tier group to the left.
pub proof fn lemma_earlier_operator_keeps_operand(
    a: Seq<char>,
    p: SimpleBinaryOperater,
    b: Seq<char>,
    q: SimpleBinaryOperater,
    c: Seq<char>,
    rest: TokenStream,
)
    requires
        reachable(rest),
        precedence_of(rest.current()) < lowest_threshold(),
        lowest_threshold() <= precedence_of(TokenView::SimpleBinaryOperator(q)) <= precedence_of(
            TokenView::SimpleBinaryOperator(p),
        ),
    ensures
        expression(
            rest.after(TokenView::F64Literal(c)).after(TokenView::SimpleBinaryOperator(q)).after(
                TokenView::F64Literal(b),
            ).after(TokenView::SimpleBinaryOperator(p)).after(TokenView::F64Literal(a)),
        ) == Ok::<(Tree, TokenStream), ErrorView>(
            (
                Tree::Binary(
                    q,
                    Box::new(
                        Tree::Binary(p, Box::new(Tree::Number(a)), Box::new(Tree::Number(b))),
                    ),
                    Box::new(Tree::Number(c)),
                ),
                rest,
            ),
        ),
{
    let s4 = rest.after(TokenView::F64Literal(c));
    let s3 = s4.after(TokenView::SimpleBinaryOperator(q));
    let s2 = s3.after(TokenView::F64Literal(b));
    let s1 = s2.after(TokenView::SimpleBinaryOperator(p));
    let s0 = s1.after(TokenView::F64Literal(a));
    let inner = Tree::Binary(p, Box::new(Tree::Number(a)), Box::new(Tree::Number(b)));
    let outer = Tree::Binary(q, Box::new(inner), Box::new(Tree::Number(c)));
    lemma_number_is_primary(rest, c);
    lemma_advance_after(s4, TokenView::SimpleBinaryOperator(q));
    lemma_number_is_primary(s3, b);
    lemma_advance_after(s2, TokenView::SimpleBinaryOperator(p));
    lemma_number_is_primary(s1, a);
    assert(binary_rhs(rest, lowest_threshold(), outer) == Ok::<(Tree, TokenStream), ErrorView>(
        (outer, rest),
    ));
    assert(binary_rhs(s3, lowest_threshold(), inner) == Ok::<(Tree, TokenStream), ErrorView>(
        (outer, rest),
    ));
    assert(binary_rhs(s1, lowest_threshold(), Tree::Number(a)) == Ok::<
        (Tree, TokenStream),
        ErrorView,
    >((outer, rest)));
}

/// The stream of a run of operators, each followed by a literal, in front
/// of `rest`.
pub open spec fn run(steps: Seq<(SimpleBinaryOperater, Seq<char>)>, rest: TokenStream)
    -> TokenStream
    decreases steps.len(),
{
    if steps.len() == 0 {
        rest
    } else {
        run(steps.drop_first(), rest).after(TokenView::F64Literal(steps[0].1)).after(
            TokenView::SimpleBinaryOperator(steps[0].0),
        )
    }
}

/// The tree that takes `lhs` as the left operand of the first step, that
/// operation as the left operand of the second, and so on.
pub open spec fn grouped_left(lhs: Tree, steps: Seq<(SimpleBinaryOperater, Seq<char>)>) -> Tree
    decreases steps.len(),
{
    if steps.len() == 0 {
        lhs
    } else {
        grouped_left(
            Tree::Binary(steps[0].0, Box::new(lhs), Box::new(Tree::Number(steps[0].1))),
            steps.drop_first(),
        )
    }
}

/// The tier of the operator of step `i`.
pub open spec fn tier_of(steps: Seq<(SimpleBinaryOperater, Seq<char>)>, i: int) -> int {
    precedence_of(TokenView::SimpleBinaryOperator(steps[i].0))
}

/// Associativity, at any length: a run of operators, none of which binds
/// tighter than the one before it, groups to the left. In particular
/// operators of one tier do, however many there are.
pub proof fn lemma_descending_operators_group_left(
    lhs: Tree,
    steps: Seq<(SimpleBinaryOperater, Seq<char>)>,
    least: int,
    rest: TokenStream,
)
    requires
        reachable(rest),
        precedence_of(rest.current()) < least,
        forall|i: int| 0 <= i < steps.len() ==> least <= #[trigger] tier_of(steps, i),
        forall|i: int, j: int|
            0 <= i < j < steps.len() ==> #[trigger] tier_of(steps, j) <= #[trigger] tier_of(
                steps,
                i,
            ),
    ensures
        reachable(run(steps, rest)),
        binary_rhs(run(steps, rest), least, lhs) == Ok::<(Tree, TokenStream), ErrorView>(
            (grouped_left(lhs, steps), rest),
        ),
    decreases steps.len(),
{
    if steps.len() > 0 {
        let later = steps.drop_first();
        let operator = steps[0].0;
        let text = steps[0].1;
        let s2 = run(later, rest);
        let s1 = s2.after(TokenView::F64Literal(text));
        let s = s1.after(TokenView::SimpleBinaryOperator(operator));
        let combined = Tree::Binary(operator, Box::new(lhs), Box::new(Tree::Number(text)));
        assert forall|i: int| 0 <= i < later.len() implies least <= #[trigger] tier_of(
            later,
            i,
        ) by {
            assert(tier_of(later, i) == tier_of(steps, i + 1));
        }
        assert forall|i: int, j: int| 0 <= i < j < later.len() implies #[trigger] tier_of(
            later,
            j,
        ) <= #[trigger] tier_of(later, i) by {
            assert(tier_of(later, i) == tier_of(steps, i + 1));
            assert(tier_of(later, j) == tier_of(steps, j + 1));
        }
        lemma_descending_operators_group_left(combined, later, least, rest);
        lemma_number_is_primary(s2, text);
        lemma_advance_after(s1, TokenView::SimpleBinaryOperator(operator));
        assert(least <= tier_of(steps, 0));
        if later.len() > 0 {
            assert(s2.current() == TokenView::SimpleBinaryOperator(later[0].0));
            assert(tier_of(later, 0) == tier_of(steps, 1));
            assert(tier_of(steps, 1) <= tier_of(steps, 0));
        }
        assert(precedence_of(s2.current()) <= tier_of(steps, 0));
        assert(s2.tokens.len() < s.tokens.len());
    }
}

/// A literal followed by such a run is an expression that groups to the
/// left: `a - b - c - d` is `((a - b) - c) - d`.
pub proof fn lemma_descending_expression_groups_left(
    first: Seq<char>,
    steps: Seq<(SimpleBinaryOperater, Seq<char>)>,
    rest: TokenStream,
)
    requires
        reachable(rest),
        precedence_of(rest.current()) < lowest_threshold(),
        forall|i: int| 0 <= i < steps.len() ==> lowest_threshold() <= #[trigger] tier_of(steps, i),
        forall|i: int, j: int|
            0 <= i < j < steps.len() ==> #[trigger] tier_of(steps, j) <= #[trigger] tier_of(
                steps,
                i,
            ),
    ensures
        expression(run(steps, rest).after(TokenView::F64Literal(first))) == Ok::<
            (Tree, TokenStream),
            ErrorView,
        >((grouped_left(Tree::Number(first), steps), rest)),
{
    lemma_descending_operators_group_left(Tree::Number(first), steps, lowest_threshold(), rest);
    lemma_number_is_primary(run(steps, rest), first);
}

/// Whether `token` can start a primary expression.
pub open spec fn starts_primary(token: TokenView) -> bool {
    token is Identifier || token is F64Literal || token is LeftParenthesis
}

/// An operator needs its right operand: where an operator that reaches the
/// threshold is followed by a token that starts no primary expression, the
/// end of input among them, the outcome is a failure that names that token,
/// and never the left operand alone.
pub proof fn lemma_operator_needs_operand(s: TokenStream, least: int, lhs: Tree)
    requires
        s.current() is SimpleBinaryOperator,
        least <= precedence_of(s.current()),
        advance(s) matches Ok(s1) && !starts_primary(s1.current()),
    ensures
        binary_rhs(s, least, lhs) == Err::<(Tree, TokenStream), ErrorView>(
            ErrorView::UnexpectedTokenError(advance(s)->Ok_0.current()),
        ),
{
    let s1 = advance(s)->Ok_0;
    assert(primary(s1) == Err::<(Tree, TokenStream), ErrorView>(
        ErrorView::UnexpectedTokenError(s1.current()),
    ));
}

/// Whether `s1` is what is left of `s` after some of its tokens were
/// consumed from the front: the tokens of `s1` are a suffix of those of `s`,
/// and the tokenizer's failure is where it was.
pub open spec fn remainder(s: TokenStream, s1: TokenStream) -> bool {
    &&& s1.failure == s.failure
    &&& s1.tokens.len() <= s.tokens.len()
    &&& s1.tokens =~= s.tokens.skip(s.tokens.len() - s1.tokens.len())
}

/// What holds of every outcome of a rule on the stream `s`: a rule only
/// consumes tokens from the front, in order and without going back; and it
/// reports a missing expression only where the tokenizer did. The rules
/// themselves never do: the tests on consumed tokens inside them always
/// succeed.
pub open spec fn regular<T>(s: TokenStream, outcome: Parsed<T>) -> bool {
    match outcome {
        Ok((_, s1)) => remainder(s, s1),
        Err(e) => e is ExpectedExpressionError ==> s.failure == Some(e),
    }
}

/// Extending an operand is regular.
pub proof fn lemma_binary_rhs_regular(s: TokenStream, least: int, lhs: Tree)
    ensures
        regular(s, binary_rhs(s, least, lhs)),
    decreases s.tokens.len(), 0nat,
{
    let tier = precedence_of(s.current());
    if tier >= least {
        if let TokenView::SimpleBinaryOperator(operator) = s.current() {
            if let Ok(s1) = advance(s) {
                lemma_primary_regular(s1);
                lemma_primary_consumes(s1);
                if let Ok((operand, s2)) = primary(s1) {
                    if tier < precedence_of(s2.current()) {
                        lemma_binary_rhs_regular(s2, tier + 1, operand);
                    }
                    let tighter = if tier < precedence_of(s2.current()) {
                        binary_rhs(s2, tier + 1, operand)
                    } else {
                        Ok((operand, s2))
                    };
                    if let Ok((rhs, s3)) = tighter {
                        lemma_binary_rhs_regular(
                            s3,
                            least,
                            Tree::Binary(operator, Box::new(lhs), Box::new(rhs)),
                        );
                    }
                }
            }
        }
    }
}

/// A variable or a call is regular.
pub proof fn lemma_identifier_regular(s: TokenStream)
    ensures
        regular(s, identifier(s)),
    decreases s.tokens.len(), 1nat,
{
    if let TokenView::Identifier(name) = s.current() {
        if let Ok(s1) = advance(s) {
            if s1.current() is LeftParenthesis {
                if let Ok(s2) = advance(s1) {
                    lemma_arguments_regular(s2, Seq::empty());
                }
            }
        }
    }
}

/// An expression in parentheses is regular.
pub proof fn lemma_parenthesized_regular(s: TokenStream)
    ensures
        regular(s, parenthesized(s)),
    decreases s.tokens.len(), 1nat,
{
    if s.current() is LeftParenthesis {
        if let Ok(s1) = advance(s) {
            lemma_expression_regular(s1);
        }
    }
}

/// A primary expression is regular.
pub proof fn lemma_primary_regular(s: TokenStream)
    ensures
        regular(s, primary(s)),
    decreases s.tokens.len(), 2nat,
{
    match s.current() {
        TokenView::Identifier(_) => lemma_identifier_regular(s),
        TokenView::LeftParenthesis => lemma_parenthesized_regular(s),
        _ => {},
    }
}

/// An expression is regular.
pub proof fn lemma_expression_regular(s: TokenStream)
    ensures
        regular(s, expression(s)),
    decreases s.tokens.len(), 3nat,
{
    lemma_primary_regular(s);
    lemma_primary_consumes(s);
    if let Ok((lhs, s1)) = primary(s) {
        lemma_binary_rhs_regular(s1, lowest_threshold(), lhs);
    }
}

/// A list of arguments is regular.
pub proof fn lemma_arguments_regular(s: TokenStream, found: Seq<Tree>)
    ensures
        regular(s, arguments(s, found)),
    decreases s.tokens.len(), 4nat,
{
    lemma_expression_regular(s);
    lemma_expression_consumes(s);
    if let Ok((argument, s1)) = expression(s) {
        if s1.current() is Comma {
            if let Ok(s2) = advance(s1) {
                lemma_arguments_regular(s2, found.push(argument));
            }
        }
    }
}

/// A list of parameter names is regular.
pub proof fn lemma_parameters_regular(s: TokenStream, found: Seq<Seq<char>>)
    ensures
        regular(s, parameters(s, found)),
    decreases s.tokens.len(),
{
    if let TokenView::Identifier(name) = s.current() {
        if let Ok(s1) = advance(s) {
            lemma_parameters_regular(s1, found.push(name));
        }
    }
}

/// A prototype is regular.
pub proof fn lemma_prototype_regular(s: TokenStream)
    ensures
        regular(s, prototype(s)),
{
    if let Ok(s1) = advance(s) {
        if let Ok(s2) = advance(s1) {
            lemma_parameters_regular(s2, Seq::empty());
        }
    }
}

/// A top-level construct is regular.
pub proof fn lemma_construct_regular(s: TokenStream)
    ensures
        regular(s, construct(s)),
{
    lemma_expression_regular(s);
    if let Ok(s1) = advance(s) {
        lemma_prototype_regular(s1);
        if let Ok((p, s2)) = prototype(s1) {
            lemma_expression_regular(s2);
        }
    }
}

/// The step to the next construct is regular.
pub proof fn lemma_next_construct_regular(s: TokenStream)
    ensures
        regular(s, next_construct(s)),
    decreases s.tokens.len(),
{
    lemma_construct_regular(s);
    if s.current() is SemiColon {
        if let Ok(s1) = advance(s) {
            lemma_next_construct_regular(s1);
        }
    }
}

/// A whole source is reported to lack an expression only where the
/// tokenizer reports that.
pub proof fn lemma_constructs_regular(s: TokenStream, found: Seq<TopLevelView>)
    ensures
        constructs(s, found) matches Err(e) ==> (e is ExpectedExpressionError ==> s.failure
            == Some(e)),
    decreases s.tokens.len(),
{
    lemma_next_construct_regular(s);
    lemma_next_construct_consumes(s);
    if let Ok((Some(node), s1)) = next_construct(s) {
        lemma_constructs_regular(s1, found.push(node));
    }
}

/// Parsing a whole source never reports a missing expression of its own
/// accord.
pub proof fn lemma_program_regular(s: TokenStream)
    ensures
        program(s) matches Err(e) ==> (e is ExpectedExpressionError ==> s.failure == Some(e)),
{
    if let Ok(s1) = advance(s) {
        lemma_constructs_regular(s1, Seq::empty());
    }
}

} // verus!
