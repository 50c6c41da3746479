//! The parser: recursive descent over the tokens that a tokenizer hands
//! out, with one token of lookahead.

use vstd::prelude::*;
use crate::ast_nodes::names;
use crate::ast_nodes::trees;
use crate::ast_nodes::BinaryExpression;
use crate::ast_nodes::Expression;
use crate::ast_nodes::Function;
use crate::ast_nodes::FunctionCallExpression;
use crate::ast_nodes::FunctionPrototype;
use crate::ast_nodes::NumericExpression;
use crate::ast_nodes::Tree;
use crate::ast_nodes::VariableExpression;
use crate::error::CompilerError;
use crate::error::ErrorView;
use crate::grammar::advance;
use crate::grammar::arguments;
use crate::grammar::binary_rhs;
use crate::grammar::constructs;
use crate::grammar::definition;
use crate::grammar::expression;
use crate::grammar::external;
use crate::grammar::identifier;
use crate::grammar::lemma_binary_rhs_consumes;
use crate::grammar::lemma_next_construct_consumes;
use crate::grammar::next_construct;
use crate::grammar::lemma_expression_consumes;
use crate::grammar::lemma_primary_consumes;
use crate::grammar::parameters;
use crate::grammar::parenthesized;
use crate::grammar::primary;
use crate::grammar::program;
use crate::grammar::prototype;
use crate::grammar::top_level_expression;
use crate::grammar::Parsed;
use crate::grammar::TopLevelView;
use crate::lexer::Lexer;
use crate::lexis::ended;
use crate::lexis::lemma_end_is_final;
use crate::lexis::lemma_scan_advances;
use crate::lexis::scan;
use crate::lexis::TokenStream;
use crate::operator_precedence::OperatorPrecedence;
use crate::token::SimpleBinaryOperater;
use crate::token::Token;
use crate::token::TokenView;

verus! {

/// One construct at the top level of a source.
#[derive(Debug, PartialEq, Eq)]
pub enum TopLevel {
    /// `def` with a prototype and a body.
    Definition(Function),
    /// `extern` with a prototype.
    Extern(FunctionPrototype),
    /// A bare expression, as the body of a function without a name.
    Expression(Function),
}

impl View for TopLevel {
    type V = TopLevelView;

    open spec fn view(&self) -> TopLevelView {
        match self {
            TopLevel::Definition(f) => TopLevelView::Definition(f@),
            TopLevel::Extern(p) => TopLevelView::Extern(p@),
            TopLevel::Expression(f) => TopLevelView::Expression(f@),
        }
    }
}

/// The models of a run of constructs.
pub open spec fn top_levels(nodes: Seq<TopLevel>) -> Seq<TopLevelView> {
    nodes.map_values(|n: TopLevel| n@)
}

/// Whether a rule's outcome `r`, with the stream `left` to the parser, is
/// what the grammar gives.
pub open spec fn yields<T: View>(
    r: Result<T, CompilerError>,
    left: TokenStream,
    expected: Parsed<T::V>,
) -> bool {
    match expected {
        Ok((v, s)) => r is Ok && r->Ok_0@ == v && left == s,
        Err(e) => r is Err && r->Err_0@ == e,
    }
}

pub struct Ast {
    lexer: Lexer,
    current_token: Token,
    verbose: bool,
}

impl Ast {
    /// The tokenizer that the parser pulls from.
    pub closed spec fn lexer(&self) -> Lexer {
        self.lexer
    }

    /// The lookahead token.
    pub closed spec fn current(&self) -> TokenView {
        self.current_token@
    }

    /// Whether the parser reports its steps.
    pub closed spec fn verbose(&self) -> bool {
        self.verbose
    }

    /// The tokenizer is consistent, and once the end of input is the
    /// lookahead, nothing is left in the tokenizer.
    pub open spec fn wf(&self) -> bool {
        &&& self.lexer().wf()
        &&& self.current() is Eof ==> self.lexer().pending() == ended()
    }

    /// The tokens that the parser has not consumed: the lookahead, then
    /// those still in the tokenizer.
    pub open spec fn stream(&self) -> TokenStream {
        if self.current() is Eof {
            ended()
        } else {
            self.lexer().pending().after(self.current())
        }
    }

    /// Whether this parser can come from `earlier` by parsing: it reads
    /// the same source with the same setting, and its tokenizer's cursor
    /// stands no earlier.
    pub open spec fn follows(&self, earlier: &Ast) -> bool {
        &&& self.verbose() == earlier.verbose()
        &&& match (earlier.lexer().source(), self.lexer().source()) {
            (Some(a), Some(b)) => b.chars == a.chars && b.file == a.file && a.position
                <= b.position,
            (None, None) => true,
            _ => false,
        }
    }

    /// A parser in front of the first token of `lexer`: its lookahead is the
    /// sentinel for the beginning.
    pub fn new(lexer: Lexer, verbose: bool) -> (r: Self)
        requires
            lexer.wf(),
        ensures
            r.wf(),
            r.lexer() == lexer,
            r.current() == TokenView::BeginningOfFile,
            r.verbose() == verbose,
    {
        Self { lexer, current_token: Token::BeginningOfFile, verbose }
    }

    /// Gives the tokenizer back.
    pub fn into_lexer(self) -> (r: Lexer)
        ensures
            r == self.lexer(),
    {
        self.lexer
    }

    /// The lookahead token.
    pub fn current_token(&self) -> (r: &Token)
        ensures
            r@ == self.current(),
    {
        &self.current_token
    }

    /// Whether the parser was asked to report its steps.
    pub fn is_verbose(&self) -> (r: bool)
        ensures
            r == self.verbose(),
    {
        self.verbose
    }

    /// Discards the lookahead and pulls the next token from the tokenizer.
    pub fn eat_current_token_and_advance_lexer(&mut self) -> (r: Result<(), CompilerError>)
        requires
            old(self).wf(),
        ensures
            final(self).wf(),
            final(self).follows(old(self)),
            match advance(old(self).stream()) {
                Ok(s) => r is Ok && final(self).stream() == s,
                Err(e) => r is Err && r->Err_0@ == e,
            },
    {
        proof {
            if let Some(s) = self.lexer.source() {
                lemma_scan_advances(s.file, s.chars, s.position);
                if scan(s.file, s.chars, s.position).token == Ok::<TokenView, ErrorView>(
                    TokenView::Eof,
                ) {
                    lemma_end_is_final(s.file, s.chars, s.position);
                }
            }
        }
        let ghost pending = self.lexer.pending();
        match self.lexer.get_token() {
            Ok(token) => {
                self.current_token = token;
                proof {
                    let before = old(self).stream();
                    let after = self.stream();
                    if old(self).current() is Eof {
                        assert(after == before);
                    } else {
                        assert(before.rest().tokens =~= pending.tokens);
                        assert(after.tokens =~= pending.tokens);
                    }
                }
                Ok(())
            },
            Err(e) => Err(e),
        }
    }

    /// A numeric literal. The lookahead has to be one; otherwise the failure
    /// names the tokenizer's line and source, and nothing is consumed.
    pub fn parse_number_expression(&mut self) -> (r: Result<NumericExpression, CompilerError>)
        requires
            old(self).wf(),
        ensures
            final(self).wf(),
            final(self).follows(old(self)),
            match old(self).current() {
                TokenView::F64Literal(text) => yields(
                    r,
                    final(self).stream(),
                    match advance(old(self).stream()) {
                        Ok(s) => Ok((Tree::Number(text), s)),
                        Err(e) => Err(e),
                    },
                ),
                _ => r is Err && r->Err_0@ == ErrorView::ExpectedNumberError(
                    old(self).lexer().line() as usize,
                    match old(self).lexer().source() {
                        Some(s) => s.file,
                        None => Seq::<char>::empty(),
                    },
                ) && *final(self) == *old(self),
            },
    {
        let text: String = match &self.current_token {
            Token::F64Literal(number) => number.clone(),
            _ => {
                return Err(
                    CompilerError::ExpectedNumberError(
                        self.lexer.current_line(),
                        self.lexer.current_file(),
                    ),
                );
            },
        };
        self.eat_current_token_and_advance_lexer()?;
        Ok(NumericExpression::new(text))
    }

    /// A variable, or a call with its arguments.
    #[verifier::loop_isolation(false)]
    pub fn parse_identifier(&mut self) -> (r: Result<Expression, CompilerError>)
        requires
            old(self).wf(),
        ensures
            final(self).wf(),
            final(self).follows(old(self)),
            yields(r, final(self).stream(), identifier(old(self).stream())),
        decreases old(self).stream().tokens.len(), 1nat,
    {
        let id_string: String = match &self.current_token {
            Token::Identifier(id) => id.clone(),
            _ => {
                return Err(CompilerError::UnexpectedTokenError(self.current_token.clone()));
            },
        };
        self.eat_current_token_and_advance_lexer()?;
        if !matches!(self.current_token, Token::LeftParenthesis) {
            return Ok(Expression::Variable(VariableExpression::new(id_string.as_str())));
        }
        self.eat_current_token_and_advance_lexer()?;
        let ghost start = self.stream();
        let mut expressions: Vec<Expression> = Vec::new();
        let mut closed: bool = false;
        assert(trees(expressions@) =~= Seq::<Tree>::empty());
        while !closed
            invariant
                self.wf(),
                self.follows(old(self)),
                self.stream().tokens.len() <= start.tokens.len(),
                if closed {
                    arguments(start, Seq::empty()) == Ok::<(Seq<Tree>, TokenStream), ErrorView>(
                        (trees(expressions@), self.stream()),
                    )
                } else {
                    arguments(self.stream(), trees(expressions@)) == arguments(start, Seq::empty())
                },
            decreases self.stream().tokens.len(),
        {
            proof {
                lemma_expression_consumes(self.stream());
            }
            let ghost found = trees(expressions@);
            let argument: Expression = self.parse_expression()?;
            expressions.push(argument);
            assert(trees(expressions@) =~= found.push(argument@));
            if matches!(self.current_token, Token::RightParenthesis) {
                closed = true;
            } else if matches!(self.current_token, Token::Comma) {
                self.eat_current_token_and_advance_lexer()?;
            } else {
                return Err(CompilerError::UnexpectedTokenError(self.current_token.clone()));
            }
        }
        self.eat_current_token_and_advance_lexer()?;
        Ok(Expression::Call(FunctionCallExpression::new(id_string.as_str(), expressions)))
    }

    /// A primary expression, chosen by the lookahead.
    pub fn parse_primary(&mut self) -> (r: Result<Expression, CompilerError>)
        requires
            old(self).wf(),
        ensures
            final(self).wf(),
            final(self).follows(old(self)),
            yields(r, final(self).stream(), primary(old(self).stream())),
        decreases old(self).stream().tokens.len(), 2nat,
    {
        match &self.current_token {
            Token::Identifier(_) => self.parse_identifier(),
            Token::F64Literal(_) => {
                let number: NumericExpression = self.parse_number_expression()?;
                Ok(Expression::Numeric(number))
            },
            Token::LeftParenthesis => self.parse_parenthesis_expression(),
            token => Err(CompilerError::UnexpectedTokenError(token.clone())),
        }
    }

    /// Extends `lhs` by the operators that bind at least as tightly as
    /// `precedence`.
    #[verifier::loop_isolation(false)]
    pub fn parse_binary_operation_rhs(
        &mut self,
        precedence: OperatorPrecedence,
        lhs: Expression,
    ) -> (r: Result<Expression, CompilerError>)
        requires
            old(self).wf(),
        ensures
            final(self).wf(),
            final(self).follows(old(self)),
            yields(r, final(self).stream(), binary_rhs(old(self).stream(), precedence@, lhs@)),
        decreases old(self).stream().tokens.len(), 0nat,
    {
        let mut lhs: Expression = lhs;
        let ghost goal = binary_rhs(old(self).stream(), precedence@, lhs@);
        loop
            invariant
                self.wf(),
                self.follows(old(self)),
                binary_rhs(self.stream(), precedence@, lhs@) == goal,
                self.stream().tokens.len() <= old(self).stream().tokens.len(),
            decreases self.stream().tokens.len(),
        {
            let current_token_precedence: OperatorPrecedence = OperatorPrecedence::new(
                &self.current_token,
            );
            if current_token_precedence.get_precedence() < precedence.get_precedence() {
                return Ok(lhs);
            }
            let binary_operator: SimpleBinaryOperater = SimpleBinaryOperater::from_token(
                &self.current_token,
            )?;
            self.eat_current_token_and_advance_lexer()?;
            proof {
                lemma_primary_consumes(self.stream());
            }
            let mut rhs: Expression = self.parse_primary()?;
            let next_precedence: OperatorPrecedence = OperatorPrecedence::new(&self.current_token);
            if current_token_precedence.get_precedence() < next_precedence.get_precedence() {
                proof {
                    lemma_binary_rhs_consumes(self.stream(), current_token_precedence@ + 1, rhs@);
                }
                rhs =
                self.parse_binary_operation_rhs(
                    OperatorPrecedence::increment_other(&current_token_precedence),
                    rhs,
                )?;
            }
            lhs =
            Expression::Binary(BinaryExpression::new(binary_operator, Box::new(lhs), Box::new(rhs)));
        }
    }

    /// An expression: a primary and what extends it. Nesting in the source
    /// is followed by recursion: the depth of the calls grows with the depth
    /// of parentheses and argument lists and with each tighter operator.
    pub fn parse_expression(&mut self) -> (r: Result<Expression, CompilerError>)
        requires
            old(self).wf(),
        ensures
            final(self).wf(),
            final(self).follows(old(self)),
            yields(r, final(self).stream(), expression(old(self).stream())),
        decreases old(self).stream().tokens.len(), 3nat,
    {
        proof {
            lemma_primary_consumes(self.stream());
        }
        let lhs: Expression = self.parse_primary()?;
        self.parse_binary_operation_rhs(OperatorPrecedence::from_number(0), lhs)
    }

    /// An expression in parentheses; the parentheses leave no trace in the
    /// tree.
    pub fn parse_parenthesis_expression(&mut self) -> (r: Result<Expression, CompilerError>)
        requires
            old(self).wf(),
        ensures
            final(self).wf(),
            final(self).follows(old(self)),
            yields(r, final(self).stream(), parenthesized(old(self).stream())),
        decreases old(self).stream().tokens.len(), 1nat,
    {
        if !matches!(self.current_token, Token::LeftParenthesis) {
            return Err(CompilerError::UnexpectedTokenError(self.current_token.clone()));
        }
        self.eat_current_token_and_advance_lexer()?;
        let v: Expression = self.parse_expression()?;
        if !matches!(self.current_token, Token::RightParenthesis) {
            return Err(CompilerError::UnexpectedTokenError(self.current_token.clone()));
        }
        self.eat_current_token_and_advance_lexer()?;
        Ok(v)
    }

    /// A prototype: the function's name and its parameter names.
    #[verifier::loop_isolation(false)]
    pub fn parse_prototype(&mut self) -> (r: Result<FunctionPrototype, CompilerError>)
        requires
            old(self).wf(),
        ensures
            final(self).wf(),
            final(self).follows(old(self)),
            yields(r, final(self).stream(), prototype(old(self).stream())),
    {
        let function_name: String = match &self.current_token {
            Token::Identifier(id) => id.clone(),
            _ => {
                return Err(CompilerError::FunctionNameNotFound);
            },
        };
        self.eat_current_token_and_advance_lexer()?;
        if !matches!(self.current_token, Token::LeftParenthesis) {
            return Err(CompilerError::UnexpectedTokenError(self.current_token.clone()));
        }
        self.eat_current_token_and_advance_lexer()?;
        let ghost start = self.stream();
        let mut args: Vec<String> = Vec::new();
        let mut more: bool = true;
        assert(names(args@) =~= Seq::<Seq<char>>::empty());
        while more
            invariant
                self.wf(),
                self.follows(old(self)),
                if more {
                    parameters(self.stream(), names(args@)) == parameters(start, Seq::empty())
                } else {
                    parameters(start, Seq::empty()) == Ok::<
                        (Seq<Seq<char>>, TokenStream),
                        ErrorView,
                    >((names(args@), self.stream()))
                },
            decreases
                    self.stream().tokens.len(),
                    if more {
                        1nat
                    } else {
                        0nat
                    },
        {
            match &self.current_token {
                Token::Identifier(arg) => {
                    let ghost found = names(args@);
                    let name: String = arg.clone();
                    args.push(name);
                    assert(names(args@) =~= found.push(name@));
                    self.eat_current_token_and_advance_lexer()?;
                },
                _ => {
                    more = false;
                },
            }
        }
        if !matches!(self.current_token, Token::RightParenthesis) {
            return Err(CompilerError::UnexpectedTokenError(self.current_token.clone()));
        }
        self.eat_current_token_and_advance_lexer()?;
        Ok(FunctionPrototype::new(function_name.as_str(), args))
    }

    /// A definition: `def`, a prototype and a body.
    pub fn parse_definition(&mut self) -> (r: Result<Function, CompilerError>)
        requires
            old(self).wf(),
        ensures
            final(self).wf(),
            final(self).follows(old(self)),
            yields(r, final(self).stream(), definition(old(self).stream())),
    {
        if !matches!(self.current_token, Token::Def) {
            return Err(CompilerError::UnexpectedTokenError(self.current_token.clone()));
        }
        self.eat_current_token_and_advance_lexer()?;
        let prototype: FunctionPrototype = self.parse_prototype()?;
        let definition_expression: Expression = self.parse_expression()?;
        Ok(Function::new(Box::new(prototype), Box::new(definition_expression)))
    }

    /// An external declaration: `extern` and a prototype.
    pub fn parse_extern(&mut self) -> (r: Result<FunctionPrototype, CompilerError>)
        requires
            old(self).wf(),
        ensures
            final(self).wf(),
            final(self).follows(old(self)),
            yields(r, final(self).stream(), external(old(self).stream())),
    {
        if !matches!(self.current_token, Token::Extern) {
            return Err(CompilerError::UnexpectedTokenError(self.current_token.clone()));
        }
        self.eat_current_token_and_advance_lexer()?;
        self.parse_prototype()
    }

    /// A bare expression, as the body of a function without a name and
    /// without parameters.
    pub fn parse_top_level_expression(&mut self) -> (r: Result<Function, CompilerError>)
        requires
            old(self).wf(),
        ensures
            final(self).wf(),
            final(self).follows(old(self)),
            yields(r, final(self).stream(), top_level_expression(old(self).stream())),
    {
        let expression: Expression = self.parse_expression()?;
        let arguments: Vec<String> = Vec::new();
        assert(names(arguments@) =~= Seq::<Seq<char>>::empty());
        proof {
            reveal_strlit("");
            assert(""@ =~= Seq::<char>::empty());
        }
        let prototype: FunctionPrototype = FunctionPrototype::new("", arguments);
        Ok(Function::new(Box::new(prototype), Box::new(expression)))
    }

    /// The next construct of the source, or `None` at the end of input.
    /// Semicolons before the construct are skipped.
    #[verifier::loop_isolation(false)]
    pub fn next_construct(&mut self) -> (r: Result<Option<TopLevel>, CompilerError>)
        requires
            old(self).wf(),
        ensures
            final(self).wf(),
            final(self).follows(old(self)),
            match next_construct(old(self).stream()) {
                Ok((node, s)) => r is Ok && final(self).stream() == s && match node {
                    Some(n) => r->Ok_0 is Some && r->Ok_0->Some_0@ == n,
                    None => r->Ok_0 is None,
                },
                Err(e) => r is Err && r->Err_0@ == e,
            },
    {
        loop
            invariant
                self.wf(),
                self.follows(old(self)),
                next_construct(self.stream()) == next_construct(old(self).stream()),
            decreases self.stream().tokens.len(),
        {
            match &self.current_token {
                Token::Eof => {
                    return Ok(None);
                },
                Token::SemiColon => {
                    self.eat_current_token_and_advance_lexer()?;
                },
                Token::Def => {
                    let node: Function = self.parse_definition()?;
                    return Ok(Some(TopLevel::Definition(node)));
                },
                Token::Extern => {
                    let node: FunctionPrototype = self.parse_extern()?;
                    return Ok(Some(TopLevel::Extern(node)));
                },
                _ => {
                    let node: Function = self.parse_top_level_expression()?;
                    return Ok(Some(TopLevel::Expression(node)));
                },
            }
        }
    }

    /// Parses a whole source from before its first token: the constructs in
    /// order, up to the end of input. The first failure ends the run, and
    /// no construct is handed out then.
    #[verifier::loop_isolation(false)]
    pub fn parse_tokens(&mut self) -> (r: Result<Vec<TopLevel>, CompilerError>)
        requires
            old(self).wf(),
        ensures
            final(self).wf(),
            final(self).follows(old(self)),
            match program(old(self).stream()) {
                Ok(nodes) => r is Ok && top_levels(r->Ok_0@) == nodes && final(self).current()
                    is Eof,
                Err(e) => r is Err && r->Err_0@ == e,
            },
    {
        self.eat_current_token_and_advance_lexer()?;
        let mut nodes: Vec<TopLevel> = Vec::new();
        assert(top_levels(nodes@) =~= Seq::<TopLevelView>::empty());
        loop
            invariant
                self.wf(),
                self.follows(old(self)),
                constructs(self.stream(), top_levels(nodes@)) == program(old(self).stream()),
            decreases self.stream().tokens.len(),
        {
            proof {
                lemma_next_construct_consumes(self.stream());
            }
            let ghost found = top_levels(nodes@);
            match self.next_construct()? {
                None => {
                    return Ok(nodes);
                },
                Some(node) => {
                    nodes.push(node);
                    assert(top_levels(nodes@) =~= found.push(node@));
                },
            }
        }
    }
}

} // verus!
