//! The nodes of the syntax tree. Every node owns its children; the tree is
//! never shared and never changed once it is built.

use vstd::prelude::*;
use crate::token::SimpleBinaryOperater;

verus! {

/// Mathematical model of an expression.
pub ghost enum Tree {
    /// A numeric literal, by its text.
    Number(Seq<char>),
    /// A reference to a variable, by its name.
    Variable(Seq<char>),
    /// A call: the callee's name and the arguments in order.
    Call(Seq<char>, Seq<Tree>),
    /// A binary operation: the operator, the left and the right operand.
    Binary(SimpleBinaryOperater, Box<Tree>, Box<Tree>),
}

/// Mathematical model of a function prototype.
pub ghost struct PrototypeView {
    pub name: Seq<char>,
    pub args: Seq<Seq<char>>,
}

/// Mathematical model of a function definition.
pub ghost struct FunctionView {
    pub prototype: PrototypeView,
    pub body: Tree,
}

/// A numeric literal; it keeps the literal's text.
#[derive(Debug, PartialEq, Eq)]
pub struct NumericExpression {
    value: String,
}

#[derive(Debug, PartialEq, Eq)]
pub struct VariableExpression {
    name: String,
}

#[derive(Debug, PartialEq, Eq)]
pub struct FunctionCallExpression {
    calle: String,
    args: Vec<Expression>,
}

#[derive(Debug, PartialEq, Eq)]
pub struct BinaryExpression {
    operator: SimpleBinaryOperater,
    left_hand_side: Box<Expression>,
    right_hand_side: Box<Expression>,
}

/// An expression: a literal, a variable, a call or a binary operation.
#[derive(Debug, PartialEq, Eq)]
pub enum Expression {
    Numeric(NumericExpression),
    Variable(VariableExpression),
    Call(FunctionCallExpression),
    Binary(BinaryExpression),
}

#[derive(Debug, PartialEq, Eq)]
pub struct FunctionPrototype {
    name: String,
    args: Vec<String>,
}

#[derive(Debug, PartialEq, Eq)]
pub struct Function {
    prototype: Box<FunctionPrototype>,
    body: Box<Expression>,
}

/// The model of `e`, by recursion over the tree.
closed spec fn tree_of(e: Expression) -> Tree
    decreases e, 0nat,
{
    match e {
        Expression::Numeric(n) => Tree::Number(n.value@),
        Expression::Variable(v) => Tree::Variable(v.name@),
        Expression::Call(c) => Tree::Call(c.calle@, trees_of(c.args, c.args.len() as nat)),
        Expression::Binary(b) => Tree::Binary(
            b.operator,
            Box::new(tree_of(*b.left_hand_side)),
            Box::new(tree_of(*b.right_hand_side)),
        ),
    }
}

/// The models of the first `n` of `args`.
closed spec fn trees_of(args: Vec<Expression>, n: nat) -> Seq<Tree>
    decreases args, n,
{
    if n == 0 || n > args.len() {
        Seq::empty()
    } else {
        trees_of(args, (n - 1) as nat).push(tree_of(args[n - 1]))
    }
}

/// The models of a run of expressions.
pub open spec fn trees(args: Seq<Expression>) -> Seq<Tree> {
    args.map_values(|e: Expression| e@)
}

/// The models of a run of names.
pub open spec fn names(args: Seq<String>) -> Seq<Seq<char>> {
    args.map_values(|s: String| s@)
}

impl View for NumericExpression {
    type V = Tree;

    closed spec fn view(&self) -> Tree {
        Tree::Number(self.value@)
    }
}

impl View for VariableExpression {
    type V = Tree;

    closed spec fn view(&self) -> Tree {
        Tree::Variable(self.name@)
    }
}

impl View for FunctionCallExpression {
    type V = Tree;

    closed spec fn view(&self) -> Tree {
        Tree::Call(self.calle@, trees_of(self.args, self.args.len() as nat))
    }
}

impl View for BinaryExpression {
    type V = Tree;

    closed spec fn view(&self) -> Tree {
        Tree::Binary(
            self.operator,
            Box::new(tree_of(*self.left_hand_side)),
            Box::new(tree_of(*self.right_hand_side)),
        )
    }
}

impl View for Expression {
    type V = Tree;

    open spec fn view(&self) -> Tree {
        match self {
            Expression::Numeric(n) => n@,
            Expression::Variable(v) => v@,
            Expression::Call(c) => c@,
            Expression::Binary(b) => b@,
        }
    }
}

impl View for FunctionPrototype {
    type V = PrototypeView;

    closed spec fn view(&self) -> PrototypeView {
        PrototypeView { name: self.name@, args: names(self.args@) }
    }
}

impl View for Function {
    type V = FunctionView;

    closed spec fn view(&self) -> FunctionView {
        FunctionView { prototype: self.prototype@, body: self.body@ }
    }
}

proof fn lemma_tree_of(e: Expression)
    ensures
        tree_of(e) == e@,
{
}

proof fn lemma_trees_of(args: Vec<Expression>, n: nat)
    requires
        n <= args.len(),
    ensures
        trees_of(args, n) == trees(args@.take(n as int)),
    decreases n,
{
    if n > 0 {
        lemma_trees_of(args, (n - 1) as nat);
        lemma_tree_of(args[n - 1]);
        assert(trees_of(args, n) =~= trees(args@.take(n as int)));
    } else {
        assert(trees_of(args, n) =~= trees(args@.take(n as int)));
    }
}

impl NumericExpression {
    /// The literal whose text is `value`.
    pub fn new(value: String) -> (r: Self)
        ensures
            r@ == Tree::Number(value@),
    {
        Self { value }
    }

    /// The literal's text.
    pub fn value(&self) -> (r: &String)
        ensures
            self@ == Tree::Number(r@),
    {
        &self.value
    }
}

impl VariableExpression {
    pub fn new(name: &str) -> (r: Self)
        ensures
            r@ == Tree::Variable(name@),
    {
        Self { name: name.to_owned() }
    }

    pub fn name(&self) -> (r: &String)
        ensures
            self@ == Tree::Variable(r@),
    {
        &self.name
    }
}

impl FunctionCallExpression {
    pub fn new(calle: &str, args: Vec<Expression>) -> (r: Self)
        ensures
            r@ == Tree::Call(calle@, trees(args@)),
    {
        proof {
            lemma_trees_of(args, args.len() as nat);
            assert(args@.take(args.len() as int) =~= args@);
        }
        Self { calle: calle.to_owned(), args }
    }

    pub fn callee(&self) -> (r: &String)
        ensures
            self@ is Call,
            self@->Call_0 == r@,
    {
        &self.calle
    }

    pub fn arguments(&self) -> (r: &Vec<Expression>)
        ensures
            self@ is Call,
            self@->Call_1 == trees(r@),
    {
        proof {
            lemma_trees_of(self.args, self.args.len() as nat);
            assert(self.args@.take(self.args.len() as int) =~= self.args@);
        }
        &self.args
    }
}

impl BinaryExpression {
    pub fn new(
        operator: SimpleBinaryOperater,
        left_hand_side: Box<Expression>,
        right_hand_side: Box<Expression>,
    ) -> (r: Self)
        ensures
            r@ == Tree::Binary(operator, Box::new(left_hand_side@), Box::new(right_hand_side@)),
    {
        proof {
            lemma_tree_of(*left_hand_side);
            lemma_tree_of(*right_hand_side);
        }
        Self { operator, left_hand_side, right_hand_side }
    }

    pub fn operator(&self) -> (r: SimpleBinaryOperater)
        ensures
            self@ is Binary,
            self@->Binary_0 == r,
    {
        self.operator
    }

    pub fn left_hand_side(&self) -> (r: &Expression)
        ensures
            self@ is Binary,
            *self@->Binary_1 == r@,
    {
        proof {
            lemma_tree_of(*self.left_hand_side);
        }
        &*self.left_hand_side
    }

    pub fn right_hand_side(&self) -> (r: &Expression)
        ensures
            self@ is Binary,
            *self@->Binary_2 == r@,
    {
        proof {
            lemma_tree_of(*self.right_hand_side);
        }
        &*self.right_hand_side
    }
}

impl FunctionPrototype {
    pub fn new(name: &str, args: Vec<String>) -> (r: Self)
        ensures
            r@ == (PrototypeView { name: name@, args: names(args@) }),
    {
        Self { name: name.to_owned(), args }
    }

    pub fn name(&self) -> (r: &String)
        ensures
            r@ == self@.name,
    {
        &self.name
    }

    pub fn args(&self) -> (r: &Vec<String>)
        ensures
            names(r@) == self@.args,
    {
        &self.args
    }
}

impl Function {
    pub fn new(prototype: Box<FunctionPrototype>, body: Box<Expression>) -> (r: Self)
        ensures
            r@ == (FunctionView { prototype: prototype@, body: body@ }),
    {
        Self { prototype, body }
    }

    pub fn prototype(&self) -> (r: &FunctionPrototype)
        ensures
            r@ == self@.prototype,
    {
        &*self.prototype
    }

    pub fn body(&self) -> (r: &Expression)
        ensures
            r@ == self@.body,
    {
        &*self.body
    }
}

} // verus!
