//! The syntax tree: shared, immutable nodes whose children may be absent where parsing
//! found nothing usable.
use std::rc::Rc;
use vstd::prelude::*;

verus! {

/// A node of the syntax tree. Every child is optional: an absent child marks a place where
/// the parser found nothing usable.
#[derive(Debug, Clone, PartialEq, Eq)]
pub enum Node {
    ExpressionStatement(Option<Rc<Node>>),
    AdditiveExpression { operator: char, left: Option<Rc<Node>>, right: Option<Rc<Node>> },
    AssignmentExpression { operator: char, left: Option<Rc<Node>>, right: Option<Rc<Node>> },
    MemberExpression { object: Option<Rc<Node>>, property: Option<Rc<Node>> },
    NumericLiteral(u64),
    VariableDeclaration { declarations: Vec<Option<Rc<Node>>> },
    VariableDeclarator { id: Option<Rc<Node>>, init: Option<Rc<Node>> },
    Identifier(String),
    StringLiteral(String),
    BlockStatement { body: Vec<Option<Rc<Node>>> },
    ReturnStatement { argument: Option<Rc<Node>> },
    FunctionDeclaration {
        id: Option<Rc<Node>>,
        params: Vec<Option<Rc<Node>>>,
        body: Option<Rc<Node>>,
    },
    CallExpression { callee: Option<Rc<Node>>, arguments: Vec<Option<Rc<Node>>> },
}

/// The mathematical value of a node: the same tree, with strings seen as their characters.
pub enum Ast {
    ExpressionStatement(Option<Box<Ast>>),
    AdditiveExpression { operator: char, left: Option<Box<Ast>>, right: Option<Box<Ast>> },
    AssignmentExpression { operator: char, left: Option<Box<Ast>>, right: Option<Box<Ast>> },
    MemberExpression { object: Option<Box<Ast>>, property: Option<Box<Ast>> },
    NumericLiteral(u64),
    VariableDeclaration { declarations: Seq<Option<Ast>> },
    VariableDeclarator { id: Option<Box<Ast>>, init: Option<Box<Ast>> },
    Identifier(Seq<char>),
    StringLiteral(Seq<char>),
    BlockStatement { body: Seq<Option<Ast>> },
    ReturnStatement { argument: Option<Box<Ast>> },
    FunctionDeclaration { id: Option<Box<Ast>>, params: Seq<Option<Ast>>, body: Option<Box<Ast>> },
    CallExpression { callee: Option<Box<Ast>>, arguments: Seq<Option<Ast>> },
}

pub open spec fn boxed(a: Option<Ast>) -> Option<Box<Ast>> {
    match a {
        Some(x) => Some(Box::new(x)),
        None => None,
    }
}

pub open spec fn unboxed(a: Option<Box<Ast>>) -> Option<Ast> {
    match a {
        Some(x) => Some(*x),
        None => None,
    }
}

/// The value of an optional child.
pub open spec fn opt_view(n: Option<Rc<Node>>) -> Option<Ast>
    decreases n,
{
    match n {
        Some(r) => Some(node_view(*r)),
        None => None,
    }
}

/// The values of a list of optional children.
pub open spec fn list_view(v: Vec<Option<Rc<Node>>>) -> Seq<Option<Ast>>
    decreases v,
{
    Seq::new(v@.len(), |i: int| if 0 <= i < v@.len() { opt_view(v@[i]) } else { None })
}

/// The value of a node.
pub open spec fn node_view(n: Node) -> Ast
    decreases n,
{
    match n {
        Node::ExpressionStatement(e) => Ast::ExpressionStatement(boxed(opt_view(e))),
        Node::AdditiveExpression { operator, left, right } => Ast::AdditiveExpression {
            operator,
            left: boxed(opt_view(left)),
            right: boxed(opt_view(right)),
        },
        Node::AssignmentExpression { operator, left, right } => Ast::AssignmentExpression {
            operator,
            left: boxed(opt_view(left)),
            right: boxed(opt_view(right)),
        },
        Node::MemberExpression { object, property } => Ast::MemberExpression {
            object: boxed(opt_view(object)),
            property: boxed(opt_view(property)),
        },
        Node::NumericLiteral(v) => Ast::NumericLiteral(v),
        Node::VariableDeclaration { declarations } => Ast::VariableDeclaration {
            declarations: list_view(declarations),
        },
        Node::VariableDeclarator { id, init } => Ast::VariableDeclarator {
            id: boxed(opt_view(id)),
            init: boxed(opt_view(init)),
        },
        Node::Identifier(s) => Ast::Identifier(s@),
        Node::StringLiteral(s) => Ast::StringLiteral(s@),
        Node::BlockStatement { body } => Ast::BlockStatement { body: list_view(body) },
        Node::ReturnStatement { argument } => Ast::ReturnStatement {
            argument: boxed(opt_view(argument)),
        },
        Node::FunctionDeclaration { id, params, body } => Ast::FunctionDeclaration {
            id: boxed(opt_view(id)),
            params: list_view(params),
            body: boxed(opt_view(body)),
        },
        Node::CallExpression { callee, arguments } => Ast::CallExpression {
            callee: boxed(opt_view(callee)),
            arguments: list_view(arguments),
        },
    }
}

impl View for Node {
    type V = Ast;

    open spec fn view(&self) -> Ast {
        node_view(*self)
    }
}

impl Node {
    pub fn new_expression_statement(expression: Option<Rc<Node>>) -> (r: Option<Rc<Self>>)
        ensures
            opt_view(r) == Some(Ast::ExpressionStatement(boxed(opt_view(expression)))),
    {
        Some(Rc::new(Node::ExpressionStatement(expression)))
    }

    pub fn new_addirive_expression(
        operator: char,
        left: Option<Rc<Node>>,
        right: Option<Rc<Node>>,
    ) -> (r: Option<Rc<Self>>)
        ensures
            opt_view(r) == Some(
                Ast::AdditiveExpression {
                    operator,
                    left: boxed(opt_view(left)),
                    right: boxed(opt_view(right)),
                },
            ),
    {
        Some(Rc::new(Node::AdditiveExpression { operator, left, right }))
    }

    pub fn new_assignment_expression(
        operator: char,
        left: Option<Rc<Node>>,
        right: Option<Rc<Node>>,
    ) -> (r: Option<Rc<Self>>)
        ensures
            opt_view(r) == Some(
                Ast::AssignmentExpression {
                    operator,
                    left: boxed(opt_view(left)),
                    right: boxed(opt_view(right)),
                },
            ),
    {
        Some(Rc::new(Node::AssignmentExpression { operator, left, right }))
    }

    pub fn new_member_expression(object: Option<Rc<Self>>, property: Option<Rc<Self>>) -> (r:
        Option<Rc<Self>>)
        ensures
            opt_view(r) == Some(
                Ast::MemberExpression {
                    object: boxed(opt_view(object)),
                    property: boxed(opt_view(property)),
                },
            ),
    {
        Some(Rc::new(Node::MemberExpression { object, property }))
    }

    pub fn new_numeric_literal(value: u64) -> (r: Option<Rc<Self>>)
        ensures
            opt_view(r) == Some(Ast::NumericLiteral(value)),
    {
        Some(Rc::new(Node::NumericLiteral(value)))
    }

    pub fn new_variable_declarator(id: Option<Rc<Node>>, init: Option<Rc<Node>>) -> (r: Option<
        Rc<Self>,
    >)
        ensures
            opt_view(r) == Some(
                Ast::VariableDeclarator { id: boxed(opt_view(id)), init: boxed(opt_view(init)) },
            ),
    {
        Some(Rc::new(Node::VariableDeclarator { id, init }))
    }

    pub fn new_variable_declaration(declarations: Vec<Option<Rc<Self>>>) -> (r: Option<Rc<Self>>)
        ensures
            opt_view(r) == Some(Ast::VariableDeclaration { declarations: list_view(declarations) }),
    {
        Some(Rc::new(Node::VariableDeclaration { declarations }))
    }

    pub fn new_identifier(name: String) -> (r: Option<Rc<Self>>)
        ensures
            opt_view(r) == Some(Ast::Identifier(name@)),
    {
        Some(Rc::new(Node::Identifier(name)))
    }

    pub fn new_string_literal(value: String) -> (r: Option<Rc<Self>>)
        ensures
            opt_view(r) == Some(Ast::StringLiteral(value@)),
    {
        Some(Rc::new(Node::StringLiteral(value)))
    }

    pub fn new_block_statement(body: Vec<Option<Rc<Node>>>) -> (r: Option<Rc<Self>>)
        ensures
            opt_view(r) == Some(Ast::BlockStatement { body: list_view(body) }),
    {
        Some(Rc::new(Node::BlockStatement { body }))
    }

    pub fn new_return_statement(argument: Option<Rc<Node>>) -> (r: Option<Rc<Self>>)
        ensures
            opt_view(r) == Some(Ast::ReturnStatement { argument: boxed(opt_view(argument)) }),
    {
        Some(Rc::new(Node::ReturnStatement { argument }))
    }

    pub fn new_function_declaration(
        id: Option<Rc<Node>>,
        params: Vec<Option<Rc<Node>>>,
        body: Option<Rc<Node>>,
    ) -> (r: Option<Rc<Self>>)
        ensures
            opt_view(r) == Some(
                Ast::FunctionDeclaration {
                    id: boxed(opt_view(id)),
                    params: list_view(params),
                    body: boxed(opt_view(body)),
                },
            ),
    {
        Some(Rc::new(Node::FunctionDeclaration { id, params, body }))
    }

    pub fn new_call_expression(callee: Option<Rc<Node>>, arguments: Vec<Option<Rc<Node>>>) -> (r:
        Option<Rc<Self>>)
        ensures
            opt_view(r) == Some(
                Ast::CallExpression { callee: boxed(opt_view(callee)), arguments: list_view(arguments) },
            ),
    {
        Some(Rc::new(Node::CallExpression { callee, arguments }))
    }
}

/// The values of the nodes of a list.
pub open spec fn body_view(v: Seq<Rc<Node>>) -> Seq<Ast> {
    v.map_values(|n: Rc<Node>| node_view(*n))
}

/// The result of a parse: the top-level nodes, in order.
#[derive(Debug, Clone, PartialEq, Eq)]
pub struct Program {
    body: Vec<Rc<Node>>,
}

impl View for Program {
    type V = Seq<Ast>;

    closed spec fn view(&self) -> Seq<Ast> {
        body_view(self.body@)
    }
}

impl Program {
    pub fn new() -> (r: Self)
        ensures
            r@ == Seq::<Ast>::empty(),
    {
        let r = Self { body: Vec::new() };
        proof {
            assert(r@ =~= Seq::<Ast>::empty());
        }
        r
    }

    pub fn set_body(&mut self, body: Vec<Rc<Node>>)
        ensures
            final(self)@ == body_view(body@),
    {
        self.body = body;
    }

    pub fn body(&self) -> (r: &Vec<Rc<Node>>)
        ensures
            body_view(r@) == self@,
    {
        &self.body
    }
}

} // verus!
