//! The tokens of a template.

use vstd::prelude::*;
use crate::event::Handler;
use crate::node::{NodeView, Props, VNode, VText};
use crate::value::{Value, ValueView, text_of};

verus! {

/// The type of a component, as a template names it: its name and the
/// properties an instance starts with.
#[derive(Debug, PartialEq, Eq)]
pub struct ComponentType {
    pub name: String,
    pub defaults: Props,
}

/// Something that can stand as a child in the tree: a value, which becomes
/// a text, or a node.
#[derive(Debug, PartialEq, Eq)]
pub enum Child {
    Value(Value),
    Node(VNode),
}

/// One token of a template. Expressions come evaluated.
#[derive(Debug, PartialEq, Eq)]
pub enum Token {
    /// `<`
    Lt,
    /// `>`
    Gt,
    /// `/`
    Slash,
    /// `:`
    Colon,
    /// `=`
    Assign,
    /// `,`
    Comma,
    /// `-`
    Dash,
    /// `(`
    LParen,
    /// `)`
    RParen,
    /// `{`
    LBrace,
    /// `}`
    RBrace,
    /// A name: of a tag, of an attribute, or a word of the grammar.
    Ident(String),
    /// The type of a component.
    Type(ComponentType),
    /// An expression that gave a value.
    Expr(Value),
    /// An expression that gave a node.
    Node(VNode),
    /// An expression that gave a sequence of children.
    Each(Vec<Child>),
    /// An expression that gave the properties of a component.
    Props(Props),
    /// An expression that gave the handler of an event.
    Handler(Handler),
}

/// The mathematical content of a [`ComponentType`].
pub ghost struct ComponentTypeView {
    pub name: Seq<char>,
    pub defaults: Seq<(Seq<char>, ValueView)>,
}

/// The mathematical content of a [`Child`].
pub ghost enum ChildView {
    Value(ValueView),
    Node(NodeView),
}

/// The mathematical content of a [`Token`]. `End` stands for what lies
/// beyond the last token.
pub ghost enum TokenView {
    Lt,
    Gt,
    Slash,
    Colon,
    Assign,
    Comma,
    Dash,
    LParen,
    RParen,
    LBrace,
    RBrace,
    Ident(Seq<char>),
    Type(ComponentTypeView),
    Expr(ValueView),
    Node(NodeView),
    Each(Seq<ChildView>),
    Props(Seq<(Seq<char>, ValueView)>),
    Handler(Handler),
    End,
}

impl View for ComponentType {
    type V = ComponentTypeView;

    open spec fn view(&self) -> ComponentTypeView {
        ComponentTypeView { name: self.name@, defaults: self.defaults@ }
    }
}

impl View for Child {
    type V = ChildView;

    open spec fn view(&self) -> ChildView {
        match *self {
            Child::Value(v) => ChildView::Value(v@),
            Child::Node(n) => ChildView::Node(n@),
        }
    }
}

impl View for Token {
    type V = TokenView;

    open spec fn view(&self) -> TokenView {
        match *self {
            Token::Lt => TokenView::Lt,
            Token::Gt => TokenView::Gt,
            Token::Slash => TokenView::Slash,
            Token::Colon => TokenView::Colon,
            Token::Assign => TokenView::Assign,
            Token::Comma => TokenView::Comma,
            Token::Dash => TokenView::Dash,
            Token::LParen => TokenView::LParen,
            Token::RParen => TokenView::RParen,
            Token::LBrace => TokenView::LBrace,
            Token::RBrace => TokenView::RBrace,
            Token::Ident(s) => TokenView::Ident(s@),
            Token::Type(c) => TokenView::Type(c@),
            Token::Expr(v) => TokenView::Expr(v@),
            Token::Node(n) => TokenView::Node(n@),
            Token::Each(items) => TokenView::Each(items@.map_values(|c: Child| c@)),
            Token::Props(p) => TokenView::Props(p@),
            Token::Handler(h) => TokenView::Handler(h),
        }
    }
}

/// The content of each token of a sequence.
pub open spec fn tokens_view(tokens: Seq<Token>) -> Seq<TokenView> {
    tokens.map_values(|t: Token| t@)
}

/// The token at position `i`, or `End` where there is none.
pub open spec fn at(tokens: Seq<TokenView>, i: int) -> TokenView {
    if 0 <= i < tokens.len() {
        tokens[i]
    } else {
        TokenView::End
    }
}

/// The node that a value becomes as a child: a text that holds the value
/// as it is written.
pub open spec fn value_node(v: ValueView) -> NodeView {
    NodeView::Text(text_of(v))
}

/// The node that a child becomes in the tree.
pub open spec fn child_node(c: ChildView) -> NodeView {
    match c {
        ChildView::Value(v) => value_node(v),
        ChildView::Node(n) => n,
    }
}

/// The token `k` places after `pos`, if there is one.
pub fn peek(tokens: &[Token], pos: usize, k: usize) -> (r: Option<&Token>)
    requires
        pos <= tokens@.len(),
    ensures
        (match r {
            Some(t) => t@ == at(tokens_view(tokens@), pos + k) && pos + k < tokens@.len() && *t
                == tokens@[pos + k],
            None => at(tokens_view(tokens@), pos + k) is End && pos + k >= tokens@.len(),
        }),
{
    if k < tokens.len() - pos {
        Some(&tokens[pos + k])
    } else {
        None
    }
}

impl Value {
    /// The text node that shows this value.
    pub fn to_node(&self) -> (r: VNode)
        ensures
            r@ == value_node(self@),
    {
        VNode::VText(VText { text: self.to_text() })
    }
}

impl Child {
    /// The node that this child becomes in the tree.
    pub fn to_node(&self) -> (r: VNode)
        ensures
            r@ == child_node(self@),
    {
        match self {
            Child::Value(v) => v.to_node(),
            Child::Node(n) => n.duplicate(),
        }
    }
}

} // verus!
