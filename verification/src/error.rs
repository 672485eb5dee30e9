//! The errors of building a tree and of compiling a template.

use vstd::prelude::*;
use vstd::string::StringExecFns;

verus! {

/// What the builder was asked to do when it found no node to do it on.
#[derive(Debug, Clone, Copy, PartialEq, Eq, Hash, Structural)]
pub enum Operation {
    SetValue,
    SetKind,
    SetChecked,
    SetNamespace,
    AddAttribute,
    AppendClass,
    SetClasses,
    AttachListener,
    AddChild,
    CloseTag,
}

/// A fault in the order of the builder's operations.
#[derive(Debug, Clone, PartialEq, Eq)]
pub enum BuildError {
    /// The stack did not hold exactly one node when the tree was asked for.
    NotSingleRoot,
    /// The node on top of the stack cannot take the operation, or there is
    /// none. `subject` names what was to be set or added.
    WrongNodeKind { operation: Operation, subject: String },
    /// A tag was closed under another name than it was opened with.
    TagMismatch { open: String, close: String },
    /// A closing tag came when nothing was open.
    EmptyStack { closing: Option<String> },
}

/// The mathematical content of a [`BuildError`].
pub ghost enum BuildErrorView {
    NotSingleRoot,
    WrongNodeKind { operation: Operation, subject: Seq<char> },
    TagMismatch { open: Seq<char>, close: Seq<char> },
    EmptyStack { closing: Option<Seq<char>> },
}

impl View for BuildError {
    type V = BuildErrorView;

    open spec fn view(&self) -> BuildErrorView {
        match *self {
            BuildError::NotSingleRoot => BuildErrorView::NotSingleRoot,
            BuildError::WrongNodeKind { operation, subject } => BuildErrorView::WrongNodeKind {
                operation,
                subject: subject@,
            },
            BuildError::TagMismatch { open, close } => BuildErrorView::TagMismatch {
                open: open@,
                close: close@,
            },
            BuildError::EmptyStack { closing } => BuildErrorView::EmptyStack {
                closing: match closing {
                    Some(c) => Some(c@),
                    None => None,
                },
            },
        }
    }
}

/// How the message for a refused operation begins.
pub open spec fn refusal_of(operation: Operation) -> Seq<char> {
    match operation {
        Operation::SetValue => "no tag to set value: "@,
        Operation::SetKind => "no tag to set type: "@,
        Operation::SetChecked => "no tag to set checked: "@,
        Operation::SetNamespace => "no tag to set namespace: "@,
        Operation::AddAttribute => "no tag to set attribute: "@,
        Operation::AppendClass => "no tag to attach class: "@,
        Operation::SetClasses => "no tag to set classes: "@,
        Operation::AttachListener => "no tag to attach listener: "@,
        Operation::AddChild => "parent must be a tag or a fragment to add the node: "@,
        Operation::CloseTag => "can't add child to this type of node"@,
    }
}

/// The message of a build error.
pub open spec fn message_of(e: BuildErrorView) -> Seq<char> {
    match e {
        BuildErrorView::NotSingleRoot => "html must contain exactly one element!"@,
        BuildErrorView::WrongNodeKind { operation, subject } => refusal_of(operation) + subject,
        BuildErrorView::TagMismatch { open, close } => "wrong closing tag: <"@ + open + "> -> </"@
            + close + ">"@,
        BuildErrorView::EmptyStack { closing } => match closing {
            Some(c) => "redundant closing tag: </"@ + c + ">"@,
            None => "redundant closing tag: </>"@,
        },
    }
}

impl Operation {
    fn refusal(self) -> (r: &'static str)
        ensures
            r@ == refusal_of(self),
    {
        match self {
            Operation::SetValue => "no tag to set value: ",
            Operation::SetKind => "no tag to set type: ",
            Operation::SetChecked => "no tag to set checked: ",
            Operation::SetNamespace => "no tag to set namespace: ",
            Operation::AddAttribute => "no tag to set attribute: ",
            Operation::AppendClass => "no tag to attach class: ",
            Operation::SetClasses => "no tag to set classes: ",
            Operation::AttachListener => "no tag to attach listener: ",
            Operation::AddChild => "parent must be a tag or a fragment to add the node: ",
            Operation::CloseTag => "can't add child to this type of node",
        }
    }
}

impl BuildError {
    /// The error for `operation` refused on `subject`.
    pub fn wrong_node_kind(operation: Operation, subject: &str) -> (r: BuildError)
        ensures
            r@ == (BuildErrorView::WrongNodeKind { operation, subject: subject@ }),
    {
        BuildError::WrongNodeKind { operation, subject: String::from_str(subject) }
    }

    /// The message to show for this error.
    pub fn message(&self) -> (r: String)
        ensures
            r@ == message_of(self@),
    {
        match self {
            BuildError::NotSingleRoot => String::from_str("html must contain exactly one element!"),
            BuildError::WrongNodeKind { operation, subject } => {
                let mut s: String = String::from_str(operation.refusal());
                s.append(subject.as_str());
                s
            },
            BuildError::TagMismatch { open, close } => {
                let mut s: String = String::from_str("wrong closing tag: <");
                s.append(open.as_str());
                s.append("> -> </");
                s.append(close.as_str());
                s.append(">");
                s
            },
            BuildError::EmptyStack { closing } => match closing {
                Some(c) => {
                    let mut s: String = String::from_str("redundant closing tag: </");
                    s.append(c.as_str());
                    s.append(">");
                    s
                },
                None => String::from_str("redundant closing tag: </>"),
            },
        }
    }
}

/// A fault found while compiling a template. `position` counts the tokens
/// before the place of the fault.
#[derive(Debug, Clone, PartialEq, Eq)]
pub enum CompileError {
    /// No rule of the grammar matches the tokens at `position`.
    Unmatched { position: usize },
    /// The rule that matched at `position` asked the builder for an
    /// operation that it refused.
    Build { position: usize, error: BuildError },
}

/// The mathematical content of a [`CompileError`].
pub ghost enum CompileErrorView {
    Unmatched { position: int },
    Build { position: int, error: BuildErrorView },
}

impl View for CompileError {
    type V = CompileErrorView;

    open spec fn view(&self) -> CompileErrorView {
        match *self {
            CompileError::Unmatched { position } => CompileErrorView::Unmatched {
                position: position as int,
            },
            CompileError::Build { position, error } => CompileErrorView::Build {
                position: position as int,
                error: error@,
            },
        }
    }
}

/// The message of a compile error.
pub open spec fn compile_message_of(e: CompileErrorView) -> Seq<char> {
    match e {
        CompileErrorView::Unmatched { .. } => "text nodes must be wrapped in braces"@,
        CompileErrorView::Build { error, .. } => message_of(error),
    }
}

impl CompileError {
    /// The message to show for this error.
    pub fn message(&self) -> (r: String)
        ensures
            r@ == compile_message_of(self@),
    {
        match self {
            CompileError::Unmatched { .. } => String::from_str(
                "text nodes must be wrapped in braces",
            ),
            CompileError::Build { error, .. } => error.message(),
        }
    }
}

} // verus!
