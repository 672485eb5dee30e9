//! The operations that build a tree on a stack of open nodes. The last node
//! of the stack is the one that is open; an operation that fails leaves the
//! stack as it was.

use vstd::prelude::*;
use vstd::string::StringExecFns;
use crate::error::{BuildError, BuildErrorView, Operation};
use crate::event::{Listener, name_of};
use crate::namespace::{proliferate_namespaces, propagate};
use crate::node::{
    NodeView,
    TagView,
    VNode,
    lemma_nodes_view_drop_last,
    lemma_nodes_view_update,
    nodes_view,
    text_opt,
};
use crate::text::{eq_ignore_ascii_case, same_text_ignoring_ascii_case};

verus! {

/// The nodes that are open, the innermost last.
pub type Stack = Vec<VNode>;

/// The tag on top of the stack, if the stack has a top and it is a tag.
pub open spec fn top_tag(stack: Seq<NodeView>) -> Option<TagView> {
    if stack.len() > 0 && stack.last() is Tag {
        Some(stack.last()->Tag_0)
    } else {
        None
    }
}

/// The stack with `node` in place of its top.
pub open spec fn replace_top(stack: Seq<NodeView>, node: NodeView) -> Seq<NodeView>
    recommends
        stack.len() > 0,
{
    stack.update(stack.len() - 1, node)
}

/// Whether a node can take children: a tag or a fragment can, no other.
pub open spec fn accepts_children(node: NodeView) -> bool {
    node is Tag || node is List
}

/// `parent` with `child` after the children it has.
pub open spec fn with_child(parent: NodeView, child: NodeView) -> NodeView
    recommends
        accepts_children(parent),
{
    match parent {
        NodeView::Tag(t) => NodeView::Tag(t.with_child(child)),
        NodeView::List(childs) => NodeView::List(childs.push(child)),
        other => other,
    }
}

/// A short name for a node: the name of a tag or of a component, the
/// characters of a text, a fixed word for the rest.
pub open spec fn label_of(node: NodeView) -> Seq<char> {
    match node {
        NodeView::Tag(t) => t.tag,
        NodeView::List(_) => "fragment"@,
        NodeView::Text(s) => s,
        NodeView::Comp(c) => c.name,
        NodeView::Ref(_) => "reference"@,
    }
}

/// What an operation on the stack amounts to: `Ok` with the stack it leaves,
/// or the error it fails with.
pub type Outcome = Result<Seq<NodeView>, BuildErrorView>;

/// What a change to the tag on top amounts to: the stack with the changed
/// tag, or the refusal of `operation` where the top is no tag.
pub open spec fn change_top_tag(
    stack: Seq<NodeView>,
    operation: Operation,
    subject: Seq<char>,
    change: spec_fn(TagView) -> TagView,
) -> Outcome {
    match top_tag(stack) {
        Some(t) => Ok(replace_top(stack, NodeView::Tag(change(t)))),
        None => Err(BuildErrorView::WrongNodeKind { operation, subject }),
    }
}

/// That a call which returned `r` and changed the stack from `before` to
/// `after` did what `expected` says.
pub open spec fn meets(
    r: Result<(), BuildError>,
    before: Seq<VNode>,
    after: Seq<VNode>,
    expected: Outcome,
) -> bool {
    match expected {
        Ok(stack) => r is Ok && nodes_view(after) == stack && after.len() == stack.len(),
        Err(e) => r is Err && r->Err_0@ == e && after == before,
    }
}

/// The tree that a finished stack holds: the single node on it, once its
/// namespaces have spread.
pub open spec fn unpack_spec(stack: Seq<NodeView>) -> Result<NodeView, BuildErrorView> {
    if stack.len() == 1 {
        Ok(propagate(stack[0], None))
    } else {
        Err(BuildErrorView::NotSingleRoot)
    }
}

/// Setting a value on the top tag: the value field of an `input` or a
/// `textarea`, the attribute `value` of any other tag.
pub open spec fn set_value_or_attribute_spec(stack: Seq<NodeView>, value: Seq<char>) -> Outcome {
    change_top_tag(
        stack,
        Operation::SetValue,
        value,
        |t: TagView|
            if t.holds_value() {
                t.with_value(value)
            } else {
                t.with_attribute("value"@, value)
            },
    )
}

/// Setting the kind of the top tag.
pub open spec fn set_kind_spec(stack: Seq<NodeView>, value: Seq<char>) -> Outcome {
    change_top_tag(stack, Operation::SetKind, value, |t: TagView| t.with_kind(value))
}

/// Setting the checked flag of the top tag.
pub open spec fn set_checked_spec(stack: Seq<NodeView>, value: bool) -> Outcome {
    change_top_tag(
        stack,
        Operation::SetChecked,
        if value {
            "true"@
        } else {
            "false"@
        },
        |t: TagView| t.with_checked(value),
    )
}

/// Setting the namespace of the top tag.
pub open spec fn set_namespace_spec(stack: Seq<NodeView>, namespace: Option<Seq<char>>) -> Outcome {
    change_top_tag(
        stack,
        Operation::SetNamespace,
        match namespace {
            Some(ns) => ns,
            None => Seq::empty(),
        },
        |t: TagView| t.with_namespace(namespace),
    )
}

/// Setting an attribute of the top tag.
pub open spec fn add_attribute_spec(stack: Seq<NodeView>, name: Seq<char>, value: Seq<char>) -> Outcome {
    change_top_tag(stack, Operation::AddAttribute, name, |t: TagView| t.with_attribute(name, value))
}

/// Appending a class to the top tag.
pub open spec fn append_class_spec(stack: Seq<NodeView>, class: Seq<char>) -> Outcome {
    change_top_tag(stack, Operation::AppendClass, class, |t: TagView| t.with_class(class))
}

/// Replacing the classes of the top tag.
pub open spec fn set_classes_spec(stack: Seq<NodeView>, classes: Seq<char>) -> Outcome {
    change_top_tag(stack, Operation::SetClasses, classes, |t: TagView| t.with_classes(classes))
}

/// Attaching a listener to the top tag.
pub open spec fn attach_listener_spec(stack: Seq<NodeView>, listener: Listener) -> Outcome {
    change_top_tag(
        stack,
        Operation::AttachListener,
        name_of(listener.kind),
        |t: TagView| t.with_listener(listener),
    )
}

/// Adding a child to the top node.
pub open spec fn add_child_spec(stack: Seq<NodeView>, child: NodeView) -> Outcome {
    if stack.len() > 0 && accepts_children(stack.last()) {
        Ok(replace_top(stack, with_child(stack.last(), child)))
    } else {
        Err(BuildErrorView::WrongNodeKind { operation: Operation::AddChild, subject: label_of(child) })
    }
}

/// Whether a closing tag called `endtag` may close `node`: any node may be
/// closed without a name, and a node that is no tag under any name; a tag
/// under its own name, in any case.
pub open spec fn closes(node: NodeView, endtag: Option<Seq<char>>) -> bool {
    node is Tag && endtag is Some ==> eq_ignore_ascii_case(node->Tag_0.tag, endtag->Some_0)
}

/// Closing the top node: it leaves the stack and becomes the last child of
/// the node below it; the only node on the stack stays as the root.
pub open spec fn child_to_parent_spec(stack: Seq<NodeView>, endtag: Option<Seq<char>>) -> Outcome {
    if stack.len() == 0 {
        Err(BuildErrorView::EmptyStack { closing: endtag })
    } else if !closes(stack.last(), endtag) {
        Err(BuildErrorView::TagMismatch { open: stack.last()->Tag_0.tag, close: endtag->Some_0 })
    } else if stack.len() == 1 {
        Ok(stack)
    } else if accepts_children(stack[stack.len() - 2]) {
        Ok(replace_top(stack.drop_last(), with_child(stack[stack.len() - 2], stack.last())))
    } else {
        Err(BuildErrorView::WrongNodeKind { operation: Operation::CloseTag, subject: Seq::empty() })
    }
}

/// Takes the finished tree off the stack and lets its namespaces spread.
/// Fails unless the stack holds exactly one node.
pub fn unpack(stack: Stack) -> (r: Result<VNode, BuildError>)
    ensures
        (match unpack_spec(nodes_view(stack@)) {
            Ok(node) => r is Ok && r->Ok_0@ == node,
            Err(e) => r is Err && r->Err_0@ == e,
        }),
{
    let mut stack = stack;
    if stack.len() != 1 {
        return Err(BuildError::NotSingleRoot);
    }
    match stack.pop() {
        Some(node) => {
            let mut node = node;
            proliferate_namespaces(&mut node, &None);
            Ok(node)
        },
        None => Err(BuildError::NotSingleRoot),
    }
}

/// Sets `value` on the tag on top of the stack: as the value field of an
/// `input` or a `textarea`, as the attribute `value` of any other tag.
pub fn set_value_or_attribute(stack: &mut Stack, value: &str) -> (r: Result<(), BuildError>)
    ensures
        meets(
            r,
            old(stack)@,
            final(stack)@,
            set_value_or_attribute_spec(nodes_view(old(stack)@), value@),
        ),
{
    let n: usize = stack.len();
    if n > 0 {
        if let VNode::VTag(vtag) = &mut stack[n - 1] {
            if same_text_ignoring_ascii_case(vtag.tag(), "input") || same_text_ignoring_ascii_case(
                vtag.tag(),
                "textarea",
            ) {
                vtag.set_value(value);
            } else {
                vtag.add_attribute("value", value);
            }
            proof {
                lemma_nodes_view_update(old(stack)@, n - 1, VNode::VTag(*vtag));
            }
            return Ok(());
        }
    }
    assert(stack@ =~= old(stack)@);
    Err(BuildError::wrong_node_kind(Operation::SetValue, value))
}

/// Sets the kind of the tag on top of the stack.
pub fn set_kind(stack: &mut Stack, value: &str) -> (r: Result<(), BuildError>)
    ensures
        meets(r, old(stack)@, final(stack)@, set_kind_spec(nodes_view(old(stack)@), value@)),
{
    let n: usize = stack.len();
    if n > 0 {
        if let VNode::VTag(vtag) = &mut stack[n - 1] {
            vtag.set_kind(value);
            proof {
                lemma_nodes_view_update(old(stack)@, n - 1, VNode::VTag(*vtag));
            }
            return Ok(());
        }
    }
    assert(stack@ =~= old(stack)@);
    Err(BuildError::wrong_node_kind(Operation::SetKind, value))
}

/// Sets the checked flag of the tag on top of the stack.
pub fn set_checked(stack: &mut Stack, value: bool) -> (r: Result<(), BuildError>)
    ensures
        meets(r, old(stack)@, final(stack)@, set_checked_spec(nodes_view(old(stack)@), value)),
{
    let n: usize = stack.len();
    if n > 0 {
        if let VNode::VTag(vtag) = &mut stack[n - 1] {
            vtag.set_checked(value);
            proof {
                lemma_nodes_view_update(old(stack)@, n - 1, VNode::VTag(*vtag));
            }
            return Ok(());
        }
    }
    assert(stack@ =~= old(stack)@);
    Err(
        BuildError::wrong_node_kind(
            Operation::SetChecked,
            if value {
                "true"
            } else {
                "false"
            },
        ),
    )
}

/// Sets the namespace of the tag on top of the stack.
pub fn set_namespace(stack: &mut Stack, namespace: Option<String>) -> (r: Result<(), BuildError>)
    ensures
        meets(
            r,
            old(stack)@,
            final(stack)@,
            set_namespace_spec(nodes_view(old(stack)@), text_opt(namespace)),
        ),
{
    let n: usize = stack.len();
    if n > 0 {
        if let VNode::VTag(vtag) = &mut stack[n - 1] {
            vtag.set_namespace(namespace);
            proof {
                lemma_nodes_view_update(old(stack)@, n - 1, VNode::VTag(*vtag));
            }
            return Ok(());
        }
    }
    assert(stack@ =~= old(stack)@);
    Err(
        BuildError::WrongNodeKind {
            operation: Operation::SetNamespace,
            subject: match namespace {
                Some(ns) => ns,
                None => String::new(),
            },
        },
    )
}

/// Sets the attribute `name` of the tag on top of the stack to `value`.
pub fn add_attribute(stack: &mut Stack, name: &str, value: &str) -> (r: Result<(), BuildError>)
    ensures
        meets(
            r,
            old(stack)@,
            final(stack)@,
            add_attribute_spec(nodes_view(old(stack)@), name@, value@),
        ),
{
    let n: usize = stack.len();
    if n > 0 {
        if let VNode::VTag(vtag) = &mut stack[n - 1] {
            vtag.add_attribute(name, value);
            proof {
                lemma_nodes_view_update(old(stack)@, n - 1, VNode::VTag(*vtag));
            }
            return Ok(());
        }
    }
    assert(stack@ =~= old(stack)@);
    Err(BuildError::wrong_node_kind(Operation::AddAttribute, name))
}

/// Appends `class` to the classes of the tag on top of the stack.
pub fn append_class(stack: &mut Stack, class: &str) -> (r: Result<(), BuildError>)
    ensures
        meets(r, old(stack)@, final(stack)@, append_class_spec(nodes_view(old(stack)@), class@)),
{
    let n: usize = stack.len();
    if n > 0 {
        if let VNode::VTag(vtag) = &mut stack[n - 1] {
            vtag.add_class(class);
            proof {
                lemma_nodes_view_update(old(stack)@, n - 1, VNode::VTag(*vtag));
            }
            return Ok(());
        }
    }
    assert(stack@ =~= old(stack)@);
    Err(BuildError::wrong_node_kind(Operation::AppendClass, class))
}

/// Replaces the classes of the tag on top of the stack by `classes`.
pub fn set_classes(stack: &mut Stack, classes: &str) -> (r: Result<(), BuildError>)
    ensures
        meets(r, old(stack)@, final(stack)@, set_classes_spec(nodes_view(old(stack)@), classes@)),
{
    let n: usize = stack.len();
    if n > 0 {
        if let VNode::VTag(vtag) = &mut stack[n - 1] {
            vtag.set_classes(classes);
            proof {
                lemma_nodes_view_update(old(stack)@, n - 1, VNode::VTag(*vtag));
            }
            return Ok(());
        }
    }
    assert(stack@ =~= old(stack)@);
    Err(BuildError::wrong_node_kind(Operation::SetClasses, classes))
}

/// Attaches `listener` to the tag on top of the stack.
pub fn attach_listener(stack: &mut Stack, listener: Listener) -> (r: Result<(), BuildError>)
    ensures
        meets(
            r,
            old(stack)@,
            final(stack)@,
            attach_listener_spec(nodes_view(old(stack)@), listener),
        ),
{
    let n: usize = stack.len();
    if n > 0 {
        if let VNode::VTag(vtag) = &mut stack[n - 1] {
            vtag.add_listener(listener);
            proof {
                lemma_nodes_view_update(old(stack)@, n - 1, VNode::VTag(*vtag));
            }
            return Ok(());
        }
    }
    assert(stack@ =~= old(stack)@);
    Err(BuildError::wrong_node_kind(Operation::AttachListener, listener.kind.name()))
}

fn label(node: &VNode) -> (r: String)
    ensures
        r@ == label_of(node@),
{
    match node {
        VNode::VTag(t) => t.tag.clone(),
        VNode::VList(_) => String::from_str("fragment"),
        VNode::VText(t) => t.text.clone(),
        VNode::VComp(c) => c.name.clone(),
        VNode::VRef(_) => String::from_str("reference"),
    }
}

/// Adds `child` as the last child of the node on top of the stack, which
/// has to be a tag or a fragment.
pub fn add_child(stack: &mut Stack, child: VNode) -> (r: Result<(), BuildError>)
    ensures
        meets(r, old(stack)@, final(stack)@, add_child_spec(nodes_view(old(stack)@), child@)),
{
    let n: usize = stack.len();
    if n > 0 {
        match &mut stack[n - 1] {
            VNode::VTag(vtag) => {
                vtag.add_child(child);
                proof {
                    lemma_nodes_view_update(old(stack)@, n - 1, VNode::VTag(*vtag));
                }
                return Ok(());
            },
            VNode::VList(vlist) => {
                vlist.add_child(child);
                proof {
                    lemma_nodes_view_update(old(stack)@, n - 1, VNode::VList(*vlist));
                }
                return Ok(());
            },
            _ => {},
        }
    }
    assert(stack@ =~= old(stack)@);
    Err(BuildError::WrongNodeKind { operation: Operation::AddChild, subject: label(&child) })
}

fn duplicate_name(name: Option<&str>) -> (r: Option<String>)
    ensures
        text_opt(r) == (match name {
            Some(s) => Some(s@),
            None => None,
        }),
{
    match name {
        Some(s) => Some(String::from_str(s)),
        None => None,
    }
}

/// Closes the node on top of the stack. Where `endtag` is given and the
/// node is a tag, the two names have to match, whatever their case. The
/// node then becomes the last child of the node below it; the only node on
/// the stack stays there as the root.
pub fn child_to_parent(stack: &mut Stack, endtag: Option<&str>) -> (r: Result<(), BuildError>)
    ensures
        meets(
            r,
            old(stack)@,
            final(stack)@,
            child_to_parent_spec(
                nodes_view(old(stack)@),
                match endtag {
                    Some(s) => Some(s@),
                    None => None,
                },
            ),
        ),
{
    let n: usize = stack.len();
    if n == 0 {
        return Err(BuildError::EmptyStack { closing: duplicate_name(endtag) });
    }
    if let (VNode::VTag(vtag), Some(endtag)) = (&stack[n - 1], endtag) {
        if !same_text_ignoring_ascii_case(vtag.tag(), endtag) {
            return Err(
                BuildError::TagMismatch {
                    open: vtag.tag.clone(),
                    close: String::from_str(endtag),
                },
            );
        }
    }
    if n == 1 {
        return Ok(());
    }
    match &stack[n - 2] {
        VNode::VTag(_) => {},
        VNode::VList(_) => {},
        _ => {
            return Err(
                BuildError::WrongNodeKind { operation: Operation::CloseTag, subject: String::new() },
            );
        },
    }
    proof {
        lemma_nodes_view_drop_last(old(stack)@);
    }
    match stack.pop() {
        Some(node) => {
            let ghost rest = stack@;
            match &mut stack[n - 2] {
                VNode::VTag(vtag) => {
                    vtag.add_child(node);
                    proof {
                        lemma_nodes_view_update(rest, n - 2, VNode::VTag(*vtag));
                    }
                },
                VNode::VList(vlist) => {
                    vlist.add_child(node);
                    proof {
                        lemma_nodes_view_update(rest, n - 2, VNode::VList(*vlist));
                    }
                },
                _ => {},
            }
        },
        None => {},
    }
    Ok(())
}

} // verus!
