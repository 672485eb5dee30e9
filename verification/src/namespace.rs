//! How a namespace spreads from a tag to the tags below it.

use vstd::prelude::*;
use crate::node::{NodeView, TagView, VNode, VTag, VList, nodes_view, text_opt};

verus! {

/// The namespace that a tag ends with and hands to its children: its own
/// where it has one, else the one it inherits.
pub open spec fn namespace_in_force(own: Option<Seq<char>>, inherited: Option<Seq<char>>) -> Option<
    Seq<char>,
> {
    if own is Some {
        own
    } else {
        inherited
    }
}

/// Each node of `nodes` after the namespace `ns` has spread into it.
pub open spec fn propagate_all(nodes: Seq<NodeView>, ns: Option<Seq<char>>) -> Seq<NodeView>
    decreases nodes,
{
    Seq::new(
        nodes.len(),
        |i: int|
            if 0 <= i < nodes.len() {
                propagate(nodes[i], ns)
            } else {
                NodeView::Ref(0)
            },
    )
}

/// `node` after the namespace `ns` has spread into it from above. A tag
/// keeps a namespace of its own and takes `ns` where it has none; what it
/// ends with spreads into its children. A fragment hands `ns` on to its
/// children unchanged. Nothing spreads into or through any other node.
pub open spec fn propagate(node: NodeView, ns: Option<Seq<char>>) -> NodeView
    decreases node,
{
    match node {
        NodeView::Tag(t) => {
            let current = namespace_in_force(t.ns, ns);
            NodeView::Tag(TagView { ns: current, childs: propagate_all(t.childs, current), ..t })
        },
        NodeView::List(childs) => NodeView::List(propagate_all(childs, ns)),
        other => other,
    }
}

/// The children of a node; a node that takes none has none.
pub open spec fn children_of(node: NodeView) -> Seq<NodeView> {
    match node {
        NodeView::Tag(t) => t.childs,
        NodeView::List(childs) => childs,
        _ => Seq::empty(),
    }
}

/// The node found below `node` by going, at each step of `path`, to the
/// child at the index that the step gives.
pub open spec fn descend(node: NodeView, path: Seq<int>) -> Option<NodeView>
    decreases path.len(),
{
    if path.len() == 0 {
        Some(node)
    } else if 0 <= path[0] < children_of(node).len() {
        descend(children_of(node)[path[0]], path.skip(1))
    } else {
        None
    }
}

/// The namespace that reaches the node at `path` from above, when `ns`
/// reaches `node`: each tag on the way hands down its own namespace where
/// it has one, and what reached it where it has none.
pub open spec fn namespace_reaching(
    node: NodeView,
    path: Seq<int>,
    ns: Option<Seq<char>>,
) -> Option<Seq<char>>
    decreases path.len(),
{
    if path.len() == 0 {
        ns
    } else if 0 <= path[0] < children_of(node).len() {
        namespace_reaching(
            children_of(node)[path[0]],
            path.skip(1),
            match node {
                NodeView::Tag(t) => namespace_in_force(t.ns, ns),
                _ => ns,
            },
        )
    } else {
        ns
    }
}

/// Spreading keeps the shape of the tree, and what it does to a node
/// anywhere in the tree is to spread into it the namespace that reaches
/// that node.
pub proof fn law_propagation_reaches_every_node(
    node: NodeView,
    path: Seq<int>,
    ns: Option<Seq<char>>,
)
    ensures
        descend(propagate(node, ns), path) is Some == descend(node, path) is Some,
        descend(node, path) matches Some(found) ==> descend(propagate(node, ns), path) == Some(
            propagate(found, namespace_reaching(node, path, ns)),
        ),
    decreases path.len(),
{
    if path.len() > 0 && 0 <= path[0] < children_of(node).len() {
        let handed = match node {
            NodeView::Tag(t) => namespace_in_force(t.ns, ns),
            _ => ns,
        };
        law_propagation_reaches_every_node(children_of(node)[path[0]], path.skip(1), handed);
    }
}

/// A tag anywhere in the tree ends with its own namespace where it has
/// one, and with the namespace that reaches it where it has none; its
/// name, attributes, listeners and other fields stay as they were.
pub proof fn law_tag_namespace_after_propagation(
    node: NodeView,
    path: Seq<int>,
    ns: Option<Seq<char>>,
)
    requires
        descend(node, path) is Some,
        descend(node, path)->Some_0 is Tag,
    ensures
        descend(propagate(node, ns), path) matches Some(NodeView::Tag(after)) && ({
            let before = descend(node, path)->Some_0->Tag_0;
            &&& before.ns is Some ==> after.ns == before.ns
            &&& before.ns is None ==> after.ns == namespace_reaching(node, path, ns)
            &&& after.tag == before.tag
            &&& after.attributes == before.attributes
            &&& after.kind == before.kind
            &&& after.value == before.value
            &&& after.checked == before.checked
            &&& after.listeners == before.listeners
            &&& after.childs.len() == before.childs.len()
        }),
{
    law_propagation_reaches_every_node(node, path, ns);
}

/// Spreading the same namespace a second time changes nothing.
pub proof fn law_propagation_is_idempotent(node: NodeView, ns: Option<Seq<char>>)
    ensures
        propagate(propagate(node, ns), ns) == propagate(node, ns),
    decreases node,
{
    match node {
        NodeView::Tag(t) => {
            let current = namespace_in_force(t.ns, ns);
            let once = propagate_all(t.childs, current);
            assert forall|i: int| 0 <= i < t.childs.len() implies propagate(
                #[trigger] once[i],
                current,
            ) == once[i] by {
                law_propagation_is_idempotent(t.childs[i], current);
            }
            assert(propagate_all(once, current) =~= once);
        },
        NodeView::List(childs) => {
            let once = propagate_all(childs, ns);
            assert forall|i: int| 0 <= i < childs.len() implies propagate(#[trigger] once[i], ns)
                == once[i] by {
                law_propagation_is_idempotent(childs[i], ns);
            }
            assert(propagate_all(once, ns) =~= once);
        },
        _ => {},
    }
}

fn proliferate_into(childs: &mut Vec<VNode>, ns: &Option<String>)
    ensures
        nodes_view(final(childs)@) == propagate_all(nodes_view(old(childs)@), text_opt(*ns)),
    decreases *old(childs),
{
    let n: usize = childs.len();
    let mut i: usize = 0;
    while i < n
        invariant
            i <= n,
            n == childs@.len(),
            n == old(childs)@.len(),
            forall|j: int| i <= j < n ==> childs@[j] == old(childs)@[j],
            forall|j: int|
                0 <= j < i ==> (#[trigger] childs@[j])@ == propagate(
                    old(childs)@[j]@,
                    text_opt(*ns),
                ),
        decreases n - i,
    {
        let ghost before = childs@;
        proliferate_namespaces(&mut childs[i], ns);
        i = i + 1;
    }
    assert(nodes_view(childs@) =~= propagate_all(nodes_view(old(childs)@), text_opt(*ns)));
}

/// Spreads the namespace `ns` into `node` from above.
pub fn proliferate_namespaces(node: &mut VNode, ns: &Option<String>)
    ensures
        final(node)@ == propagate(old(node)@, text_opt(*ns)),
    decreases *old(node),
{
    match node {
        VNode::VTag(tag) => {
            if tag.ns.is_none() {
                match ns {
                    Some(inherited) => {
                        tag.ns = Some(inherited.clone());
                    },
                    None => {},
                }
            }
            let VTag { ns: current, childs, .. } = tag;
            proliferate_into(childs, current);
        },
        VNode::VList(list) => {
            proliferate_into(&mut list.childs, ns);
        },
        _ => {},
    }
}

} // verus!
