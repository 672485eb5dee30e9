//! The tree of virtual nodes that a template describes.

use vstd::prelude::*;
use vstd::string::StringExecFns;
use crate::event::Listener;
use crate::ordered_map::{OrderedMap, put, value_of, has_name};
use crate::value::{Value, ValueView};

verus! {

/// The attributes of a tag: names with their text, in the order set.
pub type Attributes = OrderedMap<String>;

/// The properties handed to a component: field names with their values.
pub type Props = OrderedMap<Value>;

/// A piece of text.
#[derive(Debug, Clone, PartialEq, Eq)]
pub struct VText {
    pub text: String,
}

/// A handle to something outside the tree.
#[derive(Debug, Clone, Copy, PartialEq, Eq)]
pub struct VRef {
    pub handle: u64,
}

/// A component: the name of its type and the properties bound to it.
#[derive(Debug, PartialEq, Eq)]
pub struct VComp {
    pub name: String,
    pub props: Props,
}

/// A fragment: children without a tag of their own.
#[derive(Debug, PartialEq, Eq)]
pub struct VList {
    pub childs: Vec<VNode>,
}

/// An element.
#[derive(Debug, PartialEq, Eq)]
pub struct VTag {
    pub tag: String,
    pub ns: Option<String>,
    pub attributes: Attributes,
    pub kind: Option<String>,
    pub value: Option<String>,
    pub checked: bool,
    pub childs: Vec<VNode>,
    pub listeners: Vec<Listener>,
}

/// A node of the tree.
#[derive(Debug, PartialEq, Eq)]
pub enum VNode {
    VTag(VTag),
    VList(VList),
    VText(VText),
    VComp(VComp),
    VRef(VRef),
}

/// The mathematical content of a [`VTag`].
pub ghost struct TagView {
    pub tag: Seq<char>,
    pub ns: Option<Seq<char>>,
    pub attributes: Seq<(Seq<char>, Seq<char>)>,
    pub kind: Option<Seq<char>>,
    pub value: Option<Seq<char>>,
    pub checked: bool,
    pub childs: Seq<NodeView>,
    pub listeners: Seq<Listener>,
}

/// The mathematical content of a [`VComp`].
pub ghost struct CompView {
    pub name: Seq<char>,
    pub props: Seq<(Seq<char>, ValueView)>,
}

/// The mathematical content of a [`VNode`].
pub ghost enum NodeView {
    Tag(TagView),
    List(Seq<NodeView>),
    Text(Seq<char>),
    Comp(CompView),
    Ref(u64),
}

/// The characters of an optional string.
pub open spec fn text_opt(s: Option<String>) -> Option<Seq<char>> {
    match s {
        Some(s) => Some(s@),
        None => None,
    }
}

/// The content of each node of a sequence.
pub open spec fn nodes_view(nodes: Seq<VNode>) -> Seq<NodeView>
    decreases nodes,
{
    Seq::new(
        nodes.len(),
        |i: int|
            if 0 <= i < nodes.len() {
                node_view(nodes[i])
            } else {
                NodeView::Ref(0)
            },
    )
}

/// The content of a tag.
pub open spec fn tag_view(t: VTag) -> TagView
    decreases t,
{
    TagView {
        tag: t.tag@,
        ns: text_opt(t.ns),
        attributes: t.attributes@,
        kind: text_opt(t.kind),
        value: text_opt(t.value),
        checked: t.checked,
        childs: nodes_view(t.childs@),
        listeners: t.listeners@,
    }
}

/// The content of a node.
pub open spec fn node_view(node: VNode) -> NodeView
    decreases node,
{
    match node {
        VNode::VTag(t) => NodeView::Tag(tag_view(t)),
        VNode::VList(l) => NodeView::List(nodes_view(l.childs@)),
        VNode::VText(t) => NodeView::Text(t.text@),
        VNode::VComp(c) => NodeView::Comp(CompView { name: c.name@, props: c.props@ }),
        VNode::VRef(r) => NodeView::Ref(r.handle),
    }
}

impl View for VText {
    type V = Seq<char>;

    open spec fn view(&self) -> Seq<char> {
        self.text@
    }
}

impl View for VComp {
    type V = CompView;

    open spec fn view(&self) -> CompView {
        CompView { name: self.name@, props: self.props@ }
    }
}

impl View for VList {
    type V = Seq<NodeView>;

    open spec fn view(&self) -> Seq<NodeView> {
        nodes_view(self.childs@)
    }
}

impl View for VTag {
    type V = TagView;

    open spec fn view(&self) -> TagView {
        tag_view(*self)
    }
}

impl View for VNode {
    type V = NodeView;

    open spec fn view(&self) -> NodeView {
        node_view(*self)
    }
}

/// Adding a node at the end adds its content at the end.
pub proof fn lemma_nodes_view_push(nodes: Seq<VNode>, node: VNode)
    ensures
        nodes_view(nodes.push(node)) == nodes_view(nodes).push(node@),
{
    assert(nodes_view(nodes.push(node)) =~= nodes_view(nodes).push(node@));
}

/// Replacing a node replaces its content.
pub proof fn lemma_nodes_view_update(nodes: Seq<VNode>, i: int, node: VNode)
    requires
        0 <= i < nodes.len(),
    ensures
        nodes_view(nodes.update(i, node)) == nodes_view(nodes).update(i, node@),
{
    assert(nodes_view(nodes.update(i, node)) =~= nodes_view(nodes).update(i, node@));
}

/// Dropping the last node drops its content.
pub proof fn lemma_nodes_view_drop_last(nodes: Seq<VNode>)
    requires
        nodes.len() > 0,
    ensures
        nodes_view(nodes.drop_last()) == nodes_view(nodes).drop_last(),
        nodes_view(nodes).last() == nodes.last()@,
{
    assert(nodes_view(nodes.drop_last()) =~= nodes_view(nodes).drop_last());
}

/// The value of the `class` attribute after one more class is appended: the
/// class alone where there was none, else the old value, a space, and the
/// class.
pub open spec fn class_appended(attributes: Seq<(Seq<char>, Seq<char>)>, class: Seq<char>) -> Seq<
    char,
> {
    if has_name(attributes, "class"@) && value_of(attributes, "class"@).len() > 0 {
        value_of(attributes, "class"@) + " "@ + class
    } else {
        class
    }
}

impl TagView {
    /// A tag with a name and a namespace and nothing else.
    pub open spec fn new(tag: Seq<char>, ns: Option<Seq<char>>) -> TagView {
        TagView {
            tag,
            ns,
            attributes: Seq::empty(),
            kind: None,
            value: None,
            checked: false,
            childs: Seq::empty(),
            listeners: Seq::empty(),
        }
    }

    /// The tag with one more child at the end.
    pub open spec fn with_child(self, child: NodeView) -> TagView {
        TagView { childs: self.childs.push(child), ..self }
    }

    /// The tag with the attribute `name` set to `value`.
    pub open spec fn with_attribute(self, name: Seq<char>, value: Seq<char>) -> TagView {
        TagView { attributes: put(self.attributes, name, value), ..self }
    }

    /// The tag with one more class in its `class` attribute.
    pub open spec fn with_class(self, class: Seq<char>) -> TagView {
        self.with_attribute("class"@, class_appended(self.attributes, class))
    }

    /// The tag with `classes` as its whole `class` attribute.
    pub open spec fn with_classes(self, classes: Seq<char>) -> TagView {
        self.with_attribute("class"@, classes)
    }

    /// The tag with its value set.
    pub open spec fn with_value(self, value: Seq<char>) -> TagView {
        TagView { value: Some(value), ..self }
    }

    /// The tag with its kind set.
    pub open spec fn with_kind(self, kind: Seq<char>) -> TagView {
        TagView { kind: Some(kind), ..self }
    }

    /// The tag with its checked flag set.
    pub open spec fn with_checked(self, checked: bool) -> TagView {
        TagView { checked, ..self }
    }

    /// The tag with its namespace set.
    pub open spec fn with_namespace(self, ns: Option<Seq<char>>) -> TagView {
        TagView { ns, ..self }
    }

    /// The tag with one more listener at the end.
    pub open spec fn with_listener(self, listener: Listener) -> TagView {
        TagView { listeners: self.listeners.push(listener), ..self }
    }

    /// Whether the tag is a form control whose value is a field of its own:
    /// an `input` or a `textarea`, in any case.
    pub open spec fn holds_value(self) -> bool {
        crate::text::eq_ignore_ascii_case(self.tag, "input"@) || crate::text::eq_ignore_ascii_case(
            self.tag,
            "textarea"@,
        )
    }
}

impl VText {
    /// A text node that holds `text`.
    pub fn new(text: &str) -> (r: VText)
        ensures
            r@ == text@,
    {
        VText { text: String::from_str(text) }
    }
}

impl VList {
    /// An empty fragment.
    pub fn new() -> (r: VList)
        ensures
            r@ == Seq::<NodeView>::empty(),
    {
        let r = VList { childs: Vec::new() };
        assert(r@ =~= Seq::<NodeView>::empty());
        r
    }

    /// Adds `child` after the children already there.
    pub fn add_child(&mut self, child: VNode)
        ensures
            final(self)@ == old(self)@.push(child@),
    {
        proof {
            lemma_nodes_view_push(self.childs@, child);
        }
        self.childs.push(child);
    }
}

impl VTag {
    /// A tag called `tag` in the namespace `ns`, with no attributes, no
    /// children and no listeners.
    pub fn new(tag: &str, ns: Option<String>) -> (r: VTag)
        ensures
            r@ == TagView::new(tag@, text_opt(ns)),
    {
        let r = VTag {
            tag: String::from_str(tag),
            ns,
            attributes: OrderedMap::new(),
            kind: None,
            value: None,
            checked: false,
            childs: Vec::new(),
            listeners: Vec::new(),
        };
        assert(r@.childs =~= Seq::<NodeView>::empty());
        r
    }

    /// The name of the tag.
    pub fn tag(&self) -> (r: &str)
        ensures
            r@ == self@.tag,
    {
        self.tag.as_str()
    }

    /// Adds `child` after the children already there.
    pub fn add_child(&mut self, child: VNode)
        ensures
            final(self)@ == old(self)@.with_child(child@),
    {
        proof {
            lemma_nodes_view_push(self.childs@, child);
        }
        self.childs.push(child);
    }

    /// Sets the attribute `name` to `value`. An attribute that is already
    /// there keeps its place.
    pub fn add_attribute(&mut self, name: &str, value: &str)
        ensures
            final(self)@ == old(self)@.with_attribute(name@, value@),
    {
        self.attributes.set(String::from_str(name), String::from_str(value));
    }

    /// Appends `class` to the `class` attribute.
    pub fn add_class(&mut self, class: &str)
        ensures
            final(self)@ == old(self)@.with_class(class@),
    {
        let joined: String = match self.attributes.get("class") {
            Some(present) => {
                if present.as_str().is_empty() {
                    String::from_str(class)
                } else {
                    let mut s: String = present.clone();
                    s.append(" ");
                    s.append(class);
                    s
                }
            },
            None => String::from_str(class),
        };
        self.attributes.set(String::from_str("class"), joined);
    }

    /// Replaces the whole `class` attribute by `classes`.
    pub fn set_classes(&mut self, classes: &str)
        ensures
            final(self)@ == old(self)@.with_classes(classes@),
    {
        self.attributes.set(String::from_str("class"), String::from_str(classes));
    }

    /// Sets the value field.
    pub fn set_value(&mut self, value: &str)
        ensures
            final(self)@ == old(self)@.with_value(value@),
    {
        self.value = Some(String::from_str(value));
    }

    /// Sets the kind field, which stands for the `type` of the element.
    pub fn set_kind(&mut self, kind: &str)
        ensures
            final(self)@ == old(self)@.with_kind(kind@),
    {
        self.kind = Some(String::from_str(kind));
    }

    /// Sets the checked flag.
    pub fn set_checked(&mut self, checked: bool)
        ensures
            final(self)@ == old(self)@.with_checked(checked),
    {
        self.checked = checked;
    }

    /// Sets the namespace.
    pub fn set_namespace(&mut self, ns: Option<String>)
        ensures
            final(self)@ == old(self)@.with_namespace(text_opt(ns)),
    {
        self.ns = ns;
    }

    /// Adds `listener` after the listeners already there.
    pub fn add_listener(&mut self, listener: Listener)
        ensures
            final(self)@ == old(self)@.with_listener(listener),
    {
        self.listeners.push(listener);
    }
}

fn duplicate_text(s: &Option<String>) -> (r: Option<String>)
    ensures
        text_opt(r) == text_opt(*s),
{
    match s {
        Some(s) => Some(s.clone()),
        None => None,
    }
}

fn duplicate_listeners(listeners: &Vec<Listener>) -> (r: Vec<Listener>)
    ensures
        r@ == listeners@,
{
    let mut r: Vec<Listener> = Vec::new();
    let mut i: usize = 0;
    while i < listeners.len()
        invariant
            i <= listeners@.len(),
            r@ == listeners@.take(i as int),
        decreases listeners@.len() - i,
    {
        r.push(listeners[i]);
        assert(listeners@.take(i + 1) =~= listeners@.take(i as int).push(listeners@[i as int]));
        i = i + 1;
    }
    assert(listeners@.take(listeners@.len() as int) =~= listeners@);
    r
}

/// A copy of each node, in the same order.
pub fn duplicate_nodes(nodes: &Vec<VNode>) -> (r: Vec<VNode>)
    ensures
        nodes_view(r@) == nodes_view(nodes@),
    decreases nodes,
{
    let mut r: Vec<VNode> = Vec::new();
    let mut i: usize = 0;
    while i < nodes.len()
        invariant
            i <= nodes@.len(),
            nodes_view(r@) == nodes_view(nodes@).take(i as int),
        decreases nodes@.len() - i,
    {
        let copy: VNode = nodes[i].duplicate();
        proof {
            lemma_nodes_view_push(r@, copy);
            assert(nodes_view(nodes@).take(i + 1) =~= nodes_view(nodes@).take(i as int).push(
                nodes@[i as int]@,
            ));
        }
        r.push(copy);
        i = i + 1;
    }
    assert(nodes_view(nodes@).take(nodes@.len() as int) =~= nodes_view(nodes@));
    r
}

impl VNode {
    /// A copy of the node and of everything below it.
    pub fn duplicate(&self) -> (r: VNode)
        ensures
            r@ == self@,
        decreases self,
    {
        match self {
            VNode::VTag(t) => VNode::VTag(
                VTag {
                    tag: t.tag.clone(),
                    ns: duplicate_text(&t.ns),
                    attributes: t.attributes.duplicate(),
                    kind: duplicate_text(&t.kind),
                    value: duplicate_text(&t.value),
                    checked: t.checked,
                    childs: duplicate_nodes(&t.childs),
                    listeners: duplicate_listeners(&t.listeners),
                },
            ),
            VNode::VList(l) => VNode::VList(VList { childs: duplicate_nodes(&l.childs) }),
            VNode::VText(t) => VNode::VText(VText { text: t.text.clone() }),
            VNode::VComp(c) => VNode::VComp(
                VComp { name: c.name.clone(), props: c.props.duplicate() },
            ),
            VNode::VRef(r) => VNode::VRef(VRef { handle: r.handle }),
        }
    }
}

} // verus!
