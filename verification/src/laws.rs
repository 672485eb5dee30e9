//! What holds of the builder and of the compiler on every input.

use vstd::prelude::*;
use crate::builder::{
    accepts_children,
    add_child_spec,
    append_class_spec,
    child_to_parent_spec,
    replace_top,
    set_value_or_attribute_spec,
    top_tag,
    unpack_spec,
    with_child,
};
use crate::error::{BuildErrorView, CompileErrorView, Operation};
use crate::grammar::{
    Mode,
    State,
    append_classes,
    class_list,
    html_spec,
    interpolated,
    lemma_step_advances,
    run,
    start,
    step,
    svg_namespace,
};
use crate::namespace::{propagate, propagate_all};
use crate::value::{ValueView, text_of, truthy};
use crate::node::{NodeView, TagView, class_appended};
use crate::ordered_map::{has_name, lemma_put_keeps_others, lemma_put_sets, value_of};
use crate::text::eq_ignore_ascii_case;
use crate::token::TokenView;

verus! {

/// Whatever the state and the position, tokens that are accepted leave
/// exactly one node on the stack.
pub proof fn lemma_run_leaves_one_node(state: State, tokens: Seq<TokenView>, pos: int)
    requires
        0 <= pos,
    ensures
        run(state, tokens, pos) matches Ok(stack) ==> stack.len() == 1,
    decreases tokens.len() - pos,
{
    if pos < tokens.len() {
        lemma_step_advances(state, tokens, pos);
        match step(state, tokens, pos) {
            Ok((next, after)) => {
                if pos < after {
                    lemma_run_leaves_one_node(next, tokens, after);
                }
            },
            Err(_) => {},
        }
    }
}

/// A template that the grammar accepts leaves exactly one node on the
/// stack at its end, and taking the tree off that stack does not fail: it
/// gives the tree of the template.
pub proof fn law_accepted_template_has_one_root(tokens: Seq<TokenView>)
    requires
        html_spec(tokens) is Ok,
    ensures
        run(start(), tokens, 0) is Ok,
        run(start(), tokens, 0)->Ok_0.len() == 1,
        unpack_spec(run(start(), tokens, 0)->Ok_0) == Ok::<NodeView, BuildErrorView>(
            html_spec(tokens)->Ok_0,
        ),
{
    lemma_run_leaves_one_node(start(), tokens, 0);
}

/// A tag that was opened as `open` on top of `below` and is closed as
/// `close`: where the two names match, whatever their case, the closing
/// never fails as a mismatch, and it succeeds where nothing is below the
/// tag or what is below takes children; where they do not match, it fails
/// as a mismatch that names both.
pub proof fn law_closing_tag_must_match(
    below: Seq<NodeView>,
    open: TagView,
    close: Seq<char>,
)
    ensures
        eq_ignore_ascii_case(open.tag, close) && below.len() == 0 ==> child_to_parent_spec(
            below.push(NodeView::Tag(open)),
            Some(close),
        ) == Ok::<Seq<NodeView>, BuildErrorView>(below.push(NodeView::Tag(open))),
        eq_ignore_ascii_case(open.tag, close) && below.len() > 0 && accepts_children(below.last())
            ==> child_to_parent_spec(below.push(NodeView::Tag(open)), Some(close)) == Ok::<
            Seq<NodeView>,
            BuildErrorView,
        >(replace_top(below, with_child(below.last(), NodeView::Tag(open)))),
        !eq_ignore_ascii_case(open.tag, close) ==> child_to_parent_spec(
            below.push(NodeView::Tag(open)),
            Some(close),
        ) == Err::<Seq<NodeView>, BuildErrorView>(
            BuildErrorView::TagMismatch { open: open.tag, close },
        ),
{
    let stack = below.push(NodeView::Tag(open));
    assert(stack.last() == NodeView::Tag(open));
    assert(stack.drop_last() =~= below);
    if below.len() > 0 {
        assert(stack[stack.len() - 2] == below.last());
    }
}

/// A child can be added exactly where the stack has a top that is a tag
/// or a fragment. It then comes after the children that the top had,
/// which stay in their order, and nothing else on the stack changes.
/// Where the top is a text, a component or a reference, or the stack is
/// empty, adding fails.
pub proof fn law_children_are_added_in_order(stack: Seq<NodeView>, child: NodeView)
    ensures
        add_child_spec(stack, child) is Ok <==> stack.len() > 0 && (stack.last() is Tag
            || stack.last() is List),
        add_child_spec(stack, child) is Err ==> add_child_spec(stack, child)->Err_0
            is WrongNodeKind,
        add_child_spec(stack, child) matches Ok(after) ==> ({
            &&& after.len() == stack.len()
            &&& forall|i: int| 0 <= i < stack.len() - 1 ==> after[i] == stack[i]
            &&& stack.last() matches NodeView::Tag(t) ==> after.last() == NodeView::Tag(
                (TagView { childs: t.childs.push(child), ..t }),
            )
            &&& stack.last() matches NodeView::List(childs) ==> after.last() == NodeView::List(
                childs.push(child),
            )
        }),
{
}

/// A value set on the top tag goes to the value field where the tag is an
/// `input` or a `textarea`, in any case, and leaves the attributes alone;
/// on any other tag it becomes the attribute `value` and leaves the value
/// field alone.
pub proof fn law_value_is_a_field_or_an_attribute(stack: Seq<NodeView>, value: Seq<char>)
    requires
        top_tag(stack) is Some,
    ensures
        set_value_or_attribute_spec(stack, value) is Ok,
        ({
            let before = top_tag(stack)->Some_0;
            let after = top_tag(set_value_or_attribute_spec(stack, value)->Ok_0);
            &&& after is Some
            &&& before.holds_value() ==> after->Some_0.value == Some(value)
                && after->Some_0.attributes == before.attributes
            &&& !before.holds_value() ==> after->Some_0.value == before.value && has_name(
                after->Some_0.attributes,
                "value"@,
            ) && value_of(after->Some_0.attributes, "value"@) == value
        }),
{
    let before = top_tag(stack)->Some_0;
    lemma_put_sets(before.attributes, "value"@, value);
}

/// An attribute that is set is there with the value given, and every
/// attribute of another name is as it was: there or not, with its value.
pub proof fn law_attribute_is_set_alone(
    tag: TagView,
    name: Seq<char>,
    value: Seq<char>,
    other: Seq<char>,
)
    requires
        other != name,
    ensures
        has_name(tag.with_attribute(name, value).attributes, name),
        value_of(tag.with_attribute(name, value).attributes, name) == value,
        has_name(tag.with_attribute(name, value).attributes, other) == has_name(
            tag.attributes,
            other,
        ),
        has_name(tag.attributes, other) ==> value_of(
            tag.with_attribute(name, value).attributes,
            other,
        ) == value_of(tag.attributes, other),
{
    lemma_put_sets(tag.attributes, name, value);
    lemma_put_keeps_others(tag.attributes, name, value, other);
}

/// Classes that are appended to a tag add up in its `class` attribute, in
/// the order given and with one space between them; classes that are set
/// replace whatever was there.
pub proof fn law_classes_append_and_replace(tag: TagView, a: Seq<char>, b: Seq<char>)
    ensures
        has_name(tag.with_class(a).attributes, "class"@),
        !has_name(tag.attributes, "class"@) ==> value_of(tag.with_class(a).attributes, "class"@)
            == a,
        !has_name(tag.attributes, "class"@) && a.len() > 0 ==> value_of(
            tag.with_class(a).with_class(b).attributes,
            "class"@,
        ) == a + " "@ + b,
        has_name(tag.attributes, "class"@) && value_of(tag.attributes, "class"@).len() > 0
            ==> value_of(tag.with_class(a).attributes, "class"@) == value_of(
            tag.attributes,
            "class"@,
        ) + " "@ + a,
        value_of(tag.with_class(a).with_classes(b).attributes, "class"@) == b,
        value_of(tag.with_classes(b).attributes, "class"@) == b,
{
    lemma_put_sets(tag.attributes, "class"@, class_appended(tag.attributes, a));
    let once = tag.with_class(a);
    lemma_put_sets(once.attributes, "class"@, class_appended(once.attributes, b));
    lemma_put_sets(once.attributes, "class"@, b);
    lemma_put_sets(tag.attributes, "class"@, b);
}

/// Once a node is on the stack, no rule leaves the stack empty: the
/// root stays.
pub proof fn law_root_is_kept(state: State, tokens: Seq<TokenView>, pos: int)
    requires
        state.stack.len() > 0,
    ensures
        step(state, tokens, pos) matches Ok((next, _)) ==> next.stack.len() > 0,
{
    match state.mode {
        Mode::Top => {},
        Mode::Tag => {
            if class_list(tokens, pos) is Some {
                lemma_append_classes_keep_length(state.stack, class_list(tokens, pos)->Some_0.0, 0);
            }
        },
        Mode::Comp(_) => {},
    }
}

/// Appending classes leaves as many nodes on the stack as there were.
proof fn lemma_append_classes_keep_length(
    stack: Seq<NodeView>,
    classes: Seq<ValueView>,
    from: int,
)
    ensures
        append_classes(stack, classes, from) matches Ok(after) ==> after.len() == stack.len(),
    decreases classes.len() - from,
{
    if 0 <= from < classes.len() {
        match append_class_spec(stack, text_of(classes[from])) {
            Ok(next) => {
                lemma_append_classes_keep_length(next, classes, from + 1);
            },
            Err(_) => {},
        }
    }
}

/// That the mode fits the stack: inside an open tag, the top of the stack
/// is that tag.
pub open spec fn consistent(state: State) -> bool {
    state.mode is Tag ==> top_tag(state.stack) is Some
}

/// The errors that the nesting of a template can cause: tokens that no
/// rule matches, a closing tag under another name, a closing tag with
/// nothing open, and a child or a closed node with nothing below it that
/// takes children.
pub open spec fn caused_by_nesting(e: CompileErrorView) -> bool {
    match e {
        CompileErrorView::Unmatched { .. } => true,
        CompileErrorView::Build { error, .. } => match error {
            BuildErrorView::TagMismatch { .. } => true,
            BuildErrorView::EmptyStack { .. } => true,
            BuildErrorView::WrongNodeKind { operation, .. } => operation == Operation::AddChild
                || operation == Operation::CloseTag,
            BuildErrorView::NotSingleRoot => false,
        },
    }
}

/// Classes are appended without fail to a stack with a tag on top, and
/// leave a tag on top.
pub proof fn lemma_append_classes_on_a_tag(
    stack: Seq<NodeView>,
    classes: Seq<ValueView>,
    from: int,
)
    requires
        top_tag(stack) is Some,
    ensures
        append_classes(stack, classes, from) is Ok,
        top_tag(append_classes(stack, classes, from)->Ok_0) is Some,
    decreases classes.len() - from,
{
    if 0 <= from < classes.len() {
        let next = append_class_spec(stack, text_of(classes[from]))->Ok_0;
        lemma_append_classes_on_a_tag(next, classes, from + 1);
    }
}

/// A rule that is applied where the mode fits the stack leaves a mode
/// that fits the stack, and fails only with an error that the nesting of
/// the template can cause: never because an attribute, a class, a value
/// or a listener found no tag to go to.
pub proof fn lemma_step_keeps_consistent(state: State, tokens: Seq<TokenView>, pos: int)
    requires
        consistent(state),
    ensures
        step(state, tokens, pos) matches Ok((next, _)) ==> consistent(next),
        step(state, tokens, pos) matches Err(e) ==> caused_by_nesting(e),
{
    match state.mode {
        Mode::Top => {
            assert(forall|s: Seq<NodeView>, n: NodeView| #[trigger] s.push(n).last() == n);
        },
        Mode::Tag => {
            if class_list(tokens, pos) is Some {
                lemma_append_classes_on_a_tag(state.stack, class_list(tokens, pos)->Some_0.0, 0);
            }
        },
        Mode::Comp(_) => {},
    }
}

/// From a state whose mode fits the stack, tokens fail only with an error
/// that the nesting of the template can cause.
pub proof fn lemma_run_fails_by_nesting(state: State, tokens: Seq<TokenView>, pos: int)
    requires
        consistent(state),
        0 <= pos,
    ensures
        run(state, tokens, pos) matches Err(e) ==> caused_by_nesting(e),
    decreases tokens.len() - pos,
{
    if pos < tokens.len() {
        lemma_step_keeps_consistent(state, tokens, pos);
        match step(state, tokens, pos) {
            Ok((next, after)) => {
                if pos < after {
                    lemma_run_fails_by_nesting(next, tokens, after);
                }
            },
            Err(_) => {},
        }
    }
}

/// A template never fails because an attribute, a class, a value or a
/// listener found no tag to go to, nor because the stack did not hold one
/// node at its end: the rules ask the builder for those operations only
/// where they succeed.
pub proof fn law_template_fails_by_nesting_only(tokens: Seq<TokenView>)
    ensures
        html_spec(tokens) matches Err(e) ==> caused_by_nesting(e),
{
    lemma_run_fails_by_nesting(start(), tokens, 0);
}

/// The tag that `<name` opens: in the namespace of SVG where the name is
/// `svg`, without a namespace else.
pub open spec fn opened(name: Seq<char>) -> TagView {
    TagView::new(
        name,
        if name == "svg"@ {
            Some(svg_namespace())
        } else {
            None
        },
    )
}

/// The template `<open></close>` gives the tag called `open` where the
/// two names match, whatever their case, and fails as a mismatch that
/// names both where they do not.
pub proof fn law_open_close_round_trip(open: Seq<char>, close: Seq<char>)
    ensures
        html_spec(
            seq![
                TokenView::Lt,
                TokenView::Ident(open),
                TokenView::Gt,
                TokenView::Lt,
                TokenView::Slash,
                TokenView::Ident(close),
                TokenView::Gt,
            ],
        ) == (if eq_ignore_ascii_case(open, close) {
            Ok::<NodeView, CompileErrorView>(NodeView::Tag(opened(open)))
        } else {
            Err::<NodeView, CompileErrorView>(
                CompileErrorView::Build {
                    position: 3,
                    error: BuildErrorView::TagMismatch { open, close },
                },
            )
        }),
{
    let tokens = seq![
        TokenView::Lt,
        TokenView::Ident(open),
        TokenView::Gt,
        TokenView::Lt,
        TokenView::Slash,
        TokenView::Ident(close),
        TokenView::Gt,
    ];
    reveal_with_fuel(run, 5);
    let tag = NodeView::Tag(opened(open));
    let s1 = State { stack: seq![tag], mode: Mode::Tag };
    assert(start().stack.push(tag) =~= seq![tag]);
    assert(step(start(), tokens, 0) == Ok::<(State, int), CompileErrorView>((s1, 2)));
    let s2 = State { stack: seq![tag], mode: Mode::Top };
    lemma_no_attribute_at(tokens, 2);
    assert(step(s1, tokens, 2) == Ok::<(State, int), CompileErrorView>((s2, 3)));
    assert(propagate_all(Seq::<NodeView>::empty(), opened(open).ns) =~= Seq::<NodeView>::empty());
}

/// Where the token at `pos` is no name and no `(`, none of the rules for
/// attributes and listeners matches there.
proof fn lemma_no_attribute_at(tokens: Seq<TokenView>, pos: int)
    requires
        !(crate::token::at(tokens, pos) is Ident),
        !(crate::token::at(tokens, pos) is LParen),
    ensures
        crate::grammar::class_list(tokens, pos) is None,
        crate::grammar::event_binding(tokens, pos) is None,
        crate::grammar::action_binding(tokens, pos) is None,
        crate::grammar::plain_attribute(tokens, pos) is None,
        forall|name: Seq<char>| (#[trigger] crate::grammar::named_value(tokens, pos, name)) is None,
{
}

/// The template `<></>` with one child in braces between the two gives a
/// fragment with exactly one child: the text of the value where the child
/// is a value, the node with its namespaces spread where it is a node.
pub proof fn law_fragment_with_one_child(child: TokenView)
    requires
        interpolated(child) is Some,
    ensures
        html_spec(
            seq![
                TokenView::Lt,
                TokenView::Gt,
                TokenView::LBrace,
                child,
                TokenView::RBrace,
                TokenView::Lt,
                TokenView::Slash,
                TokenView::Gt,
            ],
        ) == Ok::<NodeView, CompileErrorView>(
            NodeView::List(seq![propagate(interpolated(child)->Some_0, None)]),
        ),
        child is Expr ==> propagate(interpolated(child)->Some_0, None) == interpolated(
            child,
        )->Some_0,
{
    let tokens = seq![
        TokenView::Lt,
        TokenView::Gt,
        TokenView::LBrace,
        child,
        TokenView::RBrace,
        TokenView::Lt,
        TokenView::Slash,
        TokenView::Gt,
    ];
    let node = interpolated(child)->Some_0;
    reveal_with_fuel(run, 5);
    let empty = NodeView::List(Seq::empty());
    let s1 = State { stack: seq![empty], mode: Mode::Top };
    assert(start().stack.push(empty) =~= seq![empty]);
    assert(step(start(), tokens, 0) == Ok::<(State, int), CompileErrorView>((s1, 2)));
    let full = NodeView::List(seq![node]);
    let s2 = State { stack: seq![full], mode: Mode::Top };
    assert(Seq::<NodeView>::empty().push(node) =~= seq![node]);
    assert(replace_top(seq![empty], full) =~= seq![full]);
    assert(step(s1, tokens, 2) == Ok::<(State, int), CompileErrorView>((s2, 5)));
    assert(step(s2, tokens, 5) == Ok::<(State, int), CompileErrorView>((s2, 8)));
    assert(propagate_all(seq![node], None) =~= seq![propagate(node, None)]);
}

/// The template `<name disabled=value, />` gives a tag with the attribute
/// `disabled` set to `true` where the value counts as true, and a tag
/// without that attribute where it does not.
pub proof fn law_disabled_is_present_or_absent(name: Seq<char>, value: ValueView)
    ensures
        html_spec(
            seq![
                TokenView::Lt,
                TokenView::Ident(name),
                TokenView::Ident("disabled"@),
                TokenView::Assign,
                TokenView::Expr(value),
                TokenView::Comma,
                TokenView::Slash,
                TokenView::Gt,
            ],
        ) == Ok::<NodeView, CompileErrorView>(
            NodeView::Tag(
                if truthy(value) {
                    opened(name).with_attribute("disabled"@, "true"@)
                } else {
                    opened(name)
                },
            ),
        ),
        !has_name(opened(name).attributes, "disabled"@),
        has_name(opened(name).with_attribute("disabled"@, "true"@).attributes, "disabled"@),
        value_of(opened(name).with_attribute("disabled"@, "true"@).attributes, "disabled"@)
            == "true"@,
{
    let tokens = seq![
        TokenView::Lt,
        TokenView::Ident(name),
        TokenView::Ident("disabled"@),
        TokenView::Assign,
        TokenView::Expr(value),
        TokenView::Comma,
        TokenView::Slash,
        TokenView::Gt,
    ];
    reveal_with_fuel(run, 5);
    reveal_strlit("disabled");
    reveal_strlit("xmlns");
    reveal_strlit("class");
    reveal_strlit("value");
    reveal_strlit("type");
    reveal_strlit("checked");
    let tag = NodeView::Tag(opened(name));
    let s1 = State { stack: seq![tag], mode: Mode::Tag };
    assert(start().stack.push(tag) =~= seq![tag]);
    assert(step(start(), tokens, 0) == Ok::<(State, int), CompileErrorView>((s1, 2)));
    let set = if truthy(value) {
        opened(name).with_attribute("disabled"@, "true"@)
    } else {
        opened(name)
    };
    let s2 = State { stack: seq![NodeView::Tag(set)], mode: Mode::Tag };
    assert(replace_top(seq![tag], NodeView::Tag(set)) =~= seq![NodeView::Tag(set)]);
    assert("xmlns"@.len() == 5 && "class"@.len() == 5 && "value"@.len() == 5 && "type"@.len() == 4
        && "checked"@.len() == 7 && "disabled"@.len() == 8);
    assert(step(s1, tokens, 2) == Ok::<(State, int), CompileErrorView>((s2, 6)));
    let s3 = State { stack: seq![NodeView::Tag(set)], mode: Mode::Top };
    lemma_no_attribute_at(tokens, 6);
    assert(step(s2, tokens, 6) == Ok::<(State, int), CompileErrorView>((s3, 8)));
    assert(propagate_all(Seq::<NodeView>::empty(), set.ns) =~= Seq::<NodeView>::empty());
    lemma_put_sets(opened(name).attributes, "disabled"@, "true"@);
}

} // verus!
