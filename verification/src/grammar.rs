//! The grammar of templates, as a table of rules. In each mode the rules
//! are tried in the order given, and the first that matches the tokens at
//! the current position decides.

use vstd::prelude::*;
use crate::builder::{
    Outcome,
    add_attribute_spec,
    add_child_spec,
    append_class_spec,
    attach_listener_spec,
    child_to_parent_spec,
    set_checked_spec,
    set_classes_spec,
    set_kind_spec,
    set_namespace_spec,
    set_value_or_attribute_spec,
};
use crate::error::CompileErrorView;
use crate::event::{Listener, event_named};
use crate::href::href_of;
use crate::namespace::propagate;
use crate::node::{CompView, NodeView, TagView};
use crate::ordered_map::{has_name, put, value_of};
use crate::token::{ChildView, TokenView, at, child_node, value_node};
use crate::value::{ValueView, text_of, transform_spec, truthy};

verus! {

/// What the compiler expects next.
pub ghost enum Mode {
    /// A tag, a fragment, a component, a child or the end.
    Top,
    /// The attributes of the tag on top of the stack, or its end.
    Tag,
    /// The properties of the component that is being put together, or
    /// its end.
    Comp(CompView),
}

/// The state of a compilation: the open nodes and the mode.
pub ghost struct State {
    pub stack: Seq<NodeView>,
    pub mode: Mode,
}

/// What one rule does: the state it leaves with the position after the
/// tokens it took, or the error it stops with.
pub type Step = Result<(State, int), CompileErrorView>;

/// The namespace of SVG.
pub open spec fn svg_namespace() -> Seq<char> {
    "http://www.w3.org/2000/svg"@
}

/// The step made by a rule that took the tokens from `pos` up to `after`
/// and asked the builder for an operation with this outcome.
pub open spec fn built(outcome: Outcome, mode: Mode, pos: int, after: int) -> Step {
    match outcome {
        Ok(stack) => Ok((State { stack, mode }, after)),
        Err(error) => Err(CompileErrorView::Build { position: pos, error }),
    }
}

/// The node that an interpolated token stands for, if it is one.
pub open spec fn interpolated(t: TokenView) -> Option<NodeView> {
    match t {
        TokenView::Expr(v) => Some(value_node(v)),
        TokenView::Node(n) => Some(n),
        _ => None,
    }
}

/// The rules of the top level, in order:
/// `<>` opens a fragment; `</>` closes the open node; `<Type:` starts a
/// component; `<svg` opens a tag in the namespace of SVG; `<name` opens a
/// tag without a namespace; `</name>` closes the open tag by name;
/// `{ for items }` adds a fragment of the items; `{ child }` alone is the
/// whole tree if it is the whole template, and else adds a child.
pub open spec fn top_step(stack: Seq<NodeView>, tokens: Seq<TokenView>, pos: int) -> Step {
    let t0 = at(tokens, pos);
    let t1 = at(tokens, pos + 1);
    let t2 = at(tokens, pos + 2);
    let t3 = at(tokens, pos + 3);
    if t0 is Lt && t1 is Gt {
        Ok((State { stack: stack.push(NodeView::List(Seq::empty())), mode: Mode::Top }, pos + 2))
    } else if t0 is Lt && t1 is Slash && t2 is Gt {
        built(child_to_parent_spec(stack, None), Mode::Top, pos, pos + 3)
    } else if t0 is Lt && t1 is Type && t2 is Colon {
        Ok(
            (
                State {
                    stack,
                    mode: Mode::Comp(
                        CompView { name: t1->Type_0.name, props: t1->Type_0.defaults },
                    ),
                },
                pos + 3,
            ),
        )
    } else if t0 is Lt && t1 == TokenView::Ident("svg"@) {
        Ok(
            (
                State {
                    stack: stack.push(NodeView::Tag(TagView::new("svg"@, Some(svg_namespace())))),
                    mode: Mode::Tag,
                },
                pos + 2,
            ),
        )
    } else if t0 is Lt && t1 is Ident {
        Ok(
            (
                State {
                    stack: stack.push(NodeView::Tag(TagView::new(t1->Ident_0, None))),
                    mode: Mode::Tag,
                },
                pos + 2,
            ),
        )
    } else if t0 is Lt && t1 is Slash && t2 is Ident && t3 is Gt {
        built(child_to_parent_spec(stack, Some(t2->Ident_0)), Mode::Top, pos, pos + 4)
    } else if t0 is LBrace && t1 == TokenView::Ident("for"@) && t2 is Each && t3 is RBrace {
        built(
            child_to_parent_spec(
                stack.push(NodeView::List(t2->Each_0.map_values(|c: ChildView| child_node(c)))),
                None,
            ),
            Mode::Top,
            pos,
            pos + 4,
        )
    } else if t0 is LBrace && interpolated(t1) is Some && t2 is RBrace {
        if pos == 0 && tokens.len() == 3 {
            Ok((State { stack: stack.push(interpolated(t1)->Some_0), mode: Mode::Top }, pos + 3))
        } else {
            built(add_child_spec(stack, interpolated(t1)->Some_0), Mode::Top, pos, pos + 3)
        }
    } else {
        Err(CompileErrorView::Unmatched { position: pos })
    }
}

/// The value given to `name` by the tokens `name = value ,` at `pos`.
pub open spec fn named_value(tokens: Seq<TokenView>, pos: int, name: Seq<char>) -> Option<
    ValueView,
> {
    if at(tokens, pos) == TokenView::Ident(name) && at(tokens, pos + 1) is Assign && at(
        tokens,
        pos + 2,
    ) is Expr && at(tokens, pos + 3) is Comma {
        Some(at(tokens, pos + 2)->Expr_0)
    } else {
        None
    }
}

/// The rest of a list of classes, from the position `p` after one of its
/// values on: `, value` any number of times, then `)`. Gives the values,
/// those in `seen` first, and the position after the `)`.
pub open spec fn more_classes(tokens: Seq<TokenView>, p: int, seen: Seq<ValueView>) -> Option<
    (Seq<ValueView>, int),
>
    decreases tokens.len() - p,
{
    if at(tokens, p) is RParen {
        Some((seen, p + 1))
    } else if at(tokens, p) is Comma && at(tokens, p + 1) is Expr {
        more_classes(tokens, p + 2, seen.push(at(tokens, p + 1)->Expr_0))
    } else {
        None
    }
}

/// The classes given by the tokens `class = ( value , ... ) ,` at `pos`,
/// with the position after them.
pub open spec fn class_list(tokens: Seq<TokenView>, pos: int) -> Option<(Seq<ValueView>, int)> {
    if at(tokens, pos) == TokenView::Ident("class"@) && at(tokens, pos + 1) is Assign && at(
        tokens,
        pos + 2,
    ) is LParen {
        let list = if at(tokens, pos + 3) is RParen {
            Some((Seq::<ValueView>::empty(), pos + 4))
        } else if at(tokens, pos + 3) is Expr {
            more_classes(tokens, pos + 4, seq![at(tokens, pos + 3)->Expr_0])
        } else {
            None
        };
        match list {
            Some((classes, end)) => if at(tokens, end) is Comma {
                Some((classes, end + 1))
            } else {
                None
            },
            None => None,
        }
    } else {
        None
    }
}

/// Appending the classes from position `from` on, one after the other.
pub open spec fn append_classes(stack: Seq<NodeView>, classes: Seq<ValueView>, from: int) -> Outcome
    decreases classes.len() - from,
{
    if 0 <= from < classes.len() {
        match append_class_spec(stack, text_of(classes[from])) {
            Ok(next) => append_classes(next, classes, from + 1),
            Err(e) => Err(e),
        }
    } else {
        Ok(stack)
    }
}

/// The listener bound by the tokens `name = handler ,` at `pos`, where
/// `name` is the name of an event.
pub open spec fn event_binding(tokens: Seq<TokenView>, pos: int) -> Option<Listener> {
    if at(tokens, pos) is Ident && event_named(at(tokens, pos)->Ident_0) is Some && at(
        tokens,
        pos + 1,
    ) is Assign && at(tokens, pos + 2) is Handler && at(tokens, pos + 3) is Comma {
        Some(
            Listener {
                kind: event_named(at(tokens, pos)->Ident_0)->Some_0,
                handler: at(tokens, pos + 2)->Handler_0,
            },
        )
    } else {
        None
    }
}

/// The listener bound by the tokens `( name ) = handler ,` at `pos`,
/// where `name` is the name of an event.
pub open spec fn action_binding(tokens: Seq<TokenView>, pos: int) -> Option<Listener> {
    if at(tokens, pos) is LParen && at(tokens, pos + 1) is Ident && event_named(
        at(tokens, pos + 1)->Ident_0,
    ) is Some && at(tokens, pos + 2) is RParen && at(tokens, pos + 3) is Assign && at(
        tokens,
        pos + 4,
    ) is Handler && at(tokens, pos + 5) is Comma {
        Some(
            Listener {
                kind: event_named(at(tokens, pos + 1)->Ident_0)->Some_0,
                handler: at(tokens, pos + 4)->Handler_0,
            },
        )
    } else {
        None
    }
}

/// The rest of a name made of several parts, from the position `p` after
/// one of its parts on: `- part` any number of times. Gives the parts
/// joined by dashes, after `seen`, and the position after the last part.
pub open spec fn more_parts(tokens: Seq<TokenView>, p: int, seen: Seq<char>) -> (Seq<char>, int)
    decreases tokens.len() - p,
{
    if at(tokens, p) is Dash && at(tokens, p + 1) is Ident {
        more_parts(tokens, p + 2, seen + "-"@ + at(tokens, p + 1)->Ident_0)
    } else {
        (seen, p)
    }
}

/// The attribute given by the tokens `name = value ,` at `pos`, where
/// `name` is one part or several with dashes between them: the name, the
/// value, and the position after the tokens.
pub open spec fn plain_attribute(tokens: Seq<TokenView>, pos: int) -> Option<
    (Seq<char>, ValueView, int),
> {
    if at(tokens, pos) is Ident {
        let (name, end) = more_parts(tokens, pos + 1, at(tokens, pos)->Ident_0);
        if at(tokens, end) is Assign && at(tokens, end + 1) is Expr && at(tokens, end + 2) is Comma {
            Some((name, at(tokens, end + 1)->Expr_0, end + 3))
        } else {
            None
        }
    } else {
        None
    }
}

/// The rules inside an open tag, in order: `xmlns` sets the namespace;
/// `class = ( ... )` appends classes; `class` replaces them; `value` sets
/// the value; `type` sets the kind; `checked` sets the flag; `disabled` and
/// `selected` add their attribute where the value counts as true; the name
/// of an event binds a handler, bare or as `( name )`; `href` adds a link;
/// any other name adds an attribute; `>` ends the tag's head; `/>` closes
/// the tag.
pub open spec fn tag_step(stack: Seq<NodeView>, tokens: Seq<TokenView>, pos: int) -> Step {
    if named_value(tokens, pos, "xmlns"@) is Some {
        built(
            set_namespace_spec(stack, Some(text_of(named_value(tokens, pos, "xmlns"@)->Some_0))),
            Mode::Tag,
            pos,
            pos + 4,
        )
    } else if class_list(tokens, pos) is Some {
        built(
            append_classes(stack, class_list(tokens, pos)->Some_0.0, 0),
            Mode::Tag,
            pos,
            class_list(tokens, pos)->Some_0.1,
        )
    } else if named_value(tokens, pos, "class"@) is Some {
        built(
            set_classes_spec(stack, text_of(named_value(tokens, pos, "class"@)->Some_0)),
            Mode::Tag,
            pos,
            pos + 4,
        )
    } else if named_value(tokens, pos, "value"@) is Some {
        built(
            set_value_or_attribute_spec(stack, text_of(named_value(tokens, pos, "value"@)->Some_0)),
            Mode::Tag,
            pos,
            pos + 4,
        )
    } else if named_value(tokens, pos, "type"@) is Some {
        built(
            set_kind_spec(stack, text_of(named_value(tokens, pos, "type"@)->Some_0)),
            Mode::Tag,
            pos,
            pos + 4,
        )
    } else if named_value(tokens, pos, "checked"@) is Some {
        built(
            set_checked_spec(stack, truthy(named_value(tokens, pos, "checked"@)->Some_0)),
            Mode::Tag,
            pos,
            pos + 4,
        )
    } else if named_value(tokens, pos, "disabled"@) is Some {
        if truthy(named_value(tokens, pos, "disabled"@)->Some_0) {
            built(add_attribute_spec(stack, "disabled"@, "true"@), Mode::Tag, pos, pos + 4)
        } else {
            Ok((State { stack, mode: Mode::Tag }, pos + 4))
        }
    } else if named_value(tokens, pos, "selected"@) is Some {
        if truthy(named_value(tokens, pos, "selected"@)->Some_0) {
            built(add_attribute_spec(stack, "selected"@, "selected"@), Mode::Tag, pos, pos + 4)
        } else {
            Ok((State { stack, mode: Mode::Tag }, pos + 4))
        }
    } else if event_binding(tokens, pos) is Some {
        built(
            attach_listener_spec(stack, event_binding(tokens, pos)->Some_0),
            Mode::Tag,
            pos,
            pos + 4,
        )
    } else if action_binding(tokens, pos) is Some {
        built(
            attach_listener_spec(stack, action_binding(tokens, pos)->Some_0),
            Mode::Tag,
            pos,
            pos + 6,
        )
    } else if named_value(tokens, pos, "href"@) is Some {
        built(
            add_attribute_spec(
                stack,
                "href"@,
                href_of(text_of(named_value(tokens, pos, "href"@)->Some_0)),
            ),
            Mode::Tag,
            pos,
            pos + 4,
        )
    } else if plain_attribute(tokens, pos) is Some {
        built(
            add_attribute_spec(
                stack,
                plain_attribute(tokens, pos)->Some_0.0,
                text_of(plain_attribute(tokens, pos)->Some_0.1),
            ),
            Mode::Tag,
            pos,
            plain_attribute(tokens, pos)->Some_0.2,
        )
    } else if at(tokens, pos) is Gt {
        Ok((State { stack, mode: Mode::Top }, pos + 1))
    } else if at(tokens, pos) is Slash && at(tokens, pos + 1) is Gt {
        built(child_to_parent_spec(stack, None), Mode::Top, pos, pos + 2)
    } else {
        Err(CompileErrorView::Unmatched { position: pos })
    }
}

/// The value that a field takes from the tokens `name = value ,` at `pos`:
/// the component has to have the field, and the value has to convert to
/// what the field holds.
pub open spec fn field_value(
    props: Seq<(Seq<char>, ValueView)>,
    tokens: Seq<TokenView>,
    pos: int,
) -> Option<(Seq<char>, ValueView)> {
    if at(tokens, pos) is Ident && at(tokens, pos + 1) is Assign && at(tokens, pos + 2) is Expr
        && at(tokens, pos + 3) is Comma && has_name(props, at(tokens, pos)->Ident_0)
        && transform_spec(
        value_of(props, at(tokens, pos)->Ident_0),
        at(tokens, pos + 2)->Expr_0,
    ) is Some {
        Some(
            (
                at(tokens, pos)->Ident_0,
                transform_spec(
                    value_of(props, at(tokens, pos)->Ident_0),
                    at(tokens, pos + 2)->Expr_0,
                )->Some_0,
            ),
        )
    } else {
        None
    }
}

/// The rules inside a component, in order: `with props ,` replaces all
/// properties; `name = value ,` sets one; `/>` binds the properties to the
/// component and adds it to the tree.
pub open spec fn comp_step(
    stack: Seq<NodeView>,
    comp: CompView,
    tokens: Seq<TokenView>,
    pos: int,
) -> Step {
    if at(tokens, pos) == TokenView::Ident("with"@) && at(tokens, pos + 1) is Props && at(
        tokens,
        pos + 2,
    ) is Comma {
        Ok(
            (
                State {
                    stack,
                    mode: Mode::Comp(CompView { props: at(tokens, pos + 1)->Props_0, ..comp }),
                },
                pos + 3,
            ),
        )
    } else if field_value(comp.props, tokens, pos) is Some {
        Ok(
            (
                State {
                    stack,
                    mode: Mode::Comp(
                        CompView {
                            props: put(
                                comp.props,
                                field_value(comp.props, tokens, pos)->Some_0.0,
                                field_value(comp.props, tokens, pos)->Some_0.1,
                            ),
                            ..comp
                        },
                    ),
                },
                pos + 4,
            ),
        )
    } else if at(tokens, pos) is Slash && at(tokens, pos + 1) is Gt {
        built(
            child_to_parent_spec(stack.push(NodeView::Comp(comp)), None),
            Mode::Top,
            pos,
            pos + 2,
        )
    } else {
        Err(CompileErrorView::Unmatched { position: pos })
    }
}

/// The step that the rules of the state's mode make at `pos`.
pub open spec fn step(state: State, tokens: Seq<TokenView>, pos: int) -> Step {
    match state.mode {
        Mode::Top => top_step(state.stack, tokens, pos),
        Mode::Tag => tag_step(state.stack, tokens, pos),
        Mode::Comp(comp) => comp_step(state.stack, comp, tokens, pos),
    }
}

/// The stack that is left when the tokens from `pos` on have been taken,
/// rule by rule. The end of the tokens is accepted at the top level with
/// exactly one node on the stack, and nowhere else.
pub open spec fn run(state: State, tokens: Seq<TokenView>, pos: int) -> Result<
    Seq<NodeView>,
    CompileErrorView,
>
    decreases tokens.len() - pos,
{
    if pos >= tokens.len() {
        if state.mode is Top && state.stack.len() == 1 {
            Ok(state.stack)
        } else {
            Err(CompileErrorView::Unmatched { position: tokens.len() as int })
        }
    } else {
        match step(state, tokens, pos) {
            Ok((next, after)) => if pos < after {
                run(next, tokens, after)
            } else {
                Err(CompileErrorView::Unmatched { position: pos })
            },
            Err(e) => Err(e),
        }
    }
}

/// The rest of a list of classes ends after the position it starts at,
/// and within the tokens.
pub proof fn lemma_more_classes_advances(tokens: Seq<TokenView>, p: int, seen: Seq<ValueView>)
    requires
        0 <= p,
    ensures
        more_classes(tokens, p, seen) matches Some((_, end)) ==> p < end <= tokens.len(),
    decreases tokens.len() - p,
{
    if at(tokens, p) is RParen {
    } else if at(tokens, p) is Comma && at(tokens, p + 1) is Expr {
        lemma_more_classes_advances(tokens, p + 2, seen.push(at(tokens, p + 1)->Expr_0));
    }
}

/// The rest of a name ends at or after the position it starts at, and
/// within the tokens.
pub proof fn lemma_more_parts_advances(tokens: Seq<TokenView>, p: int, seen: Seq<char>)
    requires
        0 <= p <= tokens.len(),
    ensures
        p <= more_parts(tokens, p, seen).1 <= tokens.len(),
    decreases tokens.len() - p,
{
    if at(tokens, p) is Dash && at(tokens, p + 1) is Ident {
        lemma_more_parts_advances(tokens, p + 2, seen + "-"@ + at(tokens, p + 1)->Ident_0);
    }
}

/// Every rule takes at least one token, and none beyond the last.
pub proof fn lemma_step_advances(state: State, tokens: Seq<TokenView>, pos: int)
    requires
        0 <= pos < tokens.len(),
    ensures
        step(state, tokens, pos) matches Ok((_, after)) ==> pos < after <= tokens.len(),
{
    match state.mode {
        Mode::Top => {},
        Mode::Tag => {
            if at(tokens, pos + 3) is Expr {
                lemma_more_classes_advances(tokens, pos + 4, seq![at(tokens, pos + 3)->Expr_0]);
            }
            if at(tokens, pos) is Ident {
                lemma_more_parts_advances(tokens, pos + 1, at(tokens, pos)->Ident_0);
            }
        },
        Mode::Comp(_) => {},
    }
}

/// The state at the top level with `stack` built so far.
pub open spec fn at_top(stack: Seq<NodeView>) -> State {
    State { stack, mode: Mode::Top }
}

/// The state in which a compilation starts.
pub open spec fn start() -> State {
    at_top(Seq::empty())
}

/// The tree that a template describes: the single node that is left on
/// the stack when all tokens have been taken, with its namespaces spread.
pub open spec fn html_spec(tokens: Seq<TokenView>) -> Result<NodeView, CompileErrorView> {
    match run(start(), tokens, 0) {
        Ok(stack) => Ok(propagate(stack[0], None)),
        Err(e) => Err(e),
    }
}

} // verus!
