//! The compiler: it takes the tokens of a template, rule by rule, and has
//! the builder make the tree.

use vstd::prelude::*;
use vstd::string::StringExecFns;
use crate::builder::{
    Stack,
    add_attribute,
    add_child,
    append_class,
    attach_listener,
    child_to_parent,
    set_checked,
    set_classes,
    set_kind,
    set_namespace,
    set_value_or_attribute,
    unpack,
};
use crate::error::{BuildError, CompileError};
use crate::event::{EventKind, Listener};
use crate::href::Href;
use crate::grammar::{
    Mode,
    at_top,
    State,
    Step,
    action_binding,
    append_classes,
    class_list,
    comp_step,
    event_binding,
    html_spec,
    lemma_step_advances,
    more_classes,
    more_parts,
    named_value,
    plain_attribute,
    run,
    start,
    step,
    tag_step,
    top_step,
};
use crate::node::{
    VComp,
    VList,
    VNode,
    VTag,
    lemma_nodes_view_push,
    nodes_view,
};
use crate::text::same_text;
use crate::token::{Child, ChildView, Token, TokenView, at, child_node, peek, tokens_view};
use crate::value::{Value, ValueView, transform};

verus! {

/// What the compiler expects next; a component that is being put together
/// is held here until it is finished.
enum Pending {
    Top,
    Tag,
    Comp(VComp),
}

impl View for Pending {
    type V = Mode;

    closed spec fn view(&self) -> Mode {
        match *self {
            Pending::Top => Mode::Top,
            Pending::Tag => Mode::Tag,
            Pending::Comp(c) => Mode::Comp(c@),
        }
    }
}

/// That a step which returned `r` and left the stack as `stack` did what
/// `expected` says.
spec fn follows(r: Result<(Pending, usize), CompileError>, stack: Seq<VNode>, expected: Step) -> bool {
    match expected {
        Ok((state, after)) => r is Ok && r->Ok_0.0@ == state.mode && r->Ok_0.1 == after
            && nodes_view(stack) == state.stack,
        Err(e) => r is Err && r->Err_0@ == e,
    }
}

/// Turns what the builder returned into the step of the rule that took the
/// tokens from `pos` up to `after`.
fn finish(r: Result<(), BuildError>, mode: Pending, pos: usize, after: usize) -> (s: Result<
    (Pending, usize),
    CompileError,
>)
    ensures
        (match r {
            Ok(_) => s == Ok::<(Pending, usize), CompileError>((mode, after)),
            Err(error) => s == Err::<(Pending, usize), CompileError>(
                CompileError::Build { position: pos, error },
            ),
        }),
{
    match r {
        Ok(_) => Ok((mode, after)),
        Err(error) => Err(CompileError::Build { position: pos, error }),
    }
}

fn is_ident(token: Option<&Token>, name: &str) -> (r: bool)
    ensures
        r == (token is Some && token->Some_0@ == TokenView::Ident(name@)),
{
    match token {
        Some(Token::Ident(s)) => same_text(s.as_str(), name),
        _ => false,
    }
}

/// The fragment that holds a node for each of `items`.
fn collect(items: &Vec<Child>) -> (r: VList)
    ensures
        r@ == items@.map_values(|c: Child| c@).map_values(|c: ChildView| child_node(c)),
{
    let mut list: VList = VList::new();
    let mut i: usize = 0;
    while i < items.len()
        invariant
            i <= items@.len(),
            list@ == items@.map_values(|c: Child| c@).map_values(|c: ChildView| child_node(c)).take(
                i as int,
            ),
        decreases items@.len() - i,
    {
        let ghost all = items@.map_values(|c: Child| c@).map_values(|c: ChildView| child_node(c));
        let node: VNode = items[i].to_node();
        list.add_child(node);
        assert(all.take(i + 1) =~= all.take(i as int).push(all[i as int]));
        i = i + 1;
    }
    assert(items@.map_values(|c: Child| c@).map_values(|c: ChildView| child_node(c)).take(
        items@.len() as int,
    ) =~= items@.map_values(|c: Child| c@).map_values(|c: ChildView| child_node(c)));
    list
}

/// One step at the top level.
fn top_level(stack: &mut Stack, tokens: &[Token], pos: usize) -> (r: Result<
    (Pending, usize),
    CompileError,
>)
    requires
        pos < tokens@.len(),
    ensures
        follows(r, final(stack)@, top_step(nodes_view(old(stack)@), tokens_view(tokens@), pos as int)),
{
    let n: usize = tokens.len();
    let t0 = peek(tokens, pos, 0);
    let t1 = peek(tokens, pos, 1);
    let t2 = peek(tokens, pos, 2);
    let t3 = peek(tokens, pos, 3);
    match (t0, t1, t2, t3) {
        (Some(Token::Lt), Some(Token::Gt), _, _) => {
            let list: VList = VList::new();
            proof {
                lemma_nodes_view_push(stack@, VNode::VList(list));
            }
            stack.push(VNode::VList(list));
            Ok((Pending::Top, pos + 2))
        },
        (Some(Token::Lt), Some(Token::Slash), Some(Token::Gt), _) => {
            let r = child_to_parent(stack, None);
            finish(r, Pending::Top, pos, pos + 3)
        },
        (Some(Token::Lt), Some(Token::Type(ty)), Some(Token::Colon), _) => {
            let comp: VComp = VComp { name: ty.name.clone(), props: ty.defaults.duplicate() };
            Ok((Pending::Comp(comp), pos + 3))
        },
        (Some(Token::Lt), Some(Token::Ident(name)), _, _) => {
            let tag: VTag = if same_text(name.as_str(), "svg") {
                VTag::new("svg", Some(String::from_str("http://www.w3.org/2000/svg")))
            } else {
                VTag::new(name.as_str(), None)
            };
            proof {
                lemma_nodes_view_push(stack@, VNode::VTag(tag));
            }
            stack.push(VNode::VTag(tag));
            Ok((Pending::Tag, pos + 2))
        },
        (Some(Token::Lt), Some(Token::Slash), Some(Token::Ident(name)), Some(Token::Gt)) => {
            let r = child_to_parent(stack, Some(name.as_str()));
            finish(r, Pending::Top, pos, pos + 4)
        },
        (Some(Token::LBrace), Some(Token::Ident(word)), Some(Token::Each(items)), Some(Token::RBrace))
            if same_text(word.as_str(), "for") => {
            let list: VList = collect(items);
            proof {
                lemma_nodes_view_push(stack@, VNode::VList(list));
            }
            stack.push(VNode::VList(list));
            let r = child_to_parent(stack, None);
            finish(r, Pending::Top, pos, pos + 4)
        },
        (Some(Token::LBrace), Some(Token::Expr(v)), Some(Token::RBrace), _) => {
            let node: VNode = v.to_node();
            if pos == 0 && tokens.len() == 3 {
                proof {
                    lemma_nodes_view_push(stack@, node);
                }
                stack.push(node);
                Ok((Pending::Top, pos + 3))
            } else {
                let r = add_child(stack, node);
                finish(r, Pending::Top, pos, pos + 3)
            }
        },
        (Some(Token::LBrace), Some(Token::Node(n)), Some(Token::RBrace), _) => {
            let node: VNode = n.duplicate();
            if pos == 0 && tokens.len() == 3 {
                proof {
                    lemma_nodes_view_push(stack@, node);
                }
                stack.push(node);
                Ok((Pending::Top, pos + 3))
            } else {
                let r = add_child(stack, node);
                finish(r, Pending::Top, pos, pos + 3)
            }
        },
        _ => Err(CompileError::Unmatched { position: pos }),
    }
}

/// The value given to `name` at `pos`, if the tokens there are
/// `name = value ,`.
fn named_value_at<'a>(tokens: &'a [Token], pos: usize, name: &str) -> (r: Option<&'a Value>)
    requires
        pos <= tokens@.len(),
    ensures
        (match named_value(tokens_view(tokens@), pos as int, name@) {
            Some(v) => r is Some && r->Some_0@ == v,
            None => r is None,
        }),
{
    if !is_ident(peek(tokens, pos, 0), name) {
        return None;
    }
    match (peek(tokens, pos, 1), peek(tokens, pos, 2), peek(tokens, pos, 3)) {
        (Some(Token::Assign), Some(Token::Expr(v)), Some(Token::Comma)) => Some(v),
        _ => None,
    }
}

/// The list of classes at `pos`, if the tokens there are
/// `class = ( value , ... ) ,`: how many values it has, and the position
/// after it. The values stand two tokens apart, the first at `pos + 3`.
fn class_list_at(tokens: &[Token], pos: usize) -> (r: Option<(usize, usize)>)
    requires
        pos <= tokens@.len(),
    ensures
        (match class_list(tokens_view(tokens@), pos as int) {
            Some((classes, after)) => r == Some((classes.len() as usize, after as usize))
                && after <= tokens@.len() && pos + 4 <= after && pos + 3 + 2 * classes.len()
                <= after && forall|j: int|
                0 <= j < classes.len() ==> at(tokens_view(tokens@), pos + 3 + 2 * j)
                    == TokenView::Expr(#[trigger] classes[j]),
            None => r is None,
        }),
{
    let n: usize = tokens.len();
    if !is_ident(peek(tokens, pos, 0), "class") {
        return None;
    }
    match (peek(tokens, pos, 1), peek(tokens, pos, 2)) {
        (Some(Token::Assign), Some(Token::LParen)) => {},
        _ => {
            return None;
        },
    }
    let ghost tv = tokens_view(tokens@);
    match peek(tokens, pos, 3) {
        Some(Token::RParen) => {
            match peek(tokens, pos, 4) {
                Some(Token::Comma) => Some((0, pos + 5)),
                _ => None,
            }
        },
        Some(Token::Expr(first)) => {
            let ghost mut seen: Seq<ValueView> = seq![first@];
            let mut count: usize = 1;
            let mut p: usize = pos + 4;
            loop
                invariant
                    n == tokens@.len(),
                    tv == tokens_view(tokens@),
                    pos + 4 <= p <= n,
                    1 <= count,
                    p == pos + 2 + 2 * count,
                    seen.len() == count,
                    more_classes(tv, p as int, seen) == more_classes(tv, pos + 4, seq![first@]),
                    class_list(tv, pos as int) == (match more_classes(tv, pos + 4, seq![first@]) {
                        Some((classes, end)) => if at(tv, end) is Comma {
                            Some((classes, end + 1))
                        } else {
                            None
                        },
                        None => None,
                    }),
                    forall|j: int|
                        0 <= j < seen.len() ==> at(tv, pos + 3 + 2 * j) == TokenView::Expr(
                            #[trigger] seen[j],
                        ),
                decreases n - p,
            {
                match (peek(tokens, p, 0), peek(tokens, p, 1)) {
                    (Some(Token::RParen), after) => {
                        return match after {
                            Some(Token::Comma) => Some((count, p + 2)),
                            _ => None,
                        };
                    },
                    (Some(Token::Comma), Some(Token::Expr(v))) => {
                        proof {
                            seen = seen.push(v@);
                        }
                        count = count + 1;
                        p = p + 2;
                    },
                    _ => {
                        return None;
                    },
                }
            }
        },
        _ => None,
    }
}

/// Appends to the tag on top the `count` classes whose values stand two
/// tokens apart from `first` on.
fn append_classes_at(
    stack: &mut Stack,
    tokens: &[Token],
    first: usize,
    count: usize,
    Ghost(classes): Ghost<Seq<ValueView>>,
) -> (r: Result<(), BuildError>)
    requires
        classes.len() == count,
        first + 2 * count <= tokens@.len(),
        forall|j: int|
            0 <= j < classes.len() ==> at(tokens_view(tokens@), first + 2 * j) == TokenView::Expr(
                #[trigger] classes[j],
            ),
    ensures
        (match append_classes(nodes_view(old(stack)@), classes, 0) {
            Ok(after) => r is Ok && nodes_view(final(stack)@) == after,
            Err(e) => r is Err && r->Err_0@ == e,
        }),
{
    let n: usize = tokens.len();
    let mut j: usize = 0;
    while j < count
        invariant
            j <= count,
            n == tokens@.len(),
            classes.len() == count,
            first + 2 * count <= tokens@.len(),
            forall|j: int|
                0 <= j < classes.len() ==> at(tokens_view(tokens@), first + 2 * j)
                    == TokenView::Expr(#[trigger] classes[j]),
            append_classes(nodes_view(stack@), classes, j as int) == append_classes(
                nodes_view(old(stack)@),
                classes,
                0,
            ),
        decreases count - j,
    {
        assert(at(tokens_view(tokens@), first + 2 * j) == TokenView::Expr(classes[j as int]));
        match peek(tokens, first, 2 * j) {
            Some(Token::Expr(v)) => {
                let text: String = v.to_text();
                match append_class(stack, text.as_str()) {
                    Ok(_) => {},
                    Err(e) => {
                        return Err(e);
                    },
                }
            },
            _ => {},
        }
        j = j + 1;
    }
    Ok(())
}

/// The listener bound at `pos`, if the tokens there are
/// `name = handler ,` with the name of an event.
fn event_binding_at(tokens: &[Token], pos: usize) -> (r: Option<Listener>)
    requires
        pos <= tokens@.len(),
    ensures
        r == event_binding(tokens_view(tokens@), pos as int),
{
    match (peek(tokens, pos, 0), peek(tokens, pos, 1), peek(tokens, pos, 2), peek(tokens, pos, 3)) {
        (Some(Token::Ident(name)), Some(Token::Assign), Some(Token::Handler(h)), Some(Token::Comma)) => {
            match EventKind::from_name(name.as_str()) {
                Some(kind) => Some(Listener::new(kind, *h)),
                None => None,
            }
        },
        _ => None,
    }
}

/// The listener bound at `pos`, if the tokens there are
/// `( name ) = handler ,` with the name of an event.
fn action_binding_at(tokens: &[Token], pos: usize) -> (r: Option<Listener>)
    requires
        pos <= tokens@.len(),
    ensures
        r == action_binding(tokens_view(tokens@), pos as int),
{
    match (peek(tokens, pos, 0), peek(tokens, pos, 1), peek(tokens, pos, 2)) {
        (Some(Token::LParen), Some(Token::Ident(name)), Some(Token::RParen)) => {
            match (peek(tokens, pos, 3), peek(tokens, pos, 4), peek(tokens, pos, 5)) {
                (Some(Token::Assign), Some(Token::Handler(h)), Some(Token::Comma)) => {
                    match EventKind::from_name(name.as_str()) {
                        Some(kind) => Some(Listener::new(kind, *h)),
                        None => None,
                    }
                },
                _ => None,
            }
        },
        _ => None,
    }
}

/// The attribute given at `pos`, if the tokens there are a name of one or
/// more parts with dashes between them, then `= value ,`: the name with
/// its dashes, the value, and the position after the tokens.
fn plain_attribute_at<'a>(tokens: &'a [Token], pos: usize) -> (r: Option<
    (String, &'a Value, usize),
>)
    requires
        pos <= tokens@.len(),
    ensures
        (match plain_attribute(tokens_view(tokens@), pos as int) {
            Some((name, value, after)) => r is Some && r->Some_0.0@ == name && r->Some_0.1@
                == value && r->Some_0.2 == after && pos < after <= tokens@.len(),
            None => r is None,
        }),
{
    let n: usize = tokens.len();
    let ghost tv = tokens_view(tokens@);
    match peek(tokens, pos, 0) {
        Some(Token::Ident(first)) => {
            let mut name: String = first.clone();
            let mut p: usize = pos + 1;
            loop
                invariant
                    n == tokens@.len(),
                    tv == tokens_view(tokens@),
                    pos < p <= n,
                    at(tv, pos as int) == TokenView::Ident(first@),
                    more_parts(tv, p as int, name@) == more_parts(tv, pos + 1, first@),
                decreases n - p,
            {
                match (peek(tokens, p, 0), peek(tokens, p, 1)) {
                    (Some(Token::Dash), Some(Token::Ident(part))) => {
                        name.append("-");
                        name.append(part.as_str());
                        p = p + 2;
                    },
                    _ => {
                        return match (
                            peek(tokens, p, 0),
                            peek(tokens, p, 1),
                            peek(tokens, p, 2),
                        ) {
                            (
                                Some(Token::Assign),
                                Some(Token::Expr(v)),
                                Some(Token::Comma),
                            ) => Some((name, v, p + 3)),
                            _ => None,
                        };
                    },
                }
            }
        },
        _ => None,
    }
}

/// One step inside an open tag.
fn open_tag(stack: &mut Stack, tokens: &[Token], pos: usize) -> (r: Result<
    (Pending, usize),
    CompileError,
>)
    requires
        pos < tokens@.len(),
    ensures
        follows(r, final(stack)@, tag_step(nodes_view(old(stack)@), tokens_view(tokens@), pos as int)),
{
    let n: usize = tokens.len();
    if let Some(v) = named_value_at(tokens, pos, "xmlns") {
        let r = set_namespace(stack, Some(v.to_text()));
        return finish(r, Pending::Tag, pos, pos + 4);
    }
    if let Some((count, after)) = class_list_at(tokens, pos) {
        let r = append_classes_at(
            stack,
            tokens,
            pos + 3,
            count,
            Ghost(class_list(tokens_view(tokens@), pos as int)->Some_0.0),
        );
        return finish(r, Pending::Tag, pos, after);
    }
    if let Some(v) = named_value_at(tokens, pos, "class") {
        let r = set_classes(stack, v.to_text().as_str());
        return finish(r, Pending::Tag, pos, pos + 4);
    }
    if let Some(v) = named_value_at(tokens, pos, "value") {
        let r = set_value_or_attribute(stack, v.to_text().as_str());
        return finish(r, Pending::Tag, pos, pos + 4);
    }
    if let Some(v) = named_value_at(tokens, pos, "type") {
        let r = set_kind(stack, v.to_text().as_str());
        return finish(r, Pending::Tag, pos, pos + 4);
    }
    if let Some(v) = named_value_at(tokens, pos, "checked") {
        let r = set_checked(stack, v.is_truthy());
        return finish(r, Pending::Tag, pos, pos + 4);
    }
    if let Some(v) = named_value_at(tokens, pos, "disabled") {
        if v.is_truthy() {
            let r = add_attribute(stack, "disabled", "true");
            return finish(r, Pending::Tag, pos, pos + 4);
        }
        return Ok((Pending::Tag, pos + 4));
    }
    if let Some(v) = named_value_at(tokens, pos, "selected") {
        if v.is_truthy() {
            let r = add_attribute(stack, "selected", "selected");
            return finish(r, Pending::Tag, pos, pos + 4);
        }
        return Ok((Pending::Tag, pos + 4));
    }
    if let Some(listener) = event_binding_at(tokens, pos) {
        let r = attach_listener(stack, listener);
        return finish(r, Pending::Tag, pos, pos + 4);
    }
    if let Some(listener) = action_binding_at(tokens, pos) {
        let r = attach_listener(stack, listener);
        return finish(r, Pending::Tag, pos, pos + 6);
    }
    if let Some(v) = named_value_at(tokens, pos, "href") {
        let href: Href = Href::new(v.to_text());
        let r = add_attribute(stack, "href", href.link());
        return finish(r, Pending::Tag, pos, pos + 4);
    }
    if let Some((name, v, after)) = plain_attribute_at(tokens, pos) {
        let r = add_attribute(stack, name.as_str(), v.to_text().as_str());
        return finish(r, Pending::Tag, pos, after);
    }
    match (peek(tokens, pos, 0), peek(tokens, pos, 1)) {
        (Some(Token::Gt), _) => Ok((Pending::Top, pos + 1)),
        (Some(Token::Slash), Some(Token::Gt)) => {
            let r = child_to_parent(stack, None);
            finish(r, Pending::Top, pos, pos + 2)
        },
        _ => Err(CompileError::Unmatched { position: pos }),
    }
}

/// One step inside a component.
fn component(stack: &mut Stack, comp: VComp, tokens: &[Token], pos: usize) -> (r: Result<
    (Pending, usize),
    CompileError,
>)
    requires
        pos < tokens@.len(),
    ensures
        follows(
            r,
            final(stack)@,
            comp_step(nodes_view(old(stack)@), comp@, tokens_view(tokens@), pos as int),
        ),
{
    let n: usize = tokens.len();
    let mut comp = comp;
    let t0 = peek(tokens, pos, 0);
    let t1 = peek(tokens, pos, 1);
    let t2 = peek(tokens, pos, 2);
    let t3 = peek(tokens, pos, 3);
    if is_ident(t0, "with") {
        if let (Some(Token::Props(props)), Some(Token::Comma)) = (t1, t2) {
            comp.props = props.duplicate();
            return Ok((Pending::Comp(comp), pos + 3));
        }
    }
    if let (Some(Token::Ident(name)), Some(Token::Assign), Some(Token::Expr(v)), Some(Token::Comma)) = (
        t0,
        t1,
        t2,
        t3,
    ) {
        let converted: Option<Value> = match comp.props.get(name.as_str()) {
            Some(held) => transform(held, v),
            None => None,
        };
        if let Some(value) = converted {
            comp.props.set(name.clone(), value);
            return Ok((Pending::Comp(comp), pos + 4));
        }
    }
    match (t0, t1) {
        (Some(Token::Slash), Some(Token::Gt)) => {
            proof {
                lemma_nodes_view_push(stack@, VNode::VComp(comp));
            }
            stack.push(VNode::VComp(comp));
            let r = child_to_parent(stack, None);
            finish(r, Pending::Top, pos, pos + 2)
        },
        _ => Err(CompileError::Unmatched { position: pos }),
    }
}

/// Takes all of `tokens`, from the top level on, and builds on `stack`.
/// Succeeds when the tokens end at the top level with exactly one node on
/// the stack.
pub fn html_impl(stack: &mut Stack, tokens: &[Token]) -> (r: Result<(), CompileError>)
    ensures
        (match run(at_top(nodes_view(old(stack)@)), tokens_view(tokens@), 0) {
            Ok(left) => r is Ok && nodes_view(final(stack)@) == left && left.len() == 1,
            Err(e) => r is Err && r->Err_0@ == e,
        }),
{
    let n: usize = tokens.len();
    let ghost tv = tokens_view(tokens@);
    let ghost whole = run(at_top(nodes_view(stack@)), tv, 0);
    let mut mode: Pending = Pending::Top;
    let mut pos: usize = 0;
    while pos < n
        invariant
            n == tokens@.len(),
            tv == tokens_view(tokens@),
            pos <= n,
            whole == run(at_top(nodes_view(old(stack)@)), tv, 0),
            run((State { stack: nodes_view(stack@), mode: mode@ }), tv, pos as int) == whole,
        decreases n - pos,
    {
        let ghost state = State { stack: nodes_view(stack@), mode: mode@ };
        let made = match mode {
            Pending::Top => top_level(stack, tokens, pos),
            Pending::Tag => open_tag(stack, tokens, pos),
            Pending::Comp(comp) => component(stack, comp, tokens, pos),
        };
        proof {
            lemma_step_advances(state, tv, pos as int);
        }
        match made {
            Ok((next, after)) => {
                mode = next;
                pos = after;
            },
            Err(e) => {
                return Err(e);
            },
        }
    }
    match mode {
        Pending::Top => {
            if stack.len() == 1 {
                return Ok(());
            }
        },
        _ => {},
    }
    Err(CompileError::Unmatched { position: n })
}

/// Compiles a template to the tree it describes.
pub fn html(tokens: &[Token]) -> (r: Result<VNode, CompileError>)
    ensures
        (match html_spec(tokens_view(tokens@)) {
            Ok(node) => r is Ok && r->Ok_0@ == node,
            Err(e) => r is Err && r->Err_0@ == e,
        }),
{
    let mut stack: Stack = Vec::new();
    assert(nodes_view(stack@) =~= start().stack);
    match html_impl(&mut stack, tokens) {
        Ok(_) => {},
        Err(e) => {
            return Err(e);
        },
    }
    match unpack(stack) {
        Ok(node) => Ok(node),
        Err(error) => Err(CompileError::Build { position: tokens.len(), error }),
    }
}

} // verus!
