use html_template::compiler::{html, html_impl};
use html_template::error::{BuildError, CompileError, Operation};
use html_template::event::{EventKind, Handler, Listener};
use html_template::node::{Props, VComp, VList, VNode, VTag, VText};
use html_template::token::{Child, ComponentType, Token};
use html_template::value::Value;

const SVG: &str = "http://www.w3.org/2000/svg";

fn ident(name: &str) -> Token {
    Token::Ident(name.to_string())
}

fn text(s: &str) -> Token {
    Token::Expr(Value::Text(s.to_string()))
}

fn flag(b: bool) -> Token {
    Token::Expr(Value::Bool(b))
}

fn open(name: &str) -> Vec<Token> {
    vec![Token::Lt, ident(name)]
}

fn close(name: &str) -> Vec<Token> {
    vec![Token::Lt, Token::Slash, ident(name), Token::Gt]
}

fn attr(name: &str, value: Token) -> Vec<Token> {
    vec![ident(name), Token::Assign, value, Token::Comma]
}

fn join(parts: Vec<Vec<Token>>) -> Vec<Token> {
    let mut all = Vec::new();
    for part in parts {
        all.extend(part);
    }
    all
}

fn tag_of(node: &VNode) -> &VTag {
    match node {
        VNode::VTag(t) => t,
        other => panic!("not a tag: {:?}", other),
    }
}

fn attribute<'a>(tag: &'a VTag, name: &str) -> Option<&'a str> {
    tag.attributes.get(name).map(|s| s.as_str())
}

#[test]
fn empty_template_is_refused() {
    assert_eq!(html(&[]), Err(CompileError::Unmatched { position: 0 }));
}

#[test]
fn a_single_tag_with_a_child() {
    let tokens = join(vec![
        open("a"),
        vec![Token::Gt, Token::LBrace, text("Link"), Token::RBrace],
        close("a"),
    ]);
    let mut expected = VTag::new("a", None);
    expected.add_child(VNode::VText(VText::new("Link")));
    assert_eq!(html(&tokens), Ok(VNode::VTag(expected)));
}

#[test]
fn closing_tag_matches_in_any_case() {
    let tokens = join(vec![open("div"), vec![Token::Gt], close("DIV")]);
    assert_eq!(html(&tokens), Ok(VNode::VTag(VTag::new("div", None))));
    let tokens = join(vec![open("Div"), vec![Token::Gt], close("dIV")]);
    assert_eq!(html(&tokens), Ok(VNode::VTag(VTag::new("Div", None))));
}

#[test]
fn closing_tag_of_another_name_is_a_mismatch() {
    let tokens = join(vec![open("div"), vec![Token::Gt], close("span")]);
    assert_eq!(
        html(&tokens),
        Err(CompileError::Build {
            position: 3,
            error: BuildError::TagMismatch { open: "div".to_string(), close: "span".to_string() },
        })
    );
}

#[test]
fn svg_namespace_reaches_a_child() {
    let tokens = join(vec![
        open("svg"),
        vec![Token::Gt],
        open("rect"),
        vec![Token::Slash, Token::Gt],
        close("svg"),
    ]);
    let root = html(&tokens).unwrap();
    let svg = tag_of(&root);
    assert_eq!(svg.tag(), "svg");
    assert_eq!(svg.ns.as_deref(), Some(SVG));
    assert_eq!(svg.childs.len(), 1);
    let rect = tag_of(&svg.childs[0]);
    assert_eq!(rect.tag(), "rect");
    assert_eq!(rect.ns.as_deref(), Some(SVG));
}

#[test]
fn svg_namespace_reaches_a_grandchild() {
    let tokens = join(vec![
        open("svg"),
        vec![Token::Gt],
        open("g"),
        vec![Token::Gt],
        open("rect"),
        vec![Token::Slash, Token::Gt],
        close("g"),
        close("svg"),
    ]);
    let root = html(&tokens).unwrap();
    let svg = tag_of(&root);
    let g = tag_of(&svg.childs[0]);
    let rect = tag_of(&g.childs[0]);
    assert_eq!(svg.ns.as_deref(), Some(SVG));
    assert_eq!(g.ns.as_deref(), Some(SVG));
    assert_eq!(rect.ns.as_deref(), Some(SVG));
}

#[test]
fn explicit_namespace_overrides_for_its_own_subtree_only() {
    let tokens = join(vec![
        open("svg"),
        vec![Token::Gt],
        open("rect"),
        attr("xmlns", text("urn:other")),
        vec![Token::Gt],
        open("title"),
        vec![Token::Slash, Token::Gt],
        close("rect"),
        open("circle"),
        vec![Token::Slash, Token::Gt],
        close("svg"),
    ]);
    let root = html(&tokens).unwrap();
    let svg = tag_of(&root);
    let rect = tag_of(&svg.childs[0]);
    let title = tag_of(&rect.childs[0]);
    let circle = tag_of(&svg.childs[1]);
    assert_eq!(svg.ns.as_deref(), Some(SVG));
    assert_eq!(rect.ns.as_deref(), Some("urn:other"));
    assert_eq!(title.ns.as_deref(), Some("urn:other"));
    assert_eq!(circle.ns.as_deref(), Some(SVG));
}

#[test]
fn plain_tags_have_no_namespace() {
    let tokens = join(vec![
        open("div"),
        vec![Token::Gt],
        open("p"),
        vec![Token::Slash, Token::Gt],
        close("div"),
    ]);
    let root = html(&tokens).unwrap();
    let div = tag_of(&root);
    assert_eq!(div.ns, None);
    assert_eq!(tag_of(&div.childs[0]).ns, None);
}

#[test]
fn class_list_appends_in_order() {
    let tokens = join(vec![
        open("div"),
        vec![
            ident("class"),
            Token::Assign,
            Token::LParen,
            text("a"),
            Token::Comma,
            text("b"),
            Token::RParen,
            Token::Comma,
            Token::Slash,
            Token::Gt,
        ],
    ]);
    let root = html(&tokens).unwrap();
    assert_eq!(attribute(tag_of(&root), "class"), Some("a b"));
}

#[test]
fn single_class_replaces_a_class_list() {
    let tokens = join(vec![
        open("div"),
        vec![ident("class"), Token::Assign, Token::LParen, text("a"), Token::RParen, Token::Comma],
        attr("class", text("b")),
        vec![Token::Slash, Token::Gt],
    ]);
    let root = html(&tokens).unwrap();
    assert_eq!(attribute(tag_of(&root), "class"), Some("b"));
}

#[test]
fn empty_class_list_sets_nothing() {
    let tokens = join(vec![
        open("div"),
        vec![ident("class"), Token::Assign, Token::LParen, Token::RParen, Token::Comma],
        vec![Token::Slash, Token::Gt],
    ]);
    let root = html(&tokens).unwrap();
    assert_eq!(attribute(tag_of(&root), "class"), None);
    assert_eq!(tag_of(&root).attributes.len(), 0);
}

#[test]
fn class_list_without_its_comma_is_refused() {
    let tokens = join(vec![
        open("div"),
        vec![ident("class"), Token::Assign, Token::LParen, text("a"), Token::RParen],
        vec![Token::Slash, Token::Gt],
    ]);
    assert_eq!(html(&tokens), Err(CompileError::Unmatched { position: 2 }));
}

#[test]
fn disabled_false_leaves_no_attribute() {
    let tokens =
        join(vec![open("button"), attr("disabled", flag(false)), vec![Token::Slash, Token::Gt]]);
    let root = html(&tokens).unwrap();
    assert_eq!(attribute(tag_of(&root), "disabled"), None);
    assert_eq!(root, VNode::VTag(VTag::new("button", None)));
}

#[test]
fn disabled_true_sets_the_attribute_to_true() {
    let tokens =
        join(vec![open("button"), attr("disabled", flag(true)), vec![Token::Slash, Token::Gt]]);
    let root = html(&tokens).unwrap();
    assert_eq!(attribute(tag_of(&root), "disabled"), Some("true"));
}

#[test]
fn selected_true_sets_the_attribute_to_selected() {
    let tokens =
        join(vec![open("option"), attr("selected", flag(true)), vec![Token::Slash, Token::Gt]]);
    let root = html(&tokens).unwrap();
    assert_eq!(attribute(tag_of(&root), "selected"), Some("selected"));
    let tokens =
        join(vec![open("option"), attr("selected", flag(false)), vec![Token::Slash, Token::Gt]]);
    let root = html(&tokens).unwrap();
    assert_eq!(attribute(tag_of(&root), "selected"), None);
}

#[test]
fn checked_sets_the_flag_and_no_attribute() {
    let tokens =
        join(vec![open("input"), attr("checked", flag(true)), vec![Token::Slash, Token::Gt]]);
    let root = html(&tokens).unwrap();
    assert!(tag_of(&root).checked);
    assert_eq!(attribute(tag_of(&root), "checked"), None);
}

#[test]
fn value_on_input_sets_the_value_field() {
    let tokens = join(vec![open("input"), attr("value", text("x")), vec![Token::Slash, Token::Gt]]);
    let root = html(&tokens).unwrap();
    assert_eq!(tag_of(&root).value.as_deref(), Some("x"));
    assert_eq!(attribute(tag_of(&root), "value"), None);
}

#[test]
fn value_on_textarea_in_capitals_sets_the_value_field() {
    let tokens =
        join(vec![open("TextArea"), attr("value", text("x")), vec![Token::Slash, Token::Gt]]);
    let root = html(&tokens).unwrap();
    assert_eq!(tag_of(&root).value.as_deref(), Some("x"));
}

#[test]
fn value_on_progress_sets_an_attribute() {
    let tokens =
        join(vec![open("progress"), attr("value", text("x")), vec![Token::Slash, Token::Gt]]);
    let root = html(&tokens).unwrap();
    assert_eq!(tag_of(&root).value, None);
    assert_eq!(attribute(tag_of(&root), "value"), Some("x"));
}

#[test]
fn type_sets_the_kind() {
    let tokens =
        join(vec![open("input"), attr("type", text("checkbox")), vec![Token::Slash, Token::Gt]]);
    let root = html(&tokens).unwrap();
    assert_eq!(tag_of(&root).kind.as_deref(), Some("checkbox"));
    assert_eq!(attribute(tag_of(&root), "type"), None);
}

#[test]
fn fragment_with_one_interpolated_child() {
    let tokens = vec![
        Token::Lt,
        Token::Gt,
        Token::LBrace,
        text("hello"),
        Token::RBrace,
        Token::Lt,
        Token::Slash,
        Token::Gt,
    ];
    let mut expected = VList::new();
    expected.add_child(VNode::VText(VText::new("hello")));
    assert_eq!(html(&tokens), Ok(VNode::VList(expected)));
}

#[test]
fn fragment_with_an_interpolated_boolean() {
    let tokens = vec![
        Token::Lt,
        Token::Gt,
        Token::LBrace,
        flag(true),
        Token::RBrace,
        Token::Lt,
        Token::Slash,
        Token::Gt,
    ];
    let mut expected = VList::new();
    expected.add_child(VNode::VText(VText::new("true")));
    assert_eq!(html(&tokens), Ok(VNode::VList(expected)));
}

#[test]
fn bare_interpolation_is_the_root() {
    let tokens = vec![Token::LBrace, text("only"), Token::RBrace];
    assert_eq!(html(&tokens), Ok(VNode::VText(VText::new("only"))));
    let tokens = vec![Token::LBrace, Token::Node(VNode::VTag(VTag::new("b", None))), Token::RBrace];
    assert_eq!(html(&tokens), Ok(VNode::VTag(VTag::new("b", None))));
}

#[test]
fn interpolation_before_any_tag_has_no_parent() {
    let tokens = join(vec![vec![Token::LBrace, text("x"), Token::RBrace], open("a"), vec![Token::Gt]]);
    assert_eq!(
        html(&tokens),
        Err(CompileError::Build {
            position: 0,
            error: BuildError::WrongNodeKind {
                operation: Operation::AddChild,
                subject: "x".to_string(),
            },
        })
    );
}

#[test]
fn iteration_adds_a_fragment_of_the_items() {
    let items = vec![
        Child::Value(Value::Text("one".to_string())),
        Child::Node(VNode::VTag(VTag::new("li", None))),
        Child::Value(Value::Bool(false)),
    ];
    let tokens = join(vec![
        open("ul"),
        vec![Token::Gt, Token::LBrace, ident("for"), Token::Each(items), Token::RBrace],
        close("ul"),
    ]);
    let mut list = VList::new();
    list.add_child(VNode::VText(VText::new("one")));
    list.add_child(VNode::VTag(VTag::new("li", None)));
    list.add_child(VNode::VText(VText::new("false")));
    let mut expected = VTag::new("ul", None);
    expected.add_child(VNode::VList(list));
    assert_eq!(html(&tokens), Ok(VNode::VTag(expected)));
}

#[test]
fn iteration_alone_is_a_root_fragment() {
    let tokens = vec![Token::LBrace, ident("for"), Token::Each(vec![]), Token::RBrace];
    assert_eq!(html(&tokens), Ok(VNode::VList(VList::new())));
}

#[test]
fn children_keep_their_order() {
    let tokens = join(vec![
        open("ol"),
        vec![Token::Gt],
        open("a"),
        vec![Token::Slash, Token::Gt],
        vec![Token::LBrace, text("t"), Token::RBrace],
        open("b"),
        vec![Token::Slash, Token::Gt],
        close("ol"),
    ]);
    let mut expected = VTag::new("ol", None);
    expected.add_child(VNode::VTag(VTag::new("a", None)));
    expected.add_child(VNode::VText(VText::new("t")));
    expected.add_child(VNode::VTag(VTag::new("b", None)));
    assert_eq!(html(&tokens), Ok(VNode::VTag(expected)));
}

#[test]
fn event_binding_attaches_a_listener() {
    let tokens = join(vec![
        open("button"),
        vec![ident("onclick"), Token::Assign, Token::Handler(Handler { id: 7 }), Token::Comma],
        vec![
            Token::LParen,
            ident("onkeyup"),
            Token::RParen,
            Token::Assign,
            Token::Handler(Handler { id: 8 }),
            Token::Comma,
        ],
        vec![Token::Slash, Token::Gt],
    ]);
    let root = html(&tokens).unwrap();
    assert_eq!(
        tag_of(&root).listeners,
        vec![
            Listener { kind: EventKind::Click, handler: Handler { id: 7 } },
            Listener { kind: EventKind::KeyUp, handler: Handler { id: 8 } },
        ]
    );
    assert_eq!(tag_of(&root).attributes.len(), 0);
}

#[test]
fn unknown_event_name_with_a_value_is_an_attribute() {
    let tokens = join(vec![open("div"), attr("onfoo", text("x")), vec![Token::Slash, Token::Gt]]);
    let root = html(&tokens).unwrap();
    assert_eq!(attribute(tag_of(&root), "onfoo"), Some("x"));
    assert!(tag_of(&root).listeners.is_empty());
}

#[test]
fn known_event_name_with_a_value_is_an_attribute() {
    let tokens = join(vec![open("div"), attr("onclick", text("x")), vec![Token::Slash, Token::Gt]]);
    let root = html(&tokens).unwrap();
    assert_eq!(attribute(tag_of(&root), "onclick"), Some("x"));
    assert!(tag_of(&root).listeners.is_empty());
}

#[test]
fn unknown_event_name_with_a_handler_is_refused() {
    let tokens = join(vec![
        open("div"),
        vec![ident("onfoo"), Token::Assign, Token::Handler(Handler { id: 1 }), Token::Comma],
        vec![Token::Slash, Token::Gt],
    ]);
    assert_eq!(html(&tokens), Err(CompileError::Unmatched { position: 2 }));
    let tokens = join(vec![
        open("div"),
        vec![
            Token::LParen,
            ident("onfoo"),
            Token::RParen,
            Token::Assign,
            Token::Handler(Handler { id: 1 }),
            Token::Comma,
        ],
        vec![Token::Slash, Token::Gt],
    ]);
    assert_eq!(html(&tokens), Err(CompileError::Unmatched { position: 2 }));
}

#[test]
fn href_becomes_an_attribute() {
    let tokens =
        join(vec![open("a"), attr("href", text("/home")), vec![Token::Slash, Token::Gt]]);
    let root = html(&tokens).unwrap();
    assert_eq!(attribute(tag_of(&root), "href"), Some("/home"));
}

#[test]
fn dashed_name_is_joined() {
    let tokens = join(vec![
        open("div"),
        vec![
            ident("data"),
            Token::Dash,
            ident("foo"),
            Token::Dash,
            ident("bar"),
            Token::Assign,
            text("1"),
            Token::Comma,
        ],
        attr("id", text("x")),
        vec![Token::Slash, Token::Gt],
    ]);
    let root = html(&tokens).unwrap();
    let tag = tag_of(&root);
    assert_eq!(attribute(tag, "data-foo-bar"), Some("1"));
    assert_eq!(attribute(tag, "id"), Some("x"));
    assert_eq!(tag.attributes.len(), 2);
    assert_eq!(tag.attributes.entry(0).0.as_str(), "data-foo-bar");
    assert_eq!(tag.attributes.entry(1).0.as_str(), "id");
}

#[test]
fn dangling_dash_is_refused() {
    let tokens = join(vec![
        open("div"),
        vec![ident("data"), Token::Dash, Token::Assign, text("1"), Token::Comma],
        vec![Token::Slash, Token::Gt],
    ]);
    assert_eq!(html(&tokens), Err(CompileError::Unmatched { position: 2 }));
}

#[test]
fn attribute_set_twice_keeps_its_place() {
    let tokens = join(vec![
        open("div"),
        attr("id", text("a")),
        attr("title", text("t")),
        attr("id", text("b")),
        vec![Token::Slash, Token::Gt],
    ]);
    let root = html(&tokens).unwrap();
    let tag = tag_of(&root);
    assert_eq!(tag.attributes.len(), 2);
    assert_eq!(tag.attributes.entry(0), (&"id".to_string(), &"b".to_string()));
    assert_eq!(tag.attributes.entry(1), (&"title".to_string(), &"t".to_string()));
}

#[test]
fn text_outside_braces_is_refused() {
    let tokens = join(vec![open("a"), vec![Token::Gt, text("Link")], close("a")]);
    let e = html(&tokens).unwrap_err();
    assert_eq!(e, CompileError::Unmatched { position: 3 });
    assert_eq!(e.message(), "text nodes must be wrapped in braces");
}

#[test]
fn unclosed_head_is_refused_at_the_end() {
    let tokens = open("a");
    assert_eq!(html(&tokens), Err(CompileError::Unmatched { position: 2 }));
}

#[test]
fn two_open_tags_at_the_end_are_refused() {
    let tokens = join(vec![open("a"), vec![Token::Gt], open("b"), vec![Token::Gt]]);
    assert_eq!(html(&tokens), Err(CompileError::Unmatched { position: 6 }));
}

#[test]
fn redundant_closing_tag_is_refused() {
    let tokens = close("a");
    assert_eq!(
        html(&tokens),
        Err(CompileError::Build {
            position: 0,
            error: BuildError::EmptyStack { closing: Some("a".to_string()) },
        })
    );
    let tokens = vec![Token::Lt, Token::Slash, Token::Gt];
    assert_eq!(
        html(&tokens),
        Err(CompileError::Build { position: 0, error: BuildError::EmptyStack { closing: None } })
    );
}

#[test]
fn a_second_root_becomes_a_child_of_the_first() {
    let tokens = join(vec![
        open("a"),
        vec![Token::Slash, Token::Gt],
        open("b"),
        vec![Token::Slash, Token::Gt],
    ]);
    let mut expected = VTag::new("a", None);
    expected.add_child(VNode::VTag(VTag::new("b", None)));
    assert_eq!(html(&tokens), Ok(VNode::VTag(expected)));
}

fn counter() -> ComponentType {
    let mut defaults = Props::new();
    defaults.set("label".to_string(), Value::Text(String::new()));
    defaults.set("active".to_string(), Value::Bool(false));
    ComponentType { name: "Counter".to_string(), defaults }
}

#[test]
fn component_with_fields() {
    let tokens = join(vec![
        vec![Token::Lt, Token::Type(counter()), Token::Colon],
        attr("active", flag(true)),
        attr("label", text("clicks")),
        vec![Token::Slash, Token::Gt],
    ]);
    let mut props = Props::new();
    props.set("label".to_string(), Value::Text("clicks".to_string()));
    props.set("active".to_string(), Value::Bool(true));
    assert_eq!(
        html(&tokens),
        Ok(VNode::VComp(VComp { name: "Counter".to_string(), props }))
    );
}

#[test]
fn component_with_whole_properties() {
    let mut given = Props::new();
    given.set("other".to_string(), Value::Bool(true));
    let mut expected = Props::new();
    expected.set("other".to_string(), Value::Bool(false));
    let tokens = join(vec![
        vec![Token::Lt, Token::Type(counter()), Token::Colon],
        vec![ident("with"), Token::Props(given), Token::Comma],
        attr("other", flag(false)),
        vec![Token::Slash, Token::Gt],
    ]);
    assert_eq!(
        html(&tokens),
        Ok(VNode::VComp(VComp { name: "Counter".to_string(), props: expected }))
    );
}

#[test]
fn component_field_of_another_kind_is_refused() {
    let tokens = join(vec![
        vec![Token::Lt, Token::Type(counter()), Token::Colon],
        attr("active", text("yes")),
        vec![Token::Slash, Token::Gt],
    ]);
    assert_eq!(html(&tokens), Err(CompileError::Unmatched { position: 3 }));
}

#[test]
fn component_field_that_is_not_there_is_refused() {
    let tokens = join(vec![
        vec![Token::Lt, Token::Type(counter()), Token::Colon],
        attr("missing", flag(true)),
        vec![Token::Slash, Token::Gt],
    ]);
    assert_eq!(html(&tokens), Err(CompileError::Unmatched { position: 3 }));
}

#[test]
fn component_inside_a_tag_is_its_child() {
    let tokens = join(vec![
        open("div"),
        vec![Token::Gt],
        vec![Token::Lt, Token::Type(counter()), Token::Colon, Token::Slash, Token::Gt],
        close("div"),
    ]);
    let mut expected = VTag::new("div", None);
    expected.add_child(VNode::VComp(VComp {
        name: "Counter".to_string(),
        props: counter().defaults,
    }));
    assert_eq!(html(&tokens), Ok(VNode::VTag(expected)));
}

#[test]
fn component_takes_no_children() {
    let tokens = join(vec![
        vec![Token::Lt, Token::Type(counter()), Token::Colon, Token::Slash, Token::Gt],
        vec![Token::LBrace, text("x"), Token::RBrace],
        vec![Token::Lt, Token::Slash, Token::Gt],
    ]);
    assert_eq!(
        html(&tokens),
        Err(CompileError::Build {
            position: 5,
            error: BuildError::WrongNodeKind {
                operation: Operation::AddChild,
                subject: "x".to_string(),
            },
        })
    );
}

#[test]
fn component_field_widens_a_number() {
    let mut defaults = Props::new();
    defaults.set("count".to_string(), Value::I64(0));
    let ty = ComponentType { name: "Counter".to_string(), defaults };
    let tokens = join(vec![
        vec![Token::Lt, Token::Type(ty), Token::Colon],
        attr("count", Token::Expr(Value::U32(7))),
        vec![Token::Slash, Token::Gt],
    ]);
    let mut props = Props::new();
    props.set("count".to_string(), Value::I64(7));
    assert_eq!(
        html(&tokens),
        Ok(VNode::VComp(VComp { name: "Counter".to_string(), props }))
    );
}

#[test]
fn number_as_attribute_and_as_child() {
    let tokens = join(vec![
        open("td"),
        attr("colspan", Token::Expr(Value::U32(2))),
        vec![Token::Gt, Token::LBrace, Token::Expr(Value::I64(-15)), Token::RBrace],
        close("td"),
    ]);
    let mut expected = VTag::new("td", None);
    expected.add_attribute("colspan", "2");
    expected.add_child(VNode::VText(VText::new("-15")));
    assert_eq!(html(&tokens), Ok(VNode::VTag(expected)));
}

#[test]
fn html_impl_builds_on_the_given_stack() {
    let mut stack = vec![VNode::VTag(VTag::new("body", None))];
    let tokens = join(vec![open("p"), vec![Token::Slash, Token::Gt]]);
    assert_eq!(html_impl(&mut stack, &tokens), Ok(()));
    let mut expected = VTag::new("body", None);
    expected.add_child(VNode::VTag(VTag::new("p", None)));
    assert_eq!(stack, vec![VNode::VTag(expected)]);
}
