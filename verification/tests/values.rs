use html_template::event::{EventKind, Handler, Listener};
use html_template::namespace::proliferate_namespaces;
use html_template::node::{Attributes, Props, VComp, VList, VNode, VRef, VTag, VText};
use html_template::text::{same_text, same_text_ignoring_ascii_case};
use html_template::token::Child;
use html_template::value::{transform, Value};

#[test]
fn numbers_are_written_in_decimal() {
    assert_eq!(Value::U32(0).to_text(), "0");
    assert_eq!(Value::U32(7).to_text(), "7");
    assert_eq!(Value::U32(10).to_text(), "10");
    assert_eq!(Value::U32(u32::MAX).to_text(), "4294967295");
    assert_eq!(Value::U64(12345678901234567890).to_text(), "12345678901234567890");
    assert_eq!(Value::U64(u64::MAX).to_text(), "18446744073709551615");
    assert_eq!(Value::I32(-1).to_text(), "-1");
    assert_eq!(Value::I32(0).to_text(), "0");
    assert_eq!(Value::I32(i32::MIN).to_text(), "-2147483648");
    assert_eq!(Value::I32(i32::MAX).to_text(), "2147483647");
    assert_eq!(Value::I64(-1000).to_text(), "-1000");
    assert_eq!(Value::I64(i64::MIN).to_text(), "-9223372036854775808");
    assert_eq!(Value::I64(i64::MAX).to_text(), "9223372036854775807");
    assert_eq!(Value::I64(1090).to_text(), "1090");
}

#[test]
fn texts_and_booleans_are_written_as_they_are() {
    assert_eq!(Value::text("a b").to_text(), "a b");
    assert_eq!(Value::Text(String::new()).to_text(), "");
    assert_eq!(Value::Bool(true).to_text(), "true");
    assert_eq!(Value::Bool(false).to_text(), "false");
}

#[test]
fn truth_of_values() {
    assert!(Value::Bool(true).is_truthy());
    assert!(!Value::Bool(false).is_truthy());
    assert!(Value::text("x").is_truthy());
    assert!(Value::text("false").is_truthy());
    assert!(!Value::text("").is_truthy());
    assert!(Value::I32(-1).is_truthy());
    assert!(!Value::I32(0).is_truthy());
    assert!(!Value::I64(0).is_truthy());
    assert!(!Value::U32(0).is_truthy());
    assert!(!Value::U64(0).is_truthy());
    assert!(Value::U64(u64::MAX).is_truthy());
}

#[test]
fn values_become_text_nodes() {
    assert_eq!(Value::I32(-42).to_node(), VNode::VText(VText::new("-42")));
    assert_eq!(Value::Bool(true).to_node(), VNode::VText(VText::new("true")));
    assert_eq!(Child::Value(Value::text("x")).to_node(), VNode::VText(VText::new("x")));
    let tag = VNode::VTag(VTag::new("b", None));
    assert_eq!(Child::Node(tag.duplicate()).to_node(), tag);
}

#[test]
fn transform_keeps_the_kind_of_the_field() {
    assert_eq!(transform(&Value::text("old"), &Value::text("new")), Some(Value::text("new")));
    assert_eq!(transform(&Value::Bool(false), &Value::Bool(true)), Some(Value::Bool(true)));
    assert_eq!(transform(&Value::I32(0), &Value::I32(-5)), Some(Value::I32(-5)));
    assert_eq!(transform(&Value::I64(0), &Value::I64(-5)), Some(Value::I64(-5)));
    assert_eq!(transform(&Value::U32(0), &Value::U32(5)), Some(Value::U32(5)));
    assert_eq!(transform(&Value::U64(0), &Value::U64(5)), Some(Value::U64(5)));
}

#[test]
fn transform_widens_numbers() {
    assert_eq!(transform(&Value::I64(0), &Value::I32(i32::MIN)), Some(Value::I64(-2147483648)));
    assert_eq!(transform(&Value::I64(0), &Value::U32(u32::MAX)), Some(Value::I64(4294967295)));
    assert_eq!(transform(&Value::U64(0), &Value::U32(u32::MAX)), Some(Value::U64(4294967295)));
}

#[test]
fn transform_refuses_what_does_not_fit() {
    assert_eq!(transform(&Value::I32(0), &Value::I64(1)), None);
    assert_eq!(transform(&Value::I32(0), &Value::U32(1)), None);
    assert_eq!(transform(&Value::U32(0), &Value::I32(1)), None);
    assert_eq!(transform(&Value::U32(0), &Value::U64(1)), None);
    assert_eq!(transform(&Value::U64(0), &Value::I32(1)), None);
    assert_eq!(transform(&Value::U64(0), &Value::I64(1)), None);
    assert_eq!(transform(&Value::I64(0), &Value::U64(1)), None);
    assert_eq!(transform(&Value::text(""), &Value::Bool(true)), None);
    assert_eq!(transform(&Value::text(""), &Value::I32(1)), None);
    assert_eq!(transform(&Value::Bool(true), &Value::text("true")), None);
    assert_eq!(transform(&Value::Bool(true), &Value::U32(1)), None);
    assert_eq!(transform(&Value::I64(0), &Value::text("1")), None);
}

#[test]
fn texts_compare_by_their_characters() {
    assert!(same_text("", ""));
    assert!(same_text("class", "class"));
    assert!(!same_text("class", "Class"));
    assert!(!same_text("class", "clas"));
    assert!(!same_text("clas", "class"));
    assert!(same_text("héllo", "héllo"));
    assert!(!same_text("héllo", "hello"));
}

#[test]
fn ascii_case_is_ignored_and_nothing_else() {
    assert!(same_text_ignoring_ascii_case("", ""));
    assert!(same_text_ignoring_ascii_case("DIV", "div"));
    assert!(same_text_ignoring_ascii_case("dIv", "DiV"));
    assert!(same_text_ignoring_ascii_case("az09-_", "AZ09-_"));
    assert!(!same_text_ignoring_ascii_case("div", "di"));
    assert!(!same_text_ignoring_ascii_case("di", "div"));
    assert!(!same_text_ignoring_ascii_case("div", "dib"));
    assert!(!same_text_ignoring_ascii_case("@", "`"));
    assert!(!same_text_ignoring_ascii_case("[", "{"));
    assert!(!same_text_ignoring_ascii_case("é", "É"));
    assert!(same_text_ignoring_ascii_case("éA", "éa"));
    assert!(!same_text_ignoring_ascii_case("a", "á"));
}

#[test]
fn event_names_round_trip() {
    let all = [
        (EventKind::Click, "onclick", "ClickEvent"),
        (EventKind::DoubleClick, "ondoubleclick", "DoubleClickEvent"),
        (EventKind::KeyPress, "onkeypress", "KeyPressEvent"),
        (EventKind::KeyDown, "onkeydown", "KeyDownEvent"),
        (EventKind::KeyUp, "onkeyup", "KeyUpEvent"),
        (EventKind::MouseDown, "onmousedown", "MouseDownEvent"),
        (EventKind::MouseMove, "onmousemove", "MouseMoveEvent"),
        (EventKind::MouseOut, "onmouseout", "MouseOutEvent"),
        (EventKind::MouseEnter, "onmouseenter", "MouseEnterEvent"),
        (EventKind::MouseLeave, "onmouseleave", "MouseLeaveEvent"),
        (EventKind::MouseWheel, "onmousewheel", "MouseWheelEvent"),
        (EventKind::MouseOver, "onmouseover", "MouseOverEvent"),
        (EventKind::MouseUp, "onmouseup", "MouseUpEvent"),
        (EventKind::GotPointerCapture, "ongotpointercapture", "GotPointerCaptureEvent"),
        (EventKind::LostPointerCapture, "onlostpointercapture", "LostPointerCaptureEvent"),
        (EventKind::PointerCancel, "onpointercancel", "PointerCancelEvent"),
        (EventKind::PointerDown, "onpointerdown", "PointerDownEvent"),
        (EventKind::PointerEnter, "onpointerenter", "PointerEnterEvent"),
        (EventKind::PointerLeave, "onpointerleave", "PointerLeaveEvent"),
        (EventKind::PointerMove, "onpointermove", "PointerMoveEvent"),
        (EventKind::PointerOut, "onpointerout", "PointerOutEvent"),
        (EventKind::PointerOver, "onpointerover", "PointerOverEvent"),
        (EventKind::PointerUp, "onpointerup", "PointerUpEvent"),
        (EventKind::Scroll, "onscroll", "ScrollEvent"),
        (EventKind::Blur, "onblur", "BlurEvent"),
        (EventKind::Focus, "onfocus", "FocusEvent"),
        (EventKind::Submit, "onsubmit", "SubmitEvent"),
        (EventKind::Input, "oninput", "InputData"),
        (EventKind::Change, "onchange", "ChangeData"),
        (EventKind::DragStart, "ondragstart", "DragStartEvent"),
        (EventKind::Drag, "ondrag", "DragEvent"),
        (EventKind::DragEnd, "ondragend", "DragEndEvent"),
        (EventKind::DragEnter, "ondragenter", "DragEnterEvent"),
        (EventKind::DragLeave, "ondragleave", "DragLeaveEvent"),
        (EventKind::DragOver, "ondragover", "DragOverEvent"),
        (EventKind::DragExit, "ondragexit", "DragExitEvent"),
        (EventKind::Drop, "ondrop", "DragDropEvent"),
        (EventKind::ContextMenu, "oncontextmenu", "ContextMenuEvent"),
    ];
    for (kind, name, payload) in all {
        assert_eq!(kind.name(), name);
        assert_eq!(kind.payload(), payload);
        assert_eq!(EventKind::from_name(name), Some(kind));
    }
}

#[test]
fn names_outside_the_table_are_no_events() {
    for name in ["", "click", "onClick", "onclick ", "onfoo", "onload", "ondragstar", "on"] {
        assert_eq!(EventKind::from_name(name), None);
    }
}

#[test]
fn listener_pairs_kind_and_handler() {
    let l = Listener::new(EventKind::Blur, Handler { id: 5 });
    assert_eq!(l, Listener { kind: EventKind::Blur, handler: Handler { id: 5 } });
}

#[test]
fn ordered_map_keeps_first_positions() {
    let mut m = Attributes::new();
    assert_eq!(m.len(), 0);
    assert_eq!(m.get("a"), None);
    m.set("b".to_string(), "1".to_string());
    m.set("a".to_string(), "2".to_string());
    m.set("c".to_string(), "3".to_string());
    m.set("a".to_string(), "4".to_string());
    assert_eq!(m.len(), 3);
    assert_eq!(m.entry(0), (&"b".to_string(), &"1".to_string()));
    assert_eq!(m.entry(1), (&"a".to_string(), &"4".to_string()));
    assert_eq!(m.entry(2), (&"c".to_string(), &"3".to_string()));
    assert_eq!(m.get("a"), Some(&"4".to_string()));
    assert_eq!(m.get("A"), None);
    let copy = m.duplicate();
    assert_eq!(copy, m);
    let mut p = Props::new();
    p.set("n".to_string(), Value::I32(1));
    p.set("t".to_string(), Value::text("x"));
    assert_eq!(p.duplicate(), p);
    assert_eq!(p.get("n"), Some(&Value::I32(1)));
}

#[test]
fn duplicate_copies_the_whole_tree() {
    let mut props = Props::new();
    props.set("n".to_string(), Value::U64(3));
    let mut inner = VTag::new("input", Some("urn:x".to_string()));
    inner.set_kind("text");
    inner.set_value("v");
    inner.set_checked(true);
    inner.add_attribute("id", "i");
    inner.add_class("c");
    inner.add_listener(Listener::new(EventKind::Input, Handler { id: 2 }));
    let mut list = VList::new();
    list.add_child(VNode::VTag(inner));
    list.add_child(VNode::VText(VText::new("t")));
    list.add_child(VNode::VComp(VComp { name: "C".to_string(), props }));
    list.add_child(VNode::VRef(VRef { handle: 11 }));
    let mut root = VTag::new("div", None);
    root.add_child(VNode::VList(list));
    let root = VNode::VTag(root);
    assert_eq!(root.duplicate(), root);
}

#[test]
fn namespace_spreads_from_above() {
    let mut own = VTag::new("own", Some("urn:own".to_string()));
    own.add_child(VNode::VTag(VTag::new("below", None)));
    let mut list = VList::new();
    list.add_child(VNode::VTag(VTag::new("a", None)));
    list.add_child(VNode::VTag(own));
    list.add_child(VNode::VText(VText::new("t")));
    let mut node = VNode::VList(list);
    proliferate_namespaces(&mut node, &Some("urn:top".to_string()));

    let mut own = VTag::new("own", Some("urn:own".to_string()));
    own.add_child(VNode::VTag(VTag::new("below", Some("urn:own".to_string()))));
    let mut list = VList::new();
    list.add_child(VNode::VTag(VTag::new("a", Some("urn:top".to_string()))));
    list.add_child(VNode::VTag(own));
    list.add_child(VNode::VText(VText::new("t")));
    assert_eq!(node, VNode::VList(list));

    let before = node.duplicate();
    proliferate_namespaces(&mut node, &Some("urn:top".to_string()));
    assert_eq!(node, before);
}

#[test]
fn no_namespace_spreads_nothing() {
    let mut root = VTag::new("div", None);
    root.add_child(VNode::VTag(VTag::new("p", None)));
    let mut node = VNode::VTag(root);
    let before = node.duplicate();
    proliferate_namespaces(&mut node, &None);
    assert_eq!(node, before);
    let mut leaf = VNode::VRef(VRef { handle: 1 });
    proliferate_namespaces(&mut leaf, &Some("urn:x".to_string()));
    assert_eq!(leaf, VNode::VRef(VRef { handle: 1 }));
}

#[test]
fn matching_agrees_with_the_standard_library() {
    let samples = [
        "", "a", "A", "z", "Z", "@", "`", "[", "{", "div", "DIV", "dIv", "div ", "input", "INPUT",
        "textarea", "TextArea", "é", "É", "éa", "ÉA", "éA", "ß", "K", "\u{212A}", "a1", "A1", "a2",
    ];
    for a in samples {
        for b in samples {
            assert_eq!(same_text_ignoring_ascii_case(a, b), a.eq_ignore_ascii_case(b), "{a:?} {b:?}");
            assert_eq!(same_text(a, b), a == b, "{a:?} {b:?}");
        }
    }
}

#[test]
fn decimal_text_agrees_with_the_standard_library() {
    for n in [0i64, 1, 9, 10, 11, 99, 100, 101, 1000, 65535, i64::MAX, -1, -9, -10, -11, i64::MIN] {
        assert_eq!(Value::I64(n).to_text(), n.to_string());
    }
    for n in [0u64, 5, 10, 19, 20, 999, 1000, u64::MAX, u64::MAX - 1] {
        assert_eq!(Value::U64(n).to_text(), n.to_string());
    }
    for n in [i32::MIN, -1, 0, 1, i32::MAX] {
        assert_eq!(Value::I32(n).to_text(), n.to_string());
    }
    for n in [0u32, 1, u32::MAX] {
        assert_eq!(Value::U32(n).to_text(), n.to_string());
    }
}
