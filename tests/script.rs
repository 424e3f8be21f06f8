use web_slinger::{bootstrap_script, quoted_literal, Bridge, Message, Request};

#[test]
fn quoted_literal_escapes_quotes_backslashes_and_line_breaks() {
    assert_eq!(quoted_literal(""), "\"\"");
    assert_eq!(quoted_literal("div"), "\"div\"");
    assert_eq!(quoted_literal("a\"b\\c\nd\re"), "\"a\\\"b\\\\c\\nd\\re\"");
    assert_eq!(quoted_literal("é ü"), "\"é ü\"");
}

#[test]
fn bootstrap_binds_root_to_body() {
    assert_eq!(
        bootstrap_script(),
        "window.webSlinger = { elements: { 0: document.body }, nextId: 1 };"
    );
}

#[test]
fn reply_kind_names() {
    assert_eq!(Message::CreateNode.name(), "CreateNode");
    assert_eq!(Message::AppendChild.name(), "AppendChild");
    assert_eq!(Message::SetText.name(), "SetText");
}

#[test]
fn each_request_expects_its_reply_kind() {
    let append = Request::AppendChild { parent_id: 0, child_id: 1, tx: None };
    let element = Request::CreateElement { id: 1, name: "p".to_string(), tx: None };
    let text = Request::CreateTextElement { id: 2, content: "t".to_string(), tx: None };
    let set = Request::SetText { id: 2, content: "u".to_string(), tx: None };
    assert_eq!(append.expected_reply(), Message::AppendChild);
    assert_eq!(element.expected_reply(), Message::CreateNode);
    assert_eq!(text.expected_reply(), Message::CreateNode);
    assert_eq!(set.expected_reply(), Message::SetText);
}

#[test]
fn scripts_write_identifiers_in_decimal() {
    let append = Request::AppendChild { parent_id: 10, child_id: u64::MAX, tx: None };
    assert_eq!(
        append.script(),
        "window.webSlinger.elements[10].appendChild(window.webSlinger.elements[18446744073709551615]); window.ipc.postMessage(JSON.stringify({ kind: \"AppendChild\" }));"
    );
}

#[test]
fn text_scripts_quote_their_content() {
    let text = Request::CreateTextElement { id: 7, content: "say \"hi\"".to_string(), tx: None };
    assert_eq!(
        text.script(),
        "window.webSlinger.elements[7] = document.createTextNode(\"say \\\"hi\\\"\"); window.ipc.postMessage(JSON.stringify({ kind: \"CreateNode\" }));"
    );
    let set = Request::SetText { id: 42, content: "1".to_string(), tx: None };
    assert_eq!(
        set.script(),
        "window.webSlinger.elements[42].textContent = \"1\"; window.ipc.postMessage(JSON.stringify({ kind: \"SetText\" }));"
    );
}

#[test]
fn into_signal_keeps_only_the_signal() {
    let (tx, mut rx) = tokio::sync::oneshot::channel::<()>();
    let set = Request::SetText { id: 1, content: "x".to_string(), tx: Some(tx) };
    let signal = set.into_signal().unwrap();
    signal.send(()).unwrap();
    assert_eq!(rx.try_recv(), Ok(()));
    let bare = Request::AppendChild { parent_id: 0, child_id: 1, tx: None };
    assert!(bare.into_signal().is_none());
}

#[test]
fn creation_builders_pair_handle_and_request() {
    let (bridge, _replies) = Bridge::new();
    let document = bridge.document();
    let (tx, _rx) = tokio::sync::oneshot::channel::<()>();
    let (element, request) = document.element_creation(5, "div".to_string(), tx);
    assert_eq!(element.id(), 5);
    assert_eq!(request.expected_reply(), Message::CreateNode);
    assert_eq!(
        request.script(),
        "window.webSlinger.elements[5] = document.createElement(\"div\"); window.ipc.postMessage(JSON.stringify({ kind: \"CreateNode\" }));"
    );
    assert!(request.into_signal().is_some());

    let (tx, _rx) = tokio::sync::oneshot::channel::<()>();
    let (node, request) = document.text_creation(6, "hi".to_string(), tx);
    assert_eq!(node.id(), 6);
    assert_eq!(
        request.script(),
        "window.webSlinger.elements[6] = document.createTextNode(\"hi\"); window.ipc.postMessage(JSON.stringify({ kind: \"CreateNode\" }));"
    );
    assert!(request.into_signal().is_some());
}

#[test]
fn node_request_builders_name_their_nodes() {
    let (bridge, _replies) = Bridge::new();
    let document = bridge.document();
    let (tx, _rx) = tokio::sync::oneshot::channel::<()>();
    let (child, _) = document.element_creation(3, "p".to_string(), tx);
    let root = document.body();

    let (tx, mut rx) = tokio::sync::oneshot::channel::<()>();
    let append = root.append_request(&child, tx);
    assert_eq!(append.expected_reply(), Message::AppendChild);
    assert_eq!(
        append.script(),
        "window.webSlinger.elements[0].appendChild(window.webSlinger.elements[3]); window.ipc.postMessage(JSON.stringify({ kind: \"AppendChild\" }));"
    );
    append.into_signal().unwrap().send(()).unwrap();
    assert_eq!(rx.try_recv(), Ok(()));

    let (tx, _rx) = tokio::sync::oneshot::channel::<()>();
    let set = child.text_request("hi".to_string(), tx);
    assert_eq!(set.expected_reply(), Message::SetText);
    assert_eq!(
        set.script(),
        "window.webSlinger.elements[3].textContent = \"hi\"; window.ipc.postMessage(JSON.stringify({ kind: \"SetText\" }));"
    );
    assert!(set.into_signal().is_some());
}
