//! Requests to the view, the replies it sends back, and the script text that
//! carries each request.

use vstd::prelude::*;
use vstd::string::StringExecFns;
use tokio::sync::oneshot;
use crate::script::{append_decimal, decimal, quoted, quoted_literal};

verus! {

/// The kind of a reply that the view sends after it applied a request.
#[derive(Clone, Copy, Debug, PartialEq, Eq, Structural)]
pub enum Message {
    CreateNode,
    AppendChild,
    SetText,
}

/// The name of a reply kind, as the view writes it in its reply.
pub open spec fn kind_name(m: Message) -> Seq<char> {
    match m {
        Message::CreateNode => "CreateNode"@,
        Message::AppendChild => "AppendChild"@,
        Message::SetText => "SetText"@,
    }
}

impl Message {
    /// The name of this reply kind, as the view writes it in its reply.
    pub fn name(&self) -> (r: &'static str)
        ensures
            r@ == kind_name(*self),
    {
        match self {
            Message::CreateNode => "CreateNode",
            Message::AppendChild => "AppendChild",
            Message::SetText => "SetText",
        }
    }
}

/// What a request asks the view to do, without its completion signal.
pub enum Operation {
    AppendChild { parent: u64, child: u64 },
    CreateElement { id: u64, tag_name: Seq<char> },
    CreateTextNode { id: u64, text: Seq<char> },
    SetTextContent { id: u64, text: Seq<char> },
}

impl Operation {
    /// The reply kind that acknowledges this operation.
    pub open spec fn reply(self) -> Message {
        match self {
            Operation::AppendChild { .. } => Message::AppendChild,
            Operation::CreateElement { .. } => Message::CreateNode,
            Operation::CreateTextNode { .. } => Message::CreateNode,
            Operation::SetTextContent { .. } => Message::SetText,
        }
    }
}

/// The expression that names node `id` in the view's node table.
pub open spec fn node_ref(id: u64) -> Seq<char> {
    "window.webSlinger.elements["@ + decimal(id as nat) + "]"@
}

/// The statement that sends a reply of kind `m` back to native code.
pub open spec fn notify(m: Message) -> Seq<char> {
    "; window.ipc.postMessage(JSON.stringify({ kind: \""@ + kind_name(m) + "\" }));"@
}

/// The script that applies `op` in the view and then replies.
pub open spec fn script_of(op: Operation) -> Seq<char> {
    match op {
        Operation::AppendChild { parent, child } => node_ref(parent) + ".appendChild("@ + node_ref(
            child,
        ) + ")"@ + notify(Message::AppendChild),
        Operation::CreateElement { id, tag_name } => node_ref(id) + " = document.createElement("@
            + quoted(tag_name) + ")"@ + notify(Message::CreateNode),
        Operation::CreateTextNode { id, text } => node_ref(id) + " = document.createTextNode("@
            + quoted(text) + ")"@ + notify(Message::CreateNode),
        Operation::SetTextContent { id, text } => node_ref(id) + ".textContent = "@ + quoted(text)
            + notify(Message::SetText),
    }
}

/// One pending mutation of the view's node table, with the signal that
/// tells its caller when the view has applied it.
pub enum Request {
    AppendChild { parent_id: u64, child_id: u64, tx: Option<oneshot::Sender<()>> },
    CreateElement { id: u64, name: String, tx: Option<oneshot::Sender<()>> },
    CreateTextElement { id: u64, content: String, tx: Option<oneshot::Sender<()>> },
    SetText { id: u64, content: String, tx: Option<oneshot::Sender<()>> },
}

impl View for Request {
    type V = Operation;

    open spec fn view(&self) -> Operation {
        match self {
            Request::AppendChild { parent_id, child_id, .. } => Operation::AppendChild {
                parent: *parent_id,
                child: *child_id,
            },
            Request::CreateElement { id, name, .. } => Operation::CreateElement {
                id: *id,
                tag_name: name@,
            },
            Request::CreateTextElement { id, content, .. } => Operation::CreateTextNode {
                id: *id,
                text: content@,
            },
            Request::SetText { id, content, .. } => Operation::SetTextContent {
                id: *id,
                text: content@,
            },
        }
    }
}

fn append_node_ref(s: &mut String, id: u64)
    ensures
        final(s)@ == old(s)@ + node_ref(id),
{
    s.append("window.webSlinger.elements[");
    append_decimal(s, id);
    s.append("]");
    assert(s@ =~= old(s)@ + node_ref(id));
}

fn append_notify(s: &mut String, m: Message)
    ensures
        final(s)@ == old(s)@ + notify(m),
{
    s.append("; window.ipc.postMessage(JSON.stringify({ kind: \"");
    s.append(m.name());
    s.append("\" }));");
    assert(s@ =~= old(s)@ + notify(m));
}

impl Request {
    /// Whether this request carries a completion signal.
    pub open spec fn has_signal(&self) -> bool {
        match self {
            Request::AppendChild { tx, .. } => tx is Some,
            Request::CreateElement { tx, .. } => tx is Some,
            Request::CreateTextElement { tx, .. } => tx is Some,
            Request::SetText { tx, .. } => tx is Some,
        }
    }

    /// The reply kind that acknowledges this request.
    pub fn expected_reply(&self) -> (m: Message)
        ensures
            m == self@.reply(),
    {
        match self {
            Request::AppendChild { .. } => Message::AppendChild,
            Request::CreateElement { .. } => Message::CreateNode,
            Request::CreateTextElement { .. } => Message::CreateNode,
            Request::SetText { .. } => Message::SetText,
        }
    }

    /// The script that applies this request in the view and then replies.
    pub fn script(&self) -> (s: String)
        ensures
            s@ == script_of(self@),
    {
        let mut s = String::new();
        match self {
            Request::AppendChild { parent_id, child_id, .. } => {
                append_node_ref(&mut s, *parent_id);
                s.append(".appendChild(");
                append_node_ref(&mut s, *child_id);
                s.append(")");
                append_notify(&mut s, Message::AppendChild);
            },
            Request::CreateElement { id, name, .. } => {
                append_node_ref(&mut s, *id);
                s.append(" = document.createElement(");
                let lit = quoted_literal(name.as_str());
                s.append(lit.as_str());
                s.append(")");
                append_notify(&mut s, Message::CreateNode);
            },
            Request::CreateTextElement { id, content, .. } => {
                append_node_ref(&mut s, *id);
                s.append(" = document.createTextNode(");
                let lit = quoted_literal(content.as_str());
                s.append(lit.as_str());
                s.append(")");
                append_notify(&mut s, Message::CreateNode);
            },
            Request::SetText { id, content, .. } => {
                append_node_ref(&mut s, *id);
                s.append(".textContent = ");
                let lit = quoted_literal(content.as_str());
                s.append(lit.as_str());
                append_notify(&mut s, Message::SetText);
            },
        }
        assert(s@ =~= script_of(self@));
        s
    }

    /// Gives up the request, keeping only its completion signal.
    pub fn into_signal(self) -> (r: Option<oneshot::Sender<()>>)
        ensures
            r is Some <==> self.has_signal(),
    {
        match self {
            Request::AppendChild { tx, .. } => tx,
            Request::CreateElement { tx, .. } => tx,
            Request::CreateTextElement { tx, .. } => tx,
            Request::SetText { tx, .. } => tx,
        }
    }
}

} // verus!
