//! Handles that native code holds: the document and its nodes. Every
//! operation but `body` queues one request for the bridge and returns at
//! once; none of them touches the view itself.

use vstd::prelude::*;
use std::sync::atomic::{AtomicU64, Ordering};
use std::sync::Arc;
use tokio::sync::mpsc::UnboundedSender;
use tokio::sync::oneshot;
use crate::channel::{completion_channel, enqueue};
use crate::request::{Operation, Request};

verus! {

/// The identifier of the document's root container.
pub const ROOT_ID: u64 = 0;

/// The identifier that the allocator hands out first.
pub const FIRST_ID: u64 = 1;

/// A shareable reference to the document: the sending end of the request
/// queue and the identifier allocator. Its clones share both and are the
/// same document.
pub struct Document {
    requests: UnboundedSender<Request>,
    next_id: Arc<AtomicU64>,
    session: Ghost<int>,
}

/// A node of the document, addressed by its identifier.
pub struct Element {
    id: u64,
    document: Document,
}

impl Clone for Document {
    /// Another reference to the same document.
    fn clone(&self) -> (r: Document)
        ensures
            r.doc() == self.doc(),
    {
        Document {
            requests: self.requests.clone(),
            next_id: self.next_id.clone(),
            session: self.session,
        }
    }
}

impl Clone for Element {
    /// Another handle on the same node of the same document.
    fn clone(&self) -> (r: Element)
        ensures
            r.ident() == self.ident(),
            r.doc() == self.doc(),
    {
        Element { id: self.id, document: self.document.clone() }
    }
}

impl Document {
    /// Which document this is: the same for every clone of it.
    pub closed spec fn doc(&self) -> int {
        self.session@
    }

    /// A document whose requests go to `requests`, with a fresh allocator,
    /// known as `session`.
    pub(crate) fn new(requests: UnboundedSender<Request>, session: Ghost<int>) -> (r: Document)
        ensures
            r.doc() == session@,
    {
        Document { requests, next_id: Arc::new(AtomicU64::new(FIRST_ID)), session }
    }

    /// Takes the next identifier from the allocator shared by every clone.
    fn allocate(&self) -> u64 {
        self.next_id.fetch_add(1, Ordering::SeqCst)
    }

    /// The handle of the root container; no request is queued.
    pub fn body(&self) -> (r: Element)
        ensures
            r.ident() == ROOT_ID,
            r.doc() == self.doc(),
    {
        Element { id: ROOT_ID, document: self.clone() }
    }

    /// The handle of node `id` and the request that creates it as an element
    /// named `name`, with `tx` as its completion signal.
    pub fn element_creation(&self, id: u64, name: String, tx: oneshot::Sender<()>) -> (r: (
        Element,
        Request,
    ))
        ensures
            r.0.ident() == id,
            r.0.doc() == self.doc(),
            r.1@ == (Operation::CreateElement { id, tag_name: name@ }),
            r.1.has_signal(),
    {
        (Element { id, document: self.clone() }, Request::CreateElement { id, name, tx: Some(tx) })
    }

    /// The handle of node `id` and the request that creates it as a text node
    /// holding `content`, with `tx` as its completion signal.
    pub fn text_creation(&self, id: u64, content: String, tx: oneshot::Sender<()>) -> (r: (
        Element,
        Request,
    ))
        ensures
            r.0.ident() == id,
            r.0.doc() == self.doc(),
            r.1@ == (Operation::CreateTextNode { id, text: content@ }),
            r.1.has_signal(),
    {
        (
            Element { id, document: self.clone() },
            Request::CreateTextElement { id, content, tx: Some(tx) },
        )
    }

    /// Allocates an identifier and queues the creation of an element named
    /// `name` under it; the handle is returned at once. What is queued is
    /// `element_creation`'s request for that identifier, whose handle this is.
    pub fn create_element(&self, name: String) -> (r: Element)
        ensures
            r.doc() == self.doc(),
    {
        let id = self.allocate();
        let (tx, _rx) = completion_channel();
        let (element, request) = self.element_creation(id, name, tx);
        let _ = enqueue(&self.requests, request);
        element
    }

    /// Allocates an identifier and queues the creation of a text node that
    /// holds `content` under it; the handle is returned at once. What is
    /// queued is `text_creation`'s request for that identifier, whose handle
    /// this is.
    pub fn create_text(&self, content: String) -> (r: Element)
        ensures
            r.doc() == self.doc(),
    {
        let id = self.allocate();
        let (tx, _rx) = completion_channel();
        let (element, request) = self.text_creation(id, content, tx);
        let _ = enqueue(&self.requests, request);
        element
    }
}

impl Element {
    /// The document this node belongs to.
    pub closed spec fn doc(&self) -> int {
        self.document.doc()
    }

    /// The identifier of this node.
    pub closed spec fn ident(&self) -> u64 {
        self.id
    }

    /// The identifier of this node.
    pub fn id(&self) -> (r: u64)
        ensures
            r == self.ident(),
    {
        self.id
    }

    /// The request that appends `child` under this node, with `tx` as its
    /// completion signal.
    pub fn append_request(&self, child: &Element, tx: oneshot::Sender<()>) -> (r: Request)
        requires
            child.doc() == self.doc(),
        ensures
            r@ == (Operation::AppendChild { parent: self.ident(), child: child.ident() }),
            r.has_signal(),
    {
        Request::AppendChild { parent_id: self.id, child_id: child.id, tx: Some(tx) }
    }

    /// The request that sets the text of this node to `content`, with `tx` as
    /// its completion signal.
    pub fn text_request(&self, content: String, tx: oneshot::Sender<()>) -> (r: Request)
        ensures
            r@ == (Operation::SetTextContent { id: self.ident(), text: content@ }),
            r.has_signal(),
    {
        Request::SetText { id: self.id, content, tx: Some(tx) }
    }

    /// Queues `append_request(child)`. The receiver belongs to that request's
    /// signal: it gets `()` once the view has applied it, and an error if the
    /// session ended first.
    pub fn append_child(&self, child: &Element) -> oneshot::Receiver<()>
        requires
            child.doc() == self.doc(),
    {
        let (tx, rx) = completion_channel();
        let request = self.append_request(child, tx);
        let _ = enqueue(&self.document.requests, request);
        rx
    }

    /// Queues `text_request(content)`. The receiver belongs to that request's
    /// signal: it gets `()` once the view has applied it, and an error if the
    /// session ended first.
    pub fn set_text_content(&self, content: String) -> oneshot::Receiver<()> {
        let (tx, rx) = completion_channel();
        let request = self.text_request(content, tx);
        let _ = enqueue(&self.document.requests, request);
        rx
    }
}

} // verus!
