//! The document model: the part of an HTML tree that extraction reads.

use vstd::prelude::*;

verus! {

/// A node of a document tree.
#[derive(Debug, PartialEq, Eq)]
pub enum Node {
    /// An element with its subtree.
    Element(Element),
    /// A run of character data.
    Text(String),
    /// Anything else: a comment, a processing instruction, a doctype.
    Other,
}

/// An element: tag name, class list and children in document order.
#[derive(Debug, PartialEq, Eq)]
pub struct Element {
    pub name: String,
    pub classes: Vec<String>,
    pub children: Vec<Node>,
}

/// The mathematical model of a [`Node`].
pub enum NodeView {
    Element(ElementView),
    Text(Seq<char>),
    Other,
}

/// The mathematical model of an [`Element`].
pub struct ElementView {
    pub name: Seq<char>,
    pub classes: Seq<Seq<char>>,
    pub children: Seq<NodeView>,
}

/// The models of a sequence of nodes, in the same order.
pub open spec fn view_nodes(nodes: Seq<Node>) -> Seq<NodeView>
    decreases nodes,
{
    Seq::new(
        nodes.len(),
        |i: int|
            if 0 <= i < nodes.len() {
                nodes[i]@
            } else {
                NodeView::Other
            },
    )
}

/// The models of a sequence of strings, in the same order.
pub open spec fn view_strings(strings: Seq<String>) -> Seq<Seq<char>> {
    strings.map_values(|s: String| s@)
}

impl View for Node {
    type V = NodeView;

    open spec fn view(&self) -> NodeView
        decreases self,
    {
        match self {
            Node::Element(e) => NodeView::Element(e@),
            Node::Text(t) => NodeView::Text(t@),
            Node::Other => NodeView::Other,
        }
    }
}

impl View for Element {
    type V = ElementView;

    open spec fn view(&self) -> ElementView
        decreases self,
    {
        ElementView {
            name: self.name@,
            classes: view_strings(self.classes@),
            children: view_nodes(self.children@),
        }
    }
}

/// The last text node among `nodes` and their descendants, in document order.
pub open spec fn last_text_in(nodes: Seq<NodeView>) -> Option<Seq<char>>
    decreases nodes, 0nat,
{
    if nodes.len() == 0 {
        None
    } else {
        match last_text_of(nodes.last()) {
            Some(text) => Some(text),
            None => last_text_in(nodes.drop_last()),
        }
    }
}

/// The last text node of the subtree rooted at `node`, in document order.
pub open spec fn last_text_of(node: NodeView) -> Option<Seq<char>>
    decreases node, 1nat,
{
    match node {
        NodeView::Element(e) => last_text_in(e.children),
        NodeView::Text(text) => Some(text),
        NodeView::Other => None,
    }
}

/// The text of all text nodes among `nodes` and their descendants, joined in
/// document order.
pub open spec fn text_in(nodes: Seq<NodeView>) -> Seq<char>
    decreases nodes, 0nat,
{
    if nodes.len() == 0 {
        Seq::empty()
    } else {
        text_in(nodes.drop_last()) + text_of(nodes.last())
    }
}

/// The text of all text nodes of the subtree rooted at `node`, joined in
/// document order.
pub open spec fn text_of(node: NodeView) -> Seq<char>
    decreases node, 1nat,
{
    match node {
        NodeView::Element(e) => text_in(e.children),
        NodeView::Text(text) => text,
        NodeView::Other => Seq::empty(),
    }
}

impl ElementView {
    /// The last text node below the element, in document order.
    pub open spec fn last_text(self) -> Option<Seq<char>> {
        last_text_in(self.children)
    }

    /// The inner text of the element: the text of all text nodes below it,
    /// joined in document order.
    pub open spec fn text(self) -> Seq<char> {
        text_in(self.children)
    }
}

/// Writes the text of all text nodes among `nodes` and their descendants to the end of `out`.
fn write_text_in(nodes: &Vec<Node>, out: &mut String)
    ensures
        final(out)@ == old(out)@ + text_in(view_nodes(nodes@)),
    decreases nodes,
{
    let ghost before = out@;
    let ghost views = view_nodes(nodes@);
    let mut i: usize = 0;
    while i < nodes.len()
        invariant
            i <= nodes.len(),
            views == view_nodes(nodes@),
            out@ == before + text_in(views.take(i as int)),
        decreases nodes.len() - i,
    {
        let ghost so_far = out@;
        let ghost upto = views.take(i + 1);
        assert(upto.drop_last() =~= views.take(i as int));
        match &nodes[i] {
            Node::Element(e) => {
                write_text_in(&e.children, out);
            },
            Node::Text(text) => {
                out.append(text.as_str());
            },
            Node::Other => {},
        }
        assert(out@ =~= so_far + text_of(upto.last()));
        i += 1;
    }
    assert(views.take(nodes.len() as int) =~= views);
}

/// The last text node among `nodes` and their descendants.
fn find_last_text(nodes: &Vec<Node>) -> (found: Option<&String>)
    ensures
        found is Some <==> last_text_in(view_nodes(nodes@)) is Some,
        found matches Some(text) ==> last_text_in(view_nodes(nodes@)) == Some(text@),
    decreases nodes,
{
    let ghost views = view_nodes(nodes@);
    let mut i: usize = nodes.len();
    assert(views.take(i as int) =~= views);
    while i > 0
        invariant
            i <= nodes.len(),
            views == view_nodes(nodes@),
            last_text_in(views) == last_text_in(views.take(i as int)),
        decreases i,
    {
        let ghost head = views.take(i as int);
        assert(head.drop_last() =~= views.take(i - 1));
        match &nodes[i - 1] {
            Node::Element(e) => {
                let below = find_last_text(&e.children);
                if below.is_some() {
                    return below;
                }
            },
            Node::Text(text) => {
                return Some(text);
            },
            Node::Other => {
                assert(last_text_of(head.last()) is None);
            },
        }
        i -= 1;
    }
    None
}

impl Element {
    /// The inner text of the element.
    pub fn text(&self) -> (text: String)
        ensures
            text@ == self@.text(),
    {
        let mut text = String::new();
        write_text_in(&self.children, &mut text);
        text
    }

    /// The last text node below the element, in document order.
    pub fn last_text(&self) -> (text: Option<&String>)
        ensures
            text is Some <==> self@.last_text() is Some,
            text matches Some(t) ==> self@.last_text() == Some(t@),
    {
        find_last_text(&self.children)
    }
}

} // verus!
