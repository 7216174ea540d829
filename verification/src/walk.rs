//! The walk through a subtree in document order, and the trees that a walk spells.
//!
//! A walk is a sequence of tokens: a node begins, its children are walked
//! through, the node ends. Putting a walk together gives the trees back.

use crate::dom::{view_nodes, view_strings, Element, ElementView, Node, NodeView};
use vstd::prelude::*;

verus! {

/// One step of a walk through a subtree in document order.
#[derive(Debug, PartialEq, Eq)]
pub enum Token {
    /// An element begins.
    Open { name: String, classes: Vec<String> },
    /// A text node begins.
    Text(String),
    /// A node of another kind begins.
    Other,
    /// The node that began last and has not ended yet ends.
    Close,
}

/// The mathematical model of a [`Token`].
pub enum TokenView {
    Open { name: Seq<char>, classes: Seq<Seq<char>> },
    Text(Seq<char>),
    Other,
    Close,
}

impl View for Token {
    type V = TokenView;

    open spec fn view(&self) -> TokenView {
        match self {
            Token::Open { name, classes } => TokenView::Open {
                name: name@,
                classes: view_strings(classes@),
            },
            Token::Text(text) => TokenView::Text(text@),
            Token::Other => TokenView::Other,
            Token::Close => TokenView::Close,
        }
    }
}

/// The models of a sequence of tokens, in the same order.
pub open spec fn view_tokens(tokens: Seq<Token>) -> Seq<TokenView> {
    tokens.map_values(|t: Token| t@)
}

/// A node that has begun and not ended yet, with the children that it has so far.
#[verifier::ext_equal]
pub struct FrameView {
    pub opened: TokenView,
    pub children: Seq<NodeView>,
}

/// How far a walk has come: the nodes that are complete, and inside one
/// another the nodes that have begun and not ended yet, the innermost last.
#[verifier::ext_equal]
pub struct WalkView {
    pub done: Seq<NodeView>,
    pub open: Seq<FrameView>,
}

/// The node that `frame` is when it ends.
pub open spec fn node_of(frame: FrameView) -> NodeView {
    match frame.opened {
        TokenView::Open { name, classes } => NodeView::Element(
            ElementView { name, classes, children: frame.children },
        ),
        TokenView::Text(text) => NodeView::Text(text),
        _ => NodeView::Other,
    }
}

/// The walk after the innermost open node has ended: the node is now the last
/// child of the node around it, or complete where there is none around it.
/// With no node open the walk stays as it is.
pub open spec fn close_top(walk: WalkView) -> WalkView {
    if walk.open.len() == 0 {
        walk
    } else {
        let node = node_of(walk.open.last());
        let around = walk.open.drop_last();
        if around.len() == 0 {
            WalkView { done: walk.done.push(node), open: around }
        } else {
            let parent = around.last();
            WalkView {
                done: walk.done,
                open: around.drop_last().push(
                    FrameView { opened: parent.opened, children: parent.children.push(node) },
                ),
            }
        }
    }
}

/// The walk after one more token.
pub open spec fn advance(walk: WalkView, token: TokenView) -> WalkView {
    match token {
        TokenView::Close => close_top(walk),
        _ => WalkView {
            done: walk.done,
            open: walk.open.push(FrameView { opened: token, children: Seq::empty() }),
        },
    }
}

/// The walk that has not begun.
pub open spec fn empty_walk() -> WalkView {
    WalkView { done: Seq::empty(), open: Seq::empty() }
}

/// The walk `start` after `tokens`.
pub open spec fn walk_from(start: WalkView, tokens: Seq<TokenView>) -> WalkView
    decreases tokens.len(),
{
    if tokens.len() == 0 {
        start
    } else {
        advance(walk_from(start, tokens.drop_last()), tokens.last())
    }
}

/// The walk after `tokens`.
pub open spec fn walk_of(tokens: Seq<TokenView>) -> WalkView {
    walk_from(empty_walk(), tokens)
}

/// The complete nodes of `walk` after every node that is still open has ended.
pub open spec fn close_all(walk: WalkView) -> Seq<NodeView>
    decreases walk.open.len(),
{
    if walk.open.len() == 0 {
        walk.done
    } else {
        close_all(close_top(walk))
    }
}

/// The trees that the walk `tokens` spells.
pub open spec fn nodes_of(tokens: Seq<TokenView>) -> Seq<NodeView> {
    close_all(walk_of(tokens))
}

/// The walk through `nodes` in document order.
pub open spec fn walk_through(nodes: Seq<NodeView>) -> Seq<TokenView>
    decreases nodes, 0nat,
{
    if nodes.len() == 0 {
        Seq::empty()
    } else {
        walk_through(nodes.drop_last()) + walk_through_node(nodes.last())
    }
}

/// The walk through the subtree rooted at `node`: the node begins, its
/// children are walked through, the node ends.
pub open spec fn walk_through_node(node: NodeView) -> Seq<TokenView>
    decreases node, 1nat,
{
    match node {
        NodeView::Element(e) => seq![TokenView::Open { name: e.name, classes: e.classes }]
            + walk_through(e.children) + seq![TokenView::Close],
        NodeView::Text(text) => seq![TokenView::Text(text), TokenView::Close],
        NodeView::Other => seq![TokenView::Other, TokenView::Close],
    }
}

/// `walk` with `nodes` after the children of its innermost open node, or
/// after its complete nodes where no node is open.
pub open spec fn with_nodes(walk: WalkView, nodes: Seq<NodeView>) -> WalkView {
    if walk.open.len() == 0 {
        WalkView { done: walk.done + nodes, open: walk.open }
    } else {
        let top = walk.open.last();
        WalkView {
            done: walk.done,
            open: walk.open.drop_last().push(
                FrameView { opened: top.opened, children: top.children + nodes },
            ),
        }
    }
}

/// A walk can be taken in two parts.
pub proof fn lemma_walk_in_parts(start: WalkView, first: Seq<TokenView>, rest: Seq<TokenView>)
    ensures
        walk_from(start, first + rest) == walk_from(walk_from(start, first), rest),
    decreases rest.len(),
{
    if rest.len() != 0 {
        assert((first + rest).drop_last() =~= first + rest.drop_last());
        lemma_walk_in_parts(start, first, rest.drop_last());
    }
}

/// A walk of one token is one step.
pub proof fn lemma_walk_one(start: WalkView, token: TokenView)
    ensures
        walk_from(start, seq![token]) == advance(start, token),
{
    assert(walk_from(start, seq![token].drop_last()) == start);
}

/// Nodes can be put after a walk in two parts.
pub proof fn lemma_with_nodes_in_parts(walk: WalkView, first: Seq<NodeView>, rest: Seq<NodeView>)
    ensures
        with_nodes(with_nodes(walk, first), rest) == with_nodes(walk, first + rest),
{
    if walk.open.len() != 0 {
        let top = walk.open.last();
        assert(top.children + first + rest =~= top.children + (first + rest));
    }
}

/// The walk through some trees puts these trees, as they are, after what was there.
pub proof fn lemma_walk_through(start: WalkView, nodes: Seq<NodeView>)
    ensures
        walk_from(start, walk_through(nodes)) == with_nodes(start, nodes),
    decreases nodes, 0nat,
{
    if nodes.len() != 0 {
        let before = nodes.drop_last();
        let middle = walk_from(start, walk_through(before));
        lemma_walk_in_parts(start, walk_through(before), walk_through_node(nodes.last()));
        lemma_walk_through(start, before);
        lemma_walk_through_node(middle, nodes.last());
        assert(before + seq![nodes.last()] =~= nodes);
        lemma_with_nodes_in_parts(start, before, seq![nodes.last()]);
    }
}

/// The walk through a tree puts this tree, as it is, after what was there.
pub proof fn lemma_walk_through_node(start: WalkView, node: NodeView)
    ensures
        walk_from(start, walk_through_node(node)) == with_nodes(start, seq![node]),
    decreases node, 1nat,
{
    let (opened, children) = match node {
        NodeView::Element(e) => (TokenView::Open { name: e.name, classes: e.classes }, e.children),
        NodeView::Text(text) => (TokenView::Text(text), Seq::<NodeView>::empty()),
        NodeView::Other => (TokenView::Other, Seq::<NodeView>::empty()),
    };
    let inner = walk_through(children);
    assert(walk_through_node(node) =~= seq![opened] + inner + seq![TokenView::Close]);
    let begun = advance(start, opened);
    lemma_walk_one(start, opened);
    let walked = walk_from(begun, inner);
    let frame = FrameView { opened, children };
    assert(walked == WalkView { done: start.done, open: start.open.push(frame) }) by {
        if let NodeView::Element(e) = node {
            lemma_walk_through(begun, e.children);
        }
    }
    lemma_walk_one(walked, TokenView::Close);
    lemma_walk_in_parts(start, seq![opened], inner);
    lemma_walk_in_parts(start, seq![opened] + inner, seq![TokenView::Close]);
    assert(close_top(walked) == with_nodes(start, seq![node])) by {
        if start.open.len() != 0 {
            let parent = start.open.last();
            assert(parent.children.push(node) =~= parent.children + seq![node]);
        }
    }
}

/// Putting together the walk through some trees gives these trees back.
pub proof fn law_walk_spells_its_trees(nodes: Seq<NodeView>)
    ensures
        nodes_of(walk_through(nodes)) == nodes,
{
    lemma_walk_through(empty_walk(), nodes);
}

/// A node that has begun and not ended yet, with the children that it has so far.
struct Frame {
    opened: Token,
    children: Vec<Node>,
}

impl View for Frame {
    type V = FrameView;

    closed spec fn view(&self) -> FrameView {
        FrameView { opened: self.opened@, children: view_nodes(self.children@) }
    }
}

/// The model of a walk in progress.
spec fn view_walk(done: Seq<Node>, open: Seq<Frame>) -> WalkView {
    WalkView { done: view_nodes(done), open: open.map_values(|f: Frame| f@) }
}

/// The models of a sequence of nodes with one more node at its end.
proof fn lemma_view_nodes_push(nodes: Seq<Node>, node: Node)
    ensures
        view_nodes(nodes.push(node)) == view_nodes(nodes).push(node@),
{
}

/// The node that `frame` is when it ends.
fn end(frame: Frame) -> (node: Node)
    ensures
        node@ == node_of(frame@),
{
    match frame.opened {
        Token::Open { name, classes } => Node::Element(
            Element { name, classes, children: frame.children },
        ),
        Token::Text(text) => Node::Text(text),
        _ => Node::Other,
    }
}

/// Ends the innermost open node.
fn end_top(done: &mut Vec<Node>, open: &mut Vec<Frame>)
    ensures
        view_walk(final(done)@, final(open)@) == close_top(view_walk(old(done)@, old(open)@)),
        old(open)@.len() > 0 ==> final(open)@.len() == old(open)@.len() - 1,
{
    match open.pop() {
        None => {},
        Some(top) => {
            let node = end(top);
            match open.pop() {
                None => {
                    proof {
                        lemma_view_nodes_push(done@, node);
                    }
                    done.push(node);
                },
                Some(parent) => {
                    let mut parent = parent;
                    proof {
                        lemma_view_nodes_push(parent.children@, node);
                    }
                    parent.children.push(node);
                    open.push(parent);
                },
            }
        },
    }
}

/// Puts the trees together that the walk `tokens` spells.
pub fn build(tokens: Vec<Token>) -> (nodes: Vec<Node>)
    ensures
        view_nodes(nodes@) == nodes_of(view_tokens(tokens@)),
{
    let ghost walk = view_tokens(tokens@);
    let mut done: Vec<Node> = Vec::new();
    let mut open: Vec<Frame> = Vec::new();
    for token in it: tokens.into_iter()
        invariant
            walk == view_tokens(it.seq()),
            view_walk(done@, open@) == walk_of(walk.take(it.index() as int)),
    {
        let ghost at = it.index() as int;
        assert(walk.take(at + 1).drop_last() =~= walk.take(at));
        match token {
            Token::Close => {
                end_top(&mut done, &mut open);
            },
            _ => {
                let frame = Frame { opened: token, children: Vec::new() };
                assert(frame@.children =~= Seq::<NodeView>::empty());
                open.push(frame);
            },
        }
    }
    assert(walk.take(walk.len() as int) =~= walk);
    while open.len() > 0
        invariant
            close_all(view_walk(done@, open@)) == nodes_of(walk),
        decreases open.len(),
    {
        end_top(&mut done, &mut open);
    }
    done
}

} // verus!
