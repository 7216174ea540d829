//! Queries on a page. `scraper` parses the page and the selector and finds the
//! element; the subtree of the element comes back as a walk, from which the
//! tree is put together.

use crate::dom::{Element, ElementView, Node, NodeView};
use crate::walk::{
    build, empty_walk, lemma_walk_through_node, nodes_of, view_tokens, walk_through_node, Token,
    TokenView,
};
use vstd::prelude::*;

verus! {

/// An element without a name, classes or children.
pub open spec fn empty_element() -> ElementView {
    ElementView { name: Seq::empty(), classes: Seq::empty(), children: Seq::empty() }
}

/// The element that the walk `tokens` spells first; the empty element where
/// the walk does not begin with one.
pub open spec fn root_of(tokens: Seq<TokenView>) -> ElementView {
    let nodes = nodes_of(tokens);
    if nodes.len() > 0 && nodes[0] is Element {
        nodes[0]->Element_0
    } else {
        empty_element()
    }
}

/// Putting together the walk through an element gives this element back.
pub proof fn law_walk_spells_its_element(element: ElementView)
    ensures
        root_of(walk_through_node(NodeView::Element(element))) == element,
{
    let node = NodeView::Element(element);
    lemma_walk_through_node(empty_walk(), node);
}

/// The model of an element that may be absent.
pub open spec fn view_found(found: Option<Element>) -> Option<ElementView> {
    match found {
        Some(element) => Some(element@),
        None => None,
    }
}

/// The walk through the subtree of the first element that the CSS selector
/// `selector` matches in the page `content`. `None` where nothing matches or
/// the selector does not parse.
pub uninterp spec fn found_walk(content: Seq<char>, selector: Seq<char>) -> Option<
    Seq<TokenView>,
>;

/// The value of the attribute `name` of the first element that the CSS
/// selector `selector` matches in the page `content`. `None` where nothing
/// matches, the selector does not parse or the element has no such attribute.
pub uninterp spec fn found_attr(
    content: Seq<char>,
    selector: Seq<char>,
    name: Seq<char>,
) -> Option<Seq<char>>;

/// The first element that the CSS selector `selector` matches in the page
/// `content`, with its subtree.
pub open spec fn selected(content: Seq<char>, selector: Seq<char>) -> Option<ElementView> {
    match found_walk(content, selector) {
        Some(walk) => Some(root_of(walk)),
        None => None,
    }
}

/// Parses `content` with `scraper::Html::parse_document` and `selector` with
/// `scraper::Selector::parse`, and takes the first item of
/// `scraper::Html::select`. Of that element it hands out the edges of
/// `ego_tree::NodeRef::traverse`, each as a token: the opening of an element
/// with `scraper::node::Element::name` and `classes`, the opening of a text
/// node with its text, the opening of any other node, a closing. The contract
/// only gives that result its name: it is a function of the two strings alone.
#[verifier::external_body]
fn find_walk(content: &str, selector: &str) -> (found: Option<Vec<Token>>)
    ensures
        found is Some <==> found_walk(content@, selector@) is Some,
        found matches Some(walk) ==> found_walk(content@, selector@) == Some(view_tokens(walk@)),
{
    let document = scraper::Html::parse_document(content);
    let selector = scraper::Selector::parse(selector).ok()?;
    let element = document.select(&selector).next()?;
    let walk = element.traverse().map(|edge| match edge {
        ego_tree::iter::Edge::Open(node) => match node.value() {
            scraper::Node::Element(e) => Token::Open {
                name: e.name().to_string(),
                classes: e.classes().map(|c| c.to_string()).collect(),
            },
            scraper::Node::Text(text) => Token::Text(text.to_string()),
            _ => Token::Other,
        },
        ego_tree::iter::Edge::Close(_) => Token::Close,
    });
    Some(walk.collect())
}

/// Parses `content` with `scraper::Html::parse_document` and `selector` with
/// `scraper::Selector::parse`, takes the first item of
/// `scraper::Html::select` and reads `scraper::node::Element::attr` of it.
/// The contract only gives that result its name: it is a function of the
/// three strings alone.
#[verifier::external_body]
pub(crate) fn first_attr(content: &str, selector: &str, name: &str) -> (value: Option<String>)
    ensures
        value is Some <==> found_attr(content@, selector@, name@) is Some,
        value matches Some(v) ==> found_attr(content@, selector@, name@) == Some(v@),
{
    let document = scraper::Html::parse_document(content);
    let selector = scraper::Selector::parse(selector).ok()?;
    let element = document.select(&selector).next()?;
    element.value().attr(name).map(|value| value.to_string())
}

/// The first of `nodes` where it is an element; else the empty element.
fn first_element(nodes: Vec<Node>) -> (root: Element)
    ensures
        root@ == (if nodes@.len() > 0 && nodes@[0] is Element {
            nodes@[0]->Element_0@
        } else {
            empty_element()
        }),
{
    let mut nodes = nodes;
    if nodes.len() > 0 {
        match nodes.swap_remove(0) {
            Node::Element(root) => {
                return root;
            },
            _ => {},
        }
    }
    let root = Element { name: String::new(), classes: Vec::new(), children: Vec::new() };
    assert(root@.classes =~= Seq::<Seq<char>>::empty());
    assert(root@.children =~= Seq::<NodeView>::empty());
    root
}

/// Finds the first element that `selector` matches in the page `content`.
pub fn first_match(content: &str, selector: &str) -> (found: Option<Element>)
    ensures
        view_found(found) == selected(content@, selector@),
{
    match find_walk(content, selector) {
        Some(walk) => Some(first_element(build(walk))),
        None => None,
    }
}

} // verus!
