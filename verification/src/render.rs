//! Rendering of an element's subtree to text.
//!
//! The walk is depth first. An element that carries an excluded class is left
//! out with everything below it. A text node is written by the rule that the
//! rule table gives for the tag of the element around it.

use crate::dom::{view_nodes, view_strings, Element, ElementView, Node, NodeView};
use crate::text::{same_text, trim, trimmed};
use vstd::prelude::*;

verus! {

/// How a text node is written.
#[derive(Clone, Copy, Debug, PartialEq, Eq, Structural)]
pub enum TextRule {
    /// A subsection heading: the trimmed text on a `## ` line of its own.
    Heading,
    /// A caption or a widget: nothing is written.
    Caption,
    /// A definition term: the trimmed text on a line of its own.
    Term,
    /// Ordinary text: the trimmed text, with nothing added.
    Plain,
}

/// One line of the rule table: the rule for the text inside elements called `tag`.
#[derive(Clone, Debug, PartialEq, Eq)]
pub struct TagRule {
    pub tag: String,
    pub rule: TextRule,
}

/// The mathematical model of a [`TagRule`].
pub struct TagRuleView {
    pub tag: Seq<char>,
    pub rule: TextRule,
}

impl View for TagRule {
    type V = TagRuleView;

    open spec fn view(&self) -> TagRuleView {
        TagRuleView { tag: self.tag@, rule: self.rule }
    }
}

/// The tables that steer rendering: the classes that mark a subtree as
/// unwanted, and the rule table. Of two lines for one tag the first counts; a
/// tag without a line gets [`TextRule::Plain`].
#[derive(Clone, Debug, PartialEq, Eq)]
pub struct RenderRules {
    pub excluded: Vec<String>,
    pub tags: Vec<TagRule>,
}

/// The mathematical model of [`RenderRules`].
pub struct RenderRulesView {
    pub excluded: Seq<Seq<char>>,
    pub tags: Seq<TagRuleView>,
}

impl View for RenderRules {
    type V = RenderRulesView;

    open spec fn view(&self) -> RenderRulesView {
        RenderRulesView {
            excluded: view_strings(self.excluded@),
            tags: self.tags@.map_values(|line: TagRule| line@),
        }
    }
}

/// The rule of the first line for `tag` among `lines`; `Plain` if there is none.
pub open spec fn rule_in(lines: Seq<TagRuleView>, tag: Seq<char>) -> TextRule
    decreases lines.len(),
{
    if lines.len() == 0 {
        TextRule::Plain
    } else if lines[0].tag == tag {
        lines[0].rule
    } else {
        rule_in(lines.drop_first(), tag)
    }
}

impl RenderRulesView {
    /// Whether `class` marks a subtree as unwanted.
    pub open spec fn excludes_class(self, class: Seq<char>) -> bool {
        self.excluded.contains(class)
    }

    /// Whether one of `classes` marks a subtree as unwanted.
    pub open spec fn excludes(self, classes: Seq<Seq<char>>) -> bool {
        exists|i: int| 0 <= i < classes.len() && self.excludes_class(#[trigger] classes[i])
    }

    /// The rule for text inside elements called `tag`.
    pub open spec fn rule_for(self, tag: Seq<char>) -> TextRule {
        rule_in(self.tags, tag)
    }
}

/// What is written for a text node under `rule`.
pub open spec fn rendered_text(rule: TextRule, text: Seq<char>) -> Seq<char> {
    match rule {
        TextRule::Heading => "\n\n## "@ + trimmed(text) + "\n"@,
        TextRule::Caption => Seq::empty(),
        TextRule::Term => "\n"@ + trimmed(text) + "\n"@,
        TextRule::Plain => trimmed(text),
    }
}

/// What is written for `nodes`, the children of an element called `context`:
/// the text of each node, in document order.
pub open spec fn rendered_nodes(
    rules: RenderRulesView,
    context: Seq<char>,
    nodes: Seq<NodeView>,
) -> Seq<char>
    decreases nodes, 0nat,
{
    if nodes.len() == 0 {
        Seq::empty()
    } else {
        rendered_nodes(rules, context, nodes.drop_last()) + rendered_node(
            rules,
            context,
            nodes.last(),
        )
    }
}

/// What is written for `node`, a child of an element called `context`.
pub open spec fn rendered_node(rules: RenderRulesView, context: Seq<char>, node: NodeView) -> Seq<
    char,
>
    decreases node, 1nat,
{
    match node {
        NodeView::Element(e) => if rules.excludes(e.classes) {
            Seq::empty()
        } else {
            rendered_nodes(rules, e.name, e.children)
        },
        NodeView::Text(text) => rendered_text(rules.rule_for(context), text),
        NodeView::Other => Seq::empty(),
    }
}

/// The text of the subtree below `root`. The root's own classes are not looked at.
pub open spec fn rendered(rules: RenderRulesView, root: ElementView) -> Seq<char> {
    rendered_nodes(rules, root.name, root.children)
}

/// The text nodes among `nodes`, the children of an element called `context`,
/// and below them, that stand below no excluded element: each with the tag of
/// the element around it, in document order.
pub open spec fn visible_texts(
    rules: RenderRulesView,
    context: Seq<char>,
    nodes: Seq<NodeView>,
) -> Seq<(Seq<char>, Seq<char>)>
    decreases nodes, 0nat,
{
    if nodes.len() == 0 {
        Seq::empty()
    } else {
        visible_texts(rules, context, nodes.drop_last()) + visible_texts_of(
            rules,
            context,
            nodes.last(),
        )
    }
}

/// The text nodes of the subtree rooted at `node`, a child of an element called
/// `context`, that stand below no excluded element.
pub open spec fn visible_texts_of(
    rules: RenderRulesView,
    context: Seq<char>,
    node: NodeView,
) -> Seq<(Seq<char>, Seq<char>)>
    decreases node, 1nat,
{
    match node {
        NodeView::Element(e) => if rules.excludes(e.classes) {
            Seq::empty()
        } else {
            visible_texts(rules, e.name, e.children)
        },
        NodeView::Text(text) => seq![(context, text)],
        NodeView::Other => Seq::empty(),
    }
}

/// What is written for each of `texts`, by the rule for the tag around it.
pub open spec fn fragments(rules: RenderRulesView, texts: Seq<(Seq<char>, Seq<char>)>) -> Seq<
    Seq<char>,
> {
    texts.map_values(|t: (Seq<char>, Seq<char>)| rendered_text(rules.rule_for(t.0), t.1))
}

/// `nodes` without the elements that carry an excluded class, at every depth.
pub open spec fn pruned_nodes(rules: RenderRulesView, nodes: Seq<NodeView>) -> Seq<NodeView>
    decreases nodes, 0nat,
{
    if nodes.len() == 0 {
        Seq::empty()
    } else {
        let before = pruned_nodes(rules, nodes.drop_last());
        match nodes.last() {
            NodeView::Element(e) => if rules.excludes(e.classes) {
                before
            } else {
                before.push(NodeView::Element(pruned(rules, e)))
            },
            NodeView::Text(text) => before.push(NodeView::Text(text)),
            NodeView::Other => before.push(NodeView::Other),
        }
    }
}

/// `element` without the elements below it that carry an excluded class.
pub open spec fn pruned(rules: RenderRulesView, element: ElementView) -> ElementView
    decreases element, 1nat,
{
    ElementView {
        name: element.name,
        classes: element.classes,
        children: pruned_nodes(rules, element.children),
    }
}

/// Document order is kept: the text of a run of siblings is the text of its
/// first part followed by the text of the rest.
pub proof fn law_document_order(
    rules: RenderRulesView,
    context: Seq<char>,
    first: Seq<NodeView>,
    rest: Seq<NodeView>,
)
    ensures
        rendered_nodes(rules, context, first + rest) == rendered_nodes(rules, context, first)
            + rendered_nodes(rules, context, rest),
    decreases rest.len(),
{
    if rest.len() != 0 {
        assert((first + rest).drop_last() =~= first + rest.drop_last());
        law_document_order(rules, context, first, rest.drop_last());
    }
}

/// The text is made of the visible text nodes alone, each written by the rule
/// for the tag around it, one after the other in document order.
pub proof fn law_text_follows_document_order(
    rules: RenderRulesView,
    context: Seq<char>,
    nodes: Seq<NodeView>,
)
    ensures
        rendered_nodes(rules, context, nodes) == fragments(
            rules,
            visible_texts(rules, context, nodes),
        ).flatten(),
    decreases nodes,
{
    if nodes.len() != 0 {
        let before = visible_texts(rules, context, nodes.drop_last());
        let last = visible_texts_of(rules, context, nodes.last());
        law_text_follows_document_order(rules, context, nodes.drop_last());
        assert(rendered_node(rules, context, nodes.last()) == fragments(rules, last).flatten()) by {
            match nodes.last() {
                NodeView::Element(e) => {
                    if !rules.excludes(e.classes) {
                        law_text_follows_document_order(rules, e.name, e.children);
                    }
                },
                NodeView::Text(text) => {
                    let piece = rendered_text(rules.rule_for(context), text);
                    assert(fragments(rules, last) =~= seq![piece]);
                    seq![piece].lemma_flatten_one_element();
                },
                NodeView::Other => {},
            }
        }
        assert(fragments(rules, before + last) =~= fragments(rules, before) + fragments(
            rules,
            last,
        ));
        vstd::seq_lib::lemma_flatten_concat(fragments(rules, before), fragments(rules, last));
    }
}

/// The text of a run of siblings, split at the node with index `at`.
pub proof fn law_node_in_place(
    rules: RenderRulesView,
    context: Seq<char>,
    nodes: Seq<NodeView>,
    at: int,
)
    requires
        0 <= at < nodes.len(),
    ensures
        rendered_nodes(rules, context, nodes) == rendered_nodes(rules, context, nodes.take(at))
            + rendered_node(rules, context, nodes[at]) + rendered_nodes(
            rules,
            context,
            nodes.skip(at + 1),
        ),
{
    let upto = nodes.take(at + 1);
    assert(nodes =~= upto + nodes.skip(at + 1));
    law_document_order(rules, context, upto, nodes.skip(at + 1));
    assert(upto.drop_last() =~= nodes.take(at));
}

/// An element that carries an excluded class adds nothing to the text,
/// whatever stands below it.
pub proof fn law_excluded_element_is_silent(
    rules: RenderRulesView,
    context: Seq<char>,
    element: ElementView,
)
    requires
        rules.excludes(element.classes),
    ensures
        rendered_node(rules, context, NodeView::Element(element)) == Seq::<char>::empty(),
{
}

/// Taking a node that carries an excluded class out of a run of siblings
/// leaves the text as it was.
pub proof fn law_excluded_sibling_is_silent(
    rules: RenderRulesView,
    context: Seq<char>,
    nodes: Seq<NodeView>,
    at: int,
)
    requires
        0 <= at < nodes.len(),
        nodes[at] matches NodeView::Element(e) && rules.excludes(e.classes),
    ensures
        rendered_nodes(rules, context, nodes) == rendered_nodes(rules, context, nodes.remove(at)),
{
    law_node_in_place(rules, context, nodes, at);
    law_document_order(rules, context, nodes.take(at), nodes.skip(at + 1));
}

/// Taking every element that carries an excluded class out of a tree, at
/// whatever depth, leaves the text as it was.
pub proof fn law_excluded_subtrees_are_silent(
    rules: RenderRulesView,
    context: Seq<char>,
    nodes: Seq<NodeView>,
)
    ensures
        rendered_nodes(rules, context, pruned_nodes(rules, nodes)) == rendered_nodes(
            rules,
            context,
            nodes,
        ),
    decreases nodes,
{
    if nodes.len() != 0 {
        let before = pruned_nodes(rules, nodes.drop_last());
        let last = nodes.last();
        law_excluded_subtrees_are_silent(rules, context, nodes.drop_last());
        match last {
            NodeView::Element(e) => {
                if rules.excludes(e.classes) {
                    assert(rendered_node(rules, context, last) == Seq::<char>::empty());
                } else {
                    let kept = NodeView::Element(pruned(rules, e));
                    law_excluded_subtrees_are_silent(rules, e.name, e.children);
                    assert(rendered_node(rules, context, last) == rendered_nodes(
                        rules,
                        e.name,
                        e.children,
                    ));
                    lemma_rendered_push(rules, context, before, kept);
                }
            },
            NodeView::Text(text) => {
                lemma_rendered_push(rules, context, before, last);
            },
            NodeView::Other => {
                lemma_rendered_push(rules, context, before, last);
            },
        }
    }
}

/// The text of a run of siblings with one more node at its end.
proof fn lemma_rendered_push(
    rules: RenderRulesView,
    context: Seq<char>,
    nodes: Seq<NodeView>,
    node: NodeView,
)
    ensures
        rendered_nodes(rules, context, nodes.push(node)) == rendered_nodes(rules, context, nodes)
            + rendered_node(rules, context, node),
{
    assert(nodes.push(node).drop_last() =~= nodes);
}

/// Text inside a heading element stands in the output wrapped as a heading line.
pub proof fn law_heading_is_wrapped(
    rules: RenderRulesView,
    context: Seq<char>,
    nodes: Seq<NodeView>,
    at: int,
)
    requires
        0 <= at < nodes.len(),
        nodes[at] is Text,
        rules.rule_for(context) == TextRule::Heading,
    ensures
        rendered_nodes(rules, context, nodes) == rendered_nodes(rules, context, nodes.take(at))
            + ("\n\n## "@ + trimmed(nodes[at]->Text_0) + "\n"@) + rendered_nodes(
            rules,
            context,
            nodes.skip(at + 1),
        ),
{
    law_node_in_place(rules, context, nodes, at);
}

/// Text inside a caption element does not stand in the output: the text is the
/// same as without the node.
pub proof fn law_caption_is_hidden(
    rules: RenderRulesView,
    context: Seq<char>,
    nodes: Seq<NodeView>,
    at: int,
)
    requires
        0 <= at < nodes.len(),
        nodes[at] is Text,
        rules.rule_for(context) == TextRule::Caption,
    ensures
        rendered_node(rules, context, nodes[at]) == Seq::<char>::empty(),
        rendered_nodes(rules, context, nodes) == rendered_nodes(rules, context, nodes.remove(at)),
{
    law_node_in_place(rules, context, nodes, at);
    law_document_order(rules, context, nodes.take(at), nodes.skip(at + 1));
}

impl RenderRules {
    /// Tells whether `class` marks a subtree as unwanted.
    pub fn excludes_class(&self, class: &str) -> (found: bool)
        ensures
            found == self@.excludes_class(class@),
    {
        let ghost excluded = view_strings(self.excluded@);
        let mut i: usize = 0;
        while i < self.excluded.len()
            invariant
                i <= self.excluded.len(),
                excluded == view_strings(self.excluded@),
                forall|j: int| 0 <= j < i ==> excluded[j] != class@,
            decreases self.excluded.len() - i,
        {
            if same_text(self.excluded[i].as_str(), class) {
                assert(excluded[i as int] == class@);
                return true;
            }
            i += 1;
        }
        false
    }

    /// Tells whether one of `classes` marks a subtree as unwanted.
    pub fn excludes(&self, classes: &Vec<String>) -> (found: bool)
        ensures
            found == self@.excludes(view_strings(classes@)),
    {
        let ghost names = view_strings(classes@);
        let mut i: usize = 0;
        while i < classes.len()
            invariant
                i <= classes.len(),
                names == view_strings(classes@),
                forall|j: int| 0 <= j < i ==> !self@.excludes_class(#[trigger] names[j]),
            decreases classes.len() - i,
        {
            if self.excludes_class(classes[i].as_str()) {
                assert(self@.excludes_class(names[i as int]));
                return true;
            }
            i += 1;
        }
        false
    }

    /// Looks up the rule for text inside elements called `tag`.
    pub fn rule_for(&self, tag: &str) -> (rule: TextRule)
        ensures
            rule == self@.rule_for(tag@),
    {
        let ghost lines = self@.tags;
        let mut i: usize = 0;
        assert(lines.skip(0) =~= lines);
        while i < self.tags.len()
            invariant
                i <= self.tags.len(),
                lines == self@.tags,
                rule_in(lines, tag@) == rule_in(lines.skip(i as int), tag@),
            decreases self.tags.len() - i,
        {
            assert(lines.skip(i as int).drop_first() =~= lines.skip(i + 1));
            if same_text(self.tags[i].tag.as_str(), tag) {
                return self.tags[i].rule;
            }
            i += 1;
        }
        TextRule::Plain
    }
}

/// Writes a text node under `rule` to the end of `out`.
pub fn write_text(rule: TextRule, text: &str, out: &mut String)
    ensures
        final(out)@ == old(out)@ + rendered_text(rule, text@),
{
    match rule {
        TextRule::Heading => {
            out.append("\n\n## ");
            out.append(trim(text));
            out.append("\n");
        },
        TextRule::Caption => {},
        TextRule::Term => {
            out.append("\n");
            out.append(trim(text));
            out.append("\n");
        },
        TextRule::Plain => {
            out.append(trim(text));
        },
    }
}

/// Writes `nodes`, the children of an element called `context`, to the end of `out`.
pub fn write_nodes(rules: &RenderRules, context: &str, nodes: &Vec<Node>, out: &mut String)
    ensures
        final(out)@ == old(out)@ + rendered_nodes(rules@, context@, view_nodes(nodes@)),
    decreases nodes,
{
    let ghost before = out@;
    let ghost views = view_nodes(nodes@);
    let mut i: usize = 0;
    while i < nodes.len()
        invariant
            i <= nodes.len(),
            views == view_nodes(nodes@),
            out@ == before + rendered_nodes(rules@, context@, views.take(i as int)),
        decreases nodes.len() - i,
    {
        let ghost so_far = out@;
        let ghost upto = views.take(i + 1);
        assert(upto.drop_last() =~= views.take(i as int));
        match &nodes[i] {
            Node::Element(e) => {
                if !rules.excludes(&e.classes) {
                    write_nodes(rules, e.name.as_str(), &e.children, out);
                }
            },
            Node::Text(text) => {
                let rule = rules.rule_for(context);
                write_text(rule, text.as_str(), out);
            },
            Node::Other => {},
        }
        assert(out@ =~= so_far + rendered_node(rules@, context@, upto.last()));
        i += 1;
    }
    assert(views.take(nodes.len() as int) =~= views);
}

/// Renders the subtree below `root` to text.
pub fn render(root: &Element, rules: &RenderRules) -> (text: String)
    ensures
        text@ == rendered(rules@, root@),
{
    let mut text = String::new();
    write_nodes(rules, root.name.as_str(), &root.children, &mut text);
    text
}

} // verus!
