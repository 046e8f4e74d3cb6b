//! The HTML model and its renderer: attributes and nodes, each with a
//! spec-level rendering function and an executable renderer proved
//! against it.

use vstd::prelude::*;

verus! {

/// An HTML element property: either valued, rendered `name="value"`,
/// or a boolean toggle, rendered as the bare name.
#[derive(Debug, Clone, PartialEq, Eq)]
pub struct Attribute {
    pub name: String,
    pub value: Option<String>,
}

/// An HTML text leaf or element (tag plus attributes and children).
#[derive(Debug, PartialEq, Eq)]
pub enum Node {
    Text(String),
    Element { tag: String, attributes: Vec<Attribute>, children: Vec<Node> },
}

/// The rendered text of an attribute: `name="value"` when a value is
/// present, the bare name when absent.
pub open spec fn spec_render_attribute(a: Attribute) -> Seq<char> {
    match a.value {
        Option::Some(v) => a.name@ + "=\""@ + v@ + "\""@,
        Option::None => a.name@,
    }
}

/// The attributes of `attrs[i..]`, rendered and joined by single
/// spaces.
pub open spec fn spec_render_attributes_from(attrs: Seq<Attribute>, i: int) -> Seq<char>
    decreases attrs.len() - i,
{
    if i < 0 || i >= attrs.len() {
        Seq::empty()
    } else if i == attrs.len() - 1 {
        spec_render_attribute(attrs[i])
    } else {
        spec_render_attribute(attrs[i]) + " "@ + spec_render_attributes_from(attrs, i + 1)
    }
}

/// The nodes of `children[i..]`, rendered and concatenated with no
/// separators.
pub open spec fn spec_render_nodes_from(children: Seq<Node>, i: int) -> Seq<char>
    decreases children, children.len() - i,
{
    if i < 0 || i >= children.len() {
        Seq::empty()
    } else {
        spec_render_node(children[i]) + spec_render_nodes_from(children, i + 1)
    }
}

/// The rendered text of a node. Text renders verbatim, with no
/// escaping. An element renders `<tag>children</tag>`, the attribute
/// list standing space-joined after the tag only when it is nonempty;
/// every element emits a closing tag, even when childless.
pub open spec fn spec_render_node(n: Node) -> Seq<char>
    decreases n, 0int,
{
    match n {
        Node::Text(s) => s@,
        Node::Element { tag, attributes, children } => (if attributes.len() == 0 {
            "<"@ + tag@ + ">"@
        } else {
            "<"@ + tag@ + " "@ + spec_render_attributes_from(attributes@, 0) + ">"@
        }) + spec_render_nodes_from(children@, 0) + "</"@ + tag@ + ">"@,
    }
}

impl Attribute {
    /// Build a valued attribute.
    pub fn new(name: String, value: String) -> (r: Self)
        ensures
            r.name == name,
            r.value == Option::Some(value),
    {
        Self { name, value: Option::Some(value) }
    }

    /// Build a toggle attribute, one with no value.
    pub fn toggle(name: String) -> (r: Self)
        ensures
            r.name == name,
            r.value is None,
    {
        Self { name, value: Option::None }
    }

    /// Render this attribute to its exact textual form.
    pub fn render(&self) -> (r: String)
        ensures
            r@ == spec_render_attribute(*self),
    {
        match &self.value {
            Option::Some(value) => {
                let mut out = self.name.clone();
                out.append("=\"");
                out.append(value.as_str());
                out.append("\"");
                out
            },
            Option::None => self.name.clone(),
        }
    }
}

/// The attributes of `attrs[i..]`, rendered and space-joined.
fn render_attributes_from(attrs: &Vec<Attribute>, i: usize) -> (r: String)
    ensures
        r@ == spec_render_attributes_from(attrs@, i as int),
    decreases attrs@.len() - i,
{
    if i >= attrs.len() {
        String::new()
    } else {
        let mut out = attrs[i].render();
        if i + 1 < attrs.len() {
            out.append(" ");
            out.append(render_attributes_from(attrs, i + 1).as_str());
        }
        out
    }
}

/// The nodes of `children[i..]`, rendered back to back.
fn render_nodes_from(children: &Vec<Node>, i: usize) -> (r: String)
    ensures
        r@ == spec_render_nodes_from(children@, i as int),
    decreases children@, children@.len() - i,
{
    if i >= children.len() {
        String::new()
    } else {
        let mut out = children[i].render();
        out.append(render_nodes_from(children, i + 1).as_str());
        out
    }
}

impl Node {
    /// Build an element node from its tag, attributes and children.
    pub fn element(tag: String, attributes: Vec<Attribute>, children: Vec<Node>) -> (r: Self)
        ensures
            r == (Node::Element { tag, attributes, children }),
    {
        Self::Element { tag, attributes, children }
    }

    /// Build a text node.
    pub fn text(text: String) -> (r: Self)
        ensures
            r == Node::Text(text),
    {
        Self::Text(text)
    }

    /// Render this node to its exact textual form.
    pub fn render(&self) -> (r: String)
        ensures
            r@ == spec_render_node(*self),
        decreases *self, 0int,
    {
        match self {
            Node::Text(s) => s.clone(),
            Node::Element { tag, attributes, children } => {
                let mut out = String::from_str("<");
                out.append(tag.as_str());
                if attributes.len() > 0 {
                    out.append(" ");
                    out.append(render_attributes_from(attributes, 0).as_str());
                }
                out.append(">");
                out.append(render_nodes_from(children, 0).as_str());
                out.append("</");
                out.append(tag.as_str());
                out.append(">");
                out
            },
        }
    }
}

/// Law: rendering a node is referentially transparent: the result
/// text is a function of the value alone, so rendering the same value
/// twice yields identical output.
pub proof fn lemma_render_node_deterministic(a: Node, b: Node)
    requires
        a == b,
    ensures
        spec_render_node(a) == spec_render_node(b),
{
}

} // verus!
