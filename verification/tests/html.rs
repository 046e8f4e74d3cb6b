use markup::html::{Attribute, Node};

#[test]
fn single_element() {
    let element = Node::element("body".to_string(), vec![], vec![]);

    assert_eq!(element.render(), "<body></body>");
}

#[test]
fn single_element_with_text() {
    let element = Node::element(
        "body".to_string(),
        vec![],
        vec![Node::text("Some text".to_string())],
    );

    assert_eq!(element.render(), "<body>Some text</body>");
}

#[test]
fn html_attribute() {
    let attr = Attribute::new("class".to_string(), "my-class".to_string());
    assert_eq!(attr.render(), "class=\"my-class\"")
}

#[test]
fn attribute_no_value() {
    let attr = Attribute::toggle("class".to_string());
    assert_eq!(attr.render(), "class")
}

#[test]
fn single_element_with_attributes() {
    let element = Node::element(
        "body".to_string(),
        vec![
            Attribute::new("class".to_string(), "my-class".to_string()),
            Attribute::new("width".to_string(), "100".to_string()),
        ],
        vec![],
    );

    assert_eq!(
        element.render(),
        "<body class=\"my-class\" width=\"100\"></body>"
    );
}

#[test]
fn child_elements() {
    let element = Node::element(
        "body".to_string(),
        vec![],
        vec![Node::element(
            "h1".to_string(),
            vec![],
            vec![Node::text("Heading".to_string())],
        )],
    );

    assert_eq!(element.render(), "<body><h1>Heading</h1></body>");
}

#[test]
fn child_elements_then_text() {
    let element = Node::element(
        "body".to_string(),
        vec![],
        vec![
            Node::element(
                "h1".to_string(),
                vec![],
                vec![Node::text("Heading".to_string())],
            ),
            Node::text("Some text".to_string()),
        ],
    );

    assert_eq!(element.render(), "<body><h1>Heading</h1>Some text</body>");
}

#[test]
fn toggle_attribute_inside_element() {
    let element = Node::element(
        "button".to_string(),
        vec![
            Attribute::new("class".to_string(), "wide".to_string()),
            Attribute::toggle("disabled".to_string()),
        ],
        vec![],
    );

    assert_eq!(element.render(), "<button class=\"wide\" disabled></button>");
}

#[test]
fn text_renders_verbatim() {
    let node = Node::text("a < b & \"c\"".to_string());

    assert_eq!(node.render(), "a < b & \"c\"");
}

#[test]
fn rendering_node_twice_is_identical() {
    let element = Node::element(
        "body".to_string(),
        vec![Attribute::new("class".to_string(), "x".to_string())],
        vec![Node::text("hi".to_string())],
    );

    let first = element.render();
    let second = element.render();

    assert_eq!(first, second);
}
