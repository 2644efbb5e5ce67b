//! The element-tree accessors and field extractors: trimmed text
//! content, child and attribute lookup, optional vs. required
//! extraction, and repeated extraction with the absent-vs-empty
//! convention.

use fom_tools::error::FomError;
use fom_tools::extract::{get_required_text, get_texts_opt};
use fom_tools::xml::{
    XmlElement, XmlNode, get_child, get_element_text, get_text_of_attribute,
    get_text_of_child_element, get_text_of_child_elements, trim_str,
};

fn elem(name: &str) -> XmlElement {
    XmlElement { name: name.to_string(), attributes: Vec::new(), children: Vec::new() }
}

fn text_elem(name: &str, text: &str) -> XmlElement {
    let mut e = elem(name);
    e.children.push(XmlNode::Text(text.to_string()));
    e
}

#[test]
fn test_get_element_text() {
    let mut el = elem("root");
    let expected_text = String::from("text");
    el.children.push(XmlNode::Text(expected_text.clone()));
    let extracted_text = get_element_text(&el);
    assert_eq!(extracted_text, expected_text);
}

#[test]
fn test_get_text_of_child_element() {
    let mut root = elem("root");
    let mut child = elem("child");
    let expected_text = String::from("text");
    child.children.push(XmlNode::Text(expected_text.clone()));
    root.children.push(XmlNode::Element(child));

    let extracted_text = get_text_of_child_element(&root, "child");
    assert_eq!(Some(expected_text), extracted_text);
    assert_eq!(None, get_text_of_child_element(&root, "non-child"));
}

#[test]
fn test_element_text_is_trimmed_and_joined() {
    let mut el = elem("root");
    el.children.push(XmlNode::Text("  hello ".to_string()));
    el.children.push(XmlNode::Element(elem("noise")));
    el.children.push(XmlNode::Text(" world\n".to_string()));
    assert_eq!(get_element_text(&el), "hello  world");
}

#[test]
fn test_element_text_empty_when_no_text_present() {
    let mut el = elem("root");
    el.children.push(XmlNode::Element(elem("child")));
    assert_eq!(get_element_text(&el), "");
}

#[test]
fn test_trim_str() {
    assert_eq!(trim_str(" \t\r\n a b \n"), "a b");
    assert_eq!(trim_str(""), "");
    assert_eq!(trim_str("   "), "");
    assert_eq!(trim_str("x"), "x");
}

#[test]
fn test_get_child_finds_first_match() {
    let mut root = elem("root");
    root.children.push(XmlNode::Element(text_elem("a", "first")));
    root.children.push(XmlNode::Element(text_elem("a", "second")));
    let c = get_child(&root, "a").expect("child should exist");
    assert_eq!(get_element_text(c), "first");
    assert!(get_child(&root, "b").is_none());
}

#[test]
fn test_get_text_of_attribute() {
    let mut el = elem("glyph");
    el.attributes.push(("href".to_string(), "icon.png".to_string()));
    assert_eq!(get_text_of_attribute(&el, "href"), Some("icon.png".to_string()));
    assert_eq!(get_text_of_attribute(&el, "alt"), None);
}

#[test]
fn test_optional_extraction_absent_and_required_fails_with_path() {
    let root = elem("root");
    assert_eq!(get_text_of_child_element(&root, "name"), None);
    match get_required_text(&root, "name", "objects.objectClass.name") {
        Err(FomError::MissingRequiredField(path)) => {
            assert_eq!(path, "objects.objectClass.name");
        },
        other => panic!("expected a missing-required-field error, got {:?}", other),
    }
}

#[test]
fn test_repeated_extraction_in_document_order() {
    let mut root = elem("root");
    root.children.push(XmlNode::Element(text_elem("keyword", "one")));
    root.children.push(XmlNode::Element(text_elem("other", "skip")));
    root.children.push(XmlNode::Element(text_elem("keyword", "two")));
    root.children.push(XmlNode::Element(text_elem("keyword", "three")));
    let texts = get_text_of_child_elements(&root, "keyword");
    assert_eq!(texts, vec!["one".to_string(), "two".to_string(), "three".to_string()]);
}

#[test]
fn test_repeated_extraction_absent_vs_empty_is_distinguishable() {
    let mut root = elem("root");
    assert_eq!(get_texts_opt(&root, "keyword"), None);
    root.children.push(XmlNode::Element(text_elem("keyword", "")));
    let got = get_texts_opt(&root, "keyword");
    assert_eq!(got, Some(vec!["".to_string()]));
    assert_ne!(got, None);
}
