//! Whole-document scenarios: the minimal mandatory document, the
//! nested object-class tree, and the fail-fast error paths of the
//! assembler.

use fom_tools::classes::ObjectClassType;
use fom_tools::error::FomError;
use fom_tools::object_model::parse_object_model;
use fom_tools::sections::TransportationsType;
use fom_tools::vocab::{ModelType, OrderType, ReliableType, ResignSwitchType, SharingType};
use fom_tools::xml::{XmlElement, XmlNode};

fn elem(name: &str) -> XmlElement {
    XmlElement { name: name.to_string(), attributes: Vec::new(), children: Vec::new() }
}

fn text_elem(name: &str, text: &str) -> XmlElement {
    let mut e = elem(name);
    e.children.push(XmlNode::Text(text.to_string()));
    e
}

fn add_child(parent: &mut XmlElement, child: XmlElement) {
    parent.children.push(XmlNode::Element(child));
}

/// A mutable borrow of the first child element with the given name.
fn find_child_mut<'a>(root: &'a mut XmlElement, name: &str) -> &'a mut XmlElement {
    for node in root.children.iter_mut() {
        if let XmlNode::Element(e) = node {
            if e.name == name {
                return e;
            }
        }
    }
    panic!("no child named {}", name);
}

/// An interaction class carrying exactly its mandatory fields.
fn minimal_interaction_class(name: &str) -> XmlElement {
    let mut ic = elem("interactionClass");
    add_child(&mut ic, text_elem("name", name));
    add_child(&mut ic, text_elem("sharing", "Neither"));
    add_child(&mut ic, text_elem("transportation", "HLAreliable"));
    add_child(&mut ic, text_elem("order", "Receive"));
    ic
}

/// A `switches` element with all eleven mandatory flags set.
fn full_switches() -> XmlElement {
    let mut sw = elem("switches");
    let bool_flags = [
        "auto_provide",
        "convey_region_designator_sets",
        "convey_producing_federate",
        "attribute_scope_advisory",
        "attribute_relevance_advisory",
        "object_class_relevance_advisory",
        "interaction_relevance_advisory",
        "service_reporting",
        "exception_reporting",
        "delay_subscription_evaluation",
    ];
    for flag in bool_flags {
        sw.attributes.push((flag.to_string(), "true".to_string()));
    }
    sw.attributes.push(("automatic_resign_action".to_string(), "NoAction".to_string()));
    sw
}

/// A `dataTypes` element with all six catalogs present but empty.
fn empty_data_types() -> XmlElement {
    let mut dt = elem("dataTypes");
    add_child(&mut dt, elem("basicDataRepresentations"));
    add_child(&mut dt, elem("simpleDataTypes"));
    add_child(&mut dt, elem("enumeratedDataTypes"));
    add_child(&mut dt, elem("arrayDataTypes"));
    add_child(&mut dt, elem("fixedRecordDataTypes"));
    add_child(&mut dt, elem("variantRecordDataTypes"));
    dt
}

/// A document containing only the mandatory sections.
fn minimal_document() -> XmlElement {
    let mut root = elem("objectModel");
    add_child(&mut root, elem("modelIdentification"));

    let mut objects = elem("objects");
    let mut oc = elem("objectClass");
    add_child(&mut oc, text_elem("name", "HLAobjectRoot"));
    add_child(&mut oc, text_elem("sharing", "Neither"));
    add_child(&mut objects, oc);
    add_child(&mut root, objects);

    let mut interactions = elem("interactions");
    add_child(&mut interactions, minimal_interaction_class("HLAinteractionRoot"));
    add_child(&mut root, interactions);

    add_child(&mut root, elem("dimensions"));
    add_child(&mut root, elem("transportations"));
    add_child(&mut root, full_switches());
    add_child(&mut root, empty_data_types());
    root
}

#[test]
fn test_minimal_document_parses_and_optional_sections_are_absent() {
    let doc = minimal_document();
    let model = parse_object_model(&doc).expect("the minimal document must parse");

    assert_eq!(model.objects.root_object_class.name, "HLAobjectRoot");
    assert_eq!(model.objects.root_object_class.sharing, SharingType::Neither);
    assert_eq!(model.objects.root_object_class.attributes, None);
    assert_eq!(model.objects.root_object_class.object_classes, None);

    assert_eq!(model.interactions.interactions.name, "HLAinteractionRoot");
    assert_eq!(model.interactions.interactions.order, OrderType::Receive);
    assert_eq!(model.interactions.interactions.transportation.value, "HLAreliable");

    assert!(model.switches.auto_provide.is_enabled);
    assert_eq!(model.switches.automatic_resign_action, ResignSwitchType::NoAction);

    assert_eq!(model.transportations, TransportationsType { transportations: None });
    assert_eq!(model.data_types.basic_data_representations.unwrap().basic_datas, None);

    assert_eq!(model.service_utilization, None);
    assert_eq!(model.time, None);
    assert_eq!(model.tags, None);
    assert_eq!(model.synchronizations, None);
    assert_eq!(model.update_rates, None);
    assert_eq!(model.notes, None);
}

#[test]
fn test_missing_auto_provide_fails_naming_the_path() {
    let mut root = minimal_document();
    find_child_mut(&mut root, "switches").attributes.retain(|(k, _)| k != "auto_provide");
    match parse_object_model(&root) {
        Err(FomError::MissingRequiredField(path)) => {
            assert_eq!(path, "switches.auto_provide");
        },
        other => panic!("expected a missing-required-field error, got {:?}", other),
    }
}

fn preorder(oc: &ObjectClassType, out: &mut Vec<(String, usize)>) {
    let n_attrs = match &oc.attributes {
        Some(v) => v.len(),
        None => 0,
    };
    out.push((oc.name.clone(), n_attrs));
    if let Some(children) = &oc.object_classes {
        for c in children {
            preorder(c, out);
        }
    }
}

fn class_with_attrs(name: &str, attr_names: &[&str]) -> XmlElement {
    let mut oc = elem("objectClass");
    add_child(&mut oc, text_elem("name", name));
    add_child(&mut oc, text_elem("sharing", "Neither"));
    for a in attr_names {
        let mut attr = elem("attribute");
        add_child(&mut attr, text_elem("name", a));
        add_child(&mut oc, attr);
    }
    oc
}

#[test]
fn test_nested_object_classes_preorder_four_nodes() {
    let mut root = minimal_document();

    // Rebuild the objects section: Root owns Platform (which owns
    // Aircraft) and Sensor — nesting depth three, four nodes in all.
    let mut top = elem("objectClass");
    add_child(&mut top, text_elem("name", "Root"));
    add_child(&mut top, text_elem("sharing", "PublishSubscribe"));
    let mut attr = elem("attribute");
    add_child(&mut attr, text_elem("name", "privilegeToDelete"));
    add_child(&mut top, attr);

    let mut platform = class_with_attrs("Platform", &["position", "velocity"]);
    let aircraft = class_with_attrs("Aircraft", &["callSign", "fuelLevel", "altitude"]);
    add_child(&mut platform, aircraft);
    add_child(&mut top, platform);
    add_child(&mut top, class_with_attrs("Sensor", &[]));

    let objects = find_child_mut(&mut root, "objects");
    objects.children.clear();
    add_child(objects, top);

    let model = parse_object_model(&root).expect("the nested document must parse");
    let mut walk: Vec<(String, usize)> = Vec::new();
    preorder(&model.objects.root_object_class, &mut walk);
    assert_eq!(
        walk,
        vec![
            ("Root".to_string(), 1),
            ("Platform".to_string(), 2),
            ("Aircraft".to_string(), 3),
            ("Sensor".to_string(), 0),
        ],
    );
}

#[test]
fn test_unreliable_transportation_token_fails_closed() {
    let mut root = minimal_document();
    let mut transportation = elem("transportation");
    add_child(&mut transportation, text_elem("name", "Wishful"));
    add_child(&mut transportation, text_elem("reliable", "Maybe"));
    add_child(find_child_mut(&mut root, "transportations"), transportation);
    match parse_object_model(&root) {
        Err(FomError::UnrecognizedValue(token)) => assert_eq!(token, "Maybe"),
        other => panic!("expected an unrecognized-value error, got {:?}", other),
    }
}

#[test]
fn test_unknown_model_type_token_parses_open() {
    let mut root = minimal_document();
    add_child(
        find_child_mut(&mut root, "modelIdentification"),
        text_elem("type", "FederationArchitecture"),
    );
    let model = parse_object_model(&root).expect("an unknown model type is not an error");
    assert_eq!(
        model.model_identification.model_type,
        Some(ModelType::Other("FederationArchitecture".to_string())),
    );
}

#[test]
fn test_each_mandatory_section_is_required() {
    let sections = [
        "modelIdentification",
        "objects",
        "interactions",
        "dimensions",
        "transportations",
        "switches",
        "dataTypes",
    ];
    for section in sections {
        let mut root = minimal_document();
        root.children.retain(|node| match node {
            XmlNode::Element(e) => e.name != section,
            XmlNode::Text(_) => true,
        });
        match parse_object_model(&root) {
            Err(FomError::MissingRequiredField(path)) => assert_eq!(path, section),
            other => panic!("expected {} to be required, got {:?}", section, other),
        }
    }
}

#[test]
fn test_missing_object_class_name_fails_with_dotted_path() {
    let mut root = minimal_document();
    let objects = find_child_mut(&mut root, "objects");
    objects.children.clear();
    add_child(objects, elem("objectClass"));
    match parse_object_model(&root) {
        Err(FomError::MissingRequiredField(path)) => {
            assert_eq!(path, "objects.objectClass.name");
        },
        other => panic!("expected a missing-required-field error, got {:?}", other),
    }
}

#[test]
fn test_missing_object_class_sharing_fails_with_dotted_path() {
    let mut root = minimal_document();
    let objects = find_child_mut(&mut root, "objects");
    let oc = find_child_mut(objects, "objectClass");
    oc.children.retain(|n| match n {
        XmlNode::Element(c) => c.name != "sharing",
        XmlNode::Text(_) => true,
    });
    match parse_object_model(&root) {
        Err(FomError::MissingRequiredField(path)) => {
            assert_eq!(path, "objects.objectClass.sharing");
        },
        other => panic!("expected a missing-required-field error, got {:?}", other),
    }
}

#[test]
fn test_malformed_switch_text_fails_as_malformed_scalar() {
    let mut root = minimal_document();
    for pair in find_child_mut(&mut root, "switches").attributes.iter_mut() {
        if pair.0 == "service_reporting" {
            pair.1 = "enabled".to_string();
        }
    }
    match parse_object_model(&root) {
        Err(FomError::MalformedScalar(text)) => assert_eq!(text, "enabled"),
        other => panic!("expected a malformed-scalar error, got {:?}", other),
    }
}

#[test]
fn test_malformed_basic_data_size_fails_as_malformed_scalar() {
    let mut root = minimal_document();
    let mut basic = elem("basicData");
    add_child(&mut basic, text_elem("name", "HLAinteger32BE"));
    add_child(&mut basic, text_elem("size", "32 bits"));
    let data_types = find_child_mut(&mut root, "dataTypes");
    add_child(find_child_mut(data_types, "basicDataRepresentations"), basic);
    match parse_object_model(&root) {
        Err(FomError::MalformedScalar(text)) => assert_eq!(text, "32 bits"),
        other => panic!("expected a malformed-scalar error, got {:?}", other),
    }
}

#[test]
fn test_basic_data_size_and_endian_parse() {
    let mut root = minimal_document();
    let mut basic = elem("basicData");
    add_child(&mut basic, text_elem("name", "HLAinteger32BE"));
    add_child(&mut basic, text_elem("size", "32"));
    add_child(&mut basic, text_elem("endian", "Big"));
    let data_types = find_child_mut(&mut root, "dataTypes");
    add_child(find_child_mut(data_types, "basicDataRepresentations"), basic);
    let model = parse_object_model(&root).expect("a well-formed basic data must parse");
    let basics = model
        .data_types
        .basic_data_representations
        .expect("the catalog is present")
        .basic_datas
        .expect("one basic data is present");
    assert_eq!(basics.len(), 1);
    assert_eq!(basics[0].name, "HLAinteger32BE");
    assert_eq!(basics[0].size.unwrap().size, 32);
}

#[test]
fn test_missing_interaction_sharing_fails_with_dotted_path() {
    let mut root = minimal_document();
    let interactions = find_child_mut(&mut root, "interactions");
    find_child_mut(interactions, "interactionClass").children.retain(|n| match n {
        XmlNode::Element(c) => c.name != "sharing",
        XmlNode::Text(_) => true,
    });
    match parse_object_model(&root) {
        Err(FomError::MissingRequiredField(path)) => {
            assert_eq!(path, "interactions.interactionClass.sharing");
        },
        other => panic!("expected a missing-required-field error, got {:?}", other),
    }
}

#[test]
fn test_error_messages() {
    let mut root = minimal_document();
    find_child_mut(&mut root, "switches").attributes.retain(|(k, _)| k != "auto_provide");
    let failure = parse_object_model(&root).expect_err("the document must be rejected");
    assert_eq!(failure.message(), "missing required field: switches.auto_provide");
    assert_eq!(
        FomError::UnrecognizedValue("Maybe".to_string()).message(),
        "unrecognized value: Maybe",
    );
    assert_eq!(
        FomError::MalformedScalar("12x".to_string()).message(),
        "malformed scalar: 12x",
    );
    assert_eq!(
        FomError::Syntax("unexpected end of stream".to_string()).message(),
        "syntax error: unexpected end of stream",
    );
}

#[test]
fn test_reliable_transportation_parses() {
    let mut root = minimal_document();
    let mut transportation = elem("transportation");
    add_child(&mut transportation, text_elem("name", "HLAreliable"));
    add_child(&mut transportation, text_elem("reliable", "Yes"));
    add_child(&mut transportation, text_elem("semantics", "TCP-backed delivery"));
    add_child(find_child_mut(&mut root, "transportations"), transportation);
    let model = parse_object_model(&root).expect("a known reliability token must parse");
    let items = model.transportations.transportations.expect("one transportation is present");
    assert_eq!(items.len(), 1);
    assert_eq!(items[0].name, "HLAreliable");
    assert_eq!(items[0].reliable, ReliableType::Yes);
    assert_eq!(items[0].semantics, Some("TCP-backed delivery".to_string()));
}
