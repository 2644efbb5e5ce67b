//! The `objects` and `interactions` sections: the two self-referential
//! class trees of the object model, with their attributes and
//! parameters. Each class tree is a tagged node directly owned by its
//! parent — acyclic, built bottom-up during conversion, of unbounded
//! depth.

use vstd::prelude::*;
use crate::error::{ErrView, FomError, parsed};
use crate::extract::{
    absent_if_empty, collect_children, collect_children_total, get_required_child,
    get_required_text, list_spec, total_list_spec,
};
use crate::vocab::{
    OrderType, OwnershipType, OwnershipTypeView, SharingType, UpdateType, UpdateTypeView,
    opt_order_from, opt_order_spec, opt_sharing_from, opt_sharing_spec, order_spec,
    ownership_type_spec, sharing_spec, update_type_spec,
};
use crate::xml::{
    XmlElement, XmlNode, child_named, child_text, elem_text, get_child, get_element_text,
    get_text_of_child_element, str_eq,
};

verus! {

/// A name-based reference into one of the catalogs (data types,
/// transportations, dimensions). References are stored as plain name
/// strings and never resolved or validated: dangling references are
/// tolerated by design.
#[derive(Debug, PartialEq)]
pub struct ReferenceType {
    pub value: String,
}

/// The mathematical image of a `ReferenceType`.
pub struct ReferenceView {
    pub value: Seq<char>,
}

impl DeepView for ReferenceType {
    type V = ReferenceView;

    open spec fn deep_view(&self) -> ReferenceView {
        ReferenceView { value: self.value@ }
    }
}

/// What a reference element converts to: its trimmed text.
pub open spec fn reference_spec(e: XmlElement) -> ReferenceView {
    ReferenceView { value: elem_text(e) }
}

impl ReferenceType {
    /// Convert a reference element.
    pub fn from_element(e: &XmlElement) -> (r: ReferenceType)
        ensures
            r.deep_view() == reference_spec(*e),
    {
        ReferenceType { value: get_element_text(e) }
    }
}

/// An attribute of an object class.
#[derive(Debug, PartialEq)]
pub struct AttributeType {
    pub name: String,
    pub data_type: Option<ReferenceType>,
    pub update_type: Option<UpdateType>,
    pub update_condition: Option<String>,
    pub ownership: Option<OwnershipType>,
    pub sharing: Option<SharingType>,
    pub dimensions: Option<Vec<ReferenceType>>,
    pub transportation: Option<ReferenceType>,
    pub order: Option<OrderType>,
    pub semantics: Option<String>,
}

/// The mathematical image of an `AttributeType`.
pub struct AttributeView {
    pub name: Seq<char>,
    pub data_type: Option<ReferenceView>,
    pub update_type: Option<UpdateTypeView>,
    pub update_condition: Option<Seq<char>>,
    pub ownership: Option<OwnershipTypeView>,
    pub sharing: Option<SharingType>,
    pub dimensions: Option<Seq<ReferenceView>>,
    pub transportation: Option<ReferenceView>,
    pub order: Option<OrderType>,
    pub semantics: Option<Seq<char>>,
}

impl DeepView for AttributeType {
    type V = AttributeView;

    open spec fn deep_view(&self) -> AttributeView {
        AttributeView {
            name: self.name@,
            data_type: self.data_type.deep_view(),
            update_type: self.update_type.deep_view(),
            update_condition: self.update_condition.deep_view(),
            ownership: self.ownership.deep_view(),
            sharing: self.sharing.deep_view(),
            dimensions: self.dimensions.deep_view(),
            transportation: self.transportation.deep_view(),
            order: self.order.deep_view(),
            semantics: self.semantics.deep_view(),
        }
    }
}

/// What an `attribute` element converts to. Fail-fast order: the
/// required name, then the sharing token, then the order token.
pub open spec fn attribute_spec(e: XmlElement) -> Result<AttributeView, ErrView> {
    if child_named(e, "name"@) is None {
        Err(ErrView::MissingRequiredField("objects.objectClass.attribute.name"@))
    } else {
        match opt_sharing_spec(e, "sharing"@) {
            Err(er) => Err(er),
            Ok(sharing) => match opt_order_spec(e, "order"@) {
                Err(er) => Err(er),
                Ok(order) => Ok(
                    AttributeView {
                        name: child_text(e, "name"@)->Some_0,
                        data_type: match child_named(e, "dataType"@) {
                            Some(c) => Some(reference_spec(c)),
                            None => None,
                        },
                        update_type: match child_named(e, "updateType"@) {
                            Some(c) => Some(update_type_spec(elem_text(c))),
                            None => None,
                        },
                        update_condition: child_text(e, "updateCondition"@),
                        ownership: match child_named(e, "ownership"@) {
                            Some(c) => Some(ownership_type_spec(elem_text(c))),
                            None => None,
                        },
                        sharing,
                        dimensions: match child_named(e, "dimensions"@) {
                            Some(d) => Some(
                                total_list_spec(
                                    d.children@,
                                    "dimension"@,
                                    |c: XmlElement| reference_spec(c),
                                ),
                            ),
                            None => None,
                        },
                        transportation: match child_named(e, "transportation"@) {
                            Some(c) => Some(reference_spec(c)),
                            None => None,
                        },
                        order,
                        semantics: child_text(e, "semantics"@),
                    },
                ),
            },
        }
    }
}

impl AttributeType {
    /// Convert an `attribute` element.
    pub fn from_element(e: &XmlElement) -> (r: Result<AttributeType, FomError>)
        ensures
            parsed(r) == attribute_spec(*e),
    {
        let name = match get_required_text(e, "name", "objects.objectClass.attribute.name") {
            Ok(t) => t,
            Err(er) => return Err(er),
        };
        let sharing = match opt_sharing_from(e, "sharing") {
            Ok(s) => s,
            Err(er) => return Err(er),
        };
        let order = match opt_order_from(e, "order") {
            Ok(o) => o,
            Err(er) => return Err(er),
        };
        Ok(
            AttributeType {
                name,
                data_type: match get_child(e, "dataType") {
                    Some(c) => Some(ReferenceType::from_element(c)),
                    None => None,
                },
                update_type: match get_child(e, "updateType") {
                    Some(c) => Some(UpdateType::from_element(c)),
                    None => None,
                },
                update_condition: get_text_of_child_element(e, "updateCondition"),
                ownership: match get_child(e, "ownership") {
                    Some(c) => Some(OwnershipType::from_element(c)),
                    None => None,
                },
                sharing,
                dimensions: match get_child(e, "dimensions") {
                    Some(d) => Some(
                        collect_children_total(
                            d,
                            "dimension",
                            ReferenceType::from_element,
                            Ghost(|c: XmlElement| reference_spec(c)),
                        ),
                    ),
                    None => None,
                },
                transportation: match get_child(e, "transportation") {
                    Some(c) => Some(ReferenceType::from_element(c)),
                    None => None,
                },
                order,
                semantics: get_text_of_child_element(e, "semantics"),
            },
        )
    }
}

/// One node of the object-class tree.
#[derive(Debug, PartialEq)]
pub struct ObjectClassType {
    pub name: String,
    pub sharing: SharingType,
    pub semantics: Option<String>,
    pub attributes: Option<Vec<AttributeType>>,
    pub object_classes: Option<Vec<ObjectClassType>>,
}

/// The mathematical image of an `ObjectClassType`.
pub struct ObjectClassView {
    pub name: Seq<char>,
    pub sharing: SharingType,
    pub semantics: Option<Seq<char>>,
    pub attributes: Option<Seq<AttributeView>>,
    pub object_classes: Option<Seq<ObjectClassView>>,
}

/// The mathematical image of an object-class node, by structural
/// recursion over the tree.
pub open spec fn oc_view(x: ObjectClassType) -> ObjectClassView
    decreases x, 1int,
    via oc_view_dec
{
    ObjectClassView {
        name: x.name@,
        sharing: x.sharing,
        semantics: x.semantics.deep_view(),
        attributes: x.attributes.deep_view(),
        object_classes: match x.object_classes {
            Some(v) => Some(oc_views(v@)),
            None => None,
        },
    }
}

/// The images of a sequence of object-class nodes, in order.
pub open spec fn oc_views(s: Seq<ObjectClassType>) -> Seq<ObjectClassView>
    decreases s, 0int,
    via oc_views_dec
{
    if s.len() == 0 {
        Seq::empty()
    } else {
        seq![oc_view(s[0])] + oc_views(s.drop_first())
    }
}

#[via_fn]
proof fn oc_view_dec(x: ObjectClassType) {
    match x.object_classes {
        Some(v) => {
            assert(decreases_to!(x => x.object_classes));
            assert(decreases_to!(x.object_classes => v));
            assert(decreases_to!(v => v@));
        },
        None => {},
    }
}

#[via_fn]
proof fn oc_views_dec(s: Seq<ObjectClassType>) {
    if s.len() > 0 {
        assert(decreases_to!(s => s[0]));
        assert(s.drop_first() =~= s.subrange(1, s.len() as int));
        assert(decreases_to!(s => s.subrange(1, s.len() as int)));
    }
}

impl DeepView for ObjectClassType {
    type V = ObjectClassView;

    open spec fn deep_view(&self) -> ObjectClassView {
        oc_view(*self)
    }
}

proof fn lemma_oc_views_pointwise(s: Seq<ObjectClassType>)
    ensures
        oc_views(s).len() == s.len(),
        forall|i: int| 0 <= i < s.len() ==> oc_views(s)[i] == oc_view(s[i]),
    decreases s.len(),
{
    if s.len() > 0 {
        lemma_oc_views_pointwise(s.drop_first());
    }
}

/// What an `objectClass` element converts to. Fail-fast order: the
/// required name, the required sharing token, the attribute list, then
/// the nested classes.
pub open spec fn object_class_spec(e: XmlElement) -> Result<ObjectClassView, ErrView>
    decreases e, 1int,
    via object_class_spec_dec
{
    if child_named(e, "name"@) is None {
        Err(ErrView::MissingRequiredField("objects.objectClass.name"@))
    } else {
        let sharing_r = match child_named(e, "sharing"@) {
            Some(c) => sharing_spec(elem_text(c)),
            None => Err(ErrView::MissingRequiredField("objects.objectClass.sharing"@)),
        };
        match sharing_r {
            Err(er) => Err(er),
            Ok(sharing) => match list_spec(
                e.children@,
                "attribute"@,
                |c: XmlElement| attribute_spec(c),
            ) {
                Err(er) => Err(er),
                Ok(attrs) => match object_class_list_spec(e.children@) {
                    Err(er) => Err(er),
                    Ok(nested) => Ok(
                        ObjectClassView {
                            name: child_text(e, "name"@)->Some_0,
                            sharing,
                            semantics: child_text(e, "semantics"@),
                            attributes: absent_if_empty(attrs),
                            object_classes: absent_if_empty(nested),
                        },
                    ),
                },
            },
        }
    }
}

/// What a run of children converts to as nested object classes: every
/// element named `objectClass`, converted in document order, failing
/// fast on the first error.
pub open spec fn object_class_list_spec(s: Seq<XmlNode>) -> Result<Seq<ObjectClassView>, ErrView>
    decreases s, 0int,
    via object_class_list_spec_dec
{
    if s.len() == 0 {
        Ok(Seq::empty())
    } else {
        match object_class_list_spec(s.drop_last()) {
            Err(er) => Err(er),
            Ok(pre) => match s.last() {
                XmlNode::Element(c) => if c.name@ == "objectClass"@ {
                    match object_class_spec(c) {
                        Ok(v) => Ok(pre.push(v)),
                        Err(er) => Err(er),
                    }
                } else {
                    Ok(pre)
                },
                XmlNode::Text(_) => Ok(pre),
            },
        }
    }
}

#[via_fn]
proof fn object_class_spec_dec(e: XmlElement) {
    assert(decreases_to!(e => e.children));
    assert(decreases_to!(e.children => e.children@));
}

#[via_fn]
proof fn object_class_list_spec_dec(s: Seq<XmlNode>) {
    if s.len() > 0 {
        assert(s.drop_last() =~= s.subrange(0, s.len() - 1));
        assert(decreases_to!(s => s.subrange(0, s.len() - 1)));
        assert(decreases_to!(s => s[s.len() - 1]));
        match s.last() {
            XmlNode::Element(c) => {
                assert(s.last() == s[s.len() - 1]);
                assert(decreases_to!(s[s.len() - 1] => c));
            },
            XmlNode::Text(_) => {},
        }
    }
}

proof fn lemma_object_class_list_err(s: Seq<XmlNode>, i: int)
    requires
        0 <= i <= s.len(),
        object_class_list_spec(s.take(i)) is Err,
    ensures
        object_class_list_spec(s) == object_class_list_spec(s.take(i)),
    decreases s.len() - i,
{
    if i < s.len() {
        assert(s.take(i + 1).drop_last() =~= s.take(i));
        lemma_object_class_list_err(s, i + 1);
    } else {
        assert(s.take(i) =~= s);
    }
}

impl ObjectClassType {
    /// Convert an `objectClass` element, recursing into nested classes.
    pub fn from_element(e: &XmlElement) -> (r: Result<ObjectClassType, FomError>)
        ensures
            parsed(r) == object_class_spec(*e),
        decreases *e,
    {
        let name = match get_required_text(e, "name", "objects.objectClass.name") {
            Ok(t) => t,
            Err(er) => return Err(er),
        };
        let sc = match get_required_child(e, "sharing", "objects.objectClass.sharing") {
            Ok(c) => c,
            Err(er) => return Err(er),
        };
        let sharing = match SharingType::from_element(sc) {
            Ok(s) => s,
            Err(er) => return Err(er),
        };
        let attributes = match collect_children(
            e,
            "attribute",
            AttributeType::from_element,
            Ghost(|c: XmlElement| attribute_spec(c)),
        ) {
            Ok(v) => v,
            Err(er) => return Err(er),
        };
        let mut nested: Vec<ObjectClassType> = Vec::new();
        proof {
            assert(e.children@.take(0) =~= Seq::<XmlNode>::empty());
            assert(nested.deep_view() =~= Seq::<ObjectClassView>::empty());
        }
        let n = e.children.len();
        let mut i: usize = 0;
        while i < n
            invariant
                i <= n,
                n == e.children.len(),
                child_named(*e, "name"@) is Some,
                child_named(*e, "sharing"@) is Some,
                sharing_spec(elem_text(child_named(*e, "sharing"@)->Some_0)) == Ok::<
                    SharingType,
                    ErrView,
                >(sharing),
                list_spec(e.children@, "attribute"@, |c: XmlElement| attribute_spec(c)) == Ok::<
                    Seq<AttributeView>,
                    ErrView,
                >(attributes.deep_view()),
                object_class_list_spec(e.children@.take(i as int)) == Ok::<
                    Seq<ObjectClassView>,
                    ErrView,
                >(nested.deep_view()),
            decreases n - i,
        {
            match &e.children[i] {
                XmlNode::Element(c) => {
                    if str_eq(c.name.as_str(), "objectClass") {
                        proof {
                            assert(decreases_to!(*e => e.children));
                            assert(decreases_to!(e.children => e.children@));
                            assert(decreases_to!(e.children@ => e.children@[i as int]));
                            assert(decreases_to!(
                                e.children@[i as int] => e.children@[i as int]->Element_0));
                            assert(e.children@[i as int]->Element_0 == *c);
                        }
                        match Self::from_element(c) {
                            Ok(t) => {
                                let ghost pre = nested.deep_view();
                                nested.push(t);
                                proof {
                                    assert(nested.deep_view() =~= pre.push(t.deep_view()));
                                }
                            },
                            Err(er) => {
                                proof {
                                    let cur = e.children@.take(i + 1);
                                    assert(cur.drop_last() =~= e.children@.take(i as int));
                                    assert(cur.last() == e.children@[i as int]);
                                    lemma_object_class_list_err(e.children@, i + 1);
                                }
                                return Err(er);
                            },
                        }
                    }
                },
                XmlNode::Text(_) => {},
            }
            proof {
                let cur = e.children@.take(i + 1);
                assert(cur.drop_last() =~= e.children@.take(i as int));
                assert(cur.last() == e.children@[i as int]);
            }
            i = i + 1;
        }
        proof {
            assert(e.children@.take(n as int) =~= e.children@);
        }
        let semantics = get_text_of_child_element(e, "semantics");
        let attributes_opt = if attributes.len() == 0 {
            None
        } else {
            Some(attributes)
        };
        let nested_opt = if nested.len() == 0 {
            None
        } else {
            proof {
                lemma_oc_views_pointwise(nested@);
                assert(oc_views(nested@) =~= nested.deep_view());
            }
            Some(nested)
        };
        Ok(ObjectClassType { name, sharing, semantics, attributes: attributes_opt, object_classes: nested_opt })
    }
}

/// The pre-order traversal of a converted class tree: the node itself,
/// then the traversals of its nested classes, in order. Each node is
/// carried whole, its own name and attribute set included.
pub open spec fn oc_preorder(v: ObjectClassView) -> Seq<ObjectClassView>
    decreases v, 1int,
    via oc_preorder_dec
{
    seq![v] + (match v.object_classes {
        Some(cs) => oc_preorder_list(cs),
        None => Seq::empty(),
    })
}

/// The concatenated pre-order traversals of a run of class trees.
pub open spec fn oc_preorder_list(s: Seq<ObjectClassView>) -> Seq<ObjectClassView>
    decreases s, 0int,
    via oc_preorder_list_dec
{
    if s.len() == 0 {
        Seq::empty()
    } else {
        oc_preorder(s[0]) + oc_preorder_list(s.drop_first())
    }
}

#[via_fn]
proof fn oc_preorder_dec(v: ObjectClassView) {
    match v.object_classes {
        Some(cs) => {
            assert(decreases_to!(v => v.object_classes));
            assert(decreases_to!(v.object_classes => cs));
        },
        None => {},
    }
}

#[via_fn]
proof fn oc_preorder_list_dec(s: Seq<ObjectClassView>) {
    if s.len() > 0 {
        assert(decreases_to!(s => s[0]));
        assert(s.drop_first() =~= s.subrange(1, s.len() as int));
        assert(decreases_to!(s => s.subrange(1, s.len() as int)));
    }
}

/// A deserialized class tree of nesting depth three — a root owning a
/// child that owns a grandchild, beside one more child of the root —
/// has a pre-order traversal of exactly four nodes: the root, the
/// child, the grandchild, then the sibling, each retaining its own
/// name and attribute set.
pub proof fn lemma_preorder_depth_three(
    root: ObjectClassView,
    child: ObjectClassView,
    grandchild: ObjectClassView,
    sibling: ObjectClassView,
)
    requires
        root.object_classes == Some(seq![child, sibling]),
        child.object_classes == Some(seq![grandchild]),
        grandchild.object_classes is None,
        sibling.object_classes is None,
    ensures
        oc_preorder(root) == seq![root, child, grandchild, sibling],
        oc_preorder(root).len() == 4,
{
    assert(oc_preorder(grandchild) =~= seq![grandchild]);
    assert(oc_preorder(sibling) =~= seq![sibling]);
    assert(seq![grandchild][0] == grandchild);
    assert(seq![grandchild].drop_first() =~= Seq::<ObjectClassView>::empty());
    assert(oc_preorder_list(Seq::<ObjectClassView>::empty()) =~= Seq::<ObjectClassView>::empty());
    assert(oc_preorder_list(seq![grandchild]) =~= seq![grandchild]);
    assert(oc_preorder(child) =~= seq![child, grandchild]);
    let cs = seq![child, sibling];
    assert(cs[0] == child);
    assert(cs.drop_first() =~= seq![sibling]);
    assert(seq![sibling][0] == sibling);
    assert(seq![sibling].drop_first() =~= Seq::<ObjectClassView>::empty());
    assert(oc_preorder_list(seq![sibling]) =~= seq![sibling]);
    assert(oc_preorder_list(cs) =~= seq![child, grandchild, sibling]);
    assert(oc_preorder(root) =~= seq![root, child, grandchild, sibling]);
}

/// The `objects` section: a single required root object class.
#[derive(Debug, PartialEq)]
pub struct ObjectsType {
    pub root_object_class: ObjectClassType,
}

/// The mathematical image of an `ObjectsType`.
pub struct ObjectsView {
    pub root_object_class: ObjectClassView,
}

impl DeepView for ObjectsType {
    type V = ObjectsView;

    open spec fn deep_view(&self) -> ObjectsView {
        ObjectsView { root_object_class: self.root_object_class.deep_view() }
    }
}

/// What an `objects` element converts to.
pub open spec fn objects_spec(e: XmlElement) -> Result<ObjectsView, ErrView> {
    match child_named(e, "objectClass"@) {
        None => Err(ErrView::MissingRequiredField("objects.objectClass"@)),
        Some(c) => match object_class_spec(c) {
            Ok(v) => Ok(ObjectsView { root_object_class: v }),
            Err(er) => Err(er),
        },
    }
}

impl ObjectsType {
    /// Convert an `objects` element.
    pub fn from_element(e: &XmlElement) -> (r: Result<ObjectsType, FomError>)
        ensures
            parsed(r) == objects_spec(*e),
    {
        let c = match get_required_child(e, "objectClass", "objects.objectClass") {
            Ok(c) => c,
            Err(er) => return Err(er),
        };
        match ObjectClassType::from_element(c) {
            Ok(v) => Ok(ObjectsType { root_object_class: v }),
            Err(er) => Err(er),
        }
    }
}

/// A parameter of an interaction class.
#[derive(Debug, PartialEq)]
pub struct ParameterType {
    pub name: String,
    pub data_type: ReferenceType,
    pub semantics: Option<String>,
}

/// The mathematical image of a `ParameterType`.
pub struct ParameterView {
    pub name: Seq<char>,
    pub data_type: ReferenceView,
    pub semantics: Option<Seq<char>>,
}

impl DeepView for ParameterType {
    type V = ParameterView;

    open spec fn deep_view(&self) -> ParameterView {
        ParameterView {
            name: self.name@,
            data_type: self.data_type.deep_view(),
            semantics: self.semantics.deep_view(),
        }
    }
}

/// What a `parameter` element converts to. Fail-fast order: the
/// required name, then the required data-type reference.
pub open spec fn parameter_spec(e: XmlElement) -> Result<ParameterView, ErrView> {
    if child_named(e, "name"@) is None {
        Err(ErrView::MissingRequiredField("interactions.interactionClass.parameter.name"@))
    } else if child_named(e, "dataType"@) is None {
        Err(ErrView::MissingRequiredField("interactions.interactionClass.parameter.dataType"@))
    } else {
        Ok(
            ParameterView {
                name: child_text(e, "name"@)->Some_0,
                data_type: reference_spec(child_named(e, "dataType"@)->Some_0),
                semantics: child_text(e, "semantics"@),
            },
        )
    }
}

impl ParameterType {
    /// Convert a `parameter` element.
    pub fn from_element(e: &XmlElement) -> (r: Result<ParameterType, FomError>)
        ensures
            parsed(r) == parameter_spec(*e),
    {
        let name = match get_required_text(
            e,
            "name",
            "interactions.interactionClass.parameter.name",
        ) {
            Ok(t) => t,
            Err(er) => return Err(er),
        };
        let dt = match get_required_child(
            e,
            "dataType",
            "interactions.interactionClass.parameter.dataType",
        ) {
            Ok(c) => c,
            Err(er) => return Err(er),
        };
        Ok(
            ParameterType {
                name,
                data_type: ReferenceType::from_element(dt),
                semantics: get_text_of_child_element(e, "semantics"),
            },
        )
    }
}

/// One node of the interaction-class tree.
#[derive(Debug, PartialEq)]
pub struct InteractionClassType {
    pub name: String,
    pub sharing: SharingType,
    pub dimensions: Option<Vec<ReferenceType>>,
    pub transportation: ReferenceType,
    pub order: OrderType,
    pub semantics: Option<String>,
    pub parameters: Option<Vec<ParameterType>>,
    pub interaction_classes: Option<Vec<InteractionClassType>>,
}

/// The mathematical image of an `InteractionClassType`.
pub struct InteractionClassView {
    pub name: Seq<char>,
    pub sharing: SharingType,
    pub dimensions: Option<Seq<ReferenceView>>,
    pub transportation: ReferenceView,
    pub order: OrderType,
    pub semantics: Option<Seq<char>>,
    pub parameters: Option<Seq<ParameterView>>,
    pub interaction_classes: Option<Seq<InteractionClassView>>,
}

/// The mathematical image of an interaction-class node, by structural
/// recursion over the tree.
pub open spec fn ic_view(x: InteractionClassType) -> InteractionClassView
    decreases x, 1int,
    via ic_view_dec
{
    InteractionClassView {
        name: x.name@,
        sharing: x.sharing,
        dimensions: x.dimensions.deep_view(),
        transportation: x.transportation.deep_view(),
        order: x.order,
        semantics: x.semantics.deep_view(),
        parameters: x.parameters.deep_view(),
        interaction_classes: match x.interaction_classes {
            Some(v) => Some(ic_views(v@)),
            None => None,
        },
    }
}

/// The images of a sequence of interaction-class nodes, in order.
pub open spec fn ic_views(s: Seq<InteractionClassType>) -> Seq<InteractionClassView>
    decreases s, 0int,
    via ic_views_dec
{
    if s.len() == 0 {
        Seq::empty()
    } else {
        seq![ic_view(s[0])] + ic_views(s.drop_first())
    }
}

#[via_fn]
proof fn ic_view_dec(x: InteractionClassType) {
    match x.interaction_classes {
        Some(v) => {
            assert(decreases_to!(x => x.interaction_classes));
            assert(decreases_to!(x.interaction_classes => v));
            assert(decreases_to!(v => v@));
        },
        None => {},
    }
}

#[via_fn]
proof fn ic_views_dec(s: Seq<InteractionClassType>) {
    if s.len() > 0 {
        assert(decreases_to!(s => s[0]));
        assert(s.drop_first() =~= s.subrange(1, s.len() as int));
        assert(decreases_to!(s => s.subrange(1, s.len() as int)));
    }
}

impl DeepView for InteractionClassType {
    type V = InteractionClassView;

    open spec fn deep_view(&self) -> InteractionClassView {
        ic_view(*self)
    }
}

proof fn lemma_ic_views_pointwise(s: Seq<InteractionClassType>)
    ensures
        ic_views(s).len() == s.len(),
        forall|i: int| 0 <= i < s.len() ==> ic_views(s)[i] == ic_view(s[i]),
    decreases s.len(),
{
    if s.len() > 0 {
        lemma_ic_views_pointwise(s.drop_first());
    }
}

/// What an `interactionClass` element converts to. Fail-fast order: the
/// required name, the required sharing token, the required
/// transportation reference, the required order token, the parameter
/// list, then the nested classes.
pub open spec fn interaction_class_spec(e: XmlElement) -> Result<InteractionClassView, ErrView>
    decreases e, 1int,
    via interaction_class_spec_dec
{
    if child_named(e, "name"@) is None {
        Err(ErrView::MissingRequiredField("interactions.interactionClass.name"@))
    } else {
        match child_named(e, "sharing"@) {
            None => Err(ErrView::MissingRequiredField("interactions.interactionClass.sharing"@)),
            Some(sc) => match sharing_spec(elem_text(sc)) {
                Err(er) => Err(er),
                Ok(sharing) => if child_named(e, "transportation"@) is None {
                    Err(
                        ErrView::MissingRequiredField(
                            "interactions.interactionClass.transportation"@,
                        ),
                    )
                } else {
                    match child_named(e, "order"@) {
                        None => Err(
                            ErrView::MissingRequiredField("interactions.interactionClass.order"@),
                        ),
                        Some(oc) => match order_spec(elem_text(oc)) {
                            Err(er) => Err(er),
                            Ok(order) => match list_spec(
                                e.children@,
                                "parameter"@,
                                |c: XmlElement| parameter_spec(c),
                            ) {
                                Err(er) => Err(er),
                                Ok(params) => match interaction_class_list_spec(e.children@) {
                                    Err(er) => Err(er),
                                    Ok(nested) => Ok(
                                        InteractionClassView {
                                            name: child_text(e, "name"@)->Some_0,
                                            sharing,
                                            dimensions: absent_if_empty(
                                                total_list_spec(
                                                    e.children@,
                                                    "dimension"@,
                                                    |c: XmlElement| reference_spec(c),
                                                ),
                                            ),
                                            transportation: reference_spec(
                                                child_named(e, "transportation"@)->Some_0,
                                            ),
                                            order,
                                            semantics: child_text(e, "semantics"@),
                                            parameters: absent_if_empty(params),
                                            interaction_classes: absent_if_empty(nested),
                                        },
                                    ),
                                },
                            },
                        },
                    }
                },
            },
        }
    }
}

/// What a run of children converts to as nested interaction classes:
/// every element named `interactionClass`, converted in document order,
/// failing fast on the first error.
pub open spec fn interaction_class_list_spec(s: Seq<XmlNode>) -> Result<
    Seq<InteractionClassView>,
    ErrView,
>
    decreases s, 0int,
    via interaction_class_list_spec_dec
{
    if s.len() == 0 {
        Ok(Seq::empty())
    } else {
        match interaction_class_list_spec(s.drop_last()) {
            Err(er) => Err(er),
            Ok(pre) => match s.last() {
                XmlNode::Element(c) => if c.name@ == "interactionClass"@ {
                    match interaction_class_spec(c) {
                        Ok(v) => Ok(pre.push(v)),
                        Err(er) => Err(er),
                    }
                } else {
                    Ok(pre)
                },
                XmlNode::Text(_) => Ok(pre),
            },
        }
    }
}

#[via_fn]
proof fn interaction_class_spec_dec(e: XmlElement) {
    assert(decreases_to!(e => e.children));
    assert(decreases_to!(e.children => e.children@));
}

#[via_fn]
proof fn interaction_class_list_spec_dec(s: Seq<XmlNode>) {
    if s.len() > 0 {
        assert(s.drop_last() =~= s.subrange(0, s.len() - 1));
        assert(decreases_to!(s => s.subrange(0, s.len() - 1)));
        assert(decreases_to!(s => s[s.len() - 1]));
        match s.last() {
            XmlNode::Element(c) => {
                assert(s.last() == s[s.len() - 1]);
                assert(decreases_to!(s[s.len() - 1] => c));
            },
            XmlNode::Text(_) => {},
        }
    }
}

proof fn lemma_interaction_class_list_err(s: Seq<XmlNode>, i: int)
    requires
        0 <= i <= s.len(),
        interaction_class_list_spec(s.take(i)) is Err,
    ensures
        interaction_class_list_spec(s) == interaction_class_list_spec(s.take(i)),
    decreases s.len() - i,
{
    if i < s.len() {
        assert(s.take(i + 1).drop_last() =~= s.take(i));
        lemma_interaction_class_list_err(s, i + 1);
    } else {
        assert(s.take(i) =~= s);
    }
}

impl InteractionClassType {
    /// Convert an `interactionClass` element, recursing into nested
    /// classes.
    pub fn from_element(e: &XmlElement) -> (r: Result<InteractionClassType, FomError>)
        ensures
            parsed(r) == interaction_class_spec(*e),
        decreases *e,
    {
        let name = match get_required_text(e, "name", "interactions.interactionClass.name") {
            Ok(t) => t,
            Err(er) => return Err(er),
        };
        let sc = match get_required_child(e, "sharing", "interactions.interactionClass.sharing") {
            Ok(c) => c,
            Err(er) => return Err(er),
        };
        let sharing = match SharingType::from_element(sc) {
            Ok(s) => s,
            Err(er) => return Err(er),
        };
        let tc = match get_required_child(
            e,
            "transportation",
            "interactions.interactionClass.transportation",
        ) {
            Ok(c) => c,
            Err(er) => return Err(er),
        };
        let transportation = ReferenceType::from_element(tc);
        let oc = match get_required_child(e, "order", "interactions.interactionClass.order") {
            Ok(c) => c,
            Err(er) => return Err(er),
        };
        let order = match OrderType::from_element(oc) {
            Ok(o) => o,
            Err(er) => return Err(er),
        };
        let parameters = match collect_children(
            e,
            "parameter",
            ParameterType::from_element,
            Ghost(|c: XmlElement| parameter_spec(c)),
        ) {
            Ok(v) => v,
            Err(er) => return Err(er),
        };
        let mut nested: Vec<InteractionClassType> = Vec::new();
        proof {
            assert(e.children@.take(0) =~= Seq::<XmlNode>::empty());
            assert(nested.deep_view() =~= Seq::<InteractionClassView>::empty());
        }
        let n = e.children.len();
        let mut i: usize = 0;
        while i < n
            invariant
                i <= n,
                n == e.children.len(),
                child_named(*e, "name"@) is Some,
                child_named(*e, "sharing"@) is Some,
                sharing_spec(elem_text(child_named(*e, "sharing"@)->Some_0)) == Ok::<
                    SharingType,
                    ErrView,
                >(sharing),
                child_named(*e, "transportation"@) is Some,
                child_named(*e, "order"@) is Some,
                order_spec(elem_text(child_named(*e, "order"@)->Some_0)) == Ok::<
                    OrderType,
                    ErrView,
                >(order),
                list_spec(e.children@, "parameter"@, |c: XmlElement| parameter_spec(c)) == Ok::<
                    Seq<ParameterView>,
                    ErrView,
                >(parameters.deep_view()),
                interaction_class_list_spec(e.children@.take(i as int)) == Ok::<
                    Seq<InteractionClassView>,
                    ErrView,
                >(nested.deep_view()),
            decreases n - i,
        {
            match &e.children[i] {
                XmlNode::Element(c) => {
                    if str_eq(c.name.as_str(), "interactionClass") {
                        proof {
                            assert(decreases_to!(*e => e.children));
                            assert(decreases_to!(e.children => e.children@));
                            assert(decreases_to!(e.children@ => e.children@[i as int]));
                            assert(decreases_to!(
                                e.children@[i as int] => e.children@[i as int]->Element_0));
                            assert(e.children@[i as int]->Element_0 == *c);
                        }
                        match Self::from_element(c) {
                            Ok(t) => {
                                let ghost pre = nested.deep_view();
                                nested.push(t);
                                proof {
                                    assert(nested.deep_view() =~= pre.push(t.deep_view()));
                                }
                            },
                            Err(er) => {
                                proof {
                                    let cur = e.children@.take(i + 1);
                                    assert(cur.drop_last() =~= e.children@.take(i as int));
                                    assert(cur.last() == e.children@[i as int]);
                                    lemma_interaction_class_list_err(e.children@, i + 1);
                                }
                                return Err(er);
                            },
                        }
                    }
                },
                XmlNode::Text(_) => {},
            }
            proof {
                let cur = e.children@.take(i + 1);
                assert(cur.drop_last() =~= e.children@.take(i as int));
                assert(cur.last() == e.children@[i as int]);
            }
            i = i + 1;
        }
        proof {
            assert(e.children@.take(n as int) =~= e.children@);
        }
        let dimensions = get_texts_opt_refs(e);
        let semantics = get_text_of_child_element(e, "semantics");
        let parameters_opt = if parameters.len() == 0 {
            None
        } else {
            Some(parameters)
        };
        let nested_opt = if nested.len() == 0 {
            None
        } else {
            proof {
                lemma_ic_views_pointwise(nested@);
                assert(ic_views(nested@) =~= nested.deep_view());
            }
            Some(nested)
        };
        Ok(
            InteractionClassType {
                name,
                sharing,
                dimensions,
                transportation,
                order,
                semantics,
                parameters: parameters_opt,
                interaction_classes: nested_opt,
            },
        )
    }
}

/// The repeated `dimension` references of an interaction class, under
/// the absent-vs-empty convention.
fn get_texts_opt_refs(e: &XmlElement) -> (r: Option<Vec<ReferenceType>>)
    ensures
        r.deep_view() == absent_if_empty(
            total_list_spec(e.children@, "dimension"@, |c: XmlElement| reference_spec(c)),
        ),
{
    let v = collect_children_total(
        e,
        "dimension",
        ReferenceType::from_element,
        Ghost(|c: XmlElement| reference_spec(c)),
    );
    if v.len() == 0 {
        None
    } else {
        Some(v)
    }
}

/// The `interactions` section: a single required root interaction
/// class.
#[derive(Debug, PartialEq)]
pub struct InteractionsType {
    pub interactions: InteractionClassType,
}

/// The mathematical image of an `InteractionsType`.
pub struct InteractionsView {
    pub interactions: InteractionClassView,
}

impl DeepView for InteractionsType {
    type V = InteractionsView;

    open spec fn deep_view(&self) -> InteractionsView {
        InteractionsView { interactions: self.interactions.deep_view() }
    }
}

/// What an `interactions` element converts to.
pub open spec fn interactions_spec(e: XmlElement) -> Result<InteractionsView, ErrView> {
    match child_named(e, "interactionClass"@) {
        None => Err(ErrView::MissingRequiredField("interactions.interactionClass"@)),
        Some(c) => match interaction_class_spec(c) {
            Ok(v) => Ok(InteractionsView { interactions: v }),
            Err(er) => Err(er),
        },
    }
}

impl InteractionsType {
    /// Convert an `interactions` element.
    pub fn from_element(e: &XmlElement) -> (r: Result<InteractionsType, FomError>)
        ensures
            parsed(r) == interactions_spec(*e),
    {
        let c = match get_required_child(e, "interactionClass", "interactions.interactionClass") {
            Ok(c) => c,
            Err(er) => return Err(er),
        };
        match InteractionClassType::from_element(c) {
            Ok(v) => Ok(InteractionsType { interactions: v }),
            Err(er) => Err(er),
        }
    }
}

} // verus!
