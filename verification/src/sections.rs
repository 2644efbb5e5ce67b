//! The flat and singly-nested sections of the object model: dimensions,
//! time, tags, synchronizations, transportations, the switches, update
//! rates and notes.

use vstd::prelude::*;
use crate::classes::{ReferenceType, ReferenceView, reference_spec};
use crate::error::{ErrView, FomError, parsed};
use crate::extract::{
    absent_if_empty, collect_children, get_required_child, get_required_text, list_spec,
};
use crate::scalar::parse_bool;
use crate::vocab::{
    CapabilityType, ReliableType, ResignSwitchType, capability_spec, reliable_spec,
    resign_switch_spec,
};
use crate::xml::{
    XmlElement, attr_text, child_named, child_text, elem_text, get_child, get_element_text,
    get_text_of_attribute, get_text_of_child_element,
};

verus! {

/// The `dimensions` section. Its contents are not modelled; only its
/// presence matters to the object model.
#[derive(Debug, PartialEq)]
pub struct DimensionsType {}

/// The mathematical image of a `DimensionsType`.
pub struct DimensionsView {}

impl DeepView for DimensionsType {
    type V = DimensionsView;

    open spec fn deep_view(&self) -> DimensionsView {
        DimensionsView {}
    }
}

/// What a `dimensions` element converts to.
pub open spec fn dimensions_spec(e: XmlElement) -> DimensionsView {
    DimensionsView {}
}

impl DimensionsType {
    /// Convert a `dimensions` element.
    pub fn from_element(e: &XmlElement) -> (r: DimensionsType)
        ensures
            r.deep_view() == dimensions_spec(*e),
    {
        DimensionsType {}
    }
}

/// A time characteristic: a required data-type reference and optional
/// semantics.
#[derive(Debug, PartialEq)]
pub struct TimeTypeType {
    pub data_type: ReferenceType,
    pub semantics: Option<String>,
}

/// The mathematical image of a `TimeTypeType`.
pub struct TimeTypeView {
    pub data_type: ReferenceView,
    pub semantics: Option<Seq<char>>,
}

impl DeepView for TimeTypeType {
    type V = TimeTypeView;

    open spec fn deep_view(&self) -> TimeTypeView {
        TimeTypeView { data_type: self.data_type.deep_view(), semantics: self.semantics.deep_view() }
    }
}

/// What a time-characteristic element converts to; `path` is the dotted
/// schema path of its required `dataType` child.
pub open spec fn time_type_spec(e: XmlElement, path: Seq<char>) -> Result<TimeTypeView, ErrView> {
    match child_named(e, "dataType"@) {
        None => Err(ErrView::MissingRequiredField(path)),
        Some(c) => Ok(
            TimeTypeView {
                data_type: reference_spec(c),
                semantics: child_text(e, "semantics"@),
            },
        ),
    }
}

impl TimeTypeType {
    /// Convert a time-characteristic element; `path` names its
    /// `dataType` child in error reports.
    pub fn from_element(e: &XmlElement, path: &str) -> (r: Result<TimeTypeType, FomError>)
        ensures
            parsed(r) == time_type_spec(*e, path@),
    {
        let c = match get_required_child(e, "dataType", path) {
            Ok(c) => c,
            Err(er) => return Err(er),
        };
        Ok(
            TimeTypeType {
                data_type: ReferenceType::from_element(c),
                semantics: get_text_of_child_element(e, "semantics"),
            },
        )
    }
}

/// The `time` section: optional time-stamp and lookahead
/// characteristics.
#[derive(Debug, PartialEq)]
pub struct TimeType {
    pub time_stamp: Option<TimeTypeType>,
    pub lookahead: Option<TimeTypeType>,
}

/// The mathematical image of a `TimeType`.
pub struct TimeView {
    pub time_stamp: Option<TimeTypeView>,
    pub lookahead: Option<TimeTypeView>,
}

impl DeepView for TimeType {
    type V = TimeView;

    open spec fn deep_view(&self) -> TimeView {
        TimeView {
            time_stamp: self.time_stamp.deep_view(),
            lookahead: self.lookahead.deep_view(),
        }
    }
}

/// What a `time` element converts to. Fail-fast order: the time stamp,
/// then the lookahead.
pub open spec fn time_spec(e: XmlElement) -> Result<TimeView, ErrView> {
    let ts = match child_named(e, "timeStamp"@) {
        Some(c) => match time_type_spec(c, "time.timeStamp.dataType"@) {
            Ok(v) => Ok(Some(v)),
            Err(er) => Err(er),
        },
        None => Ok(None),
    };
    match ts {
        Err(er) => Err(er),
        Ok(time_stamp) => {
            let la = match child_named(e, "lookahead"@) {
                Some(c) => match time_type_spec(c, "time.lookahead.dataType"@) {
                    Ok(v) => Ok(Some(v)),
                    Err(er) => Err(er),
                },
                None => Ok(None),
            };
            match la {
                Err(er) => Err(er),
                Ok(lookahead) => Ok(TimeView { time_stamp, lookahead }),
            }
        },
    }
}

impl TimeType {
    /// Convert a `time` element.
    pub fn from_element(e: &XmlElement) -> (r: Result<TimeType, FomError>)
        ensures
            parsed(r) == time_spec(*e),
    {
        let time_stamp = match get_child(e, "timeStamp") {
            Some(c) => match TimeTypeType::from_element(c, "time.timeStamp.dataType") {
                Ok(v) => Some(v),
                Err(er) => return Err(er),
            },
            None => None,
        };
        let lookahead = match get_child(e, "lookahead") {
            Some(c) => match TimeTypeType::from_element(c, "time.lookahead.dataType") {
                Ok(v) => Some(v),
                Err(er) => return Err(er),
            },
            None => None,
        };
        Ok(TimeType { time_stamp, lookahead })
    }
}

/// A tag: a required data-type reference and optional semantics.
#[derive(Debug, PartialEq)]
pub struct TagType {
    pub data_type: ReferenceType,
    pub semantics: Option<String>,
}

/// The mathematical image of a `TagType`.
pub struct TagView {
    pub data_type: ReferenceView,
    pub semantics: Option<Seq<char>>,
}

impl DeepView for TagType {
    type V = TagView;

    open spec fn deep_view(&self) -> TagView {
        TagView { data_type: self.data_type.deep_view(), semantics: self.semantics.deep_view() }
    }
}

/// What a tag element converts to; `path` is the dotted schema path of
/// its required `dataType` child.
pub open spec fn tag_spec(e: XmlElement, path: Seq<char>) -> Result<TagView, ErrView> {
    match child_named(e, "dataType"@) {
        None => Err(ErrView::MissingRequiredField(path)),
        Some(c) => Ok(
            TagView { data_type: reference_spec(c), semantics: child_text(e, "semantics"@) },
        ),
    }
}

/// What an optional tag child of the `tags` section converts to.
pub open spec fn opt_tag_spec(e: XmlElement, name: Seq<char>, path: Seq<char>) -> Result<
    Option<TagView>,
    ErrView,
> {
    match child_named(e, name) {
        Some(c) => match tag_spec(c, path) {
            Ok(v) => Ok(Some(v)),
            Err(er) => Err(er),
        },
        None => Ok(None),
    }
}

impl TagType {
    /// Convert a tag element; `path` names its `dataType` child in
    /// error reports.
    pub fn from_element(e: &XmlElement, path: &str) -> (r: Result<TagType, FomError>)
        ensures
            parsed(r) == tag_spec(*e, path@),
    {
        let c = match get_required_child(e, "dataType", path) {
            Ok(c) => c,
            Err(er) => return Err(er),
        };
        Ok(
            TagType {
                data_type: ReferenceType::from_element(c),
                semantics: get_text_of_child_element(e, "semantics"),
            },
        )
    }
}

/// Convert an optional tag child of the `tags` section.
fn opt_tag_from(e: &XmlElement, name: &str, path: &str) -> (r: Result<Option<TagType>, FomError>)
    ensures
        parsed(r) == opt_tag_spec(*e, name@, path@),
{
    match get_child(e, name) {
        Some(c) => match TagType::from_element(c, path) {
            Ok(v) => Ok(Some(v)),
            Err(er) => Err(er),
        },
        None => Ok(None),
    }
}

/// The `tags` section: one optional tag per tagged runtime service.
#[derive(Debug, PartialEq)]
pub struct TagsType {
    pub update_reflect_tag: Option<TagType>,
    pub send_receive_tag: Option<TagType>,
    pub delete_remove_tag: Option<TagType>,
    pub divestiture_request_tag: Option<TagType>,
    pub divestiture_completion_tag: Option<TagType>,
    pub acquisition_request_tag: Option<TagType>,
    pub request_update_tag: Option<TagType>,
}

/// The mathematical image of a `TagsType`.
pub struct TagsView {
    pub update_reflect_tag: Option<TagView>,
    pub send_receive_tag: Option<TagView>,
    pub delete_remove_tag: Option<TagView>,
    pub divestiture_request_tag: Option<TagView>,
    pub divestiture_completion_tag: Option<TagView>,
    pub acquisition_request_tag: Option<TagView>,
    pub request_update_tag: Option<TagView>,
}

impl DeepView for TagsType {
    type V = TagsView;

    open spec fn deep_view(&self) -> TagsView {
        TagsView {
            update_reflect_tag: self.update_reflect_tag.deep_view(),
            send_receive_tag: self.send_receive_tag.deep_view(),
            delete_remove_tag: self.delete_remove_tag.deep_view(),
            divestiture_request_tag: self.divestiture_request_tag.deep_view(),
            divestiture_completion_tag: self.divestiture_completion_tag.deep_view(),
            acquisition_request_tag: self.acquisition_request_tag.deep_view(),
            request_update_tag: self.request_update_tag.deep_view(),
        }
    }
}

/// What a `tags` element converts to, tag by tag in document layout
/// order, failing fast.
pub open spec fn tags_spec(e: XmlElement) -> Result<TagsView, ErrView> {
    match opt_tag_spec(e, "update_reflect_tag"@, "tags.update_reflect_tag.dataType"@) {
        Err(er) => Err(er),
        Ok(update_reflect_tag) => match opt_tag_spec(
            e,
            "send_receive_tag"@,
            "tags.send_receive_tag.dataType"@,
        ) {
            Err(er) => Err(er),
            Ok(send_receive_tag) => match opt_tag_spec(
                e,
                "delete_remove_tag"@,
                "tags.delete_remove_tag.dataType"@,
            ) {
                Err(er) => Err(er),
                Ok(delete_remove_tag) => match opt_tag_spec(
                    e,
                    "divestiture_request_tag"@,
                    "tags.divestiture_request_tag.dataType"@,
                ) {
                    Err(er) => Err(er),
                    Ok(divestiture_request_tag) => match opt_tag_spec(
                        e,
                        "divestiture_completion_tag"@,
                        "tags.divestiture_completion_tag.dataType"@,
                    ) {
                        Err(er) => Err(er),
                        Ok(divestiture_completion_tag) => match opt_tag_spec(
                            e,
                            "acquisition_request_tag"@,
                            "tags.acquisition_request_tag.dataType"@,
                        ) {
                            Err(er) => Err(er),
                            Ok(acquisition_request_tag) => match opt_tag_spec(
                                e,
                                "request_update_tag"@,
                                "tags.request_update_tag.dataType"@,
                            ) {
                                Err(er) => Err(er),
                                Ok(request_update_tag) => Ok(
                                    TagsView {
                                        update_reflect_tag,
                                        send_receive_tag,
                                        delete_remove_tag,
                                        divestiture_request_tag,
                                        divestiture_completion_tag,
                                        acquisition_request_tag,
                                        request_update_tag,
                                    },
                                ),
                            },
                        },
                    },
                },
            },
        },
    }
}

impl TagsType {
    /// Convert a `tags` element.
    pub fn from_element(e: &XmlElement) -> (r: Result<TagsType, FomError>)
        ensures
            parsed(r) == tags_spec(*e),
    {
        let update_reflect_tag = match opt_tag_from(
            e,
            "update_reflect_tag",
            "tags.update_reflect_tag.dataType",
        ) {
            Ok(v) => v,
            Err(er) => return Err(er),
        };
        let send_receive_tag = match opt_tag_from(
            e,
            "send_receive_tag",
            "tags.send_receive_tag.dataType",
        ) {
            Ok(v) => v,
            Err(er) => return Err(er),
        };
        let delete_remove_tag = match opt_tag_from(
            e,
            "delete_remove_tag",
            "tags.delete_remove_tag.dataType",
        ) {
            Ok(v) => v,
            Err(er) => return Err(er),
        };
        let divestiture_request_tag = match opt_tag_from(
            e,
            "divestiture_request_tag",
            "tags.divestiture_request_tag.dataType",
        ) {
            Ok(v) => v,
            Err(er) => return Err(er),
        };
        let divestiture_completion_tag = match opt_tag_from(
            e,
            "divestiture_completion_tag",
            "tags.divestiture_completion_tag.dataType",
        ) {
            Ok(v) => v,
            Err(er) => return Err(er),
        };
        let acquisition_request_tag = match opt_tag_from(
            e,
            "acquisition_request_tag",
            "tags.acquisition_request_tag.dataType",
        ) {
            Ok(v) => v,
            Err(er) => return Err(er),
        };
        let request_update_tag = match opt_tag_from(
            e,
            "request_update_tag",
            "tags.request_update_tag.dataType",
        ) {
            Ok(v) => v,
            Err(er) => return Err(er),
        };
        Ok(
            TagsType {
                update_reflect_tag,
                send_receive_tag,
                delete_remove_tag,
                divestiture_request_tag,
                divestiture_completion_tag,
                acquisition_request_tag,
                request_update_tag,
            },
        )
    }
}

/// A synchronization point.
#[derive(Debug, PartialEq)]
pub struct SynchronizationPointType {
    pub label: String,
    pub data_type: Option<ReferenceType>,
    pub capability: CapabilityType,
    pub semantics: Option<String>,
}

/// The mathematical image of a `SynchronizationPointType`.
pub struct SynchronizationPointView {
    pub label: Seq<char>,
    pub data_type: Option<ReferenceView>,
    pub capability: CapabilityType,
    pub semantics: Option<Seq<char>>,
}

impl DeepView for SynchronizationPointType {
    type V = SynchronizationPointView;

    open spec fn deep_view(&self) -> SynchronizationPointView {
        SynchronizationPointView {
            label: self.label@,
            data_type: self.data_type.deep_view(),
            capability: self.capability,
            semantics: self.semantics.deep_view(),
        }
    }
}

/// What a `synchronizationPoint` element converts to. Fail-fast order:
/// the required label, the required capability element, then its token.
pub open spec fn synchronization_point_spec(e: XmlElement) -> Result<
    SynchronizationPointView,
    ErrView,
> {
    if child_named(e, "label"@) is None {
        Err(ErrView::MissingRequiredField("synchronizations.synchronizationPoint.label"@))
    } else {
        match child_named(e, "capability"@) {
            None => Err(
                ErrView::MissingRequiredField(
                    "synchronizations.synchronizationPoint.capability"@,
                ),
            ),
            Some(cc) => match capability_spec(elem_text(cc)) {
                Err(er) => Err(er),
                Ok(capability) => Ok(
                    SynchronizationPointView {
                        label: child_text(e, "label"@)->Some_0,
                        data_type: match child_named(e, "dataType"@) {
                            Some(c) => Some(reference_spec(c)),
                            None => None,
                        },
                        capability,
                        semantics: child_text(e, "semantics"@),
                    },
                ),
            },
        }
    }
}

impl SynchronizationPointType {
    /// Convert a `synchronizationPoint` element.
    pub fn from_element(e: &XmlElement) -> (r: Result<SynchronizationPointType, FomError>)
        ensures
            parsed(r) == synchronization_point_spec(*e),
    {
        let label = match get_required_text(
            e,
            "label",
            "synchronizations.synchronizationPoint.label",
        ) {
            Ok(t) => t,
            Err(er) => return Err(er),
        };
        let cc = match get_required_child(
            e,
            "capability",
            "synchronizations.synchronizationPoint.capability",
        ) {
            Ok(c) => c,
            Err(er) => return Err(er),
        };
        let capability = match CapabilityType::from_element(cc) {
            Ok(v) => v,
            Err(er) => return Err(er),
        };
        Ok(
            SynchronizationPointType {
                label,
                data_type: match get_child(e, "dataType") {
                    Some(c) => Some(ReferenceType::from_element(c)),
                    None => None,
                },
                capability,
                semantics: get_text_of_child_element(e, "semantics"),
            },
        )
    }
}

/// The `synchronizations` section.
#[derive(Debug, PartialEq)]
pub struct SynchronizationsType {
    pub synchronization_points: Option<Vec<SynchronizationPointType>>,
}

/// The mathematical image of a `SynchronizationsType`.
pub struct SynchronizationsView {
    pub synchronization_points: Option<Seq<SynchronizationPointView>>,
}

impl DeepView for SynchronizationsType {
    type V = SynchronizationsView;

    open spec fn deep_view(&self) -> SynchronizationsView {
        SynchronizationsView { synchronization_points: self.synchronization_points.deep_view() }
    }
}

/// What a `synchronizations` element converts to.
pub open spec fn synchronizations_spec(e: XmlElement) -> Result<SynchronizationsView, ErrView> {
    match list_spec(
        e.children@,
        "synchronizationPoint"@,
        |c: XmlElement| synchronization_point_spec(c),
    ) {
        Err(er) => Err(er),
        Ok(points) => Ok(SynchronizationsView { synchronization_points: absent_if_empty(points) }),
    }
}

impl SynchronizationsType {
    /// Convert a `synchronizations` element.
    pub fn from_element(e: &XmlElement) -> (r: Result<SynchronizationsType, FomError>)
        ensures
            parsed(r) == synchronizations_spec(*e),
    {
        let points = match collect_children(
            e,
            "synchronizationPoint",
            SynchronizationPointType::from_element,
            Ghost(|c: XmlElement| synchronization_point_spec(c)),
        ) {
            Ok(v) => v,
            Err(er) => return Err(er),
        };
        Ok(
            SynchronizationsType {
                synchronization_points: if points.len() == 0 {
                    None
                } else {
                    Some(points)
                },
            },
        )
    }
}

/// A transportation mechanism.
#[derive(Debug, PartialEq)]
pub struct TransportationType {
    pub name: String,
    pub reliable: ReliableType,
    pub semantics: Option<String>,
}

/// The mathematical image of a `TransportationType`.
pub struct TransportationView {
    pub name: Seq<char>,
    pub reliable: ReliableType,
    pub semantics: Option<Seq<char>>,
}

impl DeepView for TransportationType {
    type V = TransportationView;

    open spec fn deep_view(&self) -> TransportationView {
        TransportationView {
            name: self.name@,
            reliable: self.reliable,
            semantics: self.semantics.deep_view(),
        }
    }
}

/// What a `transportation` element converts to. Fail-fast order: the
/// required name, the required reliable element, then its token.
pub open spec fn transportation_spec(e: XmlElement) -> Result<TransportationView, ErrView> {
    if child_named(e, "name"@) is None {
        Err(ErrView::MissingRequiredField("transportations.transportation.name"@))
    } else {
        match child_named(e, "reliable"@) {
            None => Err(
                ErrView::MissingRequiredField("transportations.transportation.reliable"@),
            ),
            Some(rc) => match reliable_spec(elem_text(rc)) {
                Err(er) => Err(er),
                Ok(reliable) => Ok(
                    TransportationView {
                        name: child_text(e, "name"@)->Some_0,
                        reliable,
                        semantics: child_text(e, "semantics"@),
                    },
                ),
            },
        }
    }
}

impl TransportationType {
    /// Convert a `transportation` element.
    pub fn from_element(e: &XmlElement) -> (r: Result<TransportationType, FomError>)
        ensures
            parsed(r) == transportation_spec(*e),
    {
        let name = match get_required_text(e, "name", "transportations.transportation.name") {
            Ok(t) => t,
            Err(er) => return Err(er),
        };
        let rc = match get_required_child(
            e,
            "reliable",
            "transportations.transportation.reliable",
        ) {
            Ok(c) => c,
            Err(er) => return Err(er),
        };
        let reliable = match ReliableType::from_element(rc) {
            Ok(v) => v,
            Err(er) => return Err(er),
        };
        Ok(
            TransportationType {
                name,
                reliable,
                semantics: get_text_of_child_element(e, "semantics"),
            },
        )
    }
}

/// The `transportations` section.
#[derive(Debug, PartialEq)]
pub struct TransportationsType {
    pub transportations: Option<Vec<TransportationType>>,
}

/// The mathematical image of a `TransportationsType`.
pub struct TransportationsView {
    pub transportations: Option<Seq<TransportationView>>,
}

impl DeepView for TransportationsType {
    type V = TransportationsView;

    open spec fn deep_view(&self) -> TransportationsView {
        TransportationsView { transportations: self.transportations.deep_view() }
    }
}

/// What a `transportations` element converts to.
pub open spec fn transportations_spec(e: XmlElement) -> Result<TransportationsView, ErrView> {
    match list_spec(e.children@, "transportation"@, |c: XmlElement| transportation_spec(c)) {
        Err(er) => Err(er),
        Ok(items) => Ok(TransportationsView { transportations: absent_if_empty(items) }),
    }
}

impl TransportationsType {
    /// Convert a `transportations` element.
    pub fn from_element(e: &XmlElement) -> (r: Result<TransportationsType, FomError>)
        ensures
            parsed(r) == transportations_spec(*e),
    {
        let items = match collect_children(
            e,
            "transportation",
            TransportationType::from_element,
            Ghost(|c: XmlElement| transportation_spec(c)),
        ) {
            Ok(v) => v,
            Err(er) => return Err(er),
        };
        Ok(
            TransportationsType {
                transportations: if items.len() == 0 {
                    None
                } else {
                    Some(items)
                },
            },
        )
    }
}

/// One boolean federation switch.
#[derive(Clone, Copy, Debug, PartialEq, Eq)]
pub struct SwitchType {
    pub is_enabled: bool,
}

impl DeepView for SwitchType {
    type V = SwitchType;

    open spec fn deep_view(&self) -> SwitchType {
        *self
    }
}

/// What a switch attribute's text converts to: a boolean literal, or a
/// Malformed-Scalar failure carrying the text.
pub open spec fn switch_spec(t: Seq<char>) -> Result<SwitchType, ErrView> {
    if t == "true"@ {
        Ok(SwitchType { is_enabled: true })
    } else if t == "false"@ {
        Ok(SwitchType { is_enabled: false })
    } else {
        Err(ErrView::MalformedScalar(t))
    }
}

impl SwitchType {
    /// Convert a switch attribute's text.
    pub fn from_text(text: String) -> (r: Result<SwitchType, FomError>)
        ensures
            parsed(r) == switch_spec(text@),
    {
        match parse_bool(text.as_str()) {
            Some(b) => Ok(SwitchType { is_enabled: b }),
            None => Err(FomError::malformed(text)),
        }
    }
}

/// A required switch attribute: absent is a Missing-Required-Field
/// failure naming `path`; present its text must be a boolean literal.
pub open spec fn req_switch_spec(e: XmlElement, name: Seq<char>, path: Seq<char>) -> Result<
    SwitchType,
    ErrView,
> {
    match attr_text(e, name) {
        None => Err(ErrView::MissingRequiredField(path)),
        Some(t) => switch_spec(t),
    }
}

/// Convert a required switch attribute of the `switches` element.
fn req_switch_from(e: &XmlElement, name: &str, path: &str) -> (r: Result<SwitchType, FomError>)
    ensures
        parsed(r) == req_switch_spec(*e, name@, path@),
{
    match get_text_of_attribute(e, name) {
        None => Err(FomError::missing(path)),
        Some(t) => SwitchType::from_text(t),
    }
}

/// The `switches` section: exactly eleven named flags, all mandatory,
/// each materially changing runtime federate behaviour.
#[derive(Clone, Copy, Debug, PartialEq, Eq)]
pub struct SwitchesType {
    pub auto_provide: SwitchType,
    pub convey_region_designator_sets: SwitchType,
    pub convey_producing_federate: SwitchType,
    pub attribute_scope_advisory: SwitchType,
    pub attribute_relevance_advisory: SwitchType,
    pub object_class_relevance_advisory: SwitchType,
    pub interaction_relevance_advisory: SwitchType,
    pub service_reporting: SwitchType,
    pub exception_reporting: SwitchType,
    pub delay_subscription_evaluation: SwitchType,
    pub automatic_resign_action: ResignSwitchType,
}

impl DeepView for SwitchesType {
    type V = SwitchesType;

    open spec fn deep_view(&self) -> SwitchesType {
        *self
    }
}

/// What a `switches` element converts to: the eleven attributes in
/// order, failing fast on the first missing or malformed one.
pub open spec fn switches_spec(e: XmlElement) -> Result<SwitchesType, ErrView> {
    match req_switch_spec(e, "auto_provide"@, "switches.auto_provide"@) {
        Err(er) => Err(er),
        Ok(auto_provide) => match req_switch_spec(
            e,
            "convey_region_designator_sets"@,
            "switches.convey_region_designator_sets"@,
        ) {
            Err(er) => Err(er),
            Ok(convey_region_designator_sets) => match req_switch_spec(
                e,
                "convey_producing_federate"@,
                "switches.convey_producing_federate"@,
            ) {
                Err(er) => Err(er),
                Ok(convey_producing_federate) => match req_switch_spec(
                    e,
                    "attribute_scope_advisory"@,
                    "switches.attribute_scope_advisory"@,
                ) {
                    Err(er) => Err(er),
                    Ok(attribute_scope_advisory) => match req_switch_spec(
                        e,
                        "attribute_relevance_advisory"@,
                        "switches.attribute_relevance_advisory"@,
                    ) {
                        Err(er) => Err(er),
                        Ok(attribute_relevance_advisory) => match req_switch_spec(
                            e,
                            "object_class_relevance_advisory"@,
                            "switches.object_class_relevance_advisory"@,
                        ) {
                            Err(er) => Err(er),
                            Ok(object_class_relevance_advisory) => match req_switch_spec(
                                e,
                                "interaction_relevance_advisory"@,
                                "switches.interaction_relevance_advisory"@,
                            ) {
                                Err(er) => Err(er),
                                Ok(interaction_relevance_advisory) => match req_switch_spec(
                                    e,
                                    "service_reporting"@,
                                    "switches.service_reporting"@,
                                ) {
                                    Err(er) => Err(er),
                                    Ok(service_reporting) => match req_switch_spec(
                                        e,
                                        "exception_reporting"@,
                                        "switches.exception_reporting"@,
                                    ) {
                                        Err(er) => Err(er),
                                        Ok(exception_reporting) => match req_switch_spec(
                                            e,
                                            "delay_subscription_evaluation"@,
                                            "switches.delay_subscription_evaluation"@,
                                        ) {
                                            Err(er) => Err(er),
                                            Ok(delay_subscription_evaluation) => match attr_text(
                                                e,
                                                "automatic_resign_action"@,
                                            ) {
                                                None => Err(
                                                    ErrView::MissingRequiredField(
                                                        "switches.automatic_resign_action"@,
                                                    ),
                                                ),
                                                Some(t) => match resign_switch_spec(t) {
                                                    Err(er) => Err(er),
                                                    Ok(automatic_resign_action) => Ok(
                                                        SwitchesType {
                                                            auto_provide,
                                                            convey_region_designator_sets,
                                                            convey_producing_federate,
                                                            attribute_scope_advisory,
                                                            attribute_relevance_advisory,
                                                            object_class_relevance_advisory,
                                                            interaction_relevance_advisory,
                                                            service_reporting,
                                                            exception_reporting,
                                                            delay_subscription_evaluation,
                                                            automatic_resign_action,
                                                        },
                                                    ),
                                                },
                                            },
                                        },
                                    },
                                },
                            },
                        },
                    },
                },
            },
        },
    }
}

impl SwitchesType {
    /// Convert a `switches` element.
    pub fn from_element(e: &XmlElement) -> (r: Result<SwitchesType, FomError>)
        ensures
            parsed(r) == switches_spec(*e),
    {
        let auto_provide = match req_switch_from(e, "auto_provide", "switches.auto_provide") {
            Ok(v) => v,
            Err(er) => return Err(er),
        };
        let convey_region_designator_sets = match req_switch_from(
            e,
            "convey_region_designator_sets",
            "switches.convey_region_designator_sets",
        ) {
            Ok(v) => v,
            Err(er) => return Err(er),
        };
        let convey_producing_federate = match req_switch_from(
            e,
            "convey_producing_federate",
            "switches.convey_producing_federate",
        ) {
            Ok(v) => v,
            Err(er) => return Err(er),
        };
        let attribute_scope_advisory = match req_switch_from(
            e,
            "attribute_scope_advisory",
            "switches.attribute_scope_advisory",
        ) {
            Ok(v) => v,
            Err(er) => return Err(er),
        };
        let attribute_relevance_advisory = match req_switch_from(
            e,
            "attribute_relevance_advisory",
            "switches.attribute_relevance_advisory",
        ) {
            Ok(v) => v,
            Err(er) => return Err(er),
        };
        let object_class_relevance_advisory = match req_switch_from(
            e,
            "object_class_relevance_advisory",
            "switches.object_class_relevance_advisory",
        ) {
            Ok(v) => v,
            Err(er) => return Err(er),
        };
        let interaction_relevance_advisory = match req_switch_from(
            e,
            "interaction_relevance_advisory",
            "switches.interaction_relevance_advisory",
        ) {
            Ok(v) => v,
            Err(er) => return Err(er),
        };
        let service_reporting = match req_switch_from(
            e,
            "service_reporting",
            "switches.service_reporting",
        ) {
            Ok(v) => v,
            Err(er) => return Err(er),
        };
        let exception_reporting = match req_switch_from(
            e,
            "exception_reporting",
            "switches.exception_reporting",
        ) {
            Ok(v) => v,
            Err(er) => return Err(er),
        };
        let delay_subscription_evaluation = match req_switch_from(
            e,
            "delay_subscription_evaluation",
            "switches.delay_subscription_evaluation",
        ) {
            Ok(v) => v,
            Err(er) => return Err(er),
        };
        let rt = match get_text_of_attribute(e, "automatic_resign_action") {
            Some(t) => t,
            None => return Err(FomError::missing("switches.automatic_resign_action")),
        };
        let automatic_resign_action = match ResignSwitchType::from_text(rt) {
            Ok(v) => v,
            Err(er) => return Err(er),
        };
        Ok(
            SwitchesType {
                auto_provide,
                convey_region_designator_sets,
                convey_producing_federate,
                attribute_scope_advisory,
                attribute_relevance_advisory,
                object_class_relevance_advisory,
                interaction_relevance_advisory,
                service_reporting,
                exception_reporting,
                delay_subscription_evaluation,
                automatic_resign_action,
            },
        )
    }
}

/// An update-rate value.
#[derive(Debug, PartialEq)]
pub struct RateType {
    pub value: String,
}

/// The mathematical image of a `RateType`.
pub struct RateView {
    pub value: Seq<char>,
}

impl DeepView for RateType {
    type V = RateView;

    open spec fn deep_view(&self) -> RateView {
        RateView { value: self.value@ }
    }
}

/// What a `rate` element converts to: its trimmed text.
pub open spec fn rate_spec(e: XmlElement) -> RateView {
    RateView { value: elem_text(e) }
}

impl RateType {
    /// Convert a `rate` element.
    pub fn from_element(e: &XmlElement) -> (r: RateType)
        ensures
            r.deep_view() == rate_spec(*e),
    {
        RateType { value: get_element_text(e) }
    }
}

/// A named update rate.
#[derive(Debug, PartialEq)]
pub struct UpdateRateType {
    pub name: String,
    pub rate: RateType,
    pub semantics: Option<String>,
}

/// The mathematical image of an `UpdateRateType`.
pub struct UpdateRateView {
    pub name: Seq<char>,
    pub rate: RateView,
    pub semantics: Option<Seq<char>>,
}

impl DeepView for UpdateRateType {
    type V = UpdateRateView;

    open spec fn deep_view(&self) -> UpdateRateView {
        UpdateRateView {
            name: self.name@,
            rate: self.rate.deep_view(),
            semantics: self.semantics.deep_view(),
        }
    }
}

/// What an `updateRate` element converts to. Fail-fast order: the
/// required name, then the required rate.
pub open spec fn update_rate_spec(e: XmlElement) -> Result<UpdateRateView, ErrView> {
    if child_named(e, "name"@) is None {
        Err(ErrView::MissingRequiredField("updateRates.updateRate.name"@))
    } else if child_named(e, "rate"@) is None {
        Err(ErrView::MissingRequiredField("updateRates.updateRate.rate"@))
    } else {
        Ok(
            UpdateRateView {
                name: child_text(e, "name"@)->Some_0,
                rate: rate_spec(child_named(e, "rate"@)->Some_0),
                semantics: child_text(e, "semantics"@),
            },
        )
    }
}

impl UpdateRateType {
    /// Convert an `updateRate` element.
    pub fn from_element(e: &XmlElement) -> (r: Result<UpdateRateType, FomError>)
        ensures
            parsed(r) == update_rate_spec(*e),
    {
        let name = match get_required_text(e, "name", "updateRates.updateRate.name") {
            Ok(t) => t,
            Err(er) => return Err(er),
        };
        let rc = match get_required_child(e, "rate", "updateRates.updateRate.rate") {
            Ok(c) => c,
            Err(er) => return Err(er),
        };
        Ok(
            UpdateRateType {
                name,
                rate: RateType::from_element(rc),
                semantics: get_text_of_child_element(e, "semantics"),
            },
        )
    }
}

/// The `updateRates` section.
#[derive(Debug, PartialEq)]
pub struct UpdateRatesType {
    pub update_rates: Option<Vec<UpdateRateType>>,
}

/// The mathematical image of an `UpdateRatesType`.
pub struct UpdateRatesView {
    pub update_rates: Option<Seq<UpdateRateView>>,
}

impl DeepView for UpdateRatesType {
    type V = UpdateRatesView;

    open spec fn deep_view(&self) -> UpdateRatesView {
        UpdateRatesView { update_rates: self.update_rates.deep_view() }
    }
}

/// What an `updateRates` element converts to.
pub open spec fn update_rates_spec(e: XmlElement) -> Result<UpdateRatesView, ErrView> {
    match list_spec(e.children@, "updateRate"@, |c: XmlElement| update_rate_spec(c)) {
        Err(er) => Err(er),
        Ok(items) => Ok(UpdateRatesView { update_rates: absent_if_empty(items) }),
    }
}

impl UpdateRatesType {
    /// Convert an `updateRates` element.
    pub fn from_element(e: &XmlElement) -> (r: Result<UpdateRatesType, FomError>)
        ensures
            parsed(r) == update_rates_spec(*e),
    {
        let items = match collect_children(
            e,
            "updateRate",
            UpdateRateType::from_element,
            Ghost(|c: XmlElement| update_rate_spec(c)),
        ) {
            Ok(v) => v,
            Err(er) => return Err(er),
        };
        Ok(
            UpdateRatesType {
                update_rates: if items.len() == 0 {
                    None
                } else {
                    Some(items)
                },
            },
        )
    }
}

/// A note: a required label and optional semantics.
#[derive(Debug, PartialEq)]
pub struct NoteType {
    pub label: String,
    pub semantics: Option<String>,
}

/// The mathematical image of a `NoteType`.
pub struct NoteView {
    pub label: Seq<char>,
    pub semantics: Option<Seq<char>>,
}

impl DeepView for NoteType {
    type V = NoteView;

    open spec fn deep_view(&self) -> NoteView {
        NoteView { label: self.label@, semantics: self.semantics.deep_view() }
    }
}

/// What a `note` element converts to.
pub open spec fn note_spec(e: XmlElement) -> Result<NoteView, ErrView> {
    if child_named(e, "label"@) is None {
        Err(ErrView::MissingRequiredField("notes.note.label"@))
    } else {
        Ok(
            NoteView {
                label: child_text(e, "label"@)->Some_0,
                semantics: child_text(e, "semantics"@),
            },
        )
    }
}

impl NoteType {
    /// Convert a `note` element.
    pub fn from_element(e: &XmlElement) -> (r: Result<NoteType, FomError>)
        ensures
            parsed(r) == note_spec(*e),
    {
        let label = match get_required_text(e, "label", "notes.note.label") {
            Ok(t) => t,
            Err(er) => return Err(er),
        };
        Ok(NoteType { label, semantics: get_text_of_child_element(e, "semantics") })
    }
}

/// The `notes` section.
#[derive(Debug, PartialEq)]
pub struct NotesType {
    pub notes: Option<Vec<NoteType>>,
}

/// The mathematical image of a `NotesType`.
pub struct NotesView {
    pub notes: Option<Seq<NoteView>>,
}

impl DeepView for NotesType {
    type V = NotesView;

    open spec fn deep_view(&self) -> NotesView {
        NotesView { notes: self.notes.deep_view() }
    }
}

/// What a `notes` element converts to.
pub open spec fn notes_spec(e: XmlElement) -> Result<NotesView, ErrView> {
    match list_spec(e.children@, "note"@, |c: XmlElement| note_spec(c)) {
        Err(er) => Err(er),
        Ok(items) => Ok(NotesView { notes: absent_if_empty(items) }),
    }
}

impl NotesType {
    /// Convert a `notes` element.
    pub fn from_element(e: &XmlElement) -> (r: Result<NotesType, FomError>)
        ensures
            parsed(r) == notes_spec(*e),
    {
        let items = match collect_children(
            e,
            "note",
            NoteType::from_element,
            Ghost(|c: XmlElement| note_spec(c)),
        ) {
            Ok(v) => v,
            Err(er) => return Err(er),
        };
        Ok(
            NotesType {
                notes: if items.len() == 0 {
                    None
                } else {
                    Some(items)
                },
            },
        )
    }
}

} // verus!
