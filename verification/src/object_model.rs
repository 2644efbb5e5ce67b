//! The object-model assembler: the top-level conversion composing every
//! section converter into the final document. The sections
//! `modelIdentification`, `objects`, `interactions`, `dimensions`,
//! `transportations`, `switches` and `dataTypes` are mandatory; all
//! others are optional. The first error anywhere aborts the whole parse
//! and no partial object model is ever returned.

use vstd::prelude::*;
use crate::classes::{
    InteractionsType, InteractionsView, ObjectsType, ObjectsView, interactions_spec, objects_spec,
};
use crate::datatypes::{DataTypesType, DataTypesView, data_types_spec};
use crate::error::{ErrView, FomError, parsed};
use crate::identification::{
    ModelIdentificationType, ModelIdentificationView, ServiceUtiliizationType,
    ServiceUtilizationView, model_identification_spec, service_utilization_spec,
};
use crate::sections::{
    DimensionsType, DimensionsView, NotesType, NotesView, SwitchesType, SynchronizationsType,
    SynchronizationsView, TagsType, TagsView, TimeType, TimeView, TransportationsType,
    TransportationsView, UpdateRatesType, UpdateRatesView, dimensions_spec, notes_spec,
    switches_spec, synchronizations_spec, tags_spec, time_spec, transportations_spec,
    update_rates_spec,
};
use crate::xml::{XmlElement, attr_text, child_named, get_child};

verus! {

/// A fully populated object-model document.
#[derive(Debug, PartialEq)]
pub struct ObjectModelType {
    pub model_identification: ModelIdentificationType,
    pub service_utilization: Option<ServiceUtiliizationType>,
    pub objects: ObjectsType,
    pub interactions: InteractionsType,
    pub dimensions: DimensionsType,
    pub time: Option<TimeType>,
    pub tags: Option<TagsType>,
    pub synchronizations: Option<SynchronizationsType>,
    pub transportations: TransportationsType,
    pub switches: SwitchesType,
    pub update_rates: Option<UpdateRatesType>,
    pub data_types: DataTypesType,
    pub notes: Option<NotesType>,
}

/// The mathematical image of an `ObjectModelType`.
pub struct ObjectModelView {
    pub model_identification: ModelIdentificationView,
    pub service_utilization: Option<ServiceUtilizationView>,
    pub objects: ObjectsView,
    pub interactions: InteractionsView,
    pub dimensions: DimensionsView,
    pub time: Option<TimeView>,
    pub tags: Option<TagsView>,
    pub synchronizations: Option<SynchronizationsView>,
    pub transportations: TransportationsView,
    pub switches: SwitchesType,
    pub update_rates: Option<UpdateRatesView>,
    pub data_types: DataTypesView,
    pub notes: Option<NotesView>,
}

impl DeepView for ObjectModelType {
    type V = ObjectModelView;

    open spec fn deep_view(&self) -> ObjectModelView {
        ObjectModelView {
            model_identification: self.model_identification.deep_view(),
            service_utilization: self.service_utilization.deep_view(),
            objects: self.objects.deep_view(),
            interactions: self.interactions.deep_view(),
            dimensions: self.dimensions.deep_view(),
            time: self.time.deep_view(),
            tags: self.tags.deep_view(),
            synchronizations: self.synchronizations.deep_view(),
            transportations: self.transportations.deep_view(),
            switches: self.switches.deep_view(),
            update_rates: self.update_rates.deep_view(),
            data_types: self.data_types.deep_view(),
            notes: self.notes.deep_view(),
        }
    }
}

// The mandatory sections: absence is a Missing-Required-Field failure
// naming the section.

/// The required `objects` section of the root element.
pub open spec fn sec_objects_spec(e: XmlElement) -> Result<ObjectsView, ErrView> {
    match child_named(e, "objects"@) {
        None => Err(ErrView::MissingRequiredField("objects"@)),
        Some(c) => objects_spec(c),
    }
}

fn sec_objects(e: &XmlElement) -> (r: Result<ObjectsType, FomError>)
    ensures
        parsed(r) == sec_objects_spec(*e),
{
    match get_child(e, "objects") {
        Some(c) => ObjectsType::from_element(c),
        None => Err(FomError::missing("objects")),
    }
}

/// The required `interactions` section of the root element.
pub open spec fn sec_interactions_spec(e: XmlElement) -> Result<InteractionsView, ErrView> {
    match child_named(e, "interactions"@) {
        None => Err(ErrView::MissingRequiredField("interactions"@)),
        Some(c) => interactions_spec(c),
    }
}

fn sec_interactions(e: &XmlElement) -> (r: Result<InteractionsType, FomError>)
    ensures
        parsed(r) == sec_interactions_spec(*e),
{
    match get_child(e, "interactions") {
        Some(c) => InteractionsType::from_element(c),
        None => Err(FomError::missing("interactions")),
    }
}

/// The required `transportations` section of the root element.
pub open spec fn sec_transportations_spec(e: XmlElement) -> Result<TransportationsView, ErrView> {
    match child_named(e, "transportations"@) {
        None => Err(ErrView::MissingRequiredField("transportations"@)),
        Some(c) => transportations_spec(c),
    }
}

fn sec_transportations(e: &XmlElement) -> (r: Result<TransportationsType, FomError>)
    ensures
        parsed(r) == sec_transportations_spec(*e),
{
    match get_child(e, "transportations") {
        Some(c) => TransportationsType::from_element(c),
        None => Err(FomError::missing("transportations")),
    }
}

/// The required `switches` section of the root element.
pub open spec fn sec_switches_spec(e: XmlElement) -> Result<SwitchesType, ErrView> {
    match child_named(e, "switches"@) {
        None => Err(ErrView::MissingRequiredField("switches"@)),
        Some(c) => switches_spec(c),
    }
}

fn sec_switches(e: &XmlElement) -> (r: Result<SwitchesType, FomError>)
    ensures
        parsed(r) == sec_switches_spec(*e),
{
    match get_child(e, "switches") {
        Some(c) => SwitchesType::from_element(c),
        None => Err(FomError::missing("switches")),
    }
}

/// The required `dataTypes` section of the root element.
pub open spec fn sec_data_types_spec(e: XmlElement) -> Result<DataTypesView, ErrView> {
    match child_named(e, "dataTypes"@) {
        None => Err(ErrView::MissingRequiredField("dataTypes"@)),
        Some(c) => data_types_spec(c),
    }
}

fn sec_data_types(e: &XmlElement) -> (r: Result<DataTypesType, FomError>)
    ensures
        parsed(r) == sec_data_types_spec(*e),
{
    match get_child(e, "dataTypes") {
        Some(c) => DataTypesType::from_element(c),
        None => Err(FomError::missing("dataTypes")),
    }
}

// The optional sections whose converters can fail: absence is `None`,
// and a failure inside one aborts the parse.

/// The optional `time` section of the root element.
pub open spec fn opt_time_spec(e: XmlElement) -> Result<Option<TimeView>, ErrView> {
    match child_named(e, "time"@) {
        Some(c) => match time_spec(c) {
            Ok(v) => Ok(Some(v)),
            Err(er) => Err(er),
        },
        None => Ok(None),
    }
}

fn opt_time(e: &XmlElement) -> (r: Result<Option<TimeType>, FomError>)
    ensures
        parsed(r) == opt_time_spec(*e),
{
    match get_child(e, "time") {
        Some(c) => match TimeType::from_element(c) {
            Ok(v) => Ok(Some(v)),
            Err(er) => Err(er),
        },
        None => Ok(None),
    }
}

/// The optional `tags` section of the root element.
pub open spec fn opt_tags_spec(e: XmlElement) -> Result<Option<TagsView>, ErrView> {
    match child_named(e, "tags"@) {
        Some(c) => match tags_spec(c) {
            Ok(v) => Ok(Some(v)),
            Err(er) => Err(er),
        },
        None => Ok(None),
    }
}

fn opt_tags(e: &XmlElement) -> (r: Result<Option<TagsType>, FomError>)
    ensures
        parsed(r) == opt_tags_spec(*e),
{
    match get_child(e, "tags") {
        Some(c) => match TagsType::from_element(c) {
            Ok(v) => Ok(Some(v)),
            Err(er) => Err(er),
        },
        None => Ok(None),
    }
}

/// The optional `synchronizations` section of the root element.
pub open spec fn opt_synchronizations_spec(e: XmlElement) -> Result<
    Option<SynchronizationsView>,
    ErrView,
> {
    match child_named(e, "synchronizations"@) {
        Some(c) => match synchronizations_spec(c) {
            Ok(v) => Ok(Some(v)),
            Err(er) => Err(er),
        },
        None => Ok(None),
    }
}

fn opt_synchronizations(e: &XmlElement) -> (r: Result<Option<SynchronizationsType>, FomError>)
    ensures
        parsed(r) == opt_synchronizations_spec(*e),
{
    match get_child(e, "synchronizations") {
        Some(c) => match SynchronizationsType::from_element(c) {
            Ok(v) => Ok(Some(v)),
            Err(er) => Err(er),
        },
        None => Ok(None),
    }
}

/// The optional `updateRates` section of the root element.
pub open spec fn opt_update_rates_spec(e: XmlElement) -> Result<Option<UpdateRatesView>, ErrView> {
    match child_named(e, "updateRates"@) {
        Some(c) => match update_rates_spec(c) {
            Ok(v) => Ok(Some(v)),
            Err(er) => Err(er),
        },
        None => Ok(None),
    }
}

fn opt_update_rates(e: &XmlElement) -> (r: Result<Option<UpdateRatesType>, FomError>)
    ensures
        parsed(r) == opt_update_rates_spec(*e),
{
    match get_child(e, "updateRates") {
        Some(c) => match UpdateRatesType::from_element(c) {
            Ok(v) => Ok(Some(v)),
            Err(er) => Err(er),
        },
        None => Ok(None),
    }
}

/// The optional `notes` section of the root element.
pub open spec fn opt_notes_spec(e: XmlElement) -> Result<Option<NotesView>, ErrView> {
    match child_named(e, "notes"@) {
        Some(c) => match notes_spec(c) {
            Ok(v) => Ok(Some(v)),
            Err(er) => Err(er),
        },
        None => Ok(None),
    }
}

fn opt_notes(e: &XmlElement) -> (r: Result<Option<NotesType>, FomError>)
    ensures
        parsed(r) == opt_notes_spec(*e),
{
    match get_child(e, "notes") {
        Some(c) => match NotesType::from_element(c) {
            Ok(v) => Ok(Some(v)),
            Err(er) => Err(er),
        },
        None => Ok(None),
    }
}

/// What the root element converts to: every section in document layout
/// order, failing fast — a mandatory section that is absent is a
/// Missing-Required-Field failure naming it.
pub open spec fn object_model_spec(e: XmlElement) -> Result<ObjectModelView, ErrView> {
    if child_named(e, "modelIdentification"@) is None {
        Err(ErrView::MissingRequiredField("modelIdentification"@))
    } else {
        match sec_objects_spec(e) {
            Err(er) => Err(er),
            Ok(objects) => match sec_interactions_spec(e) {
                Err(er) => Err(er),
                Ok(interactions) => if child_named(e, "dimensions"@) is None {
                    Err(ErrView::MissingRequiredField("dimensions"@))
                } else {
                    match opt_time_spec(e) {
                        Err(er) => Err(er),
                        Ok(time) => match opt_tags_spec(e) {
                            Err(er) => Err(er),
                            Ok(tags) => match opt_synchronizations_spec(e) {
                                Err(er) => Err(er),
                                Ok(synchronizations) => match sec_transportations_spec(e) {
                                    Err(er) => Err(er),
                                    Ok(transportations) => match sec_switches_spec(e) {
                                        Err(er) => Err(er),
                                        Ok(switches) => match opt_update_rates_spec(e) {
                                            Err(er) => Err(er),
                                            Ok(update_rates) => match sec_data_types_spec(e) {
                                                Err(er) => Err(er),
                                                Ok(data_types) => match opt_notes_spec(e) {
                                                    Err(er) => Err(er),
                                                    Ok(notes) => Ok(
                                                        ObjectModelView {
                                                            model_identification:
                                                                model_identification_spec(
                                                                child_named(
                                                                    e,
                                                                    "modelIdentification"@,
                                                                )->Some_0,
                                                            ),
                                                            service_utilization: match child_named(
                                                                e,
                                                                "serviceUtilization"@,
                                                            ) {
                                                                Some(c) => Some(
                                                                    service_utilization_spec(c),
                                                                ),
                                                                None => None,
                                                            },
                                                            objects,
                                                            interactions,
                                                            dimensions: dimensions_spec(
                                                                child_named(e, "dimensions"@)->Some_0,
                                                            ),
                                                            time,
                                                            tags,
                                                            synchronizations,
                                                            transportations,
                                                            switches,
                                                            update_rates,
                                                            data_types,
                                                            notes,
                                                        },
                                                    ),
                                                },
                                            },
                                        },
                                    },
                                },
                            },
                        },
                    }
                },
            },
        }
    }
}

/// A document whose mandatory sections are all present and convert,
/// and in which every optional section is absent, parses successfully,
/// and every optional section of the result is absent.
pub proof fn lemma_minimal_document_parses(e: XmlElement)
    requires
        child_named(e, "modelIdentification"@) is Some,
        sec_objects_spec(e) is Ok,
        sec_interactions_spec(e) is Ok,
        child_named(e, "dimensions"@) is Some,
        sec_transportations_spec(e) is Ok,
        sec_switches_spec(e) is Ok,
        sec_data_types_spec(e) is Ok,
        child_named(e, "serviceUtilization"@) is None,
        child_named(e, "time"@) is None,
        child_named(e, "tags"@) is None,
        child_named(e, "synchronizations"@) is None,
        child_named(e, "updateRates"@) is None,
        child_named(e, "notes"@) is None,
    ensures
        object_model_spec(e) is Ok,
        object_model_spec(e)->Ok_0.service_utilization is None,
        object_model_spec(e)->Ok_0.time is None,
        object_model_spec(e)->Ok_0.tags is None,
        object_model_spec(e)->Ok_0.synchronizations is None,
        object_model_spec(e)->Ok_0.update_rates is None,
        object_model_spec(e)->Ok_0.notes is None,
{
}

/// Removing the `auto_provide` attribute from the `switches` element of
/// an otherwise well-formed document makes the whole parse fail with a
/// Missing-Required-Field error naming `switches.auto_provide`: no
/// object model, not even a partial one, is returned.
pub proof fn lemma_missing_auto_provide_fails(e: XmlElement)
    requires
        child_named(e, "modelIdentification"@) is Some,
        sec_objects_spec(e) is Ok,
        sec_interactions_spec(e) is Ok,
        child_named(e, "dimensions"@) is Some,
        opt_time_spec(e) is Ok,
        opt_tags_spec(e) is Ok,
        opt_synchronizations_spec(e) is Ok,
        sec_transportations_spec(e) is Ok,
        child_named(e, "switches"@) is Some,
        attr_text(child_named(e, "switches"@)->Some_0, "auto_provide"@) is None,
    ensures
        object_model_spec(e) == Err::<ObjectModelView, ErrView>(
            ErrView::MissingRequiredField("switches.auto_provide"@),
        ),
{
}

impl ObjectModelType {
    /// Convert the root element of an object-model document.
    pub fn from_element(e: &XmlElement) -> (r: Result<ObjectModelType, FomError>)
        ensures
            parsed(r) == object_model_spec(*e),
    {
        let model_identification = match get_child(e, "modelIdentification") {
            Some(c) => ModelIdentificationType::from_element(c),
            None => return Err(FomError::missing("modelIdentification")),
        };
        let objects = match sec_objects(e) {
            Ok(v) => v,
            Err(er) => return Err(er),
        };
        let interactions = match sec_interactions(e) {
            Ok(v) => v,
            Err(er) => return Err(er),
        };
        let dimensions = match get_child(e, "dimensions") {
            Some(c) => DimensionsType::from_element(c),
            None => return Err(FomError::missing("dimensions")),
        };
        let time = match opt_time(e) {
            Ok(v) => v,
            Err(er) => return Err(er),
        };
        let tags = match opt_tags(e) {
            Ok(v) => v,
            Err(er) => return Err(er),
        };
        let synchronizations = match opt_synchronizations(e) {
            Ok(v) => v,
            Err(er) => return Err(er),
        };
        let transportations = match sec_transportations(e) {
            Ok(v) => v,
            Err(er) => return Err(er),
        };
        let switches = match sec_switches(e) {
            Ok(v) => v,
            Err(er) => return Err(er),
        };
        let update_rates = match opt_update_rates(e) {
            Ok(v) => v,
            Err(er) => return Err(er),
        };
        let data_types = match sec_data_types(e) {
            Ok(v) => v,
            Err(er) => return Err(er),
        };
        let notes = match opt_notes(e) {
            Ok(v) => v,
            Err(er) => return Err(er),
        };
        let service_utilization = match get_child(e, "serviceUtilization") {
            Some(c) => Some(ServiceUtiliizationType::from_element(c)),
            None => None,
        };
        Ok(
            ObjectModelType {
                model_identification,
                service_utilization,
                objects,
                interactions,
                dimensions,
                time,
                tags,
                synchronizations,
                transportations,
                switches,
                update_rates,
                data_types,
                notes,
            },
        )
    }
}

/// Deserialize an already-parsed element tree into an object model, or
/// return the first error encountered anywhere in the composition. No
/// partial result is ever produced.
pub fn parse_object_model(root: &XmlElement) -> (r: Result<ObjectModelType, FomError>)
    ensures
        parsed(r) == object_model_spec(*root),
{
    ObjectModelType::from_element(root)
}

} // verus!
