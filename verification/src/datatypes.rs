//! The `dataTypes` section: six independent catalogs of named type
//! definitions — basic representations, simple, enumerated, array,
//! fixed-record and variant-record types. Cross-references between
//! attributes or parameters and these catalogs are plain name strings
//! and are never resolved or validated.

use vstd::prelude::*;
use crate::classes::{ReferenceType, ReferenceView, reference_spec};
use crate::error::{ErrView, FomError, parsed};
use crate::extract::{
    absent_if_empty, collect_children, collect_children_total, get_required_text, list_spec,
    total_list_spec,
};
use crate::scalar::{digits_val, is_u32_text, parse_u32};
use crate::vocab::{
    ArrayDataTypeEncodingType, ArrayEncodingView, EndianType, FixedRecordEncodingType,
    FixedRecordEncodingView, VariantRecordEncodingType, VariantRecordEncodingView,
    array_encoding_spec, fixed_record_encoding_spec, opt_endian_from, opt_endian_spec,
    variant_record_encoding_spec,
};
use crate::xml::{
    XmlElement, child_named, child_text, child_texts, elem_text, get_child, get_element_text,
    get_text_of_child_element, get_text_of_child_elements,
};

verus! {

/// The bit size of a basic data representation.
#[derive(Clone, Copy, Debug, PartialEq, Eq)]
pub struct SizeType {
    pub size: u32,
}

impl DeepView for SizeType {
    type V = SizeType;

    open spec fn deep_view(&self) -> SizeType {
        *self
    }
}

/// What a `size` element's text converts to: an unsigned decimal
/// number, or a Malformed-Scalar failure carrying the text.
pub open spec fn size_spec(t: Seq<char>) -> Result<SizeType, ErrView> {
    if is_u32_text(t) {
        Ok(SizeType { size: digits_val(t) as u32 })
    } else {
        Err(ErrView::MalformedScalar(t))
    }
}

impl SizeType {
    /// Convert a `size` element's text.
    pub fn from_text(text: String) -> (r: Result<SizeType, FomError>)
        ensures
            parsed(r) == size_spec(text@),
    {
        match parse_u32(text.as_str()) {
            Some(v) => Ok(SizeType { size: v }),
            None => Err(FomError::malformed(text)),
        }
    }

    /// Convert a `size` element.
    pub fn from_element(e: &XmlElement) -> (r: Result<SizeType, FomError>)
        ensures
            parsed(r) == size_spec(elem_text(*e)),
    {
        Self::from_text(get_element_text(e))
    }
}

/// An optional size child: absent is `None`; present its text must be
/// numeric.
pub open spec fn opt_size_spec(e: XmlElement, name: Seq<char>) -> Result<Option<SizeType>, ErrView> {
    match child_named(e, name) {
        Some(c) => match size_spec(elem_text(c)) {
            Ok(v) => Ok(Some(v)),
            Err(er) => Err(er),
        },
        None => Ok(None),
    }
}

/// Convert the optional size child element of the given name.
fn opt_size_from(e: &XmlElement, name: &str) -> (r: Result<Option<SizeType>, FomError>)
    ensures
        parsed(r) == opt_size_spec(*e, name@),
{
    match get_child(e, name) {
        Some(c) => match SizeType::from_element(c) {
            Ok(v) => Ok(Some(v)),
            Err(er) => Err(er),
        },
        None => Ok(None),
    }
}

/// A basic data representation: name, bit size, interpretation,
/// endianness and encoding.
#[derive(Debug, PartialEq)]
pub struct BasicDataType {
    pub name: String,
    pub size: Option<SizeType>,
    pub interpretation: Option<String>,
    pub endian: Option<EndianType>,
    pub encoding: Option<String>,
}

/// The mathematical image of a `BasicDataType`.
pub struct BasicDataView {
    pub name: Seq<char>,
    pub size: Option<SizeType>,
    pub interpretation: Option<Seq<char>>,
    pub endian: Option<EndianType>,
    pub encoding: Option<Seq<char>>,
}

impl DeepView for BasicDataType {
    type V = BasicDataView;

    open spec fn deep_view(&self) -> BasicDataView {
        BasicDataView {
            name: self.name@,
            size: self.size.deep_view(),
            interpretation: self.interpretation.deep_view(),
            endian: self.endian.deep_view(),
            encoding: self.encoding.deep_view(),
        }
    }
}

/// What a `basicData` element converts to. Fail-fast order: the
/// required name, the size text, then the endianness token.
pub open spec fn basic_data_spec(e: XmlElement) -> Result<BasicDataView, ErrView> {
    if child_named(e, "name"@) is None {
        Err(ErrView::MissingRequiredField("dataTypes.basicDataRepresentations.basicData.name"@))
    } else {
        match opt_size_spec(e, "size"@) {
            Err(er) => Err(er),
            Ok(size) => match opt_endian_spec(e, "endian"@) {
                Err(er) => Err(er),
                Ok(endian) => Ok(
                    BasicDataView {
                        name: child_text(e, "name"@)->Some_0,
                        size,
                        interpretation: child_text(e, "interpretation"@),
                        endian,
                        encoding: child_text(e, "encoding"@),
                    },
                ),
            },
        }
    }
}

impl BasicDataType {
    /// Convert a `basicData` element.
    pub fn from_element(e: &XmlElement) -> (r: Result<BasicDataType, FomError>)
        ensures
            parsed(r) == basic_data_spec(*e),
    {
        let name = match get_required_text(
            e,
            "name",
            "dataTypes.basicDataRepresentations.basicData.name",
        ) {
            Ok(t) => t,
            Err(er) => return Err(er),
        };
        let size = match opt_size_from(e, "size") {
            Ok(v) => v,
            Err(er) => return Err(er),
        };
        let endian = match opt_endian_from(e, "endian") {
            Ok(v) => v,
            Err(er) => return Err(er),
        };
        Ok(
            BasicDataType {
                name,
                size,
                interpretation: get_text_of_child_element(e, "interpretation"),
                endian,
                encoding: get_text_of_child_element(e, "encoding"),
            },
        )
    }
}

/// The catalog of basic data representations.
#[derive(Debug, PartialEq)]
pub struct BasicDataRepresentationsType {
    pub basic_datas: Option<Vec<BasicDataType>>,
}

/// The mathematical image of a `BasicDataRepresentationsType`.
pub struct BasicDataRepresentationsView {
    pub basic_datas: Option<Seq<BasicDataView>>,
}

impl DeepView for BasicDataRepresentationsType {
    type V = BasicDataRepresentationsView;

    open spec fn deep_view(&self) -> BasicDataRepresentationsView {
        BasicDataRepresentationsView { basic_datas: self.basic_datas.deep_view() }
    }
}

/// What a `basicDataRepresentations` element converts to.
pub open spec fn basic_data_representations_spec(e: XmlElement) -> Result<
    BasicDataRepresentationsView,
    ErrView,
> {
    match list_spec(e.children@, "basicData"@, |c: XmlElement| basic_data_spec(c)) {
        Err(er) => Err(er),
        Ok(items) => Ok(BasicDataRepresentationsView { basic_datas: absent_if_empty(items) }),
    }
}

impl BasicDataRepresentationsType {
    /// Convert a `basicDataRepresentations` element.
    pub fn from_element(e: &XmlElement) -> (r: Result<BasicDataRepresentationsType, FomError>)
        ensures
            parsed(r) == basic_data_representations_spec(*e),
    {
        let items = match collect_children(
            e,
            "basicData",
            BasicDataType::from_element,
            Ghost(|c: XmlElement| basic_data_spec(c)),
        ) {
            Ok(v) => v,
            Err(er) => return Err(er),
        };
        Ok(
            BasicDataRepresentationsType {
                basic_datas: if items.len() == 0 {
                    None
                } else {
                    Some(items)
                },
            },
        )
    }
}

/// A simple data type.
#[derive(Debug, PartialEq)]
pub struct SimpleDataType {
    pub name: String,
    pub representation: Option<ReferenceType>,
    pub units: Option<String>,
    pub resolution: Option<String>,
    pub accuracy: Option<String>,
    pub semantics: Option<String>,
}

/// The mathematical image of a `SimpleDataType`.
pub struct SimpleDataView {
    pub name: Seq<char>,
    pub representation: Option<ReferenceView>,
    pub units: Option<Seq<char>>,
    pub resolution: Option<Seq<char>>,
    pub accuracy: Option<Seq<char>>,
    pub semantics: Option<Seq<char>>,
}

impl DeepView for SimpleDataType {
    type V = SimpleDataView;

    open spec fn deep_view(&self) -> SimpleDataView {
        SimpleDataView {
            name: self.name@,
            representation: self.representation.deep_view(),
            units: self.units.deep_view(),
            resolution: self.resolution.deep_view(),
            accuracy: self.accuracy.deep_view(),
            semantics: self.semantics.deep_view(),
        }
    }
}

/// What a `simpleData` element converts to.
pub open spec fn simple_data_spec(e: XmlElement) -> Result<SimpleDataView, ErrView> {
    if child_named(e, "name"@) is None {
        Err(ErrView::MissingRequiredField("dataTypes.simpleDataTypes.simpleData.name"@))
    } else {
        Ok(
            SimpleDataView {
                name: child_text(e, "name"@)->Some_0,
                representation: match child_named(e, "representation"@) {
                    Some(c) => Some(reference_spec(c)),
                    None => None,
                },
                units: child_text(e, "units"@),
                resolution: child_text(e, "resolution"@),
                accuracy: child_text(e, "accuracy"@),
                semantics: child_text(e, "semantics"@),
            },
        )
    }
}

impl SimpleDataType {
    /// Convert a `simpleData` element.
    pub fn from_element(e: &XmlElement) -> (r: Result<SimpleDataType, FomError>)
        ensures
            parsed(r) == simple_data_spec(*e),
    {
        let name = match get_required_text(e, "name", "dataTypes.simpleDataTypes.simpleData.name") {
            Ok(t) => t,
            Err(er) => return Err(er),
        };
        Ok(
            SimpleDataType {
                name,
                representation: match get_child(e, "representation") {
                    Some(c) => Some(ReferenceType::from_element(c)),
                    None => None,
                },
                units: get_text_of_child_element(e, "units"),
                resolution: get_text_of_child_element(e, "resolution"),
                accuracy: get_text_of_child_element(e, "accuracy"),
                semantics: get_text_of_child_element(e, "semantics"),
            },
        )
    }
}

/// The catalog of simple data types.
#[derive(Debug, PartialEq)]
pub struct SimpleDataTypesType {
    pub simple_datas: Option<Vec<SimpleDataType>>,
}

/// The mathematical image of a `SimpleDataTypesType`.
pub struct SimpleDataTypesView {
    pub simple_datas: Option<Seq<SimpleDataView>>,
}

impl DeepView for SimpleDataTypesType {
    type V = SimpleDataTypesView;

    open spec fn deep_view(&self) -> SimpleDataTypesView {
        SimpleDataTypesView { simple_datas: self.simple_datas.deep_view() }
    }
}

/// What a `simpleDataTypes` element converts to.
pub open spec fn simple_data_types_spec(e: XmlElement) -> Result<SimpleDataTypesView, ErrView> {
    match list_spec(e.children@, "simpleData"@, |c: XmlElement| simple_data_spec(c)) {
        Err(er) => Err(er),
        Ok(items) => Ok(SimpleDataTypesView { simple_datas: absent_if_empty(items) }),
    }
}

impl SimpleDataTypesType {
    /// Convert a `simpleDataTypes` element.
    pub fn from_element(e: &XmlElement) -> (r: Result<SimpleDataTypesType, FomError>)
        ensures
            parsed(r) == simple_data_types_spec(*e),
    {
        let items = match collect_children(
            e,
            "simpleData",
            SimpleDataType::from_element,
            Ghost(|c: XmlElement| simple_data_spec(c)),
        ) {
            Ok(v) => v,
            Err(er) => return Err(er),
        };
        Ok(
            SimpleDataTypesType {
                simple_datas: if items.len() == 0 {
                    None
                } else {
                    Some(items)
                },
            },
        )
    }
}

/// One enumerator of an enumerated data type: a name and its value
/// list.
#[derive(Debug, PartialEq)]
pub struct EnumeratorType {
    pub name: String,
    pub value: Vec<String>,
}

/// The mathematical image of an `EnumeratorType`.
pub struct EnumeratorView {
    pub name: Seq<char>,
    pub value: Seq<Seq<char>>,
}

impl DeepView for EnumeratorType {
    type V = EnumeratorView;

    open spec fn deep_view(&self) -> EnumeratorView {
        EnumeratorView { name: self.name@, value: self.value.deep_view() }
    }
}

/// What an `enumerator` element converts to.
pub open spec fn enumerator_spec(e: XmlElement) -> Result<EnumeratorView, ErrView> {
    if child_named(e, "name"@) is None {
        Err(
            ErrView::MissingRequiredField(
                "dataTypes.enumeratedDataTypes.enumeratedData.enumerator.name"@,
            ),
        )
    } else {
        Ok(
            EnumeratorView {
                name: child_text(e, "name"@)->Some_0,
                value: child_texts(e, "value"@),
            },
        )
    }
}

impl EnumeratorType {
    /// Convert an `enumerator` element.
    pub fn from_element(e: &XmlElement) -> (r: Result<EnumeratorType, FomError>)
        ensures
            parsed(r) == enumerator_spec(*e),
    {
        let name = match get_required_text(
            e,
            "name",
            "dataTypes.enumeratedDataTypes.enumeratedData.enumerator.name",
        ) {
            Ok(t) => t,
            Err(er) => return Err(er),
        };
        let value = get_text_of_child_elements(e, "value");
        proof {
            assert(value.deep_view() =~= child_texts(*e, "value"@));
        }
        Ok(EnumeratorType { name, value })
    }
}

/// An enumerated data type.
#[derive(Debug, PartialEq)]
pub struct EnumeratedDataType {
    pub name: String,
    pub representation: Option<ReferenceType>,
    pub semantics: Option<String>,
    pub enumerators: Option<Vec<EnumeratorType>>,
}

/// The mathematical image of an `EnumeratedDataType`.
pub struct EnumeratedDataView {
    pub name: Seq<char>,
    pub representation: Option<ReferenceView>,
    pub semantics: Option<Seq<char>>,
    pub enumerators: Option<Seq<EnumeratorView>>,
}

impl DeepView for EnumeratedDataType {
    type V = EnumeratedDataView;

    open spec fn deep_view(&self) -> EnumeratedDataView {
        EnumeratedDataView {
            name: self.name@,
            representation: self.representation.deep_view(),
            semantics: self.semantics.deep_view(),
            enumerators: self.enumerators.deep_view(),
        }
    }
}

/// What an `enumeratedData` element converts to. Fail-fast order: the
/// required name, then the enumerators.
pub open spec fn enumerated_data_spec(e: XmlElement) -> Result<EnumeratedDataView, ErrView> {
    if child_named(e, "name"@) is None {
        Err(ErrView::MissingRequiredField("dataTypes.enumeratedDataTypes.enumeratedData.name"@))
    } else {
        match list_spec(e.children@, "enumerator"@, |c: XmlElement| enumerator_spec(c)) {
            Err(er) => Err(er),
            Ok(enumerators) => Ok(
                EnumeratedDataView {
                    name: child_text(e, "name"@)->Some_0,
                    representation: match child_named(e, "representation"@) {
                        Some(c) => Some(reference_spec(c)),
                        None => None,
                    },
                    semantics: child_text(e, "semantics"@),
                    enumerators: absent_if_empty(enumerators),
                },
            ),
        }
    }
}

impl EnumeratedDataType {
    /// Convert an `enumeratedData` element.
    pub fn from_element(e: &XmlElement) -> (r: Result<EnumeratedDataType, FomError>)
        ensures
            parsed(r) == enumerated_data_spec(*e),
    {
        let name = match get_required_text(
            e,
            "name",
            "dataTypes.enumeratedDataTypes.enumeratedData.name",
        ) {
            Ok(t) => t,
            Err(er) => return Err(er),
        };
        let enumerators = match collect_children(
            e,
            "enumerator",
            EnumeratorType::from_element,
            Ghost(|c: XmlElement| enumerator_spec(c)),
        ) {
            Ok(v) => v,
            Err(er) => return Err(er),
        };
        Ok(
            EnumeratedDataType {
                name,
                representation: match get_child(e, "representation") {
                    Some(c) => Some(ReferenceType::from_element(c)),
                    None => None,
                },
                semantics: get_text_of_child_element(e, "semantics"),
                enumerators: if enumerators.len() == 0 {
                    None
                } else {
                    Some(enumerators)
                },
            },
        )
    }
}

/// The catalog of enumerated data types.
#[derive(Debug, PartialEq)]
pub struct EnumeratedDataTypesType {
    pub enumerated_datas: Option<Vec<EnumeratedDataType>>,
}

/// The mathematical image of an `EnumeratedDataTypesType`.
pub struct EnumeratedDataTypesView {
    pub enumerated_datas: Option<Seq<EnumeratedDataView>>,
}

impl DeepView for EnumeratedDataTypesType {
    type V = EnumeratedDataTypesView;

    open spec fn deep_view(&self) -> EnumeratedDataTypesView {
        EnumeratedDataTypesView { enumerated_datas: self.enumerated_datas.deep_view() }
    }
}

/// What an `enumeratedDataTypes` element converts to.
pub open spec fn enumerated_data_types_spec(e: XmlElement) -> Result<
    EnumeratedDataTypesView,
    ErrView,
> {
    match list_spec(e.children@, "enumeratedData"@, |c: XmlElement| enumerated_data_spec(c)) {
        Err(er) => Err(er),
        Ok(items) => Ok(EnumeratedDataTypesView { enumerated_datas: absent_if_empty(items) }),
    }
}

impl EnumeratedDataTypesType {
    /// Convert an `enumeratedDataTypes` element.
    pub fn from_element(e: &XmlElement) -> (r: Result<EnumeratedDataTypesType, FomError>)
        ensures
            parsed(r) == enumerated_data_types_spec(*e),
    {
        let items = match collect_children(
            e,
            "enumeratedData",
            EnumeratedDataType::from_element,
            Ghost(|c: XmlElement| enumerated_data_spec(c)),
        ) {
            Ok(v) => v,
            Err(er) => return Err(er),
        };
        Ok(
            EnumeratedDataTypesType {
                enumerated_datas: if items.len() == 0 {
                    None
                } else {
                    Some(items)
                },
            },
        )
    }
}

/// An array data type. The cardinality expression is kept as free text
/// and not validated against its formal grammar.
#[derive(Debug, PartialEq)]
pub struct ArrayDataType {
    pub name: String,
    pub data_type: Option<ReferenceType>,
    pub cardinality: Option<String>,
    pub encoding: Option<ArrayDataTypeEncodingType>,
    pub semantics: Option<String>,
}

/// The mathematical image of an `ArrayDataType`.
pub struct ArrayDataView {
    pub name: Seq<char>,
    pub data_type: Option<ReferenceView>,
    pub cardinality: Option<Seq<char>>,
    pub encoding: Option<ArrayEncodingView>,
    pub semantics: Option<Seq<char>>,
}

impl DeepView for ArrayDataType {
    type V = ArrayDataView;

    open spec fn deep_view(&self) -> ArrayDataView {
        ArrayDataView {
            name: self.name@,
            data_type: self.data_type.deep_view(),
            cardinality: self.cardinality.deep_view(),
            encoding: self.encoding.deep_view(),
            semantics: self.semantics.deep_view(),
        }
    }
}

/// What an `arrayData` element converts to.
pub open spec fn array_data_spec(e: XmlElement) -> Result<ArrayDataView, ErrView> {
    if child_named(e, "name"@) is None {
        Err(ErrView::MissingRequiredField("dataTypes.arrayDataTypes.arrayData.name"@))
    } else {
        Ok(
            ArrayDataView {
                name: child_text(e, "name"@)->Some_0,
                data_type: match child_named(e, "representation"@) {
                    Some(c) => Some(reference_spec(c)),
                    None => None,
                },
                cardinality: child_text(e, "cardinality"@),
                encoding: match child_named(e, "encoding"@) {
                    Some(c) => Some(array_encoding_spec(elem_text(c))),
                    None => None,
                },
                semantics: child_text(e, "semantics"@),
            },
        )
    }
}

impl ArrayDataType {
    /// Convert an `arrayData` element.
    pub fn from_element(e: &XmlElement) -> (r: Result<ArrayDataType, FomError>)
        ensures
            parsed(r) == array_data_spec(*e),
    {
        let name = match get_required_text(e, "name", "dataTypes.arrayDataTypes.arrayData.name") {
            Ok(t) => t,
            Err(er) => return Err(er),
        };
        Ok(
            ArrayDataType {
                name,
                data_type: match get_child(e, "representation") {
                    Some(c) => Some(ReferenceType::from_element(c)),
                    None => None,
                },
                cardinality: get_text_of_child_element(e, "cardinality"),
                encoding: match get_child(e, "encoding") {
                    Some(c) => Some(ArrayDataTypeEncodingType::from_element(c)),
                    None => None,
                },
                semantics: get_text_of_child_element(e, "semantics"),
            },
        )
    }
}

/// The catalog of array data types.
#[derive(Debug, PartialEq)]
pub struct ArrayDataTypesType {
    pub array_datas: Option<Vec<ArrayDataType>>,
}

/// The mathematical image of an `ArrayDataTypesType`.
pub struct ArrayDataTypesView {
    pub array_datas: Option<Seq<ArrayDataView>>,
}

impl DeepView for ArrayDataTypesType {
    type V = ArrayDataTypesView;

    open spec fn deep_view(&self) -> ArrayDataTypesView {
        ArrayDataTypesView { array_datas: self.array_datas.deep_view() }
    }
}

/// What an `arrayDataTypes` element converts to.
pub open spec fn array_data_types_spec(e: XmlElement) -> Result<ArrayDataTypesView, ErrView> {
    match list_spec(e.children@, "arrayData"@, |c: XmlElement| array_data_spec(c)) {
        Err(er) => Err(er),
        Ok(items) => Ok(ArrayDataTypesView { array_datas: absent_if_empty(items) }),
    }
}

impl ArrayDataTypesType {
    /// Convert an `arrayDataTypes` element.
    pub fn from_element(e: &XmlElement) -> (r: Result<ArrayDataTypesType, FomError>)
        ensures
            parsed(r) == array_data_types_spec(*e),
    {
        let items = match collect_children(
            e,
            "arrayData",
            ArrayDataType::from_element,
            Ghost(|c: XmlElement| array_data_spec(c)),
        ) {
            Ok(v) => v,
            Err(er) => return Err(er),
        };
        Ok(
            ArrayDataTypesType {
                array_datas: if items.len() == 0 {
                    None
                } else {
                    Some(items)
                },
            },
        )
    }
}

/// One field of a fixed-record data type.
#[derive(Debug, PartialEq)]
pub struct FieldType {
    pub name: String,
    pub data_type: Option<ReferenceType>,
    pub semantics: Option<String>,
}

/// The mathematical image of a `FieldType`.
pub struct FieldView {
    pub name: Seq<char>,
    pub data_type: Option<ReferenceView>,
    pub semantics: Option<Seq<char>>,
}

impl DeepView for FieldType {
    type V = FieldView;

    open spec fn deep_view(&self) -> FieldView {
        FieldView {
            name: self.name@,
            data_type: self.data_type.deep_view(),
            semantics: self.semantics.deep_view(),
        }
    }
}

/// What a `field` element converts to.
pub open spec fn field_spec(e: XmlElement) -> Result<FieldView, ErrView> {
    if child_named(e, "name"@) is None {
        Err(
            ErrView::MissingRequiredField(
                "dataTypes.fixedRecordDataTypes.fixedRecordData.field.name"@,
            ),
        )
    } else {
        Ok(
            FieldView {
                name: child_text(e, "name"@)->Some_0,
                data_type: match child_named(e, "dataType"@) {
                    Some(c) => Some(reference_spec(c)),
                    None => None,
                },
                semantics: child_text(e, "semantics"@),
            },
        )
    }
}

impl FieldType {
    /// Convert a `field` element.
    pub fn from_element(e: &XmlElement) -> (r: Result<FieldType, FomError>)
        ensures
            parsed(r) == field_spec(*e),
    {
        let name = match get_required_text(
            e,
            "name",
            "dataTypes.fixedRecordDataTypes.fixedRecordData.field.name",
        ) {
            Ok(t) => t,
            Err(er) => return Err(er),
        };
        Ok(
            FieldType {
                name,
                data_type: match get_child(e, "dataType") {
                    Some(c) => Some(ReferenceType::from_element(c)),
                    None => None,
                },
                semantics: get_text_of_child_element(e, "semantics"),
            },
        )
    }
}

/// A fixed-record data type.
#[derive(Debug, PartialEq)]
pub struct FixedRecordDataType {
    pub name: String,
    pub encoding: Option<FixedRecordEncodingType>,
    pub semantics: Option<String>,
    pub fields: Option<Vec<FieldType>>,
}

/// The mathematical image of a `FixedRecordDataType`.
pub struct FixedRecordDataView {
    pub name: Seq<char>,
    pub encoding: Option<FixedRecordEncodingView>,
    pub semantics: Option<Seq<char>>,
    pub fields: Option<Seq<FieldView>>,
}

impl DeepView for FixedRecordDataType {
    type V = FixedRecordDataView;

    open spec fn deep_view(&self) -> FixedRecordDataView {
        FixedRecordDataView {
            name: self.name@,
            encoding: self.encoding.deep_view(),
            semantics: self.semantics.deep_view(),
            fields: self.fields.deep_view(),
        }
    }
}

/// What a `fixedRecordData` element converts to. Fail-fast order: the
/// required name, then the fields.
pub open spec fn fixed_record_data_spec(e: XmlElement) -> Result<FixedRecordDataView, ErrView> {
    if child_named(e, "name"@) is None {
        Err(ErrView::MissingRequiredField("dataTypes.fixedRecordDataTypes.fixedRecordData.name"@))
    } else {
        match list_spec(e.children@, "field"@, |c: XmlElement| field_spec(c)) {
            Err(er) => Err(er),
            Ok(fields) => Ok(
                FixedRecordDataView {
                    name: child_text(e, "name"@)->Some_0,
                    encoding: match child_named(e, "encoding"@) {
                        Some(c) => Some(fixed_record_encoding_spec(elem_text(c))),
                        None => None,
                    },
                    semantics: child_text(e, "semantics"@),
                    fields: absent_if_empty(fields),
                },
            ),
        }
    }
}

impl FixedRecordDataType {
    /// Convert a `fixedRecordData` element.
    pub fn from_element(e: &XmlElement) -> (r: Result<FixedRecordDataType, FomError>)
        ensures
            parsed(r) == fixed_record_data_spec(*e),
    {
        let name = match get_required_text(
            e,
            "name",
            "dataTypes.fixedRecordDataTypes.fixedRecordData.name",
        ) {
            Ok(t) => t,
            Err(er) => return Err(er),
        };
        let fields = match collect_children(
            e,
            "field",
            FieldType::from_element,
            Ghost(|c: XmlElement| field_spec(c)),
        ) {
            Ok(v) => v,
            Err(er) => return Err(er),
        };
        Ok(
            FixedRecordDataType {
                name,
                encoding: match get_child(e, "encoding") {
                    Some(c) => Some(FixedRecordEncodingType::from_element(c)),
                    None => None,
                },
                semantics: get_text_of_child_element(e, "semantics"),
                fields: if fields.len() == 0 {
                    None
                } else {
                    Some(fields)
                },
            },
        )
    }
}

/// The catalog of fixed-record data types.
#[derive(Debug, PartialEq)]
pub struct FixedRecordDataTypesType {
    pub fixed_record_datas: Option<Vec<FixedRecordDataType>>,
}

/// The mathematical image of a `FixedRecordDataTypesType`.
pub struct FixedRecordDataTypesView {
    pub fixed_record_datas: Option<Seq<FixedRecordDataView>>,
}

impl DeepView for FixedRecordDataTypesType {
    type V = FixedRecordDataTypesView;

    open spec fn deep_view(&self) -> FixedRecordDataTypesView {
        FixedRecordDataTypesView { fixed_record_datas: self.fixed_record_datas.deep_view() }
    }
}

/// What a `fixedRecordDataTypes` element converts to.
pub open spec fn fixed_record_data_types_spec(e: XmlElement) -> Result<
    FixedRecordDataTypesView,
    ErrView,
> {
    match list_spec(e.children@, "fixedRecordData"@, |c: XmlElement| fixed_record_data_spec(c)) {
        Err(er) => Err(er),
        Ok(items) => Ok(FixedRecordDataTypesView { fixed_record_datas: absent_if_empty(items) }),
    }
}

impl FixedRecordDataTypesType {
    /// Convert a `fixedRecordDataTypes` element.
    pub fn from_element(e: &XmlElement) -> (r: Result<FixedRecordDataTypesType, FomError>)
        ensures
            parsed(r) == fixed_record_data_types_spec(*e),
    {
        let items = match collect_children(
            e,
            "fixedRecordData",
            FixedRecordDataType::from_element,
            Ghost(|c: XmlElement| fixed_record_data_spec(c)),
        ) {
            Ok(v) => v,
            Err(er) => return Err(er),
        };
        Ok(
            FixedRecordDataTypesType {
                fixed_record_datas: if items.len() == 0 {
                    None
                } else {
                    Some(items)
                },
            },
        )
    }
}

/// One alternative of a variant-record data type.
#[derive(Debug, PartialEq)]
pub struct AlternativeType {
    pub enumerator: Option<String>,
    pub name: Option<String>,
    pub data_type: Option<ReferenceType>,
    pub semantics: Option<String>,
}

/// The mathematical image of an `AlternativeType`.
pub struct AlternativeView {
    pub enumerator: Option<Seq<char>>,
    pub name: Option<Seq<char>>,
    pub data_type: Option<ReferenceView>,
    pub semantics: Option<Seq<char>>,
}

impl DeepView for AlternativeType {
    type V = AlternativeView;

    open spec fn deep_view(&self) -> AlternativeView {
        AlternativeView {
            enumerator: self.enumerator.deep_view(),
            name: self.name.deep_view(),
            data_type: self.data_type.deep_view(),
            semantics: self.semantics.deep_view(),
        }
    }
}

/// What an `alternative` element converts to.
pub open spec fn alternative_spec(e: XmlElement) -> AlternativeView {
    AlternativeView {
        enumerator: child_text(e, "enumerator"@),
        name: child_text(e, "name"@),
        data_type: match child_named(e, "dataType"@) {
            Some(c) => Some(reference_spec(c)),
            None => None,
        },
        semantics: child_text(e, "semantics"@),
    }
}

impl AlternativeType {
    /// Convert an `alternative` element.
    pub fn from_element(e: &XmlElement) -> (r: AlternativeType)
        ensures
            r.deep_view() == alternative_spec(*e),
    {
        AlternativeType {
            enumerator: get_text_of_child_element(e, "enumerator"),
            name: get_text_of_child_element(e, "name"),
            data_type: match get_child(e, "dataType") {
                Some(c) => Some(ReferenceType::from_element(c)),
                None => None,
            },
            semantics: get_text_of_child_element(e, "semantics"),
        }
    }
}

/// A variant-record data type.
#[derive(Debug, PartialEq)]
pub struct VariantRecordDataType {
    pub name: String,
    pub discriminant: Option<String>,
    pub data_type: Option<ReferenceType>,
    pub alternatives: Option<Vec<AlternativeType>>,
    pub encoding: Option<VariantRecordEncodingType>,
    pub semantics: Option<String>,
}

/// The mathematical image of a `VariantRecordDataType`.
pub struct VariantRecordDataView {
    pub name: Seq<char>,
    pub discriminant: Option<Seq<char>>,
    pub data_type: Option<ReferenceView>,
    pub alternatives: Option<Seq<AlternativeView>>,
    pub encoding: Option<VariantRecordEncodingView>,
    pub semantics: Option<Seq<char>>,
}

impl DeepView for VariantRecordDataType {
    type V = VariantRecordDataView;

    open spec fn deep_view(&self) -> VariantRecordDataView {
        VariantRecordDataView {
            name: self.name@,
            discriminant: self.discriminant.deep_view(),
            data_type: self.data_type.deep_view(),
            alternatives: self.alternatives.deep_view(),
            encoding: self.encoding.deep_view(),
            semantics: self.semantics.deep_view(),
        }
    }
}

/// What a `variantRecordData` element converts to.
pub open spec fn variant_record_data_spec(e: XmlElement) -> Result<VariantRecordDataView, ErrView> {
    if child_named(e, "name"@) is None {
        Err(
            ErrView::MissingRequiredField(
                "dataTypes.variantRecordDataTypes.variantRecordData.name"@,
            ),
        )
    } else {
        Ok(
            VariantRecordDataView {
                name: child_text(e, "name"@)->Some_0,
                discriminant: child_text(e, "discriminant"@),
                data_type: match child_named(e, "dataType"@) {
                    Some(c) => Some(reference_spec(c)),
                    None => None,
                },
                alternatives: absent_if_empty(
                    total_list_spec(e.children@, "alternative"@, |c: XmlElement| alternative_spec(c)),
                ),
                encoding: match child_named(e, "encoding"@) {
                    Some(c) => Some(variant_record_encoding_spec(elem_text(c))),
                    None => None,
                },
                semantics: child_text(e, "semantics"@),
            },
        )
    }
}

impl VariantRecordDataType {
    /// Convert a `variantRecordData` element.
    pub fn from_element(e: &XmlElement) -> (r: Result<VariantRecordDataType, FomError>)
        ensures
            parsed(r) == variant_record_data_spec(*e),
    {
        let name = match get_required_text(
            e,
            "name",
            "dataTypes.variantRecordDataTypes.variantRecordData.name",
        ) {
            Ok(t) => t,
            Err(er) => return Err(er),
        };
        let alternatives = collect_children_total(
            e,
            "alternative",
            AlternativeType::from_element,
            Ghost(|c: XmlElement| alternative_spec(c)),
        );
        Ok(
            VariantRecordDataType {
                name,
                discriminant: get_text_of_child_element(e, "discriminant"),
                data_type: match get_child(e, "dataType") {
                    Some(c) => Some(ReferenceType::from_element(c)),
                    None => None,
                },
                alternatives: if alternatives.len() == 0 {
                    None
                } else {
                    Some(alternatives)
                },
                encoding: match get_child(e, "encoding") {
                    Some(c) => Some(VariantRecordEncodingType::from_element(c)),
                    None => None,
                },
                semantics: get_text_of_child_element(e, "semantics"),
            },
        )
    }
}

/// The catalog of variant-record data types.
#[derive(Debug, PartialEq)]
pub struct VariantRecordDataTypesType {
    pub variant_record_datas: Option<Vec<VariantRecordDataType>>,
}

/// The mathematical image of a `VariantRecordDataTypesType`.
pub struct VariantRecordDataTypesView {
    pub variant_record_datas: Option<Seq<VariantRecordDataView>>,
}

impl DeepView for VariantRecordDataTypesType {
    type V = VariantRecordDataTypesView;

    open spec fn deep_view(&self) -> VariantRecordDataTypesView {
        VariantRecordDataTypesView { variant_record_datas: self.variant_record_datas.deep_view() }
    }
}

/// What a `variantRecordDataTypes` element converts to.
pub open spec fn variant_record_data_types_spec(e: XmlElement) -> Result<
    VariantRecordDataTypesView,
    ErrView,
> {
    match list_spec(
        e.children@,
        "variantRecordData"@,
        |c: XmlElement| variant_record_data_spec(c),
    ) {
        Err(er) => Err(er),
        Ok(items) => Ok(
            VariantRecordDataTypesView { variant_record_datas: absent_if_empty(items) },
        ),
    }
}

impl VariantRecordDataTypesType {
    /// Convert a `variantRecordDataTypes` element.
    pub fn from_element(e: &XmlElement) -> (r: Result<VariantRecordDataTypesType, FomError>)
        ensures
            parsed(r) == variant_record_data_types_spec(*e),
    {
        let items = match collect_children(
            e,
            "variantRecordData",
            VariantRecordDataType::from_element,
            Ghost(|c: XmlElement| variant_record_data_spec(c)),
        ) {
            Ok(v) => v,
            Err(er) => return Err(er),
        };
        Ok(
            VariantRecordDataTypesType {
                variant_record_datas: if items.len() == 0 {
                    None
                } else {
                    Some(items)
                },
            },
        )
    }
}

/// The `dataTypes` section: the six catalogs, each optional.
#[derive(Debug, PartialEq)]
pub struct DataTypesType {
    pub basic_data_representations: Option<BasicDataRepresentationsType>,
    pub simple_data_types: Option<SimpleDataTypesType>,
    pub enumerated_data_types: Option<EnumeratedDataTypesType>,
    pub array_data_types: Option<ArrayDataTypesType>,
    pub fixed_record_data_types: Option<FixedRecordDataTypesType>,
    pub variant_record_data_types: Option<VariantRecordDataTypesType>,
}

/// The mathematical image of a `DataTypesType`.
pub struct DataTypesView {
    pub basic_data_representations: Option<BasicDataRepresentationsView>,
    pub simple_data_types: Option<SimpleDataTypesView>,
    pub enumerated_data_types: Option<EnumeratedDataTypesView>,
    pub array_data_types: Option<ArrayDataTypesView>,
    pub fixed_record_data_types: Option<FixedRecordDataTypesView>,
    pub variant_record_data_types: Option<VariantRecordDataTypesView>,
}

impl DeepView for DataTypesType {
    type V = DataTypesView;

    open spec fn deep_view(&self) -> DataTypesView {
        DataTypesView {
            basic_data_representations: self.basic_data_representations.deep_view(),
            simple_data_types: self.simple_data_types.deep_view(),
            enumerated_data_types: self.enumerated_data_types.deep_view(),
            array_data_types: self.array_data_types.deep_view(),
            fixed_record_data_types: self.fixed_record_data_types.deep_view(),
            variant_record_data_types: self.variant_record_data_types.deep_view(),
        }
    }
}

/// What a `dataTypes` element converts to: the six catalogs in order,
/// failing fast on the first failing one.
pub open spec fn data_types_spec(e: XmlElement) -> Result<DataTypesView, ErrView> {
    let bd = match child_named(e, "basicDataRepresentations"@) {
        Some(c) => match basic_data_representations_spec(c) {
            Ok(v) => Ok(Some(v)),
            Err(er) => Err(er),
        },
        None => Ok(None),
    };
    match bd {
        Err(er) => Err(er),
        Ok(basic_data_representations) => {
            let sd = match child_named(e, "simpleDataTypes"@) {
                Some(c) => match simple_data_types_spec(c) {
                    Ok(v) => Ok(Some(v)),
                    Err(er) => Err(er),
                },
                None => Ok(None),
            };
            match sd {
                Err(er) => Err(er),
                Ok(simple_data_types) => {
                    let ed = match child_named(e, "enumeratedDataTypes"@) {
                        Some(c) => match enumerated_data_types_spec(c) {
                            Ok(v) => Ok(Some(v)),
                            Err(er) => Err(er),
                        },
                        None => Ok(None),
                    };
                    match ed {
                        Err(er) => Err(er),
                        Ok(enumerated_data_types) => {
                            let ad = match child_named(e, "arrayDataTypes"@) {
                                Some(c) => match array_data_types_spec(c) {
                                    Ok(v) => Ok(Some(v)),
                                    Err(er) => Err(er),
                                },
                                None => Ok(None),
                            };
                            match ad {
                                Err(er) => Err(er),
                                Ok(array_data_types) => {
                                    let fd = match child_named(e, "fixedRecordDataTypes"@) {
                                        Some(c) => match fixed_record_data_types_spec(c) {
                                            Ok(v) => Ok(Some(v)),
                                            Err(er) => Err(er),
                                        },
                                        None => Ok(None),
                                    };
                                    match fd {
                                        Err(er) => Err(er),
                                        Ok(fixed_record_data_types) => {
                                            let vd = match child_named(
                                                e,
                                                "variantRecordDataTypes"@,
                                            ) {
                                                Some(c) => match variant_record_data_types_spec(
                                                    c,
                                                ) {
                                                    Ok(v) => Ok(Some(v)),
                                                    Err(er) => Err(er),
                                                },
                                                None => Ok(None),
                                            };
                                            match vd {
                                                Err(er) => Err(er),
                                                Ok(variant_record_data_types) => Ok(
                                                    DataTypesView {
                                                        basic_data_representations,
                                                        simple_data_types,
                                                        enumerated_data_types,
                                                        array_data_types,
                                                        fixed_record_data_types,
                                                        variant_record_data_types,
                                                    },
                                                ),
                                            }
                                        },
                                    }
                                },
                            }
                        },
                    }
                },
            }
        },
    }
}

impl DataTypesType {
    /// Convert a `dataTypes` element.
    pub fn from_element(e: &XmlElement) -> (r: Result<DataTypesType, FomError>)
        ensures
            parsed(r) == data_types_spec(*e),
    {
        let basic_data_representations = match get_child(e, "basicDataRepresentations") {
            Some(c) => match BasicDataRepresentationsType::from_element(c) {
                Ok(v) => Some(v),
                Err(er) => return Err(er),
            },
            None => None,
        };
        let simple_data_types = match get_child(e, "simpleDataTypes") {
            Some(c) => match SimpleDataTypesType::from_element(c) {
                Ok(v) => Some(v),
                Err(er) => return Err(er),
            },
            None => None,
        };
        let enumerated_data_types = match get_child(e, "enumeratedDataTypes") {
            Some(c) => match EnumeratedDataTypesType::from_element(c) {
                Ok(v) => Some(v),
                Err(er) => return Err(er),
            },
            None => None,
        };
        let array_data_types = match get_child(e, "arrayDataTypes") {
            Some(c) => match ArrayDataTypesType::from_element(c) {
                Ok(v) => Some(v),
                Err(er) => return Err(er),
            },
            None => None,
        };
        let fixed_record_data_types = match get_child(e, "fixedRecordDataTypes") {
            Some(c) => match FixedRecordDataTypesType::from_element(c) {
                Ok(v) => Some(v),
                Err(er) => return Err(er),
            },
            None => None,
        };
        let variant_record_data_types = match get_child(e, "variantRecordDataTypes") {
            Some(c) => match VariantRecordDataTypesType::from_element(c) {
                Ok(v) => Some(v),
                Err(er) => return Err(er),
            },
            None => None,
        };
        Ok(
            DataTypesType {
                basic_data_representations,
                simple_data_types,
                enumerated_data_types,
                array_data_types,
                fixed_record_data_types,
                variant_record_data_types,
            },
        )
    }
}

} // verus!
