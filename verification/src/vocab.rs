//! Controlled-vocabulary converters: one per schema enumeration, each an
//! exact token match against a fixed table. The open/closed policy is
//! fixed per field at design time:
//!
//! - *closed* vocabularies (sharing mode, order, reliability, endianness,
//!   synchronization capability, resign action) drive structural federate
//!   behaviour downstream and must be understood exactly, so any token
//!   outside the known set fails with an Unrecognized-Value error;
//! - *open* vocabularies (model type, security classification,
//!   application domain, contact role, update type, ownership-transfer
//!   type, glyph format, and the three encodings) preserve forward
//!   compatibility: an unknown token becomes a labelled fallback variant
//!   carrying the original text verbatim.

use vstd::prelude::*;
use crate::error::{ErrView, FomError, parsed};
use crate::xml::{XmlElement, child_named, elem_text, get_child, get_element_text, str_eq};

verus! {

// ---------------------------------------------------------------------
// Open vocabularies.
// ---------------------------------------------------------------------

/// FOM/SOM document kind (open).
#[derive(Debug, PartialEq)]
pub enum ModelType {
    FOM,
    SOM,
    Other(String),
}

/// The mathematical image of a `ModelType`.
pub enum ModelTypeView {
    FOM,
    SOM,
    Other(Seq<char>),
}

impl DeepView for ModelType {
    type V = ModelTypeView;

    open spec fn deep_view(&self) -> ModelTypeView {
        match self {
            ModelType::FOM => ModelTypeView::FOM,
            ModelType::SOM => ModelTypeView::SOM,
            ModelType::Other(t) => ModelTypeView::Other(t@),
        }
    }
}

/// The model-type vocabulary: any unknown token falls back to `Other`
/// carrying the token itself.
pub open spec fn model_type_spec(t: Seq<char>) -> ModelTypeView {
    if t == "FOM"@ {
        ModelTypeView::FOM
    } else if t == "SOM"@ {
        ModelTypeView::SOM
    } else {
        ModelTypeView::Other(t)
    }
}

impl ModelType {
    /// Convert a vocabulary token.
    pub fn from_text(text: String) -> (r: ModelType)
        ensures
            r.deep_view() == model_type_spec(text@),
    {
        if str_eq(text.as_str(), "FOM") {
            ModelType::FOM
        } else if str_eq(text.as_str(), "SOM") {
            ModelType::SOM
        } else {
            ModelType::Other(text)
        }
    }

    /// Convert the trimmed text content of an element.
    pub fn from_element(e: &XmlElement) -> (r: ModelType)
        ensures
            r.deep_view() == model_type_spec(elem_text(*e)),
    {
        Self::from_text(get_element_text(e))
    }
}

/// Security classification of the model (open).
#[derive(Debug, PartialEq)]
pub enum SecurityClassificationType {
    Unclassified,
    Confidential,
    Secret,
    TopSecret,
    Other(String),
}

/// The mathematical image of a `SecurityClassificationType`.
pub enum SecurityClassificationView {
    Unclassified,
    Confidential,
    Secret,
    TopSecret,
    Other(Seq<char>),
}

impl DeepView for SecurityClassificationType {
    type V = SecurityClassificationView;

    open spec fn deep_view(&self) -> SecurityClassificationView {
        match self {
            SecurityClassificationType::Unclassified => SecurityClassificationView::Unclassified,
            SecurityClassificationType::Confidential => SecurityClassificationView::Confidential,
            SecurityClassificationType::Secret => SecurityClassificationView::Secret,
            SecurityClassificationType::TopSecret => SecurityClassificationView::TopSecret,
            SecurityClassificationType::Other(t) => SecurityClassificationView::Other(t@),
        }
    }
}

/// The security-classification vocabulary (open).
pub open spec fn security_classification_spec(t: Seq<char>) -> SecurityClassificationView {
    if t == "Unclassified"@ {
        SecurityClassificationView::Unclassified
    } else if t == "Confidential"@ {
        SecurityClassificationView::Confidential
    } else if t == "Secret"@ {
        SecurityClassificationView::Secret
    } else if t == "Top Secret"@ {
        SecurityClassificationView::TopSecret
    } else {
        SecurityClassificationView::Other(t)
    }
}

impl SecurityClassificationType {
    /// Convert a vocabulary token.
    pub fn from_text(text: String) -> (r: SecurityClassificationType)
        ensures
            r.deep_view() == security_classification_spec(text@),
    {
        if str_eq(text.as_str(), "Unclassified") {
            SecurityClassificationType::Unclassified
        } else if str_eq(text.as_str(), "Confidential") {
            SecurityClassificationType::Confidential
        } else if str_eq(text.as_str(), "Secret") {
            SecurityClassificationType::Secret
        } else if str_eq(text.as_str(), "Top Secret") {
            SecurityClassificationType::TopSecret
        } else {
            SecurityClassificationType::Other(text)
        }
    }

    /// Convert the trimmed text content of an element.
    pub fn from_element(e: &XmlElement) -> (r: SecurityClassificationType)
        ensures
            r.deep_view() == security_classification_spec(elem_text(*e)),
    {
        Self::from_text(get_element_text(e))
    }
}

/// Intended application domain of the model (open).
#[derive(Debug, PartialEq)]
pub enum ApplicationDomainType {
    Analysis,
    Training,
    TestAndEvaluation,
    Engineering,
    Acquisition,
    Other(String),
}

/// The mathematical image of an `ApplicationDomainType`.
pub enum ApplicationDomainView {
    Analysis,
    Training,
    TestAndEvaluation,
    Engineering,
    Acquisition,
    Other(Seq<char>),
}

impl DeepView for ApplicationDomainType {
    type V = ApplicationDomainView;

    open spec fn deep_view(&self) -> ApplicationDomainView {
        match self {
            ApplicationDomainType::Analysis => ApplicationDomainView::Analysis,
            ApplicationDomainType::Training => ApplicationDomainView::Training,
            ApplicationDomainType::TestAndEvaluation => ApplicationDomainView::TestAndEvaluation,
            ApplicationDomainType::Engineering => ApplicationDomainView::Engineering,
            ApplicationDomainType::Acquisition => ApplicationDomainView::Acquisition,
            ApplicationDomainType::Other(t) => ApplicationDomainView::Other(t@),
        }
    }
}

/// The application-domain vocabulary (open).
pub open spec fn application_domain_spec(t: Seq<char>) -> ApplicationDomainView {
    if t == "Analysis"@ {
        ApplicationDomainView::Analysis
    } else if t == "Training"@ {
        ApplicationDomainView::Training
    } else if t == "Test and Evaluation"@ {
        ApplicationDomainView::TestAndEvaluation
    } else if t == "Engineering"@ {
        ApplicationDomainView::Engineering
    } else if t == "Acquisition"@ {
        ApplicationDomainView::Acquisition
    } else {
        ApplicationDomainView::Other(t)
    }
}

impl ApplicationDomainType {
    /// Convert a vocabulary token.
    pub fn from_text(text: String) -> (r: ApplicationDomainType)
        ensures
            r.deep_view() == application_domain_spec(text@),
    {
        if str_eq(text.as_str(), "Analysis") {
            ApplicationDomainType::Analysis
        } else if str_eq(text.as_str(), "Training") {
            ApplicationDomainType::Training
        } else if str_eq(text.as_str(), "Test and Evaluation") {
            ApplicationDomainType::TestAndEvaluation
        } else if str_eq(text.as_str(), "Engineering") {
            ApplicationDomainType::Engineering
        } else if str_eq(text.as_str(), "Acquisition") {
            ApplicationDomainType::Acquisition
        } else {
            ApplicationDomainType::Other(text)
        }
    }

    /// Convert the trimmed text content of an element.
    pub fn from_element(e: &XmlElement) -> (r: ApplicationDomainType)
        ensures
            r.deep_view() == application_domain_spec(elem_text(*e)),
    {
        Self::from_text(get_element_text(e))
    }
}

/// Role of a point of contact (open).
#[derive(Debug, PartialEq)]
pub enum PocTypeType {
    PrimaryAuthor,
    Contributor,
    Proponent,
    Sponsor,
    ReleaseAuthority,
    TechnicalPoc,
    Other(String),
}

/// The mathematical image of a `PocTypeType`.
pub enum PocTypeView {
    PrimaryAuthor,
    Contributor,
    Proponent,
    Sponsor,
    ReleaseAuthority,
    TechnicalPoc,
    Other(Seq<char>),
}

impl DeepView for PocTypeType {
    type V = PocTypeView;

    open spec fn deep_view(&self) -> PocTypeView {
        match self {
            PocTypeType::PrimaryAuthor => PocTypeView::PrimaryAuthor,
            PocTypeType::Contributor => PocTypeView::Contributor,
            PocTypeType::Proponent => PocTypeView::Proponent,
            PocTypeType::Sponsor => PocTypeView::Sponsor,
            PocTypeType::ReleaseAuthority => PocTypeView::ReleaseAuthority,
            PocTypeType::TechnicalPoc => PocTypeView::TechnicalPoc,
            PocTypeType::Other(t) => PocTypeView::Other(t@),
        }
    }
}

/// The contact-role vocabulary (open).
pub open spec fn poc_type_spec(t: Seq<char>) -> PocTypeView {
    if t == "Primary author"@ {
        PocTypeView::PrimaryAuthor
    } else if t == "Contributor"@ {
        PocTypeView::Contributor
    } else if t == "Proponent"@ {
        PocTypeView::Proponent
    } else if t == "Sponsor"@ {
        PocTypeView::Sponsor
    } else if t == "Release authority"@ {
        PocTypeView::ReleaseAuthority
    } else if t == "Technical POC"@ {
        PocTypeView::TechnicalPoc
    } else {
        PocTypeView::Other(t)
    }
}

impl PocTypeType {
    /// Convert a vocabulary token.
    pub fn from_text(text: String) -> (r: PocTypeType)
        ensures
            r.deep_view() == poc_type_spec(text@),
    {
        if str_eq(text.as_str(), "Primary author") {
            PocTypeType::PrimaryAuthor
        } else if str_eq(text.as_str(), "Contributor") {
            PocTypeType::Contributor
        } else if str_eq(text.as_str(), "Proponent") {
            PocTypeType::Proponent
        } else if str_eq(text.as_str(), "Sponsor") {
            PocTypeType::Sponsor
        } else if str_eq(text.as_str(), "Release authority") {
            PocTypeType::ReleaseAuthority
        } else if str_eq(text.as_str(), "Technical POC") {
            PocTypeType::TechnicalPoc
        } else {
            PocTypeType::Other(text)
        }
    }

    /// Convert the trimmed text content of an element.
    pub fn from_element(e: &XmlElement) -> (r: PocTypeType)
        ensures
            r.deep_view() == poc_type_spec(elem_text(*e)),
    {
        Self::from_text(get_element_text(e))
    }
}

/// How an attribute's value is updated (open).
#[derive(Debug, PartialEq)]
pub enum UpdateType {
    Static,
    Periodic,
    Conditional,
    Na,
    Other(String),
}

/// The mathematical image of an `UpdateType`.
pub enum UpdateTypeView {
    Static,
    Periodic,
    Conditional,
    Na,
    Other(Seq<char>),
}

impl DeepView for UpdateType {
    type V = UpdateTypeView;

    open spec fn deep_view(&self) -> UpdateTypeView {
        match self {
            UpdateType::Static => UpdateTypeView::Static,
            UpdateType::Periodic => UpdateTypeView::Periodic,
            UpdateType::Conditional => UpdateTypeView::Conditional,
            UpdateType::Na => UpdateTypeView::Na,
            UpdateType::Other(t) => UpdateTypeView::Other(t@),
        }
    }
}

/// The update-type vocabulary (open).
pub open spec fn update_type_spec(t: Seq<char>) -> UpdateTypeView {
    if t == "Static"@ {
        UpdateTypeView::Static
    } else if t == "Periodic"@ {
        UpdateTypeView::Periodic
    } else if t == "Conditional"@ {
        UpdateTypeView::Conditional
    } else if t == "NA"@ {
        UpdateTypeView::Na
    } else {
        UpdateTypeView::Other(t)
    }
}

impl UpdateType {
    /// Convert a vocabulary token.
    pub fn from_text(text: String) -> (r: UpdateType)
        ensures
            r.deep_view() == update_type_spec(text@),
    {
        if str_eq(text.as_str(), "Static") {
            UpdateType::Static
        } else if str_eq(text.as_str(), "Periodic") {
            UpdateType::Periodic
        } else if str_eq(text.as_str(), "Conditional") {
            UpdateType::Conditional
        } else if str_eq(text.as_str(), "NA") {
            UpdateType::Na
        } else {
            UpdateType::Other(text)
        }
    }

    /// Convert the trimmed text content of an element.
    pub fn from_element(e: &XmlElement) -> (r: UpdateType)
        ensures
            r.deep_view() == update_type_spec(elem_text(*e)),
    {
        Self::from_text(get_element_text(e))
    }
}

/// Ownership-transfer capability of an attribute (open).
#[derive(Debug, PartialEq)]
pub enum OwnershipType {
    Divest,
    Acquire,
    DivestAcquire,
    NoTransfer,
    Other(String),
}

/// The mathematical image of an `OwnershipType`.
pub enum OwnershipTypeView {
    Divest,
    Acquire,
    DivestAcquire,
    NoTransfer,
    Other(Seq<char>),
}

impl DeepView for OwnershipType {
    type V = OwnershipTypeView;

    open spec fn deep_view(&self) -> OwnershipTypeView {
        match self {
            OwnershipType::Divest => OwnershipTypeView::Divest,
            OwnershipType::Acquire => OwnershipTypeView::Acquire,
            OwnershipType::DivestAcquire => OwnershipTypeView::DivestAcquire,
            OwnershipType::NoTransfer => OwnershipTypeView::NoTransfer,
            OwnershipType::Other(t) => OwnershipTypeView::Other(t@),
        }
    }
}

/// The ownership-transfer vocabulary (open).
pub open spec fn ownership_type_spec(t: Seq<char>) -> OwnershipTypeView {
    if t == "Divest"@ {
        OwnershipTypeView::Divest
    } else if t == "Acquire"@ {
        OwnershipTypeView::Acquire
    } else if t == "DivestAcquire"@ {
        OwnershipTypeView::DivestAcquire
    } else if t == "NoTransfer"@ {
        OwnershipTypeView::NoTransfer
    } else {
        OwnershipTypeView::Other(t)
    }
}

impl OwnershipType {
    /// Convert a vocabulary token.
    pub fn from_text(text: String) -> (r: OwnershipType)
        ensures
            r.deep_view() == ownership_type_spec(text@),
    {
        if str_eq(text.as_str(), "Divest") {
            OwnershipType::Divest
        } else if str_eq(text.as_str(), "Acquire") {
            OwnershipType::Acquire
        } else if str_eq(text.as_str(), "DivestAcquire") {
            OwnershipType::DivestAcquire
        } else if str_eq(text.as_str(), "NoTransfer") {
            OwnershipType::NoTransfer
        } else {
            OwnershipType::Other(text)
        }
    }

    /// Convert the trimmed text content of an element.
    pub fn from_element(e: &XmlElement) -> (r: OwnershipType)
        ensures
            r.deep_view() == ownership_type_spec(elem_text(*e)),
    {
        Self::from_text(get_element_text(e))
    }
}

/// Encoding of an array data type (open).
#[derive(Debug, PartialEq)]
pub enum ArrayDataTypeEncodingType {
    HlaFixedArray,
    HlaVariableArray,
    Other(String),
}

/// The mathematical image of an `ArrayDataTypeEncodingType`.
pub enum ArrayEncodingView {
    HlaFixedArray,
    HlaVariableArray,
    Other(Seq<char>),
}

impl DeepView for ArrayDataTypeEncodingType {
    type V = ArrayEncodingView;

    open spec fn deep_view(&self) -> ArrayEncodingView {
        match self {
            ArrayDataTypeEncodingType::HlaFixedArray => ArrayEncodingView::HlaFixedArray,
            ArrayDataTypeEncodingType::HlaVariableArray => ArrayEncodingView::HlaVariableArray,
            ArrayDataTypeEncodingType::Other(t) => ArrayEncodingView::Other(t@),
        }
    }
}

/// The array-encoding vocabulary (open).
pub open spec fn array_encoding_spec(t: Seq<char>) -> ArrayEncodingView {
    if t == "HLAfixedArray"@ {
        ArrayEncodingView::HlaFixedArray
    } else if t == "HLAvariableArray"@ {
        ArrayEncodingView::HlaVariableArray
    } else {
        ArrayEncodingView::Other(t)
    }
}

impl ArrayDataTypeEncodingType {
    /// Convert a vocabulary token.
    pub fn from_text(text: String) -> (r: ArrayDataTypeEncodingType)
        ensures
            r.deep_view() == array_encoding_spec(text@),
    {
        if str_eq(text.as_str(), "HLAfixedArray") {
            ArrayDataTypeEncodingType::HlaFixedArray
        } else if str_eq(text.as_str(), "HLAvariableArray") {
            ArrayDataTypeEncodingType::HlaVariableArray
        } else {
            ArrayDataTypeEncodingType::Other(text)
        }
    }

    /// Convert the trimmed text content of an element.
    pub fn from_element(e: &XmlElement) -> (r: ArrayDataTypeEncodingType)
        ensures
            r.deep_view() == array_encoding_spec(elem_text(*e)),
    {
        Self::from_text(get_element_text(e))
    }
}

/// Encoding of a fixed-record data type (open).
#[derive(Debug, PartialEq)]
pub enum FixedRecordEncodingType {
    HlaFixedRecord,
    Other(String),
}

/// The mathematical image of a `FixedRecordEncodingType`.
pub enum FixedRecordEncodingView {
    HlaFixedRecord,
    Other(Seq<char>),
}

impl DeepView for FixedRecordEncodingType {
    type V = FixedRecordEncodingView;

    open spec fn deep_view(&self) -> FixedRecordEncodingView {
        match self {
            FixedRecordEncodingType::HlaFixedRecord => FixedRecordEncodingView::HlaFixedRecord,
            FixedRecordEncodingType::Other(t) => FixedRecordEncodingView::Other(t@),
        }
    }
}

/// The fixed-record-encoding vocabulary (open).
pub open spec fn fixed_record_encoding_spec(t: Seq<char>) -> FixedRecordEncodingView {
    if t == "HLAfixedRecord"@ {
        FixedRecordEncodingView::HlaFixedRecord
    } else {
        FixedRecordEncodingView::Other(t)
    }
}

impl FixedRecordEncodingType {
    /// Convert a vocabulary token.
    pub fn from_text(text: String) -> (r: FixedRecordEncodingType)
        ensures
            r.deep_view() == fixed_record_encoding_spec(text@),
    {
        if str_eq(text.as_str(), "HLAfixedRecord") {
            FixedRecordEncodingType::HlaFixedRecord
        } else {
            FixedRecordEncodingType::Other(text)
        }
    }

    /// Convert the trimmed text content of an element.
    pub fn from_element(e: &XmlElement) -> (r: FixedRecordEncodingType)
        ensures
            r.deep_view() == fixed_record_encoding_spec(elem_text(*e)),
    {
        Self::from_text(get_element_text(e))
    }
}

/// Encoding of a variant-record data type (open).
#[derive(Debug, PartialEq)]
pub enum VariantRecordEncodingType {
    HlaVariantRecord,
    Other(String),
}

/// The mathematical image of a `VariantRecordEncodingType`.
pub enum VariantRecordEncodingView {
    HlaVariantRecord,
    Other(Seq<char>),
}

impl DeepView for VariantRecordEncodingType {
    type V = VariantRecordEncodingView;

    open spec fn deep_view(&self) -> VariantRecordEncodingView {
        match self {
            VariantRecordEncodingType::HlaVariantRecord => {
                VariantRecordEncodingView::HlaVariantRecord
            },
            VariantRecordEncodingType::Other(t) => VariantRecordEncodingView::Other(t@),
        }
    }
}

/// The variant-record-encoding vocabulary (open).
pub open spec fn variant_record_encoding_spec(t: Seq<char>) -> VariantRecordEncodingView {
    if t == "HLAvariantRecord"@ {
        VariantRecordEncodingView::HlaVariantRecord
    } else {
        VariantRecordEncodingView::Other(t)
    }
}

impl VariantRecordEncodingType {
    /// Convert a vocabulary token.
    pub fn from_text(text: String) -> (r: VariantRecordEncodingType)
        ensures
            r.deep_view() == variant_record_encoding_spec(text@),
    {
        if str_eq(text.as_str(), "HLAvariantRecord") {
            VariantRecordEncodingType::HlaVariantRecord
        } else {
            VariantRecordEncodingType::Other(text)
        }
    }

    /// Convert the trimmed text content of an element.
    pub fn from_element(e: &XmlElement) -> (r: VariantRecordEncodingType)
        ensures
            r.deep_view() == variant_record_encoding_spec(elem_text(*e)),
    {
        Self::from_text(get_element_text(e))
    }
}

/// Image format of the model's glyph (open).
#[derive(Debug, PartialEq)]
pub enum GlyphTypeType {
    Bitmap,
    Jpg,
    Gif,
    Png,
    Tiff,
    Other(String),
}

/// The mathematical image of a `GlyphTypeType`.
pub enum GlyphTypeView {
    Bitmap,
    Jpg,
    Gif,
    Png,
    Tiff,
    Other(Seq<char>),
}

impl DeepView for GlyphTypeType {
    type V = GlyphTypeView;

    open spec fn deep_view(&self) -> GlyphTypeView {
        match self {
            GlyphTypeType::Bitmap => GlyphTypeView::Bitmap,
            GlyphTypeType::Jpg => GlyphTypeView::Jpg,
            GlyphTypeType::Gif => GlyphTypeView::Gif,
            GlyphTypeType::Png => GlyphTypeView::Png,
            GlyphTypeType::Tiff => GlyphTypeView::Tiff,
            GlyphTypeType::Other(t) => GlyphTypeView::Other(t@),
        }
    }
}

/// The glyph-format vocabulary (open).
pub open spec fn glyph_type_spec(t: Seq<char>) -> GlyphTypeView {
    if t == "BITMAP"@ {
        GlyphTypeView::Bitmap
    } else if t == "JPG"@ {
        GlyphTypeView::Jpg
    } else if t == "GIF"@ {
        GlyphTypeView::Gif
    } else if t == "PNG"@ {
        GlyphTypeView::Png
    } else if t == "TIFF"@ {
        GlyphTypeView::Tiff
    } else {
        GlyphTypeView::Other(t)
    }
}

impl GlyphTypeType {
    /// Convert a vocabulary token (an attribute value).
    pub fn from_text(text: String) -> (r: GlyphTypeType)
        ensures
            r.deep_view() == glyph_type_spec(text@),
    {
        if str_eq(text.as_str(), "BITMAP") {
            GlyphTypeType::Bitmap
        } else if str_eq(text.as_str(), "JPG") {
            GlyphTypeType::Jpg
        } else if str_eq(text.as_str(), "GIF") {
            GlyphTypeType::Gif
        } else if str_eq(text.as_str(), "PNG") {
            GlyphTypeType::Png
        } else if str_eq(text.as_str(), "TIFF") {
            GlyphTypeType::Tiff
        } else {
            GlyphTypeType::Other(text)
        }
    }
}

/// Open vocabularies preserve forward compatibility: whenever a token
/// converts to the fallback variant, the embedded text equals the
/// original token exactly.
pub proof fn lemma_open_vocab_fallback(t: Seq<char>)
    ensures
        model_type_spec(t) matches ModelTypeView::Other(u) ==> u == t,
        security_classification_spec(t) matches SecurityClassificationView::Other(u) ==> u == t,
        application_domain_spec(t) matches ApplicationDomainView::Other(u) ==> u == t,
        poc_type_spec(t) matches PocTypeView::Other(u) ==> u == t,
        update_type_spec(t) matches UpdateTypeView::Other(u) ==> u == t,
        ownership_type_spec(t) matches OwnershipTypeView::Other(u) ==> u == t,
        array_encoding_spec(t) matches ArrayEncodingView::Other(u) ==> u == t,
        fixed_record_encoding_spec(t) matches FixedRecordEncodingView::Other(u) ==> u == t,
        variant_record_encoding_spec(t) matches VariantRecordEncodingView::Other(u) ==> u == t,
        glyph_type_spec(t) matches GlyphTypeView::Other(u) ==> u == t,
{
}

// ---------------------------------------------------------------------
// Closed vocabularies.
// ---------------------------------------------------------------------

/// Publish/subscribe capability of a class or attribute (closed).
#[derive(Clone, Copy, Debug, PartialEq, Eq)]
pub enum SharingType {
    Publish,
    Subscribe,
    PublishSubscribe,
    Neither,
}

impl DeepView for SharingType {
    type V = SharingType;

    open spec fn deep_view(&self) -> SharingType {
        *self
    }
}

/// The sharing vocabulary (closed): an unknown token is an
/// Unrecognized-Value failure carrying that token.
pub open spec fn sharing_spec(t: Seq<char>) -> Result<SharingType, ErrView> {
    if t == "Publish"@ {
        Ok(SharingType::Publish)
    } else if t == "Subscribe"@ {
        Ok(SharingType::Subscribe)
    } else if t == "PublishSubscribe"@ {
        Ok(SharingType::PublishSubscribe)
    } else if t == "Neither"@ {
        Ok(SharingType::Neither)
    } else {
        Err(ErrView::UnrecognizedValue(t))
    }
}

impl SharingType {
    /// Convert a vocabulary token.
    pub fn from_text(text: String) -> (r: Result<SharingType, FomError>)
        ensures
            parsed(r) == sharing_spec(text@),
    {
        if str_eq(text.as_str(), "Publish") {
            Ok(SharingType::Publish)
        } else if str_eq(text.as_str(), "Subscribe") {
            Ok(SharingType::Subscribe)
        } else if str_eq(text.as_str(), "PublishSubscribe") {
            Ok(SharingType::PublishSubscribe)
        } else if str_eq(text.as_str(), "Neither") {
            Ok(SharingType::Neither)
        } else {
            Err(FomError::unrecognized(text))
        }
    }

    /// Convert the trimmed text content of an element.
    pub fn from_element(e: &XmlElement) -> (r: Result<SharingType, FomError>)
        ensures
            parsed(r) == sharing_spec(elem_text(*e)),
    {
        Self::from_text(get_element_text(e))
    }
}

/// An optional sharing child: absent is `None`; present it must hold a
/// known token.
pub open spec fn opt_sharing_spec(e: XmlElement, name: Seq<char>) -> Result<
    Option<SharingType>,
    ErrView,
> {
    match child_named(e, name) {
        Some(c) => match sharing_spec(elem_text(c)) {
            Ok(s) => Ok(Some(s)),
            Err(er) => Err(er),
        },
        None => Ok(None),
    }
}

/// Convert the optional sharing child element of the given name.
pub fn opt_sharing_from(e: &XmlElement, name: &str) -> (r: Result<Option<SharingType>, FomError>)
    ensures
        parsed(r) == opt_sharing_spec(*e, name@),
{
    match get_child(e, name) {
        Some(c) => match SharingType::from_element(c) {
            Ok(s) => Ok(Some(s)),
            Err(er) => Err(er),
        },
        None => Ok(None),
    }
}

/// Delivery order of updates and interactions (closed).
#[derive(Clone, Copy, Debug, PartialEq, Eq)]
pub enum OrderType {
    Receive,
    TimeStamp,
}

impl DeepView for OrderType {
    type V = OrderType;

    open spec fn deep_view(&self) -> OrderType {
        *self
    }
}

/// The order vocabulary (closed).
pub open spec fn order_spec(t: Seq<char>) -> Result<OrderType, ErrView> {
    if t == "Receive"@ {
        Ok(OrderType::Receive)
    } else if t == "TimeStamp"@ {
        Ok(OrderType::TimeStamp)
    } else {
        Err(ErrView::UnrecognizedValue(t))
    }
}

impl OrderType {
    /// Convert a vocabulary token.
    pub fn from_text(text: String) -> (r: Result<OrderType, FomError>)
        ensures
            parsed(r) == order_spec(text@),
    {
        if str_eq(text.as_str(), "Receive") {
            Ok(OrderType::Receive)
        } else if str_eq(text.as_str(), "TimeStamp") {
            Ok(OrderType::TimeStamp)
        } else {
            Err(FomError::unrecognized(text))
        }
    }

    /// Convert the trimmed text content of an element.
    pub fn from_element(e: &XmlElement) -> (r: Result<OrderType, FomError>)
        ensures
            parsed(r) == order_spec(elem_text(*e)),
    {
        Self::from_text(get_element_text(e))
    }
}

/// An optional order child: absent is `None`; present it must hold a
/// known token.
pub open spec fn opt_order_spec(e: XmlElement, name: Seq<char>) -> Result<
    Option<OrderType>,
    ErrView,
> {
    match child_named(e, name) {
        Some(c) => match order_spec(elem_text(c)) {
            Ok(o) => Ok(Some(o)),
            Err(er) => Err(er),
        },
        None => Ok(None),
    }
}

/// Convert the optional order child element of the given name.
pub fn opt_order_from(e: &XmlElement, name: &str) -> (r: Result<Option<OrderType>, FomError>)
    ensures
        parsed(r) == opt_order_spec(*e, name@),
{
    match get_child(e, name) {
        Some(c) => match OrderType::from_element(c) {
            Ok(o) => Ok(Some(o)),
            Err(er) => Err(er),
        },
        None => Ok(None),
    }
}

/// Synchronization-point capability (closed).
#[derive(Clone, Copy, Debug, PartialEq, Eq)]
pub enum CapabilityType {
    Register,
    Achieve,
    RegisterAchieve,
    NoSynch,
    Na,
}

impl DeepView for CapabilityType {
    type V = CapabilityType;

    open spec fn deep_view(&self) -> CapabilityType {
        *self
    }
}

/// The synchronization-capability vocabulary (closed).
pub open spec fn capability_spec(t: Seq<char>) -> Result<CapabilityType, ErrView> {
    if t == "Register"@ {
        Ok(CapabilityType::Register)
    } else if t == "Achieve"@ {
        Ok(CapabilityType::Achieve)
    } else if t == "RegisterAchieve"@ {
        Ok(CapabilityType::RegisterAchieve)
    } else if t == "NoSynch"@ {
        Ok(CapabilityType::NoSynch)
    } else if t == "NA"@ {
        Ok(CapabilityType::Na)
    } else {
        Err(ErrView::UnrecognizedValue(t))
    }
}

impl CapabilityType {
    /// Convert a vocabulary token.
    pub fn from_text(text: String) -> (r: Result<CapabilityType, FomError>)
        ensures
            parsed(r) == capability_spec(text@),
    {
        if str_eq(text.as_str(), "Register") {
            Ok(CapabilityType::Register)
        } else if str_eq(text.as_str(), "Achieve") {
            Ok(CapabilityType::Achieve)
        } else if str_eq(text.as_str(), "RegisterAchieve") {
            Ok(CapabilityType::RegisterAchieve)
        } else if str_eq(text.as_str(), "NoSynch") {
            Ok(CapabilityType::NoSynch)
        } else if str_eq(text.as_str(), "NA") {
            Ok(CapabilityType::Na)
        } else {
            Err(FomError::unrecognized(text))
        }
    }

    /// Convert the trimmed text content of an element.
    pub fn from_element(e: &XmlElement) -> (r: Result<CapabilityType, FomError>)
        ensures
            parsed(r) == capability_spec(elem_text(*e)),
    {
        Self::from_text(get_element_text(e))
    }
}

/// Whether a transportation is reliable (closed).
#[derive(Clone, Copy, Debug, PartialEq, Eq)]
pub enum ReliableType {
    Yes,
    No,
}

impl DeepView for ReliableType {
    type V = ReliableType;

    open spec fn deep_view(&self) -> ReliableType {
        *self
    }
}

/// The reliability vocabulary (closed).
pub open spec fn reliable_spec(t: Seq<char>) -> Result<ReliableType, ErrView> {
    if t == "Yes"@ {
        Ok(ReliableType::Yes)
    } else if t == "No"@ {
        Ok(ReliableType::No)
    } else {
        Err(ErrView::UnrecognizedValue(t))
    }
}

impl ReliableType {
    /// Convert a vocabulary token.
    pub fn from_text(text: String) -> (r: Result<ReliableType, FomError>)
        ensures
            parsed(r) == reliable_spec(text@),
    {
        if str_eq(text.as_str(), "Yes") {
            Ok(ReliableType::Yes)
        } else if str_eq(text.as_str(), "No") {
            Ok(ReliableType::No)
        } else {
            Err(FomError::unrecognized(text))
        }
    }

    /// Convert the trimmed text content of an element.
    pub fn from_element(e: &XmlElement) -> (r: Result<ReliableType, FomError>)
        ensures
            parsed(r) == reliable_spec(elem_text(*e)),
    {
        Self::from_text(get_element_text(e))
    }
}

/// Byte order of a basic data representation (closed).
#[derive(Clone, Copy, Debug, PartialEq, Eq)]
pub enum EndianType {
    Big,
    Little,
}

impl DeepView for EndianType {
    type V = EndianType;

    open spec fn deep_view(&self) -> EndianType {
        *self
    }
}

/// The endianness vocabulary (closed).
pub open spec fn endian_spec(t: Seq<char>) -> Result<EndianType, ErrView> {
    if t == "Big"@ {
        Ok(EndianType::Big)
    } else if t == "Little"@ {
        Ok(EndianType::Little)
    } else {
        Err(ErrView::UnrecognizedValue(t))
    }
}

impl EndianType {
    /// Convert a vocabulary token.
    pub fn from_text(text: String) -> (r: Result<EndianType, FomError>)
        ensures
            parsed(r) == endian_spec(text@),
    {
        if str_eq(text.as_str(), "Big") {
            Ok(EndianType::Big)
        } else if str_eq(text.as_str(), "Little") {
            Ok(EndianType::Little)
        } else {
            Err(FomError::unrecognized(text))
        }
    }

    /// Convert the trimmed text content of an element.
    pub fn from_element(e: &XmlElement) -> (r: Result<EndianType, FomError>)
        ensures
            parsed(r) == endian_spec(elem_text(*e)),
    {
        Self::from_text(get_element_text(e))
    }
}

/// An optional endianness child: absent is `None`; present it must hold
/// a known token.
pub open spec fn opt_endian_spec(e: XmlElement, name: Seq<char>) -> Result<
    Option<EndianType>,
    ErrView,
> {
    match child_named(e, name) {
        Some(c) => match endian_spec(elem_text(c)) {
            Ok(v) => Ok(Some(v)),
            Err(er) => Err(er),
        },
        None => Ok(None),
    }
}

/// Convert the optional endianness child element of the given name.
pub fn opt_endian_from(e: &XmlElement, name: &str) -> (r: Result<Option<EndianType>, FomError>)
    ensures
        parsed(r) == opt_endian_spec(*e, name@),
{
    match get_child(e, name) {
        Some(c) => match EndianType::from_element(c) {
            Ok(v) => Ok(Some(v)),
            Err(er) => Err(er),
        },
        None => Ok(None),
    }
}

/// What the runtime does with a resigning federate's objects (closed).
#[derive(Clone, Copy, Debug, PartialEq, Eq)]
pub enum ResignSwitchType {
    UnconditionallyDivestAttributes,
    DeleteObjects,
    CancelPendingOwnershipAcquisitions,
    DeleteObjectsThenDivest,
    CancelThenDeleteThenDivest,
    NoAction,
}

impl DeepView for ResignSwitchType {
    type V = ResignSwitchType;

    open spec fn deep_view(&self) -> ResignSwitchType {
        *self
    }
}

/// The resign-action vocabulary (closed).
pub open spec fn resign_switch_spec(t: Seq<char>) -> Result<ResignSwitchType, ErrView> {
    if t == "UnconditionallyDivestAttributes"@ {
        Ok(ResignSwitchType::UnconditionallyDivestAttributes)
    } else if t == "DeleteObjects"@ {
        Ok(ResignSwitchType::DeleteObjects)
    } else if t == "CancelPendingOwnershipAcquisitions"@ {
        Ok(ResignSwitchType::CancelPendingOwnershipAcquisitions)
    } else if t == "DeleteObjectsThenDivest"@ {
        Ok(ResignSwitchType::DeleteObjectsThenDivest)
    } else if t == "CancelThenDeleteThenDivest"@ {
        Ok(ResignSwitchType::CancelThenDeleteThenDivest)
    } else if t == "NoAction"@ {
        Ok(ResignSwitchType::NoAction)
    } else {
        Err(ErrView::UnrecognizedValue(t))
    }
}

impl ResignSwitchType {
    /// Convert a vocabulary token (an attribute value).
    pub fn from_text(text: String) -> (r: Result<ResignSwitchType, FomError>)
        ensures
            parsed(r) == resign_switch_spec(text@),
    {
        if str_eq(text.as_str(), "UnconditionallyDivestAttributes") {
            Ok(ResignSwitchType::UnconditionallyDivestAttributes)
        } else if str_eq(text.as_str(), "DeleteObjects") {
            Ok(ResignSwitchType::DeleteObjects)
        } else if str_eq(text.as_str(), "CancelPendingOwnershipAcquisitions") {
            Ok(ResignSwitchType::CancelPendingOwnershipAcquisitions)
        } else if str_eq(text.as_str(), "DeleteObjectsThenDivest") {
            Ok(ResignSwitchType::DeleteObjectsThenDivest)
        } else if str_eq(text.as_str(), "CancelThenDeleteThenDivest") {
            Ok(ResignSwitchType::CancelThenDeleteThenDivest)
        } else if str_eq(text.as_str(), "NoAction") {
            Ok(ResignSwitchType::NoAction)
        } else {
            Err(FomError::unrecognized(text))
        }
    }
}

/// Closed vocabularies are understood exactly: every known token
/// converts deterministically to its variant, and any token outside the
/// known set fails with an Unrecognized-Value error carrying that
/// token.
pub proof fn lemma_closed_vocab_unknown_fails(t: Seq<char>)
    ensures
        sharing_spec(t) is Err <==> (t != "Publish"@ && t != "Subscribe"@
            && t != "PublishSubscribe"@ && t != "Neither"@),
        sharing_spec(t) is Err ==> sharing_spec(t) == Err::<SharingType, ErrView>(
            ErrView::UnrecognizedValue(t),
        ),
        order_spec(t) is Err <==> (t != "Receive"@ && t != "TimeStamp"@),
        order_spec(t) is Err ==> order_spec(t) == Err::<OrderType, ErrView>(
            ErrView::UnrecognizedValue(t),
        ),
        capability_spec(t) is Err <==> (t != "Register"@ && t != "Achieve"@
            && t != "RegisterAchieve"@ && t != "NoSynch"@ && t != "NA"@),
        capability_spec(t) is Err ==> capability_spec(t) == Err::<CapabilityType, ErrView>(
            ErrView::UnrecognizedValue(t),
        ),
        reliable_spec(t) is Err <==> (t != "Yes"@ && t != "No"@),
        reliable_spec(t) is Err ==> reliable_spec(t) == Err::<ReliableType, ErrView>(
            ErrView::UnrecognizedValue(t),
        ),
        endian_spec(t) is Err <==> (t != "Big"@ && t != "Little"@),
        endian_spec(t) is Err ==> endian_spec(t) == Err::<EndianType, ErrView>(
            ErrView::UnrecognizedValue(t),
        ),
        resign_switch_spec(t) is Err <==> (t != "UnconditionallyDivestAttributes"@
            && t != "DeleteObjects"@ && t != "CancelPendingOwnershipAcquisitions"@
            && t != "DeleteObjectsThenDivest"@ && t != "CancelThenDeleteThenDivest"@
            && t != "NoAction"@),
        resign_switch_spec(t) is Err ==> resign_switch_spec(t) == Err::<
            ResignSwitchType,
            ErrView,
        >(ErrView::UnrecognizedValue(t)),
{
}

} // verus!
