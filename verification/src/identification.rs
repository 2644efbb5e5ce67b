//! The `modelIdentification` and `serviceUtilization` sections: document
//! metadata, points of contact, references and the glyph. Every field of
//! these compounds is optional, so their converters are total.

use vstd::prelude::*;
use crate::extract::{absent_if_empty, collect_children_total, get_texts_opt, total_list_spec};
use crate::vocab::{
    ApplicationDomainType, ApplicationDomainView, GlyphTypeType, GlyphTypeView, ModelType,
    ModelTypeView, PocTypeType, PocTypeView, SecurityClassificationType,
    SecurityClassificationView, application_domain_spec, glyph_type_spec, model_type_spec,
    poc_type_spec, security_classification_spec,
};
use crate::xml::{
    XmlElement, attr_text, child_named, child_text, child_texts, elem_text, get_child,
    get_text_of_attribute, get_text_of_child_element,
};

verus! {

/// A keyword describing the model: a taxonomy and a value.
#[derive(Debug, PartialEq)]
pub struct KeywordType {
    pub taxonomy: Option<String>,
    pub keyword_value: Option<String>,
}

/// The mathematical image of a `KeywordType`.
pub struct KeywordView {
    pub taxonomy: Option<Seq<char>>,
    pub keyword_value: Option<Seq<char>>,
}

impl DeepView for KeywordType {
    type V = KeywordView;

    open spec fn deep_view(&self) -> KeywordView {
        KeywordView { taxonomy: self.taxonomy.deep_view(), keyword_value: self.keyword_value.deep_view() }
    }
}

/// What a `keyword` element converts to.
pub open spec fn keyword_spec(e: XmlElement) -> KeywordView {
    KeywordView {
        taxonomy: child_text(e, "taxonomy"@),
        keyword_value: child_text(e, "keywordValue"@),
    }
}

impl KeywordType {
    /// Convert a `keyword` element.
    pub fn from_element(e: &XmlElement) -> (r: KeywordType)
        ensures
            r.deep_view() == keyword_spec(*e),
    {
        KeywordType {
            taxonomy: get_text_of_child_element(e, "taxonomy"),
            keyword_value: get_text_of_child_element(e, "keywordValue"),
        }
    }
}

/// A point of contact for the model.
#[derive(Debug, PartialEq)]
pub struct PocType {
    pub poc_type: Option<PocTypeType>,
    pub poc_name: Option<String>,
    pub poc_org: Option<String>,
    pub poc_telephones: Option<Vec<String>>,
    pub poc_emails: Option<Vec<String>>,
}

/// The mathematical image of a `PocType`.
pub struct PocView {
    pub poc_type: Option<PocTypeView>,
    pub poc_name: Option<Seq<char>>,
    pub poc_org: Option<Seq<char>>,
    pub poc_telephones: Option<Seq<Seq<char>>>,
    pub poc_emails: Option<Seq<Seq<char>>>,
}

impl DeepView for PocType {
    type V = PocView;

    open spec fn deep_view(&self) -> PocView {
        PocView {
            poc_type: self.poc_type.deep_view(),
            poc_name: self.poc_name.deep_view(),
            poc_org: self.poc_org.deep_view(),
            poc_telephones: self.poc_telephones.deep_view(),
            poc_emails: self.poc_emails.deep_view(),
        }
    }
}

/// What a `poc` element converts to.
pub open spec fn poc_spec(e: XmlElement) -> PocView {
    PocView {
        poc_type: match child_named(e, "pocType"@) {
            Some(c) => Some(poc_type_spec(elem_text(c))),
            None => None,
        },
        poc_name: child_text(e, "pocName"@),
        poc_org: child_text(e, "pocOrg"@),
        poc_telephones: absent_if_empty(child_texts(e, "pocTelephone"@)),
        poc_emails: absent_if_empty(child_texts(e, "pocEmail"@)),
    }
}

impl PocType {
    /// Convert a `poc` element.
    pub fn from_element(e: &XmlElement) -> (r: PocType)
        ensures
            r.deep_view() == poc_spec(*e),
    {
        PocType {
            poc_type: match get_child(e, "pocType") {
                Some(c) => Some(PocTypeType::from_element(c)),
                None => None,
            },
            poc_name: get_text_of_child_element(e, "pocName"),
            poc_org: get_text_of_child_element(e, "pocOrg"),
            poc_telephones: get_texts_opt(e, "pocTelephone"),
            poc_emails: get_texts_opt(e, "pocEmail"),
        }
    }
}

/// A reference to related documentation: a kind and an identification.
#[derive(Debug, PartialEq)]
pub struct IdReferenceType {
    pub reference_type: Option<String>,
    pub identification: Option<String>,
}

/// The mathematical image of an `IdReferenceType`.
pub struct IdReferenceView {
    pub reference_type: Option<Seq<char>>,
    pub identification: Option<Seq<char>>,
}

impl DeepView for IdReferenceType {
    type V = IdReferenceView;

    open spec fn deep_view(&self) -> IdReferenceView {
        IdReferenceView {
            reference_type: self.reference_type.deep_view(),
            identification: self.identification.deep_view(),
        }
    }
}

/// What a `reference` element converts to.
pub open spec fn id_reference_spec(e: XmlElement) -> IdReferenceView {
    IdReferenceView {
        reference_type: child_text(e, "type"@),
        identification: child_text(e, "identification"@),
    }
}

impl IdReferenceType {
    /// Convert a `reference` element.
    pub fn from_element(e: &XmlElement) -> (r: IdReferenceType)
        ensures
            r.deep_view() == id_reference_spec(*e),
    {
        IdReferenceType {
            reference_type: get_text_of_child_element(e, "type"),
            identification: get_text_of_child_element(e, "identification"),
        }
    }
}

/// The model's glyph, described entirely by attributes.
#[derive(Debug, PartialEq)]
pub struct GlyphType {
    pub href: Option<String>,
    pub glyph_type: Option<GlyphTypeType>,
    pub height: Option<String>,
    pub width: Option<String>,
    pub alt: Option<String>,
}

/// The mathematical image of a `GlyphType`.
pub struct GlyphView {
    pub href: Option<Seq<char>>,
    pub glyph_type: Option<GlyphTypeView>,
    pub height: Option<Seq<char>>,
    pub width: Option<Seq<char>>,
    pub alt: Option<Seq<char>>,
}

impl DeepView for GlyphType {
    type V = GlyphView;

    open spec fn deep_view(&self) -> GlyphView {
        GlyphView {
            href: self.href.deep_view(),
            glyph_type: self.glyph_type.deep_view(),
            height: self.height.deep_view(),
            width: self.width.deep_view(),
            alt: self.alt.deep_view(),
        }
    }
}

/// What a `glyph` element converts to.
pub open spec fn glyph_spec(e: XmlElement) -> GlyphView {
    GlyphView {
        href: attr_text(e, "href"@),
        glyph_type: match attr_text(e, "type"@) {
            Some(t) => Some(glyph_type_spec(t)),
            None => None,
        },
        height: attr_text(e, "height"@),
        width: attr_text(e, "width"@),
        alt: attr_text(e, "alt"@),
    }
}

impl GlyphType {
    /// Convert a `glyph` element.
    pub fn from_element(e: &XmlElement) -> (r: GlyphType)
        ensures
            r.deep_view() == glyph_spec(*e),
    {
        GlyphType {
            href: get_text_of_attribute(e, "href"),
            glyph_type: match get_text_of_attribute(e, "type") {
                Some(t) => Some(GlyphTypeType::from_text(t)),
                None => None,
            },
            height: get_text_of_attribute(e, "height"),
            width: get_text_of_attribute(e, "width"),
            alt: get_text_of_attribute(e, "alt"),
        }
    }
}

/// The `modelIdentification` section: descriptive metadata for the whole
/// object model. Every field is optional.
#[derive(Debug, PartialEq)]
pub struct ModelIdentificationType {
    pub name: Option<String>,
    pub model_type: Option<ModelType>,
    pub version: Option<String>,
    pub modification_date: Option<String>,
    pub security_classification: Option<SecurityClassificationType>,
    pub release_restriction: Option<Vec<String>>,
    pub purpose: Option<String>,
    pub application_domain: Option<ApplicationDomainType>,
    pub description: Option<String>,
    pub use_limitation: Option<String>,
    pub use_history: Option<Vec<String>>,
    pub keywords: Option<Vec<KeywordType>>,
    pub poc: Option<Vec<PocType>>,
    pub references: Option<Vec<IdReferenceType>>,
    pub other: Option<String>,
    pub glyph: Option<GlyphType>,
}

/// The mathematical image of a `ModelIdentificationType`.
pub struct ModelIdentificationView {
    pub name: Option<Seq<char>>,
    pub model_type: Option<ModelTypeView>,
    pub version: Option<Seq<char>>,
    pub modification_date: Option<Seq<char>>,
    pub security_classification: Option<SecurityClassificationView>,
    pub release_restriction: Option<Seq<Seq<char>>>,
    pub purpose: Option<Seq<char>>,
    pub application_domain: Option<ApplicationDomainView>,
    pub description: Option<Seq<char>>,
    pub use_limitation: Option<Seq<char>>,
    pub use_history: Option<Seq<Seq<char>>>,
    pub keywords: Option<Seq<KeywordView>>,
    pub poc: Option<Seq<PocView>>,
    pub references: Option<Seq<IdReferenceView>>,
    pub other: Option<Seq<char>>,
    pub glyph: Option<GlyphView>,
}

impl DeepView for ModelIdentificationType {
    type V = ModelIdentificationView;

    open spec fn deep_view(&self) -> ModelIdentificationView {
        ModelIdentificationView {
            name: self.name.deep_view(),
            model_type: self.model_type.deep_view(),
            version: self.version.deep_view(),
            modification_date: self.modification_date.deep_view(),
            security_classification: self.security_classification.deep_view(),
            release_restriction: self.release_restriction.deep_view(),
            purpose: self.purpose.deep_view(),
            application_domain: self.application_domain.deep_view(),
            description: self.description.deep_view(),
            use_limitation: self.use_limitation.deep_view(),
            use_history: self.use_history.deep_view(),
            keywords: self.keywords.deep_view(),
            poc: self.poc.deep_view(),
            references: self.references.deep_view(),
            other: self.other.deep_view(),
            glyph: self.glyph.deep_view(),
        }
    }
}

/// What a `modelIdentification` element converts to.
pub open spec fn model_identification_spec(e: XmlElement) -> ModelIdentificationView {
    ModelIdentificationView {
        name: child_text(e, "name"@),
        model_type: match child_named(e, "type"@) {
            Some(c) => Some(model_type_spec(elem_text(c))),
            None => None,
        },
        version: child_text(e, "version"@),
        modification_date: child_text(e, "modificationDate"@),
        security_classification: match child_named(e, "securityClassification"@) {
            Some(c) => Some(security_classification_spec(elem_text(c))),
            None => None,
        },
        release_restriction: absent_if_empty(child_texts(e, "releaseRestriction"@)),
        purpose: child_text(e, "purpose"@),
        application_domain: match child_named(e, "applicationDomain"@) {
            Some(c) => Some(application_domain_spec(elem_text(c))),
            None => None,
        },
        description: child_text(e, "description"@),
        use_limitation: child_text(e, "useLimitation"@),
        use_history: absent_if_empty(child_texts(e, "useHistory"@)),
        keywords: absent_if_empty(total_list_spec(e.children@, "keyword"@, |c: XmlElement| keyword_spec(c))),
        poc: absent_if_empty(total_list_spec(e.children@, "poc"@, |c: XmlElement| poc_spec(c))),
        references: absent_if_empty(
            total_list_spec(e.children@, "reference"@, |c: XmlElement| id_reference_spec(c)),
        ),
        other: child_text(e, "other"@),
        glyph: match child_named(e, "glyph"@) {
            Some(c) => Some(glyph_spec(c)),
            None => None,
        },
    }
}

impl ModelIdentificationType {
    /// Convert a `modelIdentification` element.
    pub fn from_element(e: &XmlElement) -> (r: ModelIdentificationType)
        ensures
            r.deep_view() == model_identification_spec(*e),
    {
        let keywords = collect_children_total(
            e,
            "keyword",
            KeywordType::from_element,
            Ghost(|c: XmlElement| keyword_spec(c)),
        );
        let poc = collect_children_total(
            e,
            "poc",
            PocType::from_element,
            Ghost(|c: XmlElement| poc_spec(c)),
        );
        let references = collect_children_total(
            e,
            "reference",
            IdReferenceType::from_element,
            Ghost(|c: XmlElement| id_reference_spec(c)),
        );
        ModelIdentificationType {
            name: get_text_of_child_element(e, "name"),
            model_type: match get_child(e, "type") {
                Some(c) => Some(ModelType::from_element(c)),
                None => None,
            },
            version: get_text_of_child_element(e, "version"),
            modification_date: get_text_of_child_element(e, "modificationDate"),
            security_classification: match get_child(e, "securityClassification") {
                Some(c) => Some(SecurityClassificationType::from_element(c)),
                None => None,
            },
            release_restriction: get_texts_opt(e, "releaseRestriction"),
            purpose: get_text_of_child_element(e, "purpose"),
            application_domain: match get_child(e, "applicationDomain") {
                Some(c) => Some(ApplicationDomainType::from_element(c)),
                None => None,
            },
            description: get_text_of_child_element(e, "description"),
            use_limitation: get_text_of_child_element(e, "useLimitation"),
            use_history: get_texts_opt(e, "useHistory"),
            keywords: if keywords.len() == 0 {
                None
            } else {
                Some(keywords)
            },
            poc: if poc.len() == 0 {
                None
            } else {
                Some(poc)
            },
            references: if references.len() == 0 {
                None
            } else {
                Some(references)
            },
            other: get_text_of_child_element(e, "other"),
            glyph: match get_child(e, "glyph") {
                Some(c) => Some(GlyphType::from_element(c)),
                None => None,
            },
        }
    }
}

/// Utilization of one federate-interface service, described entirely by
/// attributes.
#[derive(Debug, PartialEq)]
pub struct ServiceInfoType {
    pub section: Option<String>,
    pub is_callback: Option<String>,
    pub is_used: Option<String>,
}

/// The mathematical image of a `ServiceInfoType`.
pub struct ServiceInfoView {
    pub section: Option<Seq<char>>,
    pub is_callback: Option<Seq<char>>,
    pub is_used: Option<Seq<char>>,
}

impl DeepView for ServiceInfoType {
    type V = ServiceInfoView;

    open spec fn deep_view(&self) -> ServiceInfoView {
        ServiceInfoView {
            section: self.section.deep_view(),
            is_callback: self.is_callback.deep_view(),
            is_used: self.is_used.deep_view(),
        }
    }
}

/// What a service-utilization child element converts to.
pub open spec fn service_info_spec(e: XmlElement) -> ServiceInfoView {
    ServiceInfoView {
        section: attr_text(e, "section"@),
        is_callback: attr_text(e, "isCallback"@),
        is_used: attr_text(e, "isUsed"@),
    }
}

impl ServiceInfoType {
    /// Convert a service-information element.
    pub fn from_element(e: &XmlElement) -> (r: ServiceInfoType)
        ensures
            r.deep_view() == service_info_spec(*e),
    {
        ServiceInfoType {
            section: get_text_of_attribute(e, "section"),
            is_callback: get_text_of_attribute(e, "isCallback"),
            is_used: get_text_of_attribute(e, "isUsed"),
        }
    }
}

/// The `serviceUtilization` section.
#[derive(Debug, PartialEq)]
pub struct ServiceUtiliizationType {
    pub connect: Option<ServiceInfoType>,
    pub disconnect: Option<ServiceInfoType>,
}

/// The mathematical image of a `ServiceUtiliizationType`.
pub struct ServiceUtilizationView {
    pub connect: Option<ServiceInfoView>,
    pub disconnect: Option<ServiceInfoView>,
}

impl DeepView for ServiceUtiliizationType {
    type V = ServiceUtilizationView;

    open spec fn deep_view(&self) -> ServiceUtilizationView {
        ServiceUtilizationView {
            connect: self.connect.deep_view(),
            disconnect: self.disconnect.deep_view(),
        }
    }
}

/// What a `serviceUtilization` element converts to.
pub open spec fn service_utilization_spec(e: XmlElement) -> ServiceUtilizationView {
    ServiceUtilizationView {
        connect: match child_named(e, "connect"@) {
            Some(c) => Some(service_info_spec(c)),
            None => None,
        },
        disconnect: match child_named(e, "disconnect"@) {
            Some(c) => Some(service_info_spec(c)),
            None => None,
        },
    }
}

impl ServiceUtiliizationType {
    /// Convert a `serviceUtilization` element.
    pub fn from_element(e: &XmlElement) -> (r: ServiceUtiliizationType)
        ensures
            r.deep_view() == service_utilization_spec(*e),
    {
        ServiceUtiliizationType {
            connect: match get_child(e, "connect") {
                Some(c) => Some(ServiceInfoType::from_element(c)),
                None => None,
            },
            disconnect: match get_child(e, "disconnect") {
                Some(c) => Some(ServiceInfoType::from_element(c)),
                None => None,
            },
        }
    }
}

} // verus!
