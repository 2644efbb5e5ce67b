//! Schema-directed deserialization of HLA Object Model Template (OMT)
//! documents: a recursive, type-safe mapping from a generic parsed XML
//! element tree to a hierarchy of typed records, with fail-fast error
//! semantics and verified contracts for every converter.

pub mod classes;
pub mod datatypes;
pub mod error;
pub mod extract;
pub mod identification;
pub mod object_model;
pub mod scalar;
pub mod sections;
pub mod vocab;
pub mod xml;

pub use error::FomError;
pub use object_model::ObjectModelType;
pub use object_model::parse_object_model;
pub use xml::XmlElement;
pub use xml::XmlNode;
