//! The controlled-vocabulary converters: every known token of each
//! closed vocabulary, the Unrecognized-Value failure on unknown tokens,
//! and the open vocabularies' fallback variants carrying the original
//! token verbatim.

use fom_tools::error::FomError;
use fom_tools::vocab::{
    ApplicationDomainType, ArrayDataTypeEncodingType, CapabilityType, EndianType,
    FixedRecordEncodingType, GlyphTypeType, ModelType, OrderType, OwnershipType, PocTypeType,
    ReliableType, ResignSwitchType, SecurityClassificationType, SharingType, UpdateType,
    VariantRecordEncodingType,
};

fn unrecognized(token: &str, r: Result<impl std::fmt::Debug, FomError>) {
    match r {
        Err(FomError::UnrecognizedValue(t)) => assert_eq!(t, token),
        other => panic!("expected an unrecognized-value error, got {:?}", other),
    }
}

#[test]
fn test_sharing_closed_vocabulary() {
    assert_eq!(SharingType::from_text("Publish".to_string()), Ok(SharingType::Publish));
    assert_eq!(SharingType::from_text("Subscribe".to_string()), Ok(SharingType::Subscribe));
    assert_eq!(
        SharingType::from_text("PublishSubscribe".to_string()),
        Ok(SharingType::PublishSubscribe),
    );
    assert_eq!(SharingType::from_text("Neither".to_string()), Ok(SharingType::Neither));
    unrecognized("publish", SharingType::from_text("publish".to_string()));
}

#[test]
fn test_order_closed_vocabulary() {
    assert_eq!(OrderType::from_text("Receive".to_string()), Ok(OrderType::Receive));
    assert_eq!(OrderType::from_text("TimeStamp".to_string()), Ok(OrderType::TimeStamp));
    unrecognized("Timestamp", OrderType::from_text("Timestamp".to_string()));
}

#[test]
fn test_capability_closed_vocabulary() {
    assert_eq!(CapabilityType::from_text("Register".to_string()), Ok(CapabilityType::Register));
    assert_eq!(CapabilityType::from_text("Achieve".to_string()), Ok(CapabilityType::Achieve));
    assert_eq!(
        CapabilityType::from_text("RegisterAchieve".to_string()),
        Ok(CapabilityType::RegisterAchieve),
    );
    assert_eq!(CapabilityType::from_text("NoSynch".to_string()), Ok(CapabilityType::NoSynch));
    assert_eq!(CapabilityType::from_text("NA".to_string()), Ok(CapabilityType::Na));
    unrecognized("Maybe", CapabilityType::from_text("Maybe".to_string()));
}

#[test]
fn test_reliable_closed_vocabulary() {
    assert_eq!(ReliableType::from_text("Yes".to_string()), Ok(ReliableType::Yes));
    assert_eq!(ReliableType::from_text("No".to_string()), Ok(ReliableType::No));
    unrecognized("Maybe", ReliableType::from_text("Maybe".to_string()));
}

#[test]
fn test_endian_closed_vocabulary() {
    assert_eq!(EndianType::from_text("Big".to_string()), Ok(EndianType::Big));
    assert_eq!(EndianType::from_text("Little".to_string()), Ok(EndianType::Little));
    unrecognized("Middle", EndianType::from_text("Middle".to_string()));
}

#[test]
fn test_resign_switch_closed_vocabulary() {
    assert_eq!(
        ResignSwitchType::from_text("UnconditionallyDivestAttributes".to_string()),
        Ok(ResignSwitchType::UnconditionallyDivestAttributes),
    );
    assert_eq!(
        ResignSwitchType::from_text("DeleteObjects".to_string()),
        Ok(ResignSwitchType::DeleteObjects),
    );
    assert_eq!(
        ResignSwitchType::from_text("CancelPendingOwnershipAcquisitions".to_string()),
        Ok(ResignSwitchType::CancelPendingOwnershipAcquisitions),
    );
    assert_eq!(
        ResignSwitchType::from_text("DeleteObjectsThenDivest".to_string()),
        Ok(ResignSwitchType::DeleteObjectsThenDivest),
    );
    assert_eq!(
        ResignSwitchType::from_text("CancelThenDeleteThenDivest".to_string()),
        Ok(ResignSwitchType::CancelThenDeleteThenDivest),
    );
    assert_eq!(
        ResignSwitchType::from_text("NoAction".to_string()),
        Ok(ResignSwitchType::NoAction),
    );
    unrecognized("Resign", ResignSwitchType::from_text("Resign".to_string()));
}

#[test]
fn test_model_type_open_vocabulary() {
    assert_eq!(ModelType::from_text("FOM".to_string()), ModelType::FOM);
    assert_eq!(ModelType::from_text("SOM".to_string()), ModelType::SOM);
    let unknown = "FederationArchitecture";
    assert_eq!(
        ModelType::from_text(unknown.to_string()),
        ModelType::Other(unknown.to_string()),
    );
}

#[test]
fn test_security_classification_open_vocabulary() {
    assert_eq!(
        SecurityClassificationType::from_text("Unclassified".to_string()),
        SecurityClassificationType::Unclassified,
    );
    assert_eq!(
        SecurityClassificationType::from_text("Confidential".to_string()),
        SecurityClassificationType::Confidential,
    );
    assert_eq!(
        SecurityClassificationType::from_text("Secret".to_string()),
        SecurityClassificationType::Secret,
    );
    assert_eq!(
        SecurityClassificationType::from_text("Top Secret".to_string()),
        SecurityClassificationType::TopSecret,
    );
    assert_eq!(
        SecurityClassificationType::from_text("Restricted".to_string()),
        SecurityClassificationType::Other("Restricted".to_string()),
    );
}

#[test]
fn test_application_domain_open_vocabulary() {
    assert_eq!(
        ApplicationDomainType::from_text("Analysis".to_string()),
        ApplicationDomainType::Analysis,
    );
    assert_eq!(
        ApplicationDomainType::from_text("Training".to_string()),
        ApplicationDomainType::Training,
    );
    assert_eq!(
        ApplicationDomainType::from_text("Test and Evaluation".to_string()),
        ApplicationDomainType::TestAndEvaluation,
    );
    assert_eq!(
        ApplicationDomainType::from_text("Engineering".to_string()),
        ApplicationDomainType::Engineering,
    );
    assert_eq!(
        ApplicationDomainType::from_text("Acquisition".to_string()),
        ApplicationDomainType::Acquisition,
    );
    assert_eq!(
        ApplicationDomainType::from_text("Gaming".to_string()),
        ApplicationDomainType::Other("Gaming".to_string()),
    );
}

#[test]
fn test_poc_type_open_vocabulary() {
    assert_eq!(
        PocTypeType::from_text("Primary author".to_string()),
        PocTypeType::PrimaryAuthor,
    );
    assert_eq!(PocTypeType::from_text("Contributor".to_string()), PocTypeType::Contributor);
    assert_eq!(PocTypeType::from_text("Proponent".to_string()), PocTypeType::Proponent);
    assert_eq!(PocTypeType::from_text("Sponsor".to_string()), PocTypeType::Sponsor);
    assert_eq!(
        PocTypeType::from_text("Release authority".to_string()),
        PocTypeType::ReleaseAuthority,
    );
    assert_eq!(PocTypeType::from_text("Technical POC".to_string()), PocTypeType::TechnicalPoc);
    assert_eq!(
        PocTypeType::from_text("Maintainer".to_string()),
        PocTypeType::Other("Maintainer".to_string()),
    );
}

#[test]
fn test_update_and_ownership_open_vocabularies() {
    assert_eq!(UpdateType::from_text("Static".to_string()), UpdateType::Static);
    assert_eq!(UpdateType::from_text("Periodic".to_string()), UpdateType::Periodic);
    assert_eq!(UpdateType::from_text("Conditional".to_string()), UpdateType::Conditional);
    assert_eq!(UpdateType::from_text("NA".to_string()), UpdateType::Na);
    assert_eq!(
        UpdateType::from_text("Sometimes".to_string()),
        UpdateType::Other("Sometimes".to_string()),
    );
    assert_eq!(OwnershipType::from_text("Divest".to_string()), OwnershipType::Divest);
    assert_eq!(OwnershipType::from_text("Acquire".to_string()), OwnershipType::Acquire);
    assert_eq!(
        OwnershipType::from_text("DivestAcquire".to_string()),
        OwnershipType::DivestAcquire,
    );
    assert_eq!(OwnershipType::from_text("NoTransfer".to_string()), OwnershipType::NoTransfer);
    assert_eq!(
        OwnershipType::from_text("Share".to_string()),
        OwnershipType::Other("Share".to_string()),
    );
}

#[test]
fn test_encoding_open_vocabularies() {
    assert_eq!(
        ArrayDataTypeEncodingType::from_text("HLAfixedArray".to_string()),
        ArrayDataTypeEncodingType::HlaFixedArray,
    );
    assert_eq!(
        ArrayDataTypeEncodingType::from_text("HLAvariableArray".to_string()),
        ArrayDataTypeEncodingType::HlaVariableArray,
    );
    assert_eq!(
        ArrayDataTypeEncodingType::from_text("custom".to_string()),
        ArrayDataTypeEncodingType::Other("custom".to_string()),
    );
    assert_eq!(
        FixedRecordEncodingType::from_text("HLAfixedRecord".to_string()),
        FixedRecordEncodingType::HlaFixedRecord,
    );
    assert_eq!(
        FixedRecordEncodingType::from_text("packed".to_string()),
        FixedRecordEncodingType::Other("packed".to_string()),
    );
    assert_eq!(
        VariantRecordEncodingType::from_text("HLAvariantRecord".to_string()),
        VariantRecordEncodingType::HlaVariantRecord,
    );
    assert_eq!(
        VariantRecordEncodingType::from_text("tagged".to_string()),
        VariantRecordEncodingType::Other("tagged".to_string()),
    );
}

#[test]
fn test_glyph_type_open_vocabulary_is_case_sensitive() {
    assert_eq!(GlyphTypeType::from_text("BITMAP".to_string()), GlyphTypeType::Bitmap);
    assert_eq!(GlyphTypeType::from_text("JPG".to_string()), GlyphTypeType::Jpg);
    assert_eq!(GlyphTypeType::from_text("GIF".to_string()), GlyphTypeType::Gif);
    assert_eq!(GlyphTypeType::from_text("PNG".to_string()), GlyphTypeType::Png);
    assert_eq!(GlyphTypeType::from_text("TIFF".to_string()), GlyphTypeType::Tiff);
    assert_eq!(
        GlyphTypeType::from_text("jpg".to_string()),
        GlyphTypeType::Other("jpg".to_string()),
    );
    assert_eq!(
        GlyphTypeType::from_text("svg".to_string()),
        GlyphTypeType::Other("svg".to_string()),
    );
}
