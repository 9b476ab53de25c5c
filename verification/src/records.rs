//! The marketplace's response data model.
//!
//! These records mirror the JSON envelope the marketplace returns:
//! `ExpectedAnswer { results: [ Results { extensions: [ Extension, .. ] } ] }`.
//! They are plain values, materialized once from the response body and read
//! thereafter. Field names follow the wire protocol's own camel-case names.

use crate::platform::TargetPlatform;
use vstd::prelude::*;

verus! {

/// The publisher identity attached to an extension.
#[derive(Debug)]
#[allow(non_snake_case)]
pub struct Publisher {
    pub publisherId: String,
    pub publisherName: String,
    pub displayName: String,
    pub flags: String,
    pub domain: Option<String>,
    pub isDomainVerified: bool,
}

/// One downloadable artifact of a version: its type tag and source URL.
#[derive(Debug)]
#[allow(non_snake_case)]
pub struct Files {
    pub assetType: String,
    pub source: String,
}

/// One key/value property of a version.
#[derive(Debug)]
#[allow(non_snake_case)]
pub struct Properties {
    pub key: String,
    pub value: String,
}

/// One published version of an extension. The marketplace lists versions
/// newest first; nothing here re-sorts them.
#[derive(Debug)]
#[allow(non_snake_case)]
pub struct Versions {
    pub version: String,
    pub targetPlatform: Option<TargetPlatform>,
    pub flags: String,
    pub lastUpdated: String,
    pub files: Vec<Files>,
    pub properties: Vec<Properties>,
    pub assetUri: String,
    pub fallbackAssetUri: String,
}

/// One extension record of a query response.
#[derive(Debug)]
#[allow(non_snake_case)]
pub struct Extension {
    pub publisher: Publisher,
    pub extensionId: String,
    pub extensionName: String,
    pub displayName: String,
    pub flags: String,
    pub lastUpdated: String,
    pub publishedDate: String,
    pub releaseDate: String,
    pub shortDescription: Option<String>,
    pub versions: Vec<Versions>,
}

/// One result group of a query response.
#[derive(Debug)]
#[allow(non_snake_case)]
pub struct Results {
    pub extensions: Vec<Extension>,
}

/// The whole response envelope of an extension query.
#[derive(Debug)]
#[allow(non_snake_case)]
pub struct ExpectedAnswer {
    pub results: Vec<Results>,
}

} // verus!
