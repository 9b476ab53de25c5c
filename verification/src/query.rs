//! The marketplace query protocol: request construction and response
//! interpretation.
//!
//! A query is an ordered sequence of filter groups, each holding a page
//! number, a page size and ordered criteria; this tool always sends exactly
//! one group with exactly three criteria. The response envelope's first
//! result group carries the extension list; an envelope without one is a
//! terminal protocol mismatch.

use crate::error::Error;
use crate::records::{ExpectedAnswer, Extension};
use crate::text::{decimal_digits, decimal_string};
use vstd::prelude::*;
use vstd::string::StringExecFns;

verus! {

/// The endpoint a query is posted to: the marketplace URL with the API
/// version appended as its query parameter.
pub fn api_query_url(api: &str, api_version: &str) -> (s: String)
    ensures
        s@ == api@ + "?api-version="@ + api_version@,
{
    let mut s: String = api.to_owned();
    s.append("?api-version=");
    s.append(api_version);
    s
}

/// One constraint of a search request.
#[derive(Debug)]
#[allow(non_snake_case)]
pub struct RequestCriteria {
    pub filterType: i8,
    pub value: String,
}

/// One filter group: a page of results constrained by ordered criteria.
#[derive(Debug)]
#[allow(non_snake_case)]
pub struct RequestFilters {
    pub criteria: Vec<RequestCriteria>,
    pub pageNumber: i8,
    pub pageSize: i16,
}

/// A whole query request: the ordered filter groups to send.
#[derive(Debug)]
#[allow(non_snake_case)]
pub struct RequestOptions {
    pub filters: Vec<RequestFilters>,
}

/// The marketplace's query constraint types.
#[derive(Debug, Clone, Copy, PartialEq, Eq, Structural)]
pub enum FilterType {
    Tag,
    DisplayName,
    Private,
    ExtensionId,
    Category,
    ContributionType,
    Name,
    Target,
    Featured,
    SearchText,
    FeaturedInCategory,
    ExcludeWithFlags,
    IncludeWithFlags,
    Lcid,
    InstallationTargetVersion,
    InstallationTargetVersionRange,
    VsixMetadata,
    PublisherName,
    PublisherDisplayName,
    IncludeWithPublisherFlags,
    OrganizationSharedWith,
    ProductArchitecture,
    TargetPlatform,
    ExtensionName,
}

/// The wire code of each constraint type.
pub open spec fn spec_filter_code(f: FilterType) -> i8 {
    match f {
        FilterType::Tag => 1,
        FilterType::DisplayName => 2,
        FilterType::Private => 3,
        FilterType::ExtensionId => 4,
        FilterType::Category => 5,
        FilterType::ContributionType => 6,
        FilterType::Name => 7,
        FilterType::Target => 8,
        FilterType::Featured => 9,
        FilterType::SearchText => 10,
        FilterType::FeaturedInCategory => 11,
        FilterType::ExcludeWithFlags => 12,
        FilterType::IncludeWithFlags => 13,
        FilterType::Lcid => 14,
        FilterType::InstallationTargetVersion => 15,
        FilterType::InstallationTargetVersionRange => 16,
        FilterType::VsixMetadata => 17,
        FilterType::PublisherName => 18,
        FilterType::PublisherDisplayName => 19,
        FilterType::IncludeWithPublisherFlags => 20,
        FilterType::OrganizationSharedWith => 21,
        FilterType::ProductArchitecture => 22,
        FilterType::TargetPlatform => 23,
        FilterType::ExtensionName => 24,
    }
}

impl FilterType {
    /// The wire code this constraint type is sent as.
    pub fn code(&self) -> (c: i8)
        ensures
            c == spec_filter_code(*self),
    {
        match self {
            FilterType::Tag => 1,
            FilterType::DisplayName => 2,
            FilterType::Private => 3,
            FilterType::ExtensionId => 4,
            FilterType::Category => 5,
            FilterType::ContributionType => 6,
            FilterType::Name => 7,
            FilterType::Target => 8,
            FilterType::Featured => 9,
            FilterType::SearchText => 10,
            FilterType::FeaturedInCategory => 11,
            FilterType::ExcludeWithFlags => 12,
            FilterType::IncludeWithFlags => 13,
            FilterType::Lcid => 14,
            FilterType::InstallationTargetVersion => 15,
            FilterType::InstallationTargetVersionRange => 16,
            FilterType::VsixMetadata => 17,
            FilterType::PublisherName => 18,
            FilterType::PublisherDisplayName => 19,
            FilterType::IncludeWithPublisherFlags => 20,
            FilterType::OrganizationSharedWith => 21,
            FilterType::ProductArchitecture => 22,
            FilterType::TargetPlatform => 23,
            FilterType::ExtensionName => 24,
        }
    }
}

/// The marketplace's query flags, sent as a decimal bit mask.
#[derive(Debug, Clone, Copy, PartialEq, Eq, Structural)]
pub enum RequestFlags {
    NoFlags,
    IncludeVersions,
    IncludeFiles,
    IncludeCategoryAndTags,
    IncludeSharedAccounts,
    IncludeVersionProperties,
    ExcludeNonValidated,
    IncludeInstallationTargets,
    IncludeAssetUri,
    IncludeStatistics,
    IncludeLatestVersionOnly,
    Unpublished,
    IncludeNameConflictInfo,
}

/// The bit each query flag stands for.
pub open spec fn spec_flag_bits(f: RequestFlags) -> u32 {
    match f {
        RequestFlags::NoFlags => 0x0,
        RequestFlags::IncludeVersions => 0x1,
        RequestFlags::IncludeFiles => 0x2,
        RequestFlags::IncludeCategoryAndTags => 0x4,
        RequestFlags::IncludeSharedAccounts => 0x8,
        RequestFlags::IncludeVersionProperties => 0x10,
        RequestFlags::ExcludeNonValidated => 0x20,
        RequestFlags::IncludeInstallationTargets => 0x40,
        RequestFlags::IncludeAssetUri => 0x80,
        RequestFlags::IncludeStatistics => 0x100,
        RequestFlags::IncludeLatestVersionOnly => 0x200,
        RequestFlags::Unpublished => 0x1000,
        RequestFlags::IncludeNameConflictInfo => 0x8000,
    }
}

impl RequestFlags {
    /// The bit this flag stands for in the wire mask.
    pub fn bits(&self) -> (b: u32)
        ensures
            b == spec_flag_bits(*self),
    {
        match self {
            RequestFlags::NoFlags => 0x0,
            RequestFlags::IncludeVersions => 0x1,
            RequestFlags::IncludeFiles => 0x2,
            RequestFlags::IncludeCategoryAndTags => 0x4,
            RequestFlags::IncludeSharedAccounts => 0x8,
            RequestFlags::IncludeVersionProperties => 0x10,
            RequestFlags::ExcludeNonValidated => 0x20,
            RequestFlags::IncludeInstallationTargets => 0x40,
            RequestFlags::IncludeAssetUri => 0x80,
            RequestFlags::IncludeStatistics => 0x100,
            RequestFlags::IncludeLatestVersionOnly => 0x200,
            RequestFlags::Unpublished => 0x1000,
            RequestFlags::IncludeNameConflictInfo => 0x8000,
        }
    }
}

/// Builds the query for one search: a single filter group on page 1 whose
/// page size is the caller's result limit, carrying exactly three criteria —
/// the free-text search, the target product, and the exclusion of
/// unpublished extensions (as the decimal rendering of that flag's bit).
pub fn build_query(search: &str, limit: i16) -> (q: RequestOptions)
    ensures
        q.filters@.len() == 1,
        q.filters@[0].pageNumber == 1,
        q.filters@[0].pageSize == limit,
        q.filters@[0].criteria@.len() == 3,
        q.filters@[0].criteria@[0].filterType == spec_filter_code(FilterType::SearchText),
        q.filters@[0].criteria@[0].value@ == search@,
        q.filters@[0].criteria@[1].filterType == spec_filter_code(FilterType::Target),
        q.filters@[0].criteria@[1].value@ == "Microsoft.VisualStudio.Code"@,
        q.filters@[0].criteria@[2].filterType == spec_filter_code(FilterType::ExcludeWithFlags),
        q.filters@[0].criteria@[2].value@ == decimal_digits(
            spec_flag_bits(RequestFlags::Unpublished) as nat,
        ),
{
    let criteria: Vec<RequestCriteria> = vec![
        RequestCriteria { filterType: FilterType::SearchText.code(), value: search.to_owned() },
        RequestCriteria {
            filterType: FilterType::Target.code(),
            value: "Microsoft.VisualStudio.Code".to_owned(),
        },
        RequestCriteria {
            filterType: FilterType::ExcludeWithFlags.code(),
            value: decimal_string(RequestFlags::Unpublished.bits() as u64),
        },
    ];
    let filters: Vec<RequestFilters> = vec![
        RequestFilters { criteria, pageNumber: 1, pageSize: limit },
    ];
    RequestOptions { filters }
}

/// Interprets a decoded response envelope: the extension list is the first
/// result group's, in the order the marketplace sent. An envelope with no
/// result group at all does not match the protocol and is a terminal error.
pub fn decode_response(answer: ExpectedAnswer) -> (r: Result<Vec<Extension>, Error>)
    ensures
        answer.results@.len() > 0 ==> (r matches Ok(exts) && exts@ == answer.results@[0].extensions@),
        answer.results@.len() == 0 ==> r == Err::<Vec<Extension>, Error>(Error::JsonParse),
{
    let mut results = answer.results;
    if results.len() == 0 {
        Err(Error::JsonParse)
    } else {
        let first = results.remove(0);
        Ok(first.extensions)
    }
}

} // verus!
