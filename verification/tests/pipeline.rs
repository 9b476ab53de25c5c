use vsix_fetch::download::{find_package_asset, package_filename, DownloadProgress};
use vsix_fetch::error::Error;
use vsix_fetch::platform::{resolve_version, TargetPlatform};
use vsix_fetch::query::{build_query, decode_response};
use vsix_fetch::records::{ExpectedAnswer, Extension, Files, Publisher, Results, Versions};
use vsix_fetch::select::select;
use vsix_fetch::text::parse_choice;

fn mk_publisher(name: &str) -> Publisher {
    Publisher {
        publisherId: format!("{}-id", name),
        publisherName: name.to_string(),
        displayName: name.to_string(),
        flags: String::new(),
        domain: None,
        isDomainVerified: false,
    }
}

fn mk_version(version: &str, platform: Option<TargetPlatform>, files: Vec<Files>) -> Versions {
    Versions {
        version: version.to_string(),
        targetPlatform: platform,
        flags: String::new(),
        lastUpdated: String::new(),
        files,
        properties: Vec::new(),
        assetUri: String::new(),
        fallbackAssetUri: String::new(),
    }
}

fn mk_extension(name: &str, versions: Vec<Versions>) -> Extension {
    Extension {
        publisher: mk_publisher("pub"),
        extensionId: format!("{}-id", name),
        extensionName: name.to_string(),
        displayName: name.to_string(),
        flags: String::new(),
        lastUpdated: String::new(),
        publishedDate: String::new(),
        releaseDate: String::new(),
        shortDescription: None,
        versions,
    }
}

#[test]
fn select_zero_records_is_not_found() {
    let records: Vec<Extension> = Vec::new();
    match select(&records, None, "missing") {
        Err(Error::Search(term)) => assert_eq!(term, "missing"),
        other => panic!("expected Search error, got {:?}", other),
    }
    match select(&records, Some(1), "missing") {
        Err(Error::Search(term)) => assert_eq!(term, "missing"),
        other => panic!("expected Search error, got {:?}", other),
    }
}

#[test]
fn select_single_record_ignores_choice() {
    let records = vec![mk_extension("only", Vec::new())];
    assert_eq!(select(&records, None, "only").unwrap(), 0);
    assert_eq!(select(&records, Some(7), "only").unwrap(), 0);
    assert_eq!(select(&records, Some(0), "only").unwrap(), 0);
}

#[test]
fn select_many_records_validates_choice() {
    let records = vec![
        mk_extension("a", Vec::new()),
        mk_extension("b", Vec::new()),
        mk_extension("c", Vec::new()),
    ];
    assert_eq!(select(&records, Some(1), "q").unwrap(), 0);
    assert_eq!(select(&records, Some(2), "q").unwrap(), 1);
    assert_eq!(select(&records, Some(3), "q").unwrap(), 2);
    assert_eq!(select(&records, Some(0), "q"), Err(Error::IndexOutOfBound));
    assert_eq!(select(&records, Some(4), "q"), Err(Error::IndexOutOfBound));
    assert_eq!(select(&records, None, "q"), Err(Error::ParseInt));
}

#[test]
fn resolve_version_without_match_picks_first() {
    let versions = vec![
        mk_version("2.0.0", None, Vec::new()),
        mk_version("1.9.0", Some(TargetPlatform::Win32X64), Vec::new()),
    ];
    assert_eq!(resolve_version(&versions, TargetPlatform::DarwinArm64), 0);
}

#[test]
fn resolve_version_single_match_is_found_anywhere() {
    let versions = vec![
        mk_version("2.0.0", None, Vec::new()),
        mk_version("2.0.0", Some(TargetPlatform::Win32X64), Vec::new()),
        mk_version("2.0.0", Some(TargetPlatform::LinuxArm64), Vec::new()),
    ];
    assert_eq!(resolve_version(&versions, TargetPlatform::LinuxArm64), 2);
    assert_eq!(resolve_version(&versions, TargetPlatform::Win32X64), 1);
}

#[test]
fn resolve_version_picks_first_of_several_matches() {
    let versions = vec![
        mk_version("3.0.0", Some(TargetPlatform::LinuxX64), Vec::new()),
        mk_version("2.0.0", Some(TargetPlatform::LinuxX64), Vec::new()),
    ];
    assert_eq!(resolve_version(&versions, TargetPlatform::LinuxX64), 0);
}

#[test]
fn build_query_has_exactly_three_criteria() {
    let q = build_query("foo", 5);
    assert_eq!(q.filters.len(), 1);
    let filter = &q.filters[0];
    assert_eq!(filter.pageNumber, 1);
    assert_eq!(filter.pageSize, 5);
    assert_eq!(filter.criteria.len(), 3);
    assert_eq!(filter.criteria[0].filterType, 10);
    assert_eq!(filter.criteria[0].value, "foo");
    assert_eq!(filter.criteria[1].filterType, 8);
    assert_eq!(filter.criteria[1].value, "Microsoft.VisualStudio.Code");
    assert_eq!(filter.criteria[2].filterType, 12);
    assert_eq!(filter.criteria[2].value, "4096");
}

#[test]
fn decode_response_returns_first_group_in_order() {
    let envelope = ExpectedAnswer {
        results: vec![Results {
            extensions: vec![
                mk_extension("first", Vec::new()),
                mk_extension("second", Vec::new()),
                mk_extension("third", Vec::new()),
            ],
        }],
    };
    let extensions = decode_response(envelope).unwrap();
    let names: Vec<&str> = extensions.iter().map(|e| e.extensionName.as_str()).collect();
    assert_eq!(names, vec!["first", "second", "third"]);
}

#[test]
fn decode_response_rejects_empty_envelope() {
    let envelope = ExpectedAnswer { results: Vec::new() };
    assert!(matches!(decode_response(envelope), Err(Error::JsonParse)));
}

#[test]
fn round_trip_query_and_response() {
    let q = build_query("foo", 5);
    assert_eq!(q.filters[0].criteria[0].value, "foo");
    let envelope = ExpectedAnswer {
        results: vec![Results {
            extensions: vec![mk_extension("foo-tool", Vec::new()), mk_extension("foo-lint", Vec::new())],
        }],
    };
    let extensions = decode_response(envelope).unwrap();
    assert_eq!(extensions.len(), 2);
    assert_eq!(extensions[0].extensionName, "foo-tool");
    assert_eq!(extensions[1].extensionName, "foo-lint");
}

#[test]
fn end_to_end_search_select_and_download() {
    // The mocked response: two extensions named A and B.
    let package = Files {
        assetType: "Microsoft.VisualStudio.Services.VSIXPackage".to_string(),
        source: "https://example.invalid/b.vsix".to_string(),
    };
    let envelope = ExpectedAnswer {
        results: vec![Results {
            extensions: vec![
                mk_extension("A", vec![mk_version("1.0.0", None, Vec::new())]),
                mk_extension("B", vec![mk_version("2.1.0", None, vec![package])]),
            ],
        }],
    };
    let q = build_query("prettier", 5);
    assert_eq!(q.filters[0].criteria[0].value, "prettier");

    let records = decode_response(envelope).unwrap();
    let choice = parse_choice("2\n").ok();
    let idx = select(&records, choice, "prettier").unwrap();
    assert_eq!(idx, 1);
    let chosen = &records[idx];
    assert_eq!(chosen.extensionName, "B");

    let v_idx = resolve_version(&chosen.versions, TargetPlatform::LinuxX64);
    assert_eq!(v_idx, 0);
    let version = &chosen.versions[v_idx];
    let a_idx = find_package_asset(&version.files).unwrap();
    assert_eq!(version.files[a_idx].source, "https://example.invalid/b.vsix");

    let filename = package_filename(
        &chosen.publisher.publisherName,
        &chosen.extensionName,
        &version.version,
    );
    assert_eq!(filename, "pub.B-2.1.0.vsix");

    // A 10-byte asset delivered in two 5-byte chunks.
    let chunks: Vec<Vec<u8>> = vec![vec![1, 2, 3, 4, 5], vec![6, 7, 8, 9, 10]];
    let mut progress = DownloadProgress::begin(Some(10)).unwrap();
    let mut sink: Vec<u8> = Vec::new();
    let mut last_percent: u64 = 0;
    for chunk in &chunks {
        let report = progress.on_chunk(chunk.len(), 0);
        sink.extend_from_slice(chunk);
        last_percent = report.percent;
    }
    assert_eq!(sink.len(), 10);
    assert_eq!(progress.received, 10);
    assert_eq!(last_percent, 100);
}

#[test]
fn find_package_asset_requires_the_package_type() {
    let files = vec![
        Files {
            assetType: "Microsoft.VisualStudio.Services.Icons.Default".to_string(),
            source: "https://example.invalid/icon.png".to_string(),
        },
        Files {
            assetType: "Microsoft.VisualStudio.Services.VSIXPackage".to_string(),
            source: "https://example.invalid/pkg.vsix".to_string(),
        },
    ];
    assert_eq!(find_package_asset(&files).unwrap(), 1);

    let no_package = vec![Files {
        assetType: "Microsoft.VisualStudio.Services.Content.Details".to_string(),
        source: "https://example.invalid/readme.md".to_string(),
    }];
    assert_eq!(find_package_asset(&no_package), Err(Error::IndexOutOfBound));
    let empty: Vec<Files> = Vec::new();
    assert_eq!(find_package_asset(&empty), Err(Error::IndexOutOfBound));
}
