//! Platform identification and version resolution.
//!
//! The marketplace tags a version's build with a `{os}-{arch}` platform
//! identifier. [`resolve_target_platform`] maps a host's OS and CPU names
//! through two fixed lookup tables to such a tag, falling back to
//! `linux-x64` for anything outside the recognized set — a deliberate,
//! documented approximation. [`resolve_version`] then picks the first
//! version carrying that tag, or the first-listed version when none does;
//! it never fails.

use crate::records::Versions;
use crate::text::str_eq;
use vstd::prelude::*;
use vstd::string::StringExecFns;

verus! {

/// A canonical platform identifier of the marketplace.
#[derive(Debug, Clone, Copy, PartialEq, Eq, Structural)]
pub enum TargetPlatform {
    Win32ia32,
    Win32X64,
    Win32Arm64,
    Linuxia32,
    LinuxX64,
    LinuxArm64,
    LinuxArmhf,
    Alpineia32,
    AlpineX64,
    AlpineArm64,
    DarwinX64,
    DarwinArm64,
    Web,
    Universal,
    Unknown,
    Undefined,
}

/// The wire tag of each platform identifier, as the marketplace writes it.
pub open spec fn spec_platform_tag(t: TargetPlatform) -> Seq<char> {
    match t {
        TargetPlatform::Win32ia32 => "win32-ia32"@,
        TargetPlatform::Win32X64 => "win32-x64"@,
        TargetPlatform::Win32Arm64 => "win32-arm64"@,
        TargetPlatform::Linuxia32 => "linux-ia32"@,
        TargetPlatform::LinuxX64 => "linux-x64"@,
        TargetPlatform::LinuxArm64 => "linux-arm64"@,
        TargetPlatform::LinuxArmhf => "linux-armhf"@,
        TargetPlatform::Alpineia32 => "alpine-ia32"@,
        TargetPlatform::AlpineX64 => "alpine-x64"@,
        TargetPlatform::AlpineArm64 => "alpine-arm64"@,
        TargetPlatform::DarwinX64 => "darwin-x64"@,
        TargetPlatform::DarwinArm64 => "darwin-arm64"@,
        TargetPlatform::Web => "WEB"@,
        TargetPlatform::Universal => "UNIVERSAL"@,
        TargetPlatform::Unknown => "UNKNOWN"@,
        TargetPlatform::Undefined => "UNDEFINED"@,
    }
}

/// The platform denoted by a host tag, for the seven tags a host can
/// actually be; every other string is rejected.
pub open spec fn spec_from_tag(s: Seq<char>) -> Result<TargetPlatform, ()> {
    if s == "win32-x64"@ {
        Ok(TargetPlatform::Win32X64)
    } else if s == "win32-arm64"@ {
        Ok(TargetPlatform::Win32Arm64)
    } else if s == "linux-x64"@ {
        Ok(TargetPlatform::LinuxX64)
    } else if s == "linux-armhf"@ {
        Ok(TargetPlatform::LinuxArmhf)
    } else if s == "linux-arm64"@ {
        Ok(TargetPlatform::LinuxArm64)
    } else if s == "darwin-x64"@ {
        Ok(TargetPlatform::DarwinX64)
    } else if s == "darwin-arm64"@ {
        Ok(TargetPlatform::DarwinArm64)
    } else {
        Err(())
    }
}

impl TargetPlatform {
    /// Parses a host platform tag such as `"linux-x64"`.
    pub fn from_str(input: &str) -> (r: Result<TargetPlatform, ()>)
        ensures
            r == spec_from_tag(input@),
            r matches Ok(t) ==> input@ == spec_platform_tag(t),
    {
        if str_eq(input, "win32-x64") {
            Ok(TargetPlatform::Win32X64)
        } else if str_eq(input, "win32-arm64") {
            Ok(TargetPlatform::Win32Arm64)
        } else if str_eq(input, "linux-x64") {
            Ok(TargetPlatform::LinuxX64)
        } else if str_eq(input, "linux-armhf") {
            Ok(TargetPlatform::LinuxArmhf)
        } else if str_eq(input, "linux-arm64") {
            Ok(TargetPlatform::LinuxArm64)
        } else if str_eq(input, "darwin-x64") {
            Ok(TargetPlatform::DarwinX64)
        } else if str_eq(input, "darwin-arm64") {
            Ok(TargetPlatform::DarwinArm64)
        } else {
            Err(())
        }
    }
}

/// The architecture table: the CPU name a host reports, to the short code
/// the marketplace uses. Anything unrecognized approximates to `x64`.
pub open spec fn spec_arch_code(arch: Seq<char>) -> Seq<char> {
    if arch == "x86"@ {
        "ia32"@
    } else if arch == "x86_64"@ {
        "x64"@
    } else if arch == "arm"@ {
        "armhf"@
    } else if arch == "aarch64"@ {
        "arm64"@
    } else {
        "x64"@
    }
}

/// The OS table: the OS name a host reports, to the short code the
/// marketplace uses. Anything unrecognized approximates to `linux`.
pub open spec fn spec_os_code(os: Seq<char>) -> Seq<char> {
    if os == "windows"@ {
        "win32"@
    } else if os == "linux"@ {
        "linux"@
    } else if os == "macos"@ {
        "darwin"@
    } else {
        "linux"@
    }
}

/// The platform a host resolves to: the two table codes joined with a
/// hyphen, parsed as a tag; a combination outside the recognized tag set
/// falls back to `linux-x64`.
pub open spec fn spec_resolve_platform(os: Seq<char>, arch: Seq<char>) -> TargetPlatform {
    let tag = spec_os_code(os) + "-"@ + spec_arch_code(arch);
    match spec_from_tag(tag) {
        Ok(t) => t,
        Err(_) => TargetPlatform::LinuxX64,
    }
}

/// The short architecture code for a host's CPU name.
fn arch_code(arch: &str) -> (r: &'static str)
    ensures
        r@ == spec_arch_code(arch@),
{
    if str_eq(arch, "x86") {
        "ia32"
    } else if str_eq(arch, "x86_64") {
        "x64"
    } else if str_eq(arch, "arm") {
        "armhf"
    } else if str_eq(arch, "aarch64") {
        "arm64"
    } else {
        "x64"
    }
}

/// The short OS code for a host's OS name.
fn os_code(os: &str) -> (r: &'static str)
    ensures
        r@ == spec_os_code(os@),
{
    if str_eq(os, "windows") {
        "win32"
    } else if str_eq(os, "linux") {
        "linux"
    } else if str_eq(os, "macos") {
        "darwin"
    } else {
        "linux"
    }
}

/// Maps a host's OS and CPU names to the platform whose build to fetch.
/// The names are passed in explicitly so the resolution is deterministic;
/// the caller reads them from its environment.
pub fn resolve_target_platform(os: &str, arch: &str) -> (t: TargetPlatform)
    ensures
        t == spec_resolve_platform(os@, arch@),
{
    let mut tag: String = os_code(os).to_owned();
    tag.append("-");
    tag.append(arch_code(arch));
    match TargetPlatform::from_str(tag.as_str()) {
        Ok(t) => t,
        Err(_) => TargetPlatform::LinuxX64,
    }
}

/// A version whose platform tag equals the resolved platform. A version
/// without a tag matches nothing.
pub open spec fn version_matches(v: Versions, platform: TargetPlatform) -> bool {
    v.targetPlatform == Some(platform)
}

/// The index of the first version tagged with `platform`, if any.
pub open spec fn spec_first_match(vs: Seq<Versions>, platform: TargetPlatform) -> Option<int>
    decreases vs.len(),
{
    if vs.len() == 0 {
        None
    } else if version_matches(vs[0], platform) {
        Some(0)
    } else {
        match spec_first_match(vs.drop_first(), platform) {
            Some(i) => Some(i + 1),
            None => None,
        }
    }
}

/// The index of the version to download: the first one tagged with
/// `platform`, or index 0 — the first-listed, implicitly newest version —
/// when none is. Resolution never fails.
pub open spec fn spec_resolve_version(vs: Seq<Versions>, platform: TargetPlatform) -> int {
    match spec_first_match(vs, platform) {
        Some(i) => i,
        None => 0,
    }
}

/// A scan that finds a match at `i`, with none before it, has found the
/// first match.
proof fn lemma_first_match_found(vs: Seq<Versions>, platform: TargetPlatform, i: int)
    requires
        0 <= i < vs.len(),
        version_matches(vs[i], platform),
        forall|j: int| 0 <= j < i ==> !version_matches(#[trigger] vs[j], platform),
    ensures
        spec_first_match(vs, platform) == Some(i),
    decreases vs.len(),
{
    if i > 0 {
        let rest = vs.drop_first();
        assert(forall|j: int| 0 <= j < i - 1 ==> #[trigger] rest[j] == vs[j + 1]);
        lemma_first_match_found(rest, platform, i - 1);
    }
}

/// A scan that matched nowhere proves there is no first match.
proof fn lemma_first_match_none(vs: Seq<Versions>, platform: TargetPlatform)
    requires
        forall|j: int| 0 <= j < vs.len() ==> !version_matches(#[trigger] vs[j], platform),
    ensures
        spec_first_match(vs, platform) is None,
    decreases vs.len(),
{
    if vs.len() > 0 {
        let rest = vs.drop_first();
        assert(forall|j: int| 0 <= j < rest.len() ==> #[trigger] rest[j] == vs[j + 1]);
        lemma_first_match_none(rest, platform);
    }
}

/// Picks the version of the extension to download: the first one tagged
/// with `platform`, else the version at index 0.
pub fn resolve_version(versions: &Vec<Versions>, platform: TargetPlatform) -> (i: usize)
    requires
        versions@.len() > 0,
    ensures
        i == spec_resolve_version(versions@, platform),
        i < versions@.len(),
        spec_first_match(versions@, platform) matches Some(m) ==> i == m && version_matches(
            versions@[i as int],
            platform,
        ),
        spec_first_match(versions@, platform) is None ==> i == 0,
{
    let n: usize = versions.len();
    let mut k: usize = 0;
    while k < n
        invariant
            0 <= k <= n,
            n == versions@.len(),
            forall|j: int| 0 <= j < k ==> !version_matches(#[trigger] versions@[j], platform),
        decreases n - k,
    {
        let matched: bool = match &versions[k].targetPlatform {
            Some(t) => *t == platform,
            None => false,
        };
        if matched {
            proof {
                lemma_first_match_found(versions@, platform, k as int);
            }
            return k;
        }
        k = k + 1;
    }
    proof {
        lemma_first_match_none(versions@, platform);
    }
    0
}

/// When no listed version is tagged with the resolved platform, resolution
/// always lands on index 0, the first-listed version.
pub proof fn lemma_resolve_version_no_match(vs: Seq<Versions>, platform: TargetPlatform)
    requires
        forall|j: int| 0 <= j < vs.len() ==> !version_matches(#[trigger] vs[j], platform),
    ensures
        spec_resolve_version(vs, platform) == 0,
{
    lemma_first_match_none(vs, platform);
}

/// When exactly one listed version is tagged with the resolved platform,
/// resolution lands on it, wherever in the list it stands.
pub proof fn lemma_resolve_version_unique_match(
    vs: Seq<Versions>,
    platform: TargetPlatform,
    i: int,
)
    requires
        0 <= i < vs.len(),
        version_matches(vs[i], platform),
        forall|j: int| 0 <= j < vs.len() && j != i ==> !version_matches(#[trigger] vs[j], platform),
    ensures
        spec_resolve_version(vs, platform) == i,
{
    lemma_first_match_found(vs, platform, i);
}

} // verus!
