use vstd::prelude::*;

verus! {

/// A semantic version with the field widths Vulkan uses.
pub struct Version {
    pub major: u16,
    pub minor: u16,
    pub patch: u16,
}

/// Whether the fields fit the 10, 10 and 12 bits that Vulkan gives them.
pub open spec fn fits_vulkan(major: int, minor: int, patch: int) -> bool {
    &&& 0 <= major <= 0x3ff
    &&& 0 <= minor <= 0x3ff
    &&& 0 <= patch <= 0xfff
}

/// The packed Vulkan version number: major in bits 22.., minor in bits 12..22, patch in bits 0..12.
pub open spec fn vulkan_version_number(major: int, minor: int, patch: int) -> int {
    major * 0x400000 + minor * 0x1000 + patch
}

/// The major version that a packed Vulkan version number holds.
pub open spec fn vulkan_major(v: u32) -> int {
    (v >> 22u32) as int
}

/// The minor version that a packed Vulkan version number holds.
pub open spec fn vulkan_minor(v: u32) -> int {
    ((v >> 12u32) & 0x3ffu32) as int
}

/// The patch version that a packed Vulkan version number holds.
pub open spec fn vulkan_patch(v: u32) -> int {
    (v & 0xfffu32) as int
}

impl Version {
    pub fn new(major: u16, minor: u16, patch: u16) -> (v: Version)
        ensures
            v.major == major,
            v.minor == minor,
            v.patch == patch,
    {
        Version { major, minor, patch }
    }

    /// Whether the version can be packed into a Vulkan version number.
    pub open spec fn is_vulkan_encodable(&self) -> bool {
        fits_vulkan(self.major as int, self.minor as int, self.patch as int)
    }

    /// The packed Vulkan version number of this version.
    pub open spec fn spec_vulkan_version(&self) -> int {
        vulkan_version_number(self.major as int, self.minor as int, self.patch as int)
    }

    /// Packs the version into the `u32` that Vulkan's `VK_MAKE_VERSION` gives.
    pub fn into_vulkan_version(&self) -> (v: u32)
        requires
            self.is_vulkan_encodable(),
        ensures
            v as int == self.spec_vulkan_version(),
    {
        let major = self.major as u32;
        let minor = self.minor as u32;
        let patch = self.patch as u32;
        let v = major << 22u32 | minor << 12u32 | patch;
        assert(v == major * 0x400000 + minor * 0x1000 + patch) by (bit_vector)
            requires
                major <= 0x3ff,
                minor <= 0x3ff,
                patch <= 0xfff,
                v == major << 22u32 | minor << 12u32 | patch,
        ;
        v
    }
}

/// Name and version of the application, as handed to the Vulkan instance.
pub struct AppInfo {
    pub app_name: String,
    pub app_version: Version,
}

impl Default for AppInfo {
    fn default() -> (info: AppInfo)
        ensures
            info.app_name@ == "Default"@,
            info.app_version.major == 0,
            info.app_version.minor == 1,
            info.app_version.patch == 0,
    {
        AppInfo { app_name: String::from_str("Default"), app_version: Version::new(0, 1, 0) }
    }
}

/// Packing is undone by reading the fields back: a Vulkan version number holds the
/// major, minor and patch it was made of.
pub proof fn lemma_vulkan_version_roundtrip(major: u32, minor: u32, patch: u32)
    requires
        fits_vulkan(major as int, minor as int, patch as int),
    ensures
        vulkan_version_number(major as int, minor as int, patch as int) <= u32::MAX,
        vulkan_major(vulkan_version_number(major as int, minor as int, patch as int) as u32)
            == major,
        vulkan_minor(vulkan_version_number(major as int, minor as int, patch as int) as u32)
            == minor,
        vulkan_patch(vulkan_version_number(major as int, minor as int, patch as int) as u32)
            == patch,
{
    let v: u32 = (major * 0x400000 + minor * 0x1000 + patch) as u32;
    assert(major * 0x400000 + minor * 0x1000 + patch <= 0xffffffff);
    assert(v >> 22u32 == major && (v >> 12u32) & 0x3ffu32 == minor && v & 0xfffu32 == patch)
        by (bit_vector)
        requires
            major <= 0x3ff,
            minor <= 0x3ff,
            patch <= 0xfff,
            v == major * 0x400000 + minor * 0x1000 + patch,
    ;
}

/// Distinct versions pack to distinct numbers.
pub proof fn lemma_vulkan_version_injective(a: Version, b: Version)
    requires
        a.is_vulkan_encodable(),
        b.is_vulkan_encodable(),
        a.spec_vulkan_version() == b.spec_vulkan_version(),
    ensures
        a.major == b.major,
        a.minor == b.minor,
        a.patch == b.patch,
{
    lemma_vulkan_version_roundtrip(a.major as u32, a.minor as u32, a.patch as u32);
    lemma_vulkan_version_roundtrip(b.major as u32, b.minor as u32, b.patch as u32);
}

/// Packing keeps the order of versions: one version precedes another (major first,
/// then minor, then patch) exactly when its number is smaller.
pub proof fn lemma_vulkan_version_order(a: Version, b: Version)
    requires
        a.is_vulkan_encodable(),
        b.is_vulkan_encodable(),
    ensures
        (a.spec_vulkan_version() < b.spec_vulkan_version()) <==> (a.major < b.major || (a.major
            == b.major && (a.minor < b.minor || (a.minor == b.minor && a.patch < b.patch)))),
{
}

} // verus!
