//! Application info handed to the platform backends at startup.

use vstd::prelude::*;

use crate::error::FrameError;

verus! {

/// Packs a semantic version into the 10/10/12-bit layout the graphics API
/// expects: major in bits 31..22, minor in bits 21..12, patch in bits 11..0.
pub open spec fn version_bits(major: u32, minor: u32, patch: u32) -> u32 {
    (major << 22) | (minor << 12) | patch
}

/// Build a packed version number from its fields.
pub fn make_version(major: u32, minor: u32, patch: u32) -> (r: u32)
    ensures
        r == version_bits(major, minor, patch),
{
    (major << 22) | (minor << 12) | patch
}

/// For in-range fields the packed layout is exactly the weighted sum, and
/// each field can be read back from its bit range.
pub proof fn lemma_version_bits_fields(major: u32, minor: u32, patch: u32)
    requires
        major < 1024,
        minor < 1024,
        patch < 4096,
    ensures
        version_bits(major, minor, patch) == major * 0x400000 + minor * 0x1000 + patch,
        version_bits(major, minor, patch) >> 22 == major,
        (version_bits(major, minor, patch) >> 12) & 0x3ff == minor,
        version_bits(major, minor, patch) & 0xfff == patch,
{
    assert(((major << 22) | (minor << 12) | patch) == major * 0x400000 + minor * 0x1000 + patch
        && ((major << 22) | (minor << 12) | patch) >> 22 == major && (((major << 22) | (minor
        << 12) | patch) >> 12) & 0x3ff == minor && ((major << 22) | (minor << 12) | patch) & 0xfff
        == patch) by (bit_vector)
        requires
            major < 1024,
            minor < 1024,
            patch < 4096,
    ;
}

/// Application info
pub struct AppInfo {
    pub name: String,
    pub version: u32,
    pub api_version: u32,
    pub validation: bool,
}

impl AppInfo {
    /// Set the application's own version.
    pub fn app_version(self, major: u32, minor: u32, patch: u32) -> (r: Self)
        ensures
            r.version == version_bits(major, minor, patch),
            r.name == self.name,
            r.api_version == self.api_version,
            r.validation == self.validation,
    {
        let mut info = self;
        info.version = make_version(major, minor, patch);
        info
    }

    /// Set the graphics API version to request.
    pub fn vk_version(self, major: u32, minor: u32, patch: u32) -> (r: Self)
        ensures
            r.api_version == version_bits(major, minor, patch),
            r.name == self.name,
            r.version == self.version,
            r.validation == self.validation,
    {
        let mut info = self;
        info.api_version = make_version(major, minor, patch);
        info
    }

    /// Set the application name.
    pub fn name(self, name: String) -> (r: Result<Self, FrameError>)
        ensures
            r is Ok,
            ({
                let info = r->Ok_0;
                &&& info.name == name
                &&& info.version == self.version
                &&& info.api_version == self.api_version
                &&& info.validation == self.validation
            }),
    {
        let mut info = self;
        info.name = name;
        Ok(info)
    }

    /// Enable or disable the API validation layer.
    pub fn validation(self, validation: bool) -> (r: Self)
        ensures
            r.validation == validation,
            r.name == self.name,
            r.version == self.version,
            r.api_version == self.api_version,
    {
        let mut info = self;
        info.validation = validation;
        info
    }
}

impl Default for AppInfo {
    /// Defaults to API version 1.1, with the validation layer disabled.
    fn default() -> (r: Self)
        ensures
            r.version == version_bits(1, 0, 0),
            r.api_version == version_bits(1, 1, 0),
            !r.validation,
    {
        AppInfo {
            name: "watertender".to_string(),
            version: make_version(1, 0, 0),
            api_version: make_version(1, 1, 0),
            validation: false,
        }
    }
}

/// This crate's own version in the packed layout of `version_bits`.
pub fn engine_version() -> (r: u32)
    ensures
        r == version_bits(0, 1, 0),
{
    make_version(0, 1, 0)
}

} // verus!
