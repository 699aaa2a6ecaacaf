//! The settings of one instance that have a default, and the test whether a
//! setting still is at its default and so need not be written out.

use vstd::prelude::*;

verus! {

/// How much memory the game may take, in mebibytes.
#[derive(Debug, Copy, Clone, PartialEq, Eq, Structural)]
pub struct InstanceMemoryConfiguration {
    pub enabled: bool,
    pub min: u32,
    pub max: u32,
}

impl InstanceMemoryConfiguration {
    /// The least memory that an instance takes by default.
    pub const DEFAULT_MIN: u32 = 512;

    /// The most memory that an instance takes by default.
    pub const DEFAULT_MAX: u32 = 4096;

    /// The setting is switched off and holds the default bounds.
    pub open spec fn is_default(self) -> bool {
        !self.enabled && self.min == Self::DEFAULT_MIN && self.max == Self::DEFAULT_MAX
    }
}

impl Default for InstanceMemoryConfiguration {
    fn default() -> (config: InstanceMemoryConfiguration)
        ensures
            config == (InstanceMemoryConfiguration {
                enabled: false,
                min: InstanceMemoryConfiguration::DEFAULT_MIN,
                max: InstanceMemoryConfiguration::DEFAULT_MAX,
            }),
    {
        InstanceMemoryConfiguration {
            enabled: false,
            min: InstanceMemoryConfiguration::DEFAULT_MIN,
            max: InstanceMemoryConfiguration::DEFAULT_MAX,
        }
    }
}

/// Whether the memory setting is absent or at its default.
pub fn is_default_memory_configuration(config: &Option<InstanceMemoryConfiguration>) -> (plain:
    bool)
    ensures
        plain == match *config {
            Some(config) => config.is_default(),
            None => true,
        },
{
    if let Some(config) = config {
        !config.enabled && config.min == InstanceMemoryConfiguration::DEFAULT_MIN && config.max
            == InstanceMemoryConfiguration::DEFAULT_MAX
    } else {
        true
    }
}

/// A character that ASCII counts as white space: space, tab, line feed, form
/// feed or carriage return.
pub open spec fn is_ascii_space(c: char) -> bool {
    c == ' ' || c == '\t' || c == '\n' || c == '\x0C' || c == '\r'
}

/// The text holds nothing but ASCII white space.
pub open spec fn is_blank_text(text: Seq<char>) -> bool {
    forall|i: int| 0 <= i < text.len() ==> is_ascii_space(#[trigger] text[i])
}

/// Whether the text holds nothing but ASCII white space.
pub fn is_blank(text: &str) -> (blank: bool)
    ensures
        blank == is_blank_text(text@),
{
    broadcast use vstd::string::axiom_spec_iter;

    for c in it: text.chars()
        invariant
            it.seq() == text@,
            forall|i: int| 0 <= i < it.index() ==> is_ascii_space(#[trigger] text@[i]),
    {
        if !(c == ' ' || c == '\t' || c == '\n' || c == '\x0C' || c == '\r') {
            return false;
        }
    }
    true
}

/// Extra flags for the Java machine.
#[derive(Debug, PartialEq, Eq)]
pub struct InstanceJvmFlagsConfiguration {
    pub enabled: bool,
    pub flags: String,
}

impl Default for InstanceJvmFlagsConfiguration {
    fn default() -> (config: InstanceJvmFlagsConfiguration)
        ensures
            !config.enabled,
            config.flags@ == Seq::<char>::empty(),
    {
        InstanceJvmFlagsConfiguration { enabled: false, flags: String::new() }
    }
}

/// Whether the flags setting is absent, or switched off with no flag in it.
pub fn is_default_jvm_flags_configuration(config: &Option<InstanceJvmFlagsConfiguration>) -> (plain:
    bool)
    ensures
        plain == match *config {
            Some(config) => !config.enabled && is_blank_text(config.flags@),
            None => true,
        },
{
    if let Some(config) = config {
        !config.enabled && is_blank(config.flags.as_str())
    } else {
        true
    }
}

/// The Java binary to run the game with.
#[derive(Debug, PartialEq, Eq)]
pub struct InstanceJvmBinaryConfiguration {
    pub enabled: bool,
    pub path: Option<String>,
}

impl Default for InstanceJvmBinaryConfiguration {
    fn default() -> (config: InstanceJvmBinaryConfiguration)
        ensures
            !config.enabled,
            config.path is None,
    {
        InstanceJvmBinaryConfiguration { enabled: false, path: None }
    }
}

/// Whether the binary setting is absent, or switched off with no path in it.
pub fn is_default_jvm_binary_configuration(
    config: &Option<InstanceJvmBinaryConfiguration>,
) -> (plain: bool)
    ensures
        plain == match *config {
            Some(config) => !config.enabled && config.path is None,
            None => true,
        },
{
    if let Some(config) = config {
        !config.enabled && config.path.is_none()
    } else {
        true
    }
}

/// The helpers to start the game through on Linux.
#[derive(Debug, Clone, Copy, PartialEq, Eq, Structural)]
pub struct InstanceLinuxWrapperConfiguration {
    pub use_mangohud: bool,
    pub use_gamemode: bool,
    pub use_discrete_gpu: bool,
}

impl InstanceLinuxWrapperConfiguration {
    /// No helper is asked for, and the discrete graphics card is.
    pub open spec fn is_default(self) -> bool {
        !self.use_mangohud && !self.use_gamemode && self.use_discrete_gpu
    }
}

impl Default for InstanceLinuxWrapperConfiguration {
    fn default() -> (config: InstanceLinuxWrapperConfiguration)
        ensures
            config == (InstanceLinuxWrapperConfiguration {
                use_mangohud: false,
                use_gamemode: false,
                use_discrete_gpu: true,
            }),
    {
        InstanceLinuxWrapperConfiguration {
            use_mangohud: false,
            use_gamemode: false,
            use_discrete_gpu: true,
        }
    }
}

/// Whether the wrapper setting is absent or at its default.
pub fn is_default_linux_wrapper_configuration(
    config: &Option<InstanceLinuxWrapperConfiguration>,
) -> (plain: bool)
    ensures
        plain == match *config {
            Some(config) => config.is_default(),
            None => true,
        },
{
    if let Some(config) = config {
        !config.use_mangohud && !config.use_gamemode && config.use_discrete_gpu
    } else {
        true
    }
}

/// Where a native library of the game is taken from.
#[derive(Debug, PartialEq, Eq)]
pub enum LwjglLibraryPath {
    /// The library that was found on the system, if one was.
    Auto,
    /// This file where it exists, else as `Auto`.
    AutoPreferred(String),
    /// This file, whether it exists or not.
    Explicit(String),
}

impl Default for LwjglLibraryPath {
    fn default() -> (path: LwjglLibraryPath)
        ensures
            path is Auto,
    {
        LwjglLibraryPath::Auto
    }
}

impl LwjglLibraryPath {
    /// The file to load. `auto` is the library that was found on the system;
    /// `preferred_exists` tells whether the file of `AutoPreferred` exists,
    /// and is not read for the other two.
    pub fn get_or_auto(self, auto: &Option<String>, preferred_exists: bool) -> (chosen: Option<
        String,
    >)
        ensures
            chosen == match self {
                LwjglLibraryPath::Auto => *auto,
                LwjglLibraryPath::AutoPreferred(preferred) => if preferred_exists {
                    Some(preferred)
                } else {
                    *auto
                },
                LwjglLibraryPath::Explicit(path) => Some(path),
            },
    {
        match self {
            LwjglLibraryPath::Auto => crate::models::clone_text(auto),
            LwjglLibraryPath::AutoPreferred(preferred) => {
                if preferred_exists {
                    Some(preferred)
                } else {
                    crate::models::clone_text(auto)
                }
            },
            LwjglLibraryPath::Explicit(path) => Some(path),
        }
    }
}

/// Which native libraries of the game are replaced.
#[derive(Debug, PartialEq, Eq)]
pub struct InstanceSystemLibrariesConfiguration {
    pub override_glfw: bool,
    pub glfw: LwjglLibraryPath,
    pub override_openal: bool,
    pub openal: LwjglLibraryPath,
}

impl Default for InstanceSystemLibrariesConfiguration {
    fn default() -> (config: InstanceSystemLibrariesConfiguration)
        ensures
            !config.override_glfw,
            config.glfw is Auto,
            !config.override_openal,
            config.openal is Auto,
    {
        InstanceSystemLibrariesConfiguration {
            override_glfw: false,
            glfw: LwjglLibraryPath::Auto,
            override_openal: false,
            openal: LwjglLibraryPath::Auto,
        }
    }
}

/// Whether the libraries setting is absent, or names no file for either
/// library.
pub fn is_default_system_libraries_configuration(
    config: &Option<InstanceSystemLibrariesConfiguration>,
) -> (plain: bool)
    ensures
        plain == match *config {
            Some(config) => config.glfw is Auto && config.openal is Auto,
            None => true,
        },
{
    if let Some(config) = config {
        matches!(config.glfw, LwjglLibraryPath::Auto) && matches!(
            config.openal,
            LwjglLibraryPath::Auto
        )
    } else {
        true
    }
}

} // verus!
