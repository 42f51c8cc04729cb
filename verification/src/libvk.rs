//! Library handler: the Vulkan instance is the first object to create.

use vstd::prelude::*;
use crate::flags::{make_api_version, spec_make_version};

verus! {

/// Errors while creating the instance
#[derive(Debug, Clone, Copy, PartialEq, Eq, Structural)]
pub enum InstanceError {
    LibraryLoad,
    Instance,
    DebugUtilsCreating,
    Unknown,
}

/// Errors while creating the library handler
#[derive(Debug, Clone, Copy, PartialEq, Eq, Structural)]
pub enum LibHandlerError {
    LibraryLoad,
    InstanceCreating,
    DebugUtilsCreating,
    Unknown,
}

/// Errors while creating the library instance
#[derive(Debug, Clone, Copy, PartialEq, Eq, Structural)]
pub enum LibInstanceError {
    LibraryLoad,
    Instance,
    DebugUtilsCreating,
    Unknown,
}

/// Name of the validation layer that the debug layer enables
pub const DEBUG_LAYER_NAME: &'static str = "VK_LAYER_KHRONOS_validation";

/// Severity bit of verbose diagnostic messages
pub const SEVERITY_VERBOSE: u32 = 0x1;
/// Severity bit of informational messages
pub const SEVERITY_INFO: u32 = 0x10;
/// Severity bit of warnings
pub const SEVERITY_WARNING: u32 = 0x100;
/// Severity bit of errors
pub const SEVERITY_ERROR: u32 = 0x1000;

/// Message type bit of general events
pub const MESSAGE_GENERAL: u32 = 0x1;
/// Message type bit of specification violations
pub const MESSAGE_VALIDATION: u32 = 0x2;
/// Message type bit of non-optimal use of the API
pub const MESSAGE_PERFORMANCE: u32 = 0x4;

/// The validation layer with a debug messenger: which severities and message types it
/// reports (`VkDebugUtilsMessengerCreateInfoEXT`)
#[derive(Debug, Clone, Copy, PartialEq, Eq, Structural)]
pub struct DebugLayer {
    i_severity: u32,
    i_message_type: u32,
}

impl DebugLayer {
    pub closed spec fn spec_severity(&self) -> u32 { self.i_severity }
    pub closed spec fn spec_message_type(&self) -> u32 { self.i_message_type }

    /// Debug layer that reports messages of every severity: verbose, info, warnings and
    /// errors, of every type
    pub fn full() -> (r: DebugLayer)
        ensures
            r.spec_severity() == SEVERITY_WARNING | SEVERITY_VERBOSE | SEVERITY_INFO | SEVERITY_ERROR,
            r.spec_message_type() == MESSAGE_GENERAL | MESSAGE_PERFORMANCE | MESSAGE_VALIDATION,
    {
        DebugLayer {
            i_severity: SEVERITY_WARNING | SEVERITY_VERBOSE | SEVERITY_INFO | SEVERITY_ERROR,
            i_message_type: MESSAGE_GENERAL | MESSAGE_PERFORMANCE | MESSAGE_VALIDATION,
        }
    }

    /// Severities reported by the messenger
    pub fn severity(&self) -> (r: u32)
        ensures
            r == self.spec_severity(),
    {
        self.i_severity
    }

    /// Message types reported by the messenger
    pub fn message_type(&self) -> (r: u32)
        ensures
            r == self.spec_message_type(),
    {
        self.i_message_type
    }

    /// Name of the layer
    pub fn name() -> (r: &'static str)
        ensures
            r@ == DEBUG_LAYER_NAME@,
    {
        DEBUG_LAYER_NAME
    }
}

impl Default for DebugLayer {
    /// Debug layer that reports warnings and errors of every type
    fn default() -> (r: DebugLayer)
        ensures
            r.spec_severity() == SEVERITY_WARNING | SEVERITY_ERROR,
            r.spec_message_type() == MESSAGE_GENERAL | MESSAGE_PERFORMANCE | MESSAGE_VALIDATION,
    {
        DebugLayer {
            i_severity: SEVERITY_WARNING | SEVERITY_ERROR,
            i_message_type: MESSAGE_GENERAL | MESSAGE_PERFORMANCE | MESSAGE_VALIDATION,
        }
    }
}

/// Instance configuration: the requested API version, whether the library is loaded at run
/// time, the debug layer if any, and the instance extensions
#[derive(Debug, Clone, Copy)]
pub struct InstanceType<'a> {
    pub version_major: u32,
    pub version_minor: u32,
    pub version_patch: u32,
    pub dynamic_load: bool,
    pub debug_layer: Option<DebugLayer>,
    pub extensions: &'a [&'a str],
}

impl<'a> Default for InstanceType<'a> {
    fn default() -> (r: InstanceType<'a>)
        ensures
            r.version_major == 1,
            r.version_minor == 0,
            r.version_patch == 0,
            !r.dynamic_load,
            r.debug_layer is None,
            r.extensions@.len() == 0,
    {
        InstanceType {
            version_major: 1,
            version_minor: 0,
            version_patch: 0,
            dynamic_load: false,
            debug_layer: None,
            extensions: &[],
        }
    }
}

/// What an instance is created with
#[derive(Debug, Clone, Copy, PartialEq, Eq, Structural)]
pub struct InstancePlan {
    /// Packed API version
    pub api_version: u32,
    /// One layer, the validation layer, with the debug layer; none without
    pub enabled_layer_count: u32,
    /// Number of extensions, truncated to 32 bits
    pub enabled_extension_count: u32,
}

impl<'a> InstanceType<'a> {
    /// What the instance of this configuration is created with
    pub fn plan(&self) -> (r: InstancePlan)
        ensures
            r.api_version == spec_make_version(0, self.version_major, self.version_minor, self.version_patch),
            r.enabled_layer_count == if self.debug_layer is Some { 1u32 } else { 0u32 },
            r.enabled_extension_count == self.extensions@.len() as u32,
    {
        InstancePlan {
            api_version: make_api_version(0, self.version_major, self.version_minor, self.version_patch),
            enabled_layer_count: if self.debug_layer.is_some() { 1 } else { 0 },
            enabled_extension_count: if self.extensions.len() == 0 { 0 } else { self.extensions.len() as u32 },
        }
    }
}

} // verus!
