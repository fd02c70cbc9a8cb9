use vstd::prelude::*;
use crate::device::{append_names, contains_name, has_name, names_view};
use crate::error::{Capability, EngineError};

verus! {

/// Raw bit of `VK_DEBUG_UTILS_MESSAGE_SEVERITY_INFO_BIT_EXT`.
pub const SEVERITY_INFO: u32 = 0x10;

/// Raw bit of `VK_DEBUG_UTILS_MESSAGE_SEVERITY_WARNING_BIT_EXT`.
pub const SEVERITY_WARNING: u32 = 0x100;

/// Raw bit of `VK_DEBUG_UTILS_MESSAGE_SEVERITY_ERROR_BIT_EXT`.
pub const SEVERITY_ERROR: u32 = 0x1000;

/// The level a driver message is logged at.
#[derive(Clone, Copy, Debug, PartialEq, Eq, Structural)]
pub enum MessageLevel {
    Error,
    Warning,
    Info,
    Trace,
}

/// A driver version, ordered by major, then minor, then patch.
#[derive(Clone, Copy, Debug, PartialEq, Eq, Structural)]
pub struct ApiVersion {
    pub major: u32,
    pub minor: u32,
    pub patch: u32,
}

/// The driver version from which a portability extension is needed on macOS.
pub const PORTABILITY_MAJOR: u32 = 1;

pub const PORTABILITY_MINOR: u32 = 3;

pub const PORTABILITY_PATCH: u32 = 216;

pub open spec fn version_at_least(v: ApiVersion, w: ApiVersion) -> bool {
    v.major > w.major || (v.major == w.major && (v.minor > w.minor || (v.minor == w.minor
        && v.patch >= w.patch)))
}

pub open spec fn portability_version() -> ApiVersion {
    ApiVersion { major: PORTABILITY_MAJOR, minor: PORTABILITY_MINOR, patch: PORTABILITY_PATCH }
}

/// The instance extensions to enable: those the platform's surface needs, then
/// the portability ones when asked for, then debug utils under validation.
pub open spec fn instance_extensions_spec(
    platform: Seq<Seq<u8>>,
    portability: Seq<Seq<u8>>,
    debug_utils: Seq<u8>,
    with_portability: bool,
    validation: bool,
) -> Seq<Seq<u8>> {
    let base = if with_portability {
        platform + portability
    } else {
        platform
    };
    if validation {
        base.push(debug_utils)
    } else {
        base
    }
}

/// Under validation, the validation layer must be available; there is no
/// silent fallback to running without it.
pub fn check_validation_layer(available: &Vec<Vec<u8>>, layer: &Vec<u8>, validation: bool) -> (r:
    Result<(), EngineError>)
    ensures
        r is Ok == (!validation || has_name(available@, layer@)),
        r is Err ==> r == Err::<(), EngineError>(
            EngineError::MissingCapability(Capability::ValidationLayer),
        ),
{
    if validation && !contains_name(available, layer) {
        Err(EngineError::MissingCapability(Capability::ValidationLayer))
    } else {
        Ok(())
    }
}

/// `v` is at least `w`.
pub fn version_ge(v: ApiVersion, w: ApiVersion) -> (r: bool)
    ensures
        r == version_at_least(v, w),
{
    if v.major != w.major {
        v.major > w.major
    } else if v.minor != w.minor {
        v.minor > w.minor
    } else {
        v.patch >= w.patch
    }
}

/// Portability extensions are enabled only on macOS, from driver 1.3.216 on.
pub fn needs_portability(on_macos: bool, driver: ApiVersion) -> (r: bool)
    ensures
        r == (on_macos && version_at_least(driver, portability_version())),
{
    on_macos && version_ge(
        driver,
        ApiVersion { major: PORTABILITY_MAJOR, minor: PORTABILITY_MINOR, patch: PORTABILITY_PATCH },
    )
}

/// The instance extensions to enable, in order.
pub fn instance_extensions(
    platform: &Vec<Vec<u8>>,
    portability: &Vec<Vec<u8>>,
    debug_utils: &Vec<u8>,
    with_portability: bool,
    validation: bool,
) -> (r: Vec<Vec<u8>>)
    ensures
        names_view(r@) == instance_extensions_spec(
            names_view(platform@),
            names_view(portability@),
            debug_utils@,
            with_portability,
            validation,
        ),
{
    let mut r: Vec<Vec<u8>> = Vec::new();
    append_names(&mut r, platform);
    assert(names_view(r@) =~= names_view(platform@));
    if with_portability {
        append_names(&mut r, portability);
    }
    if validation {
        let ghost before = names_view(r@);
        r.push(debug_utils.clone());
        assert(names_view(r@) =~= before.push(debug_utils@));
    }
    r
}

/// Routes a driver message by its severity bits: error, then warning, then
/// info; anything below is traced.
pub fn message_level(severity: u32) -> (r: MessageLevel)
    ensures
        r == (if severity >= SEVERITY_ERROR {
            MessageLevel::Error
        } else if severity >= SEVERITY_WARNING {
            MessageLevel::Warning
        } else if severity >= SEVERITY_INFO {
            MessageLevel::Info
        } else {
            MessageLevel::Trace
        }),
{
    if severity >= SEVERITY_ERROR {
        MessageLevel::Error
    } else if severity >= SEVERITY_WARNING {
        MessageLevel::Warning
    } else if severity >= SEVERITY_INFO {
        MessageLevel::Info
    } else {
        MessageLevel::Trace
    }
}

/// The layers and extensions an instance is created with; they do not change
/// after creation.
pub struct VulkanInstance {
    pub layers: Vec<Vec<u8>>,
    pub extensions: Vec<Vec<u8>>,
}

/// Under validation the validation layer alone, else no layer.
pub open spec fn instance_layers_spec(layer: Seq<u8>, validation: bool) -> Seq<Seq<u8>> {
    if validation {
        seq![layer]
    } else {
        Seq::empty()
    }
}

impl VulkanInstance {
    /// Decides what the instance enables. Validation asked for without the
    /// validation layer available fails with `MissingCapability`; there is no
    /// silent fallback.
    pub fn new(
        available_layers: &Vec<Vec<u8>>,
        validation_layer: &Vec<u8>,
        platform: &Vec<Vec<u8>>,
        portability: &Vec<Vec<u8>>,
        debug_utils: &Vec<u8>,
        with_portability: bool,
        validation: bool,
    ) -> (r: Result<VulkanInstance, EngineError>)
        ensures
            r is Err == (validation && !has_name(available_layers@, validation_layer@)),
            r is Err ==> r matches Err(EngineError::MissingCapability(Capability::ValidationLayer)),
            r matches Ok(i) ==> names_view(i.layers@) == instance_layers_spec(
                validation_layer@,
                validation,
            ),
            r matches Ok(i) ==> names_view(i.extensions@) == instance_extensions_spec(
                names_view(platform@),
                names_view(portability@),
                debug_utils@,
                with_portability,
                validation,
            ),
    {
        check_validation_layer(available_layers, validation_layer, validation)?;
        let mut layers: Vec<Vec<u8>> = Vec::new();
        if validation {
            layers.push(validation_layer.clone());
        }
        assert(names_view(layers@) =~= instance_layers_spec(validation_layer@, validation));
        let extensions = instance_extensions(
            platform,
            portability,
            debug_utils,
            with_portability,
            validation,
        );
        Ok(VulkanInstance { layers, extensions })
    }
}

} // verus!
