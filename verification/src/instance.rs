//! Instance planning: the application's requested extensions, validation
//! layers, versions and names are negotiated against what the loader reports,
//! producing everything the driver needs to create the instance. In a debug
//! build the debug-utils extension is requested too and validation layers are
//! negotiated; a release build enables no layers.

use vstd::prelude::*;

use crate::capability::{has_name, str_views};
use crate::extensions::{ExtensionManager, InstanceExtensionUnavailableError};
use crate::text::{is_nul_free, nul_free};
use crate::validation::{ValidationLayerManager, ValidationLayerUnavailableError};

verus! {

/// Packs an API version from its parts, as the driver encodes versions.
pub fn make_api_version(variant: u32, major: u32, minor: u32, patch: u32) -> (r: u32)
    requires
        variant < 8,
        major < 128,
        minor < 1024,
        patch < 4096,
    ensures
        r == variant * 0x20000000 + major * 0x400000 + minor * 0x1000 + patch,
{
    proof {
        assert((variant << 29u32) | (major << 22u32) | (minor << 12u32) | patch == variant
            * 0x20000000 + major * 0x400000 + minor * 0x1000 + patch) by (bit_vector)
            requires
                variant < 8u32,
                major < 128u32,
                minor < 1024u32,
                patch < 4096u32,
        ;
    }
    (variant << 29u32) | (major << 22u32) | (minor << 12u32) | patch
}

/// Why instance planning failed.
#[derive(Debug, Clone, PartialEq, Eq)]
pub enum InstanceInitError {
    /// A required instance extension is missing.
    ExtensionUnavailable(InstanceExtensionUnavailableError),
    /// A required validation layer is missing.
    ValidationLayerUnavailable(ValidationLayerUnavailableError),
    /// The application or engine name cannot be handed to the driver because
    /// it contains a null character.
    InvalidName,
}

/// Everything the driver needs to create the instance: the negotiated
/// extension and layer names (owned, so they outlive the creation call), the
/// API version, and the application and engine identity.
#[derive(Debug, Clone, PartialEq, Eq)]
pub struct InstancePlan {
    pub enabled_extensions: Vec<String>,
    pub enabled_layers: Vec<String>,
    pub api_version: u32,
    pub application_name: String,
    pub application_version: u32,
    pub engine_name: String,
    pub engine_version: u32,
}

/// The name of the debug-utils extension a debug build adds to its requests.
pub open spec fn spec_debug_utils_extension() -> Seq<char> {
    "VK_EXT_debug_utils"@
}

/// Collects what the instance is created with. The default API version is
/// the base version (variant 0, version 1.0.0).
#[derive(Debug, PartialEq, Eq)]
pub struct InstanceBuilder {
    pub extensions: Vec<String>,
    pub layers: Vec<String>,
    pub api_version: u32,
    pub application_props: (String, u32),
    pub engine_props: (String, u32),
}

/// The extension names a build actually requests: the application's, plus
/// the debug-utils extension in a debug build.
pub open spec fn spec_requested_extension_views(b: InstanceBuilder, debug: bool) -> Seq<Seq<char>> {
    if debug {
        str_views(b.extensions@).push(spec_debug_utils_extension())
    } else {
        str_views(b.extensions@)
    }
}

/// Whether the loader offers every requested extension.
pub open spec fn spec_instance_extensions_ok(
    b: InstanceBuilder,
    available: Seq<String>,
    debug: bool,
) -> bool {
    forall|i: int|
        0 <= i < spec_requested_extension_views(b, debug).len() ==> has_name(
            available,
            spec_requested_extension_views(b, debug)[i],
        )
}

/// Whether the loader offers every requested layer; a release build requests
/// none.
pub open spec fn spec_instance_layers_ok(
    b: InstanceBuilder,
    available: Seq<String>,
    debug: bool,
) -> bool {
    debug ==> forall|i: int| 0 <= i < b.layers@.len() ==> has_name(available, b.layers@[i]@)
}

/// Whether the application and engine names can cross the driver boundary.
pub open spec fn spec_instance_names_ok(b: InstanceBuilder) -> bool {
    nul_free(b.application_props.0@) && nul_free(b.engine_props.0@)
}

impl InstanceBuilder {
    pub fn new() -> (r: Self)
        ensures
            r.extensions@.len() == 0,
            r.layers@.len() == 0,
            r.api_version == 0x400000,
            r.application_props.0@.len() == 0,
            r.application_props.1 == 0,
            r.engine_props.0@.len() == 0,
            r.engine_props.1 == 0,
    {
        InstanceBuilder {
            extensions: Vec::new(),
            layers: Vec::new(),
            api_version: make_api_version(0, 1, 0, 0),
            application_props: (String::new(), 0),
            engine_props: (String::new(), 0),
        }
    }

    pub fn extensions(self, extensions: Vec<String>) -> (r: Self)
        ensures
            r == (InstanceBuilder { extensions, ..self }),
    {
        InstanceBuilder { extensions, ..self }
    }

    pub fn validation_layers(self, layers: Vec<String>) -> (r: Self)
        ensures
            r == (InstanceBuilder { layers, ..self }),
    {
        InstanceBuilder { layers, ..self }
    }

    pub fn api_version(self, version: u32) -> (r: Self)
        ensures
            r == (InstanceBuilder { api_version: version, ..self }),
    {
        InstanceBuilder { api_version: version, ..self }
    }

    pub fn application_props(self, name: String, version: u32) -> (r: Self)
        ensures
            r == (InstanceBuilder { application_props: (name, version), ..self }),
    {
        InstanceBuilder { application_props: (name, version), ..self }
    }

    pub fn engine_props(self, name: String, version: u32) -> (r: Self)
        ensures
            r == (InstanceBuilder { engine_props: (name, version), ..self }),
    {
        InstanceBuilder { engine_props: (name, version), ..self }
    }

    /// Negotiates the instance: the requested extensions (plus debug-utils
    /// in a debug build) are checked and enabled against what the loader
    /// reports; in a debug build the requested validation layers likewise;
    /// and the application and engine names are validated for the driver
    /// boundary. Failures are reported in that order, each naming what is
    /// missing.
    #[verifier::rlimit(50)]
    pub fn build(
        self,
        available_extensions: Vec<String>,
        available_layers: Vec<String>,
        debug: bool,
    ) -> (r: Result<InstancePlan, InstanceInitError>)
        ensures
            r is Ok <==> spec_instance_extensions_ok(self, available_extensions@, debug)
                && spec_instance_layers_ok(self, available_layers@, debug)
                && spec_instance_names_ok(self),
            r is Ok ==> {
                let plan = r->Ok_0;
                &&& plan.api_version == self.api_version
                &&& plan.application_name == self.application_props.0
                &&& plan.application_version == self.application_props.1
                &&& plan.engine_name == self.engine_props.0
                &&& plan.engine_version == self.engine_props.1
                &&& (forall|i: int|
                    0 <= i < spec_requested_extension_views(self, debug).len() ==> str_views(
                        plan.enabled_extensions@,
                    ).contains(spec_requested_extension_views(self, debug)[i]))
                &&& (forall|n: Seq<char>|
                    str_views(plan.enabled_extensions@).contains(n) ==> has_name(
                        available_extensions@,
                        n,
                    ) && spec_requested_extension_views(self, debug).contains(n))
                &&& (debug ==> (forall|i: int|
                    0 <= i < self.layers@.len() ==> str_views(plan.enabled_layers@).contains(
                        self.layers@[i]@,
                    )) && (forall|n: Seq<char>|
                    str_views(plan.enabled_layers@).contains(n) ==> has_name(available_layers@, n)
                        && has_name(self.layers@, n)))
                &&& (!debug ==> plan.enabled_layers@.len() == 0)
            },
            !spec_instance_extensions_ok(self, available_extensions@, debug) ==> r is Err
                && r->Err_0 is ExtensionUnavailable,
            (spec_instance_extensions_ok(self, available_extensions@, debug)
                && !spec_instance_layers_ok(self, available_layers@, debug)) ==> r is Err
                && r->Err_0 is ValidationLayerUnavailable,
            (spec_instance_extensions_ok(self, available_extensions@, debug)
                && spec_instance_layers_ok(self, available_layers@, debug)
                && !spec_instance_names_ok(self)) ==> r == Err::<InstancePlan, InstanceInitError>(
                InstanceInitError::InvalidName,
            ),
    {
        let InstanceBuilder { extensions, layers, api_version, application_props, engine_props } =
            self;
        let mut requested = extensions;
        if debug {
            requested.push("VK_EXT_debug_utils".to_owned());
        }
        proof {
            assert(str_views(requested@) =~= spec_requested_extension_views(self, debug));
        }

        let ghost avail_ext = available_extensions@;
        let mut extension_manager = ExtensionManager::init(available_extensions);
        let ghost pre_caps = extension_manager.caps.available@;
        proof {
            assert forall|k: int| 0 <= k < pre_caps.len() implies !pre_caps[k].enabled by {
                if pre_caps[k].enabled {
                    crate::capability::lemma_enabled_names_membership(pre_caps, pre_caps[k].name@);
                    assert(crate::capability::enabled_names(pre_caps).contains(pre_caps[k].name@));
                }
            }
            assert forall|i: int|
                0 <= i < requested@.len() implies (extension_manager.caps.has_available(
                requested@[i]@,
            ) <==> has_name(avail_ext, str_views(requested@)[i])) by {
                assert(str_views(requested@)[i] == requested@[i]@);
            }
        }
        match extension_manager.add_extensions(&requested) {
            Ok(()) => {},
            Err(e) => {
                proof {
                    assert(!spec_instance_extensions_ok(self, avail_ext, debug)) by {
                        let i = choose|i: int|
                            0 <= i < requested@.len() && requested@[i]@ == e.extension@
                                && !has_name(avail_ext, requested@[i]@);
                        assert(str_views(requested@)[i] == requested@[i]@);
                        assert(!has_name(
                            avail_ext,
                            spec_requested_extension_views(self, debug)[i],
                        ));
                    }
                }
                return Err(InstanceInitError::ExtensionUnavailable(e));
            },
        }
        proof {
            assert(spec_instance_extensions_ok(self, avail_ext, debug)) by {
                assert forall|i: int|
                    0 <= i < spec_requested_extension_views(self, debug).len() implies has_name(
                    avail_ext,
                    spec_requested_extension_views(self, debug)[i],
                ) by {
                    assert(str_views(requested@)[i] == requested@[i]@);
                }
            }
        }
        let enabled_extensions = extension_manager.make_load_extension_list();
        proof {
            let caps = extension_manager.caps.available@;
            assert forall|i: int|
                0 <= i < spec_requested_extension_views(self, debug).len() implies str_views(
                enabled_extensions@,
            ).contains(spec_requested_extension_views(self, debug)[i]) by {
                let n = spec_requested_extension_views(self, debug)[i];
                assert(requested@[i]@ == n);
                assert(has_name(avail_ext, n));
                crate::capability::lemma_enabled_names_membership(caps, n);
                let w = choose|w: int| 0 <= w < pre_caps.len() && pre_caps[w].name@ == n;
                assert(caps[w].name@ == n);
                assert(has_name(requested@, n));
                assert(caps[w].enabled);
            }
            assert forall|n: Seq<char>|
                str_views(enabled_extensions@).contains(n) implies has_name(avail_ext, n)
                && spec_requested_extension_views(self, debug).contains(n) by {
                crate::capability::lemma_enabled_names_membership(caps, n);
                let k = choose|k: int| 0 <= k < caps.len() && caps[k].enabled && caps[k].name@ == n;
                assert(pre_caps[k].name@ == n);
                assert(has_name(requested@, n));
                let i = choose|i: int| 0 <= i < requested@.len() && requested@[i]@ == n;
                assert(spec_requested_extension_views(self, debug)[i] == n);
            }
        }

        let ghost avail_lay = available_layers@;
        let enabled_layers: Vec<String>;
        if debug {
            let mut layer_manager = ValidationLayerManager::init(available_layers);
            let ghost pre_lay_caps = layer_manager.caps.available@;
            proof {
                assert forall|k: int| 0 <= k < pre_lay_caps.len() implies !pre_lay_caps[k].enabled by {
                    if pre_lay_caps[k].enabled {
                        crate::capability::lemma_enabled_names_membership(
                            pre_lay_caps,
                            pre_lay_caps[k].name@,
                        );
                        assert(crate::capability::enabled_names(pre_lay_caps).contains(
                            pre_lay_caps[k].name@,
                        ));
                    }
                }
            }
            match layer_manager.add_layers(&layers) {
                Ok(()) => {},
                Err(e) => {
                    return Err(InstanceInitError::ValidationLayerUnavailable(e));
                },
            }
            enabled_layers = layer_manager.make_load_layer_list();
            proof {
                let caps = layer_manager.caps.available@;
                assert forall|i: int|
                    0 <= i < self.layers@.len() implies str_views(enabled_layers@).contains(
                    self.layers@[i]@,
                ) by {
                    let n = self.layers@[i]@;
                    crate::capability::lemma_enabled_names_membership(caps, n);
                    let w = choose|w: int| 0 <= w < pre_lay_caps.len() && pre_lay_caps[w].name@ == n;
                    assert(caps[w].name@ == n);
                    assert(has_name(layers@, n));
                    assert(caps[w].enabled);
                }
                assert forall|n: Seq<char>|
                    str_views(enabled_layers@).contains(n) implies has_name(avail_lay, n)
                    && has_name(self.layers@, n) by {
                    crate::capability::lemma_enabled_names_membership(caps, n);
                    let k = choose|k: int|
                        0 <= k < caps.len() && caps[k].enabled && caps[k].name@ == n;
                    assert(pre_lay_caps[k].name@ == n);
                }
            }
        } else {
            enabled_layers = Vec::new();
        }

        if !is_nul_free(application_props.0.as_str()) || !is_nul_free(engine_props.0.as_str()) {
            return Err(InstanceInitError::InvalidName);
        }

        Ok(
            InstancePlan {
                enabled_extensions,
                enabled_layers,
                api_version,
                application_name: application_props.0,
                application_version: application_props.1,
                engine_name: engine_props.0,
                engine_version: engine_props.1,
            },
        )
    }
}

} // verus!
