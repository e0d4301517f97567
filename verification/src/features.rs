//! The device feature aggregate: the fixed-size set of boolean capability
//! flags a physical device reports, and the check that a device has every
//! flag the renderer requires.

use vstd::prelude::*;

verus! {

/// Number of flags in the aggregate: the core feature flags of the device,
/// followed by the memory-model extension flags.
pub const FEATURE_FLAG_COUNT: usize = 58;

/// Index of the geometry-shader flag.
pub const FEATURE_GEOMETRY_SHADER: usize = 4;

/// Index of the memory-model flag.
pub const FEATURE_VULKAN_MEMORY_MODEL: usize = 55;

/// Index of the memory-model device-scope flag.
pub const FEATURE_VULKAN_MEMORY_MODEL_DEVICE_SCOPE: usize = 56;

/// Index of the memory-model availability/visibility-chains flag.
pub const FEATURE_VULKAN_MEMORY_MODEL_CHAINS: usize = 57;

/// Whether the renderer requires the flag at index `i`.
pub open spec fn required_flag(i: int) -> bool {
    i == FEATURE_GEOMETRY_SHADER || i == FEATURE_VULKAN_MEMORY_MODEL
}

/// The error returned when a device lacks a required feature flag.
#[derive(Debug, Clone, Copy, PartialEq, Eq, Structural)]
pub struct MissingDeviceFeature;

impl MissingDeviceFeature {
    pub fn message(&self) -> (r: String)
        ensures
            r@ == "not all required device features are available"@,
    {
        "not all required device features are available".to_owned()
    }
}

/// The feature flags of one physical device.
#[derive(Debug, Clone, PartialEq, Eq)]
pub struct FeaturesInfo {
    pub flags: Vec<bool>,
}

impl FeaturesInfo {
    /// Structural soundness: the aggregate always holds exactly one value
    /// per known flag.
    pub open spec fn wf(self) -> bool {
        self.flags@.len() == FEATURE_FLAG_COUNT
    }

    /// The value of the flag at index `i`.
    pub open spec fn flag(self, i: int) -> bool {
        self.flags@[i]
    }

    /// Whether this report satisfies every flag the renderer requires.
    pub open spec fn meets_required(self) -> bool {
        forall|i: int| 0 <= i < FEATURE_FLAG_COUNT && required_flag(i) ==> self.flag(i)
    }

    /// An aggregate with every flag unset.
    pub fn new() -> (r: Self)
        ensures
            r.wf(),
            forall|i: int| 0 <= i < FEATURE_FLAG_COUNT ==> !r.flag(i),
    {
        let mut flags: Vec<bool> = Vec::new();
        let mut i: usize = 0;
        while i < FEATURE_FLAG_COUNT
            invariant
                i <= FEATURE_FLAG_COUNT,
                flags@.len() == i,
                forall|j: int| 0 <= j < i ==> !flags@[j],
            decreases FEATURE_FLAG_COUNT - i,
        {
            flags.push(false);
            i = i + 1;
        }
        FeaturesInfo { flags }
    }

    /// An aggregate built from one value per flag; `None` when the list does
    /// not have exactly one value per known flag.
    pub fn from_flags(flags: Vec<bool>) -> (r: Option<Self>)
        ensures
            r is Some <==> flags@.len() == FEATURE_FLAG_COUNT,
            r is Some ==> r->0.flags@ == flags@ && r->0.wf(),
    {
        if flags.len() == FEATURE_FLAG_COUNT {
            Some(FeaturesInfo { flags })
        } else {
            None
        }
    }

    /// Sets one flag.
    pub fn set(&mut self, i: usize, value: bool)
        requires
            old(self).wf(),
            i < FEATURE_FLAG_COUNT,
        ensures
            final(self).wf(),
            final(self).flag(i as int) == value,
            forall|j: int|
                0 <= j < FEATURE_FLAG_COUNT && j != i ==> final(self).flag(j) == old(self).flag(j),
    {
        self.flags.set(i, value);
    }

    /// Reads one flag.
    pub fn get(&self, i: usize) -> (r: bool)
        requires
            self.wf(),
            i < FEATURE_FLAG_COUNT,
        ensures
            r == self.flag(i as int),
    {
        *self.flags.get(i).unwrap()
    }

    /// The flags the renderer requires of every device.
    pub fn required() -> (r: Self)
        ensures
            r.wf(),
            forall|i: int| 0 <= i < FEATURE_FLAG_COUNT ==> r.flag(i) == required_flag(i),
    {
        let mut r = Self::new();
        r.set(FEATURE_GEOMETRY_SHADER, true);
        r.set(FEATURE_VULKAN_MEMORY_MODEL, true);
        r
    }

    /// Checks this report against the required flags: `Ok` exactly when every
    /// required flag is set here.
    pub fn check_required(&self) -> (r: Result<(), MissingDeviceFeature>)
        requires
            self.wf(),
        ensures
            r is Ok <==> self.meets_required(),
    {
        let required = Self::required();
        let mut i: usize = 0;
        while i < FEATURE_FLAG_COUNT
            invariant
                self.wf(),
                required.wf(),
                i <= FEATURE_FLAG_COUNT,
                forall|j: int| 0 <= j < FEATURE_FLAG_COUNT ==> required.flag(j) == required_flag(j),
                forall|j: int| 0 <= j < i && required_flag(j) ==> self.flag(j),
            decreases FEATURE_FLAG_COUNT - i,
        {
            if required.get(i) && !self.get(i) {
                proof {
                    assert(required_flag(i as int) && !self.flag(i as int));
                }
                return Err(MissingDeviceFeature);
            }
            i = i + 1;
        }
        Ok(())
    }
}

} // verus!
