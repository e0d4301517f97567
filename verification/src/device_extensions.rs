//! Device extension negotiation: which extensions a physical device reports,
//! which the renderer requires, and the enabled list handed to logical device
//! creation. The same check also runs in "check only" mode while rating
//! candidate devices.

use vstd::prelude::*;
use vstd::string::StringExecFns;

use crate::capability::{CapabilitySet, has_name, str_views, unique_cap_names};

verus! {

/// The error returned when a required device extension is not available; it
/// carries the missing extension's name.
#[derive(Debug, Clone, PartialEq, Eq)]
pub struct DeviceExtensionUnavailableError {
    pub extension: String,
}

impl DeviceExtensionUnavailableError {
    pub fn message(&self) -> (r: String)
        ensures
            r@ == "device extension "@ + self.extension@ + " is not available"@,
    {
        let s = "device extension ".to_owned();
        let s = s.concat(self.extension.as_str());
        let s = s.concat(" is not available");
        proof {
            assert(s@ =~= "device extension "@ + self.extension@ + " is not available"@);
        }
        s
    }
}

/// Negotiates device extensions for one physical device.
#[derive(Debug, Clone, PartialEq, Eq)]
pub struct DeviceExtensionManager {
    pub caps: CapabilitySet,
}

impl DeviceExtensionManager {
    /// Builds the manager from the extension names the device reported.
    pub fn init(available: Vec<String>) -> (r: Self)
        ensures
            forall|n: Seq<char>| r.caps.has_available(n) <==> has_name(available@, n),
            unique_cap_names(r.caps.available@),
            r.caps.spec_enabled().len() == 0,
    {
        let caps = CapabilitySet::new(available);
        proof {
            crate::capability::lemma_all_disabled_no_enabled(caps.available@);
        }
        DeviceExtensionManager { caps }
    }

    /// `Ok` exactly when every required extension is available; the error
    /// carries the first missing name.
    pub fn check_extensions(&self, extensions: &Vec<String>) -> (r: Result<
        (),
        DeviceExtensionUnavailableError,
    >)
        ensures
            r is Ok <==> self.caps.all_available(extensions@),
            r is Err ==> exists|i: int|
                0 <= i < extensions@.len() && extensions@[i]@ == r->Err_0.extension@
                    && !self.caps.has_available(extensions@[i]@) && (forall|j: int|
                    0 <= j < i ==> self.caps.has_available(extensions@[j]@)),
    {
        match self.caps.check(extensions) {
            Ok(()) => Ok(()),
            Err(name) => Err(DeviceExtensionUnavailableError { extension: name }),
        }
    }

    /// Checks the required extensions and, when all are available, marks them
    /// enabled. On failure nothing changes.
    pub fn add_extensions(&mut self, extensions: &Vec<String>) -> (r: Result<
        (),
        DeviceExtensionUnavailableError,
    >)
        ensures
            r is Ok <==> old(self).caps.all_available(extensions@),
            r is Ok ==> forall|k: int|
                0 <= k < old(self).caps.available@.len() ==> final(self).caps.available@[k].enabled
                    == (old(self).caps.available@[k].enabled || has_name(
                    extensions@,
                    old(self).caps.available@[k].name@,
                )),
            final(self).caps.available@.len() == old(self).caps.available@.len(),
            forall|k: int|
                0 <= k < old(self).caps.available@.len() ==> final(self).caps.available@[k].name@
                    == old(self).caps.available@[k].name@,
            r is Err ==> *final(self) == *old(self),
            r is Err ==> exists|i: int|
                0 <= i < extensions@.len() && extensions@[i]@ == r->Err_0.extension@ && !old(self).caps.has_available(extensions@[i]@),
    {
        match self.caps.add(extensions) {
            Ok(()) => Ok(()),
            Err(name) => Err(DeviceExtensionUnavailableError { extension: name }),
        }
    }

    /// The enabled extension names, as owned storage that stays alive for the
    /// lifetime of the creation call that consumes them.
    pub fn list_names(&self) -> (r: Vec<String>)
        ensures
            str_views(r@) == self.caps.spec_enabled(),
    {
        self.caps.list_enabled()
    }
}

/// Checks, without enabling anything, that a device whose reported extension
/// names are `available` offers every name in `extensions`.
pub fn check_extensions(available: &Vec<String>, extensions: &Vec<String>) -> (r: Result<
    (),
    DeviceExtensionUnavailableError,
>)
    ensures
        r is Ok <==> (forall|i: int|
            0 <= i < extensions@.len() ==> has_name(available@, extensions@[i]@)),
        r is Err ==> exists|i: int|
            0 <= i < extensions@.len() && extensions@[i]@ == r->Err_0.extension@ && !has_name(
                available@,
                extensions@[i]@,
            ),
{
    let manager = DeviceExtensionManager::init(available.clone());
    manager.check_extensions(extensions)
}

} // verus!
