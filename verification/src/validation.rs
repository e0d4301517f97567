//! Validation layer negotiation: which layers the loader reports, which the
//! application requires, and the enabled list handed to instance creation.
//! Layers are a debug-only aid; a release build negotiates none.

use vstd::prelude::*;
use vstd::string::StringExecFns;

use crate::capability::{CapabilitySet, has_name, str_views, unique_cap_names};

verus! {

/// The error returned when a required validation layer is not available; it
/// carries the missing layer's name.
#[derive(Debug, Clone, PartialEq, Eq)]
pub struct ValidationLayerUnavailableError {
    pub layer: String,
}

impl ValidationLayerUnavailableError {
    pub fn message(&self) -> (r: String)
        ensures
            r@ == "validation layer "@ + self.layer@ + " is not available"@,
    {
        let s = "validation layer ".to_owned();
        let s = s.concat(self.layer.as_str());
        let s = s.concat(" is not available");
        proof {
            assert(s@ =~= "validation layer "@ + self.layer@ + " is not available"@);
        }
        s
    }
}

/// Negotiates validation layers: enumeration runs once, then required lists
/// accumulate into the enabled set.
#[derive(Debug, Clone, PartialEq, Eq)]
pub struct ValidationLayerManager {
    pub caps: CapabilitySet,
}

impl ValidationLayerManager {
    /// Builds the manager from the layer names the loader enumerated.
    pub fn init(available: Vec<String>) -> (r: Self)
        ensures
            forall|n: Seq<char>| r.caps.has_available(n) <==> has_name(available@, n),
            unique_cap_names(r.caps.available@),
            r.caps.spec_enabled().len() == 0,
    {
        let caps = CapabilitySet::new(available);
        proof {
            crate::capability::lemma_all_disabled_no_enabled(caps.available@);
        }
        ValidationLayerManager { caps }
    }

    /// `Ok` exactly when every required layer is available; the error carries
    /// the first missing name.
    pub fn check_layers(&self, layers: &Vec<String>) -> (r: Result<
        (),
        ValidationLayerUnavailableError,
    >)
        ensures
            r is Ok <==> self.caps.all_available(layers@),
            r is Err ==> exists|i: int|
                0 <= i < layers@.len() && layers@[i]@ == r->Err_0.layer@
                    && !self.caps.has_available(layers@[i]@) && (forall|j: int|
                    0 <= j < i ==> self.caps.has_available(layers@[j]@)),
    {
        match self.caps.check(layers) {
            Ok(()) => Ok(()),
            Err(name) => Err(ValidationLayerUnavailableError { layer: name }),
        }
    }

    /// Checks the required layers and, when all are available, marks them
    /// enabled. On failure nothing changes.
    pub fn add_layers(&mut self, layers: &Vec<String>) -> (r: Result<
        (),
        ValidationLayerUnavailableError,
    >)
        ensures
            r is Ok <==> old(self).caps.all_available(layers@),
            r is Ok ==> forall|k: int|
                0 <= k < old(self).caps.available@.len() ==> final(self).caps.available@[k].enabled
                    == (old(self).caps.available@[k].enabled || has_name(
                    layers@,
                    old(self).caps.available@[k].name@,
                )),
            final(self).caps.available@.len() == old(self).caps.available@.len(),
            forall|k: int|
                0 <= k < old(self).caps.available@.len() ==> final(self).caps.available@[k].name@
                    == old(self).caps.available@[k].name@,
            r is Err ==> *final(self) == *old(self),
            r is Err ==> exists|i: int|
                0 <= i < layers@.len() && layers@[i]@ == r->Err_0.layer@ && !old(self).caps.has_available(layers@[i]@),
    {
        match self.caps.add(layers) {
            Ok(()) => Ok(()),
            Err(name) => Err(ValidationLayerUnavailableError { layer: name }),
        }
    }

    /// The enabled layer names, as owned storage that stays alive for the
    /// lifetime of the creation call that consumes them.
    pub fn make_load_layer_list(&self) -> (r: Vec<String>)
        ensures
            str_views(r@) == self.caps.spec_enabled(),
    {
        self.caps.list_enabled()
    }
}

} // verus!
