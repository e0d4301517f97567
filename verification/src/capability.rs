//! The capability negotiator: the two-phase enumerate/select protocol that is
//! used identically for instance extensions, device extensions and validation
//! layers. Enumeration yields a deduplicated set of available names; `add`
//! checks a required list against that set and, when every name is present,
//! marks the matches enabled. The enabled set only ever grows.

use vstd::prelude::*;

verus! {

/// One capability the loader reports, and whether it has been enabled.
#[derive(Debug, Clone, PartialEq, Eq)]
pub struct Capability {
    pub name: String,
    pub enabled: bool,
}

/// Whether `names` holds a string whose characters are `name`.
pub open spec fn has_name(names: Seq<String>, name: Seq<char>) -> bool {
    exists|i: int| 0 <= i < names.len() && names[i]@ == name
}

/// Whether the capability list holds an entry named `name`.
pub open spec fn has_cap(caps: Seq<Capability>, name: Seq<char>) -> bool {
    exists|i: int| 0 <= i < caps.len() && caps[i].name@ == name
}

/// The names of the enabled entries, in list order.
pub open spec fn enabled_names(caps: Seq<Capability>) -> Seq<Seq<char>>
    decreases caps.len(),
{
    if caps.len() == 0 {
        Seq::empty()
    } else {
        (if caps[0].enabled {
            seq![caps[0].name@]
        } else {
            Seq::<Seq<char>>::empty()
        }) + enabled_names(caps.drop_first())
    }
}

/// The views of a list of strings.
pub open spec fn str_views(names: Seq<String>) -> Seq<Seq<char>> {
    names.map_values(|s: String| s@)
}

/// Whether no two entries share a name.
pub open spec fn unique_cap_names(caps: Seq<Capability>) -> bool {
    forall|i: int, j: int| 0 <= i < j < caps.len() ==> caps[i].name@ != caps[j].name@
}

/// A list with no enabled entry yields no enabled names.
pub proof fn lemma_all_disabled_no_enabled(caps: Seq<Capability>)
    requires
        forall|k: int| 0 <= k < caps.len() ==> !caps[k].enabled,
    ensures
        enabled_names(caps).len() == 0,
    decreases caps.len(),
{
    if caps.len() > 0 {
        lemma_all_disabled_no_enabled(caps.drop_first());
    }
}

/// A name is among the enabled names exactly when some enabled entry bears it.
pub proof fn lemma_enabled_names_membership(caps: Seq<Capability>, n: Seq<char>)
    ensures
        enabled_names(caps).contains(n) <==> exists|k: int|
            0 <= k < caps.len() && caps[k].enabled && caps[k].name@ == n,
    decreases caps.len(),
{
    if caps.len() > 0 {
        lemma_enabled_names_membership(caps.drop_first(), n);
        let head: Seq<Seq<char>> = if caps[0].enabled {
            seq![caps[0].name@]
        } else {
            Seq::<Seq<char>>::empty()
        };
        let rest = enabled_names(caps.drop_first());
        assert(enabled_names(caps) == head + rest);
        if enabled_names(caps).contains(n) {
            let w = choose|w: int| 0 <= w < (head + rest).len() && (head + rest)[w] == n;
            if w < head.len() {
                assert(caps[0].enabled && caps[0].name@ == n);
            } else {
                assert(rest[w - head.len()] == n);
                assert(rest.contains(n));
                let k = choose|k: int|
                    0 <= k < caps.drop_first().len() && caps.drop_first()[k].enabled
                        && caps.drop_first()[k].name@ == n;
                assert(caps[k + 1].enabled && caps[k + 1].name@ == n);
            }
        }
        if exists|k: int| 0 <= k < caps.len() && caps[k].enabled && caps[k].name@ == n {
            let k = choose|k: int| 0 <= k < caps.len() && caps[k].enabled && caps[k].name@ == n;
            if k == 0 {
                assert((head + rest)[0] == n);
            } else {
                assert(caps.drop_first()[k - 1].enabled && caps.drop_first()[k - 1].name@ == n);
                assert(rest.contains(n));
                let w = choose|w: int| 0 <= w < rest.len() && rest[w] == n;
                assert((head + rest)[head.len() + w] == n);
            }
            assert(enabled_names(caps).contains(n));
        }
    }
}

fn contains_cap(caps: &Vec<Capability>, name: &String) -> (r: bool)
    ensures
        r == has_cap(caps@, name@),
{
    let mut j: usize = 0;
    while j < caps.len()
        invariant
            j <= caps@.len(),
            forall|m: int| 0 <= m < j ==> caps@[m].name@ != name@,
        decreases caps@.len() - j,
    {
        let c = caps.get(j).unwrap();
        if c.name == *name {
            return true;
        }
        j = j + 1;
    }
    false
}

fn contains_string(names: &Vec<String>, name: &String) -> (r: bool)
    ensures
        r == has_name(names@, name@),
{
    let mut j: usize = 0;
    while j < names.len()
        invariant
            j <= names@.len(),
            forall|m: int| 0 <= m < j ==> names@[m]@ != name@,
        decreases names@.len() - j,
    {
        let c = names.get(j).unwrap();
        if *c == *name {
            return true;
        }
        j = j + 1;
    }
    false
}

/// The set of capabilities one negotiation works over: every name the loader
/// reported as available, each marked enabled once some required list
/// matched it.
#[derive(Debug, Clone, PartialEq, Eq)]
pub struct CapabilitySet {
    pub available: Vec<Capability>,
}

impl CapabilitySet {
    /// Whether `name` is among the available names.
    pub open spec fn has_available(self, name: Seq<char>) -> bool {
        has_cap(self.available@, name)
    }

    /// Whether every name in `required` is available.
    pub open spec fn all_available(self, required: Seq<String>) -> bool {
        forall|i: int| 0 <= i < required.len() ==> self.has_available(required[i]@)
    }

    /// The names currently enabled, in enumeration order.
    pub open spec fn spec_enabled(self) -> Seq<Seq<char>> {
        enabled_names(self.available@)
    }

    /// Builds the available set from the names the loader reported,
    /// deduplicated, all initially disabled.
    pub fn new(names: Vec<String>) -> (r: Self)
        ensures
            forall|n: Seq<char>| r.has_available(n) <==> has_name(names@, n),
            unique_cap_names(r.available@),
            forall|k: int| 0 <= k < r.available@.len() ==> !r.available@[k].enabled,
    {
        let mut available: Vec<Capability> = Vec::new();
        let mut i: usize = 0;
        while i < names.len()
            invariant
                i <= names@.len(),
                unique_cap_names(available@),
                forall|k: int| 0 <= k < available@.len() ==> !available@[k].enabled,
                forall|n: Seq<char>|
                    has_cap(available@, n) <==> has_name(names@.take(i as int), n),
            decreases names@.len() - i,
        {
            let name = names.get(i).unwrap();
            let mut found = false;
            let mut j: usize = 0;
            while j < available.len()
                invariant
                    j <= available@.len(),
                    found <==> exists|m: int|
                        0 <= m < j && available@[m].name@ == name@,
                decreases available@.len() - j,
            {
                if available.get(j).unwrap().name == *name {
                    found = true;
                }
                j = j + 1;
            }
            let ghost pre = available@;
            if !found {
                available.push(Capability { name: name.clone(), enabled: false });
            }
            proof {
                let prefix = names@.take(i as int);
                let full = names@.take(i as int + 1);
                assert(full =~= prefix.push(names@[i as int]));
                assert forall|n: Seq<char>| has_cap(available@, n) implies has_name(full, n) by {
                    let w = choose|w: int|
                        0 <= w < available@.len() && available@[w].name@ == n;
                    if w < pre.len() {
                        assert(has_cap(pre, n));
                        let u = choose|u: int| 0 <= u < prefix.len() && prefix[u]@ == n;
                        assert(full[u]@ == n);
                    } else {
                        assert(full[i as int]@ == n);
                    }
                };
                assert forall|n: Seq<char>| has_name(full, n) implies has_cap(available@, n) by {
                    let w = choose|w: int| 0 <= w < full.len() && full[w]@ == n;
                    if w < i {
                        assert(prefix[w]@ == n);
                        assert(has_name(prefix, n));
                        assert(has_cap(pre, n));
                        let u = choose|u: int| 0 <= u < pre.len() && pre[u].name@ == n;
                        assert(available@[u].name@ == n);
                    } else {
                        assert(names@[i as int]@ == n);
                        if found {
                            let m = choose|m: int| 0 <= m < pre.len() && pre[m].name@ == name@;
                            assert(available@[m].name@ == n);
                        } else {
                            assert(available@[pre.len() as int].name@ == n);
                        }
                    }
                };
                assert(unique_cap_names(available@));
            }
            i = i + 1;
        }
        proof {
            assert(names@.take(names@.len() as int) =~= names@);
        }
        CapabilitySet { available }
    }

    /// Checks a required list against the available names. `Ok` exactly when
    /// every required name is available; on failure the error carries the
    /// first required name that is missing.
    pub fn check(&self, required: &Vec<String>) -> (r: Result<(), String>)
        ensures
            r is Ok <==> self.all_available(required@),
            r is Err ==> exists|i: int|
                0 <= i < required@.len() && required@[i]@ == r->Err_0@ && !self.has_available(
                    required@[i]@,
                ) && (forall|j: int| 0 <= j < i ==> self.has_available(required@[j]@)),
    {
        let mut i: usize = 0;
        while i < required.len()
            invariant
                i <= required@.len(),
                forall|j: int| 0 <= j < i ==> self.has_available(required@[j]@),
            decreases required@.len() - i,
        {
            let name = required.get(i).unwrap();
            if !contains_cap(&self.available, name) {
                return Err(name.clone());
            }
            i = i + 1;
        }
        Ok(())
    }

    /// Enables every available entry whose name is in `required`, after
    /// checking that all of `required` is available. On failure nothing is
    /// changed and the error carries the first missing name. The enabled set
    /// grows monotonically: entries enabled before stay enabled.
    pub fn add(&mut self, required: &Vec<String>) -> (r: Result<(), String>)
        ensures
            final(self).available@.len() == old(self).available@.len(),
            forall|k: int|
                0 <= k < old(self).available@.len() ==> final(self).available@[k].name@ == old(self).available@[k].name@,
            r is Ok <==> old(self).all_available(required@),
            r is Ok ==> forall|k: int|
                0 <= k < old(self).available@.len() ==> final(self).available@[k].enabled == (old(self).available@[k].enabled || has_name(required@, old(self).available@[k].name@)),
            r is Err ==> *final(self) == *old(self),
            r is Err ==> exists|i: int|
                0 <= i < required@.len() && required@[i]@ == r->Err_0@ && !old(self).has_available(
                    required@[i]@,
                ) && (forall|j: int| 0 <= j < i ==> old(self).has_available(required@[j]@)),
    {
        match self.check(required) {
            Ok(()) => {},
            Err(name) => {
                return Err(name);
            },
        }
        let mut k: usize = 0;
        while k < self.available.len()
            invariant
                k <= self.available@.len(),
                self.available@.len() == old(self).available@.len(),
                forall|m: int|
                    k <= m < self.available@.len() ==> self.available@[m] == old(self).available@[m],
                forall|m: int|
                    0 <= m < k ==> self.available@[m].name@ == old(self).available@[m].name@,
                forall|m: int|
                    0 <= m < k ==> self.available@[m].enabled == (old(self).available@[m].enabled
                        || has_name(required@, old(self).available@[m].name@)),
            decreases self.available@.len() - k,
        {
            let name_k = self.available.get(k).unwrap().name.clone();
            let was_enabled = self.available.get(k).unwrap().enabled;
            let matched = contains_string(required, &name_k);
            self.available.set(
                k,
                Capability { name: name_k, enabled: was_enabled || matched },
            );
            k = k + 1;
        }
        Ok(())
    }

    /// The enabled names, in enumeration order, as owned storage the caller
    /// can keep alive across the creation call that consumes them.
    pub fn list_enabled(&self) -> (r: Vec<String>)
        ensures
            str_views(r@) == self.spec_enabled(),
    {
        let mut out: Vec<String> = Vec::new();
        let mut i: usize = 0;
        proof {
            assert(self.available@.skip(0) =~= self.available@);
            assert(str_views(out@) =~= Seq::<Seq<char>>::empty());
        }
        while i < self.available.len()
            invariant
                i <= self.available@.len(),
                enabled_names(self.available@) == str_views(out@) + enabled_names(
                    self.available@.skip(i as int),
                ),
            decreases self.available@.len() - i,
        {
            let c = self.available.get(i).unwrap();
            proof {
                assert(self.available@.skip(i as int).drop_first() =~= self.available@.skip(
                    i as int + 1,
                ));
            }
            let ghost old_out = out@;
            if c.enabled {
                out.push(c.name.clone());
                proof {
                    assert(str_views(out@) =~= str_views(old_out).push(c.name@));
                    assert(enabled_names(self.available@) =~= str_views(out@) + enabled_names(
                        self.available@.skip(i as int + 1),
                    ));
                }
            } else {
                proof {
                    assert(enabled_names(self.available@) =~= str_views(out@) + enabled_names(
                        self.available@.skip(i as int + 1),
                    ));
                }
            }
            i = i + 1;
        }
        proof {
            assert(enabled_names(self.available@.skip(i as int)) =~= Seq::<Seq<char>>::empty());
            assert(str_views(out@) =~= enabled_names(self.available@));
        }
        out
    }
}

} // verus!
