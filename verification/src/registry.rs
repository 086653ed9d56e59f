//! The metric registry model: named families, registered once.
//!
//! The registry remembers which metric family names have been registered.
//! Registering a name a second time is refused with a dedicated error, so
//! that callers who meet an already-present family can keep the prior
//! instance and go on — duplicate registration is recoverable by design.

use vstd::prelude::*;

use crate::labels::{is_valid_metric_name, spec_valid_metric_name};

verus! {

/// Why a registration or metric creation was refused.
#[derive(Clone, Copy, Debug, PartialEq, Eq, Structural)]
pub enum MetricsError {
    /// The metric family name is already registered; the prior instance
    /// stays intact and usable.
    AlreadyRegistered,
    /// The metric name is malformed: a name holds letters, digits,
    /// underscores and colons, and does not start with a digit.
    InvalidName,
}

/// Name and help line a metric family is created with.
#[derive(Debug)]
pub struct MetricOpts {
    pub name: String,
    pub help: String,
}

impl MetricOpts {
    /// Builds options from a family name and its help line.
    pub fn new(name: String, help: String) -> (r: Self)
        ensures
            r.name@ == name@,
            r.help@ == help@,
    {
        Self { name, help }
    }
}

impl Clone for MetricOpts {
    /// Clones the options; the copy carries the same name and help line.
    fn clone(&self) -> (r: Self)
        ensures
            r == *self,
    {
        Self { name: self.name.clone(), help: self.help.clone() }
    }
}

/// Registry of metric family names.
#[derive(Clone)]
pub struct Registry {
    names: Vec<String>,
}

impl Registry {
    /// The registered names, in registration order.
    pub closed spec fn names_view(&self) -> Seq<Seq<char>> {
        self.names@.map_values(|n: String| n@)
    }

    /// Whether a name is registered.
    pub open spec fn is_registered(&self, name: Seq<char>) -> bool {
        self.names_view().contains(name)
    }

    /// Creates an empty registry.
    pub fn new() -> (r: Self)
        ensures
            r.names_view() == Seq::<Seq<char>>::empty(),
    {
        Self { names: Vec::new() }
    }

    /// The registered names, in registration order.
    pub fn names(&self) -> (r: &Vec<String>)
        ensures
            r@.map_values(|n: String| n@) == self.names_view(),
    {
        &self.names
    }

    /// Whether a name is registered.
    pub fn contains(&self, name: &String) -> (r: bool)
        ensures
            r == self.is_registered(name@),
    {
        let n = self.names.len();
        let mut idx: usize = 0;
        while idx < n
            invariant
                idx <= n,
                n == self.names@.len(),
                forall|i: int| 0 <= i < idx ==> self.names_view()[i] != name@,
            decreases n - idx,
        {
            if self.names[idx] == *name {
                proof {
                    assert(self.names_view()[idx as int] == name@);
                }
                return true;
            }
            idx += 1;
        }
        proof {
            assert forall|i: int|
                0 <= i < self.names_view().len() implies self.names_view()[i] != name@ by {}
        }
        false
    }

    /// Registers a family name. A well-formed, fresh name is appended and
    /// the call succeeds; a malformed name is refused with
    /// [`MetricsError::InvalidName`], a name already present with
    /// [`MetricsError::AlreadyRegistered`]; either way the registry is
    /// left unchanged.
    pub fn register(&mut self, name: String) -> (r: Result<(), MetricsError>)
        ensures
            !spec_valid_metric_name(name@) ==> r == Err::<(), MetricsError>(
                MetricsError::InvalidName,
            ) && *final(self) == *old(self),
            spec_valid_metric_name(name@) && old(self).is_registered(name@) ==> r == Err::<
                (),
                MetricsError,
            >(MetricsError::AlreadyRegistered) && *final(self) == *old(self),
            spec_valid_metric_name(name@) && !old(self).is_registered(name@) ==> r is Ok
                && final(self).names_view() == old(self).names_view().push(name@),
    {
        if !is_valid_metric_name(name.as_str()) {
            Err(MetricsError::InvalidName)
        } else if self.contains(&name) {
            Err(MetricsError::AlreadyRegistered)
        } else {
            let ghost before = self.names@;
            self.names.push(name);
            proof {
                assert(self.names@.map_values(|n: String| n@) =~= before.map_values(
                    |n: String| n@,
                ).push(self.names@.last()@));
            }
            Ok(())
        }
    }
}

/// One gauge: a named value with one identifying label pair, recomputed at
/// every collection.
#[derive(Debug)]
pub struct Gauge {
    pub name: String,
    pub help: String,
    pub label_key: String,
    pub label_value: String,
}

impl Gauge {
    /// Builds a gauge description.
    pub fn new(name: String, help: String, label_key: String, label_value: String) -> (r: Self)
        ensures
            r.name@ == name@,
            r.help@ == help@,
            r.label_key@ == label_key@,
            r.label_value@ == label_value@,
    {
        Self { name, help, label_key, label_value }
    }

    /// One sample of this gauge at the given value.
    pub fn sample(&self, value: u64) -> (r: GaugeSample)
        ensures
            r@ == self.spec_sample(value),
    {
        GaugeSample {
            name: self.name.clone(),
            label_key: self.label_key.clone(),
            label_value: self.label_value.clone(),
            value,
        }
    }

    /// The sample owed for this gauge at the given value.
    pub open spec fn spec_sample(&self, value: u64) -> GaugeSampleView {
        GaugeSampleView {
            name: self.name@,
            label_key: self.label_key@,
            label_value: self.label_value@,
            value,
        }
    }
}

impl Clone for Gauge {
    /// Clones the gauge description; the copy carries the same four values.
    fn clone(&self) -> (r: Self)
        ensures
            r == *self,
    {
        Self {
            name: self.name.clone(),
            help: self.help.clone(),
            label_key: self.label_key.clone(),
            label_value: self.label_value.clone(),
        }
    }
}

/// One collected gauge value, labeled with the gauge's identity.
#[derive(Debug)]
pub struct GaugeSample {
    pub name: String,
    pub label_key: String,
    pub label_value: String,
    pub value: u64,
}

/// Mathematical value of a [`GaugeSample`].
pub struct GaugeSampleView {
    pub name: Seq<char>,
    pub label_key: Seq<char>,
    pub label_value: Seq<char>,
    pub value: u64,
}

impl View for GaugeSample {
    type V = GaugeSampleView;

    open spec fn view(&self) -> GaugeSampleView {
        GaugeSampleView {
            name: self.name@,
            label_key: self.label_key@,
            label_value: self.label_value@,
            value: self.value,
        }
    }
}

} // verus!
