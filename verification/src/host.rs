//! The host environment model.
//!
//! A [`HostEnvironment`] is a snapshot of every artifact the heuristics
//! inspect, gathered by a platform capability provider and handed to the
//! engine as plain values. The registry part records, for each key the
//! signature catalogue asks about, whether the key could be opened and what
//! the probed values held. Every catalogued artifact lives under the
//! local-machine hive, so a subkey path alone identifies a key. On a
//! 64-bit system the snapshot reflects the 64-bit registry view, which a
//! provider running as a 32-bit process obtains by opening keys with the
//! 64-bit view flag whenever the process runs under WOW64.

use vstd::prelude::*;

use crate::text;

verus! {

/// The tri-state result of one signature probe.
///
/// `Inconclusive` means the artifact could not be read (key or value
/// absent or unreadable), as opposed to `NotDetected`, which means the
/// artifact was read and did not match.
#[derive(Clone, Copy, Debug, PartialEq, Eq, Structural)]
pub enum ProbeResult {
    Detected,
    NotDetected,
    Inconclusive,
}

impl ProbeResult {
    /// Collapses the tri-state to the aggregator boolean: only a positive
    /// detection counts, and an unreadable artifact is deliberately treated
    /// as not detected, biasing the system against false positives.
    pub fn to_flag(self) -> (r: bool)
        ensures
            r == (self is Detected),
    {
        match self {
            ProbeResult::Detected => true,
            ProbeResult::NotDetected => false,
            ProbeResult::Inconclusive => false,
        }
    }
}

/// One named value recorded under a registry key, with its textual content.
#[derive(Clone, Debug)]
pub struct RegistryValue {
    pub name: String,
    pub data: String,
}

/// One registry key the provider could open, with the probed values read
/// from it. The values of one key may be recorded across several entries
/// that share the same path.
#[derive(Clone, Debug)]
pub struct RegistryKey {
    pub path: String,
    pub values: Vec<RegistryValue>,
}

/// The registry as the probes see it: the keys that could be opened, each
/// with the values that could be read. A key absent from the snapshot is
/// one the provider could not open.
#[derive(Clone, Debug)]
pub struct RegistrySnapshot {
    pub keys: Vec<RegistryKey>,
}

/// The first value named `name` in `vals`, if any.
pub open spec fn spec_find_value(vals: Seq<RegistryValue>, name: Seq<char>) -> Option<Seq<char>>
    decreases vals.len(),
{
    if vals.len() == 0 {
        None
    } else if vals[0].name@ == name {
        Some(vals[0].data@)
    } else {
        spec_find_value(vals.drop_first(), name)
    }
}

/// The text of value `name` under the first entry for `path` that holds it,
/// or `None` when no entry does.
pub open spec fn spec_value_lookup(
    keys: Seq<RegistryKey>,
    path: Seq<char>,
    name: Seq<char>,
) -> Option<Seq<char>>
    decreases keys.len(),
{
    if keys.len() == 0 {
        None
    } else if keys[0].path@ == path && spec_find_value(keys[0].values@, name) is Some {
        spec_find_value(keys[0].values@, name)
    } else {
        spec_value_lookup(keys.drop_first(), path, name)
    }
}

proof fn lemma_find_value_step(vals: Seq<RegistryValue>, name: Seq<char>, i: int)
    requires
        0 <= i < vals.len(),
    ensures
        spec_find_value(vals.skip(i), name) == if vals[i].name@ == name {
            Some(vals[i].data@)
        } else {
            spec_find_value(vals.skip(i + 1), name)
        },
{
    assert(vals.skip(i)[0] == vals[i]);
    assert(vals.skip(i).drop_first() =~= vals.skip(i + 1));
}

proof fn lemma_value_lookup_step(keys: Seq<RegistryKey>, path: Seq<char>, name: Seq<char>, i: int)
    requires
        0 <= i < keys.len(),
    ensures
        spec_value_lookup(keys.skip(i), path, name) == if keys[i].path@ == path
            && spec_find_value(keys[i].values@, name) is Some {
            spec_find_value(keys[i].values@, name)
        } else {
            spec_value_lookup(keys.skip(i + 1), path, name)
        },
{
    assert(keys.skip(i)[0] == keys[i]);
    assert(keys.skip(i).drop_first() =~= keys.skip(i + 1));
}

/// The first value named `name` in `vals`, if any.
fn find_value<'a>(vals: &'a Vec<RegistryValue>, name: &str) -> (r: Option<&'a String>)
    ensures
        match r {
            Some(t) => spec_find_value(vals@, name@) == Some(t@),
            None => spec_find_value(vals@, name@) is None,
        },
{
    proof {
        assert(vals@.skip(0) =~= vals@);
    }
    let mut i: usize = 0;
    while i < vals.len()
        invariant
            i <= vals@.len(),
            spec_find_value(vals@, name@) == spec_find_value(vals@.skip(i as int), name@),
        decreases vals@.len() - i,
    {
        proof {
            lemma_find_value_step(vals@, name@, i as int);
        }
        if text::str_eq(vals[i].name.as_str(), name) {
            return Some(&vals[i].data);
        }
        i += 1;
    }
    proof {
        assert(vals@.skip(vals@.len() as int) =~= Seq::<RegistryValue>::empty());
    }
    None
}

impl RegistrySnapshot {
    /// Some entry of the snapshot records `path`.
    pub open spec fn spec_key_exists(self, path: Seq<char>) -> bool {
        exists|i: int| 0 <= i < self.keys@.len() && (#[trigger] self.keys@[i]).path@ == path
    }

    /// The recorded text of value `name` under `path`, or `None` when it
    /// could not be read.
    pub open spec fn spec_value_text(self, path: Seq<char>, name: Seq<char>) -> Option<Seq<char>> {
        spec_value_lookup(self.keys@, path, name)
    }

    /// Reports whether the snapshot records the key `path`.
    pub fn key_exists(&self, path: &str) -> (r: bool)
        ensures
            r == self.spec_key_exists(path@),
    {
        let mut i: usize = 0;
        while i < self.keys.len()
            invariant
                i <= self.keys@.len(),
                forall|j: int| 0 <= j < i ==> (#[trigger] self.keys@[j]).path@ != path@,
            decreases self.keys@.len() - i,
        {
            if text::str_eq(self.keys[i].path.as_str(), path) {
                return true;
            }
            i += 1;
        }
        false
    }

    /// Returns the recorded text of value `name` under `path`, or `None`
    /// when the snapshot holds no such reading.
    pub fn value_text<'a>(&'a self, path: &str, name: &str) -> (r: Option<&'a String>)
        ensures
            match r {
                Some(t) => self.spec_value_text(path@, name@) == Some(t@),
                None => self.spec_value_text(path@, name@) is None,
            },
    {
        proof {
            assert(self.keys@.skip(0) =~= self.keys@);
        }
        let mut i: usize = 0;
        while i < self.keys.len()
            invariant
                i <= self.keys@.len(),
                spec_value_lookup(self.keys@, path@, name@) == spec_value_lookup(
                    self.keys@.skip(i as int),
                    path@,
                    name@,
                ),
            decreases self.keys@.len() - i,
        {
            proof {
                lemma_value_lookup_step(self.keys@, path@, name@, i as int);
            }
            if text::str_eq(self.keys[i].path.as_str(), path) {
                if let Some(t) = find_value(&self.keys[i].values, name) {
                    return Some(t);
                }
            }
            i += 1;
        }
        proof {
            assert(self.keys@.skip(self.keys@.len() as int) =~= Seq::<RegistryKey>::empty());
        }
        None
    }
}

/// The disk geometry of the system drive, as the provider reported it.
#[derive(Clone, Copy, Debug, PartialEq, Eq, Structural)]
pub struct DiskGeometry {
    pub bytes_per_sector: u32,
    pub sectors_per_cluster: u32,
    pub total_clusters: u32,
}

/// Everything the detection engine reads about the host, gathered in one
/// pass by a capability provider.
#[derive(Clone, Debug)]
pub struct HostEnvironment {
    /// Whether the platform's debugger-presence primitive reported an
    /// attached debugger; `false` where no such primitive exists.
    pub debugger_present: bool,
    /// The registry artifacts of the signature catalogue (64-bit view).
    pub registry: RegistrySnapshot,
    /// Geometry of the system drive; `None` when the query failed.
    pub disk_geometry: Option<DiskGeometry>,
    /// Millisecond tick reading taken immediately before the provider
    /// requested a 500 ms blocking delay.
    pub delay_start_ticks: u32,
    /// Millisecond tick reading taken immediately after the delay returned.
    pub delay_end_ticks: u32,
    /// The reported number of logical processors.
    pub cpu_count: u32,
    /// What the optional native-VHD-boot primitive reported; `None` when
    /// the primitive could not be resolved on this build.
    pub native_vhd_boot: Option<bool>,
}

} // verus!
