//! SoC identity: matching a name, or the host's brand string and core count,
//! against an ordered reference table. A miss is the empty record, never an error.
use vstd::prelude::*;
use crate::host::host_cpu_count;
use crate::text::{lossy_text, trimmed, trimmed_output};

verus! {

/// One entry of the SoC reference table.
#[derive(Clone, Debug, PartialEq, Eq)]
pub struct Soc {
    pub name: Option<String>,
    pub vendor: Option<String>,
    pub process_node: Option<String>,
    /// Total cores when no performance/efficiency breakdown is given; 0 when unknown.
    pub core_count: u32,
    pub performance_cores: Option<u32>,
    pub efficiency_cores: Option<u32>,
    pub gpu_cores: Option<u32>,
}

pub struct SocDetails;

/// The record that stands for "not found".
pub open spec fn empty_soc() -> Soc {
    Soc {
        name: None,
        vendor: None,
        process_node: None,
        core_count: 0,
        performance_cores: None,
        efficiency_cores: None,
        gpu_cores: None,
    }
}

/// Performance plus efficiency cores when both are given, else the stated core count.
pub open spec fn derived_cores(s: Soc) -> nat {
    match (s.performance_cores, s.efficiency_cores) {
        (Some(p), Some(e)) => (p + e) as nat,
        _ => s.core_count as nat,
    }
}

pub open spec fn name_is(s: Soc, name: Seq<char>) -> bool {
    match s.name {
        Some(n) => n@ == name,
        None => false,
    }
}

pub open spec fn matches_host(s: Soc, name: Seq<char>, cores: nat) -> bool {
    name_is(s, name) && derived_cores(s) == cores
}

/// `i` is the first index of `v` whose record carries `name`.
pub open spec fn first_by_name(v: Seq<Soc>, name: Seq<char>, i: int) -> bool {
    &&& 0 <= i < v.len()
    &&& name_is(v[i], name)
    &&& forall|j: int| 0 <= j < i ==> !name_is(#[trigger] v[j], name)
}

/// `i` is the first index of `v` whose record carries `name` and `cores` derived cores.
pub open spec fn first_for_host(v: Seq<Soc>, name: Seq<char>, cores: nat, i: int) -> bool {
    &&& 0 <= i < v.len()
    &&& matches_host(v[i], name, cores)
    &&& forall|j: int| 0 <= j < i ==> !matches_host(#[trigger] v[j], name, cores)
}

/// Resolution by name over a table that may have failed to parse (`None`):
/// the first record with that name, else the empty record.
pub open spec fn resolved_by_name(table: Option<Vec<Soc>>, name: Seq<char>, r: Soc) -> bool {
    match table {
        Some(v) => (exists|i: int| #[trigger] first_by_name(v@, name, i) && r == v@[i]) || (
        (forall|i: int| 0 <= i < v@.len() ==> !name_is(#[trigger] v@[i], name)) && r == empty_soc()),
        None => r == empty_soc(),
    }
}

/// Resolution of a brand string and core count: the first record that matches
/// both, else the empty record.
pub open spec fn resolved_for_host(table: Option<Vec<Soc>>, name: Seq<char>, cores: nat, r: Soc) -> bool {
    match table {
        Some(v) => (exists|i: int| #[trigger] first_for_host(v@, name, cores, i) && r == v@[i]) || (
        (forall|i: int| 0 <= i < v@.len() ==> !matches_host(#[trigger] v@[i], name, cores)) && r
            == empty_soc()),
        None => r == empty_soc(),
    }
}

/// Host resolution never accepts a name-only match: whatever it returns is
/// either the empty record or a record with the host's name and core count.
pub proof fn lemma_name_only_match_rejected(table: Option<Vec<Soc>>, name: Seq<char>, cores: nat, r: Soc)
    requires
        resolved_for_host(table, name, cores, r),
    ensures
        r == empty_soc() || (name_is(r, name) && derived_cores(r) == cores),
{
}

/// A table that could not be parsed resolves every name to the empty record.
pub proof fn lemma_unparsed_table_resolves_empty(name: Seq<char>, r: Soc)
    requires
        resolved_by_name(None, name, r),
    ensures
        r == empty_soc(),
{
}

fn copy_text(s: &Option<String>) -> (r: Option<String>)
    ensures
        r == *s,
{
    match s {
        Some(t) => Some(t.clone()),
        None => None,
    }
}

impl Soc {
    /// The empty record.
    pub fn empty() -> (r: Soc)
        ensures
            r == empty_soc(),
    {
        Soc {
            name: None,
            vendor: None,
            process_node: None,
            core_count: 0,
            performance_cores: None,
            efficiency_cores: None,
            gpu_cores: None,
        }
    }

    /// A field-for-field copy.
    pub fn duplicate(&self) -> (r: Soc)
        ensures
            r == *self,
    {
        Soc {
            name: copy_text(&self.name),
            vendor: copy_text(&self.vendor),
            process_node: copy_text(&self.process_node),
            core_count: self.core_count,
            performance_cores: self.performance_cores,
            efficiency_cores: self.efficiency_cores,
            gpu_cores: self.gpu_cores,
        }
    }

    /// Core count derived from the performance/efficiency breakdown when present.
    pub fn num_of_cores(&self) -> (r: u64)
        ensures
            r as nat == derived_cores(*self),
    {
        match (self.performance_cores, self.efficiency_cores) {
            (Some(p), Some(e)) => p as u64 + e as u64,
            _ => self.core_count as u64,
        }
    }

    fn has_name(&self, name: &String) -> (r: bool)
        ensures
            r == name_is(*self, name@),
    {
        match &self.name {
            Some(n) => n.eq(name),
            None => false,
        }
    }
}

impl Default for Soc {
    fn default() -> (r: Soc)
        ensures
            r == empty_soc(),
    {
        Soc::empty()
    }
}

impl SocDetails {
    /// The first record whose name equals `name` exactly; the empty record when
    /// there is none or the table could not be parsed.
    pub fn get_soc_info_by_name(table: &Option<Vec<Soc>>, name: &str) -> (r: Soc)
        ensures
            resolved_by_name(*table, name@, r),
    {
        let target = String::from_str(name);
        match table {
            None => Soc::empty(),
            Some(v) => {
                let mut i: usize = 0;
                while i < v.len()
                    invariant
                        0 <= i <= v@.len(),
                        *table == Some(*v),
                        target@ == name@,
                        forall|j: int| 0 <= j < i ==> !name_is(#[trigger] v@[j], name@),
                    decreases v@.len() - i,
                {
                    if v[i].has_name(&target) {
                        let r = v[i].duplicate();
                        assert(first_by_name(v@, name@, i as int));
                        return r;
                    }
                    i = i + 1;
                }
                Soc::empty()
            },
        }
    }

    /// The first record whose name equals `name` and whose derived core count
    /// equals `cores`; a record that matches the name alone is passed over.
    pub fn get_soc_info_by_name_and_cores(table: &Option<Vec<Soc>>, name: &String, cores: u32) -> (r: Soc)
        ensures
            resolved_for_host(*table, name@, cores as nat, r),
    {
        match table {
            None => Soc::empty(),
            Some(v) => {
                let mut i: usize = 0;
                while i < v.len()
                    invariant
                        0 <= i <= v@.len(),
                        *table == Some(*v),
                        forall|j: int| 0 <= j < i ==> !matches_host(#[trigger] v@[j], name@, cores as nat),
                    decreases v@.len() - i,
                {
                    if v[i].has_name(name) && v[i].num_of_cores() == cores as u64 {
                        let r = v[i].duplicate();
                        assert(first_for_host(v@, name@, cores as nat, i as int));
                        return r;
                    }
                    i = i + 1;
                }
                Soc::empty()
            },
        }
    }

    /// The record of the host's SoC: its brand string is the trimmed output of
    /// the host's brand-string query, its core count the host's reported count.
    /// The empty record when the core count cannot be read.
    pub fn get_current_soc_info(table: &Option<Vec<Soc>>, brand_output: &Vec<u8>) -> (r: Soc)
        ensures
            r == empty_soc() || exists|cores: u32|
                #[trigger] resolved_for_host(*table, trimmed(lossy_text(brand_output@)), cores as nat, r),
    {
        let brand = trimmed_output(brand_output);
        match host_cpu_count() {
            Ok(cores) => Self::get_soc_info_by_name_and_cores(table, &brand, cores),
            Err(_) => Soc::empty(),
        }
    }
}

} // verus!
