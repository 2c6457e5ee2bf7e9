//! The unified mod entity: one accessor contract over the two wire shapes in
//! which the feeds describe an installed game modification.

use vstd::prelude::*;

verus! {

/// An installed game modification, tagged by the feed that reported it.
///
/// The variant is selected by origin — by which feed produced the record —
/// never by inspecting field contents: with both shapes made of entirely
/// optional fields, shape sniffing would be ambiguous.
#[derive(Clone, Debug)]
pub enum Mod {
    /// Shape used by the JSON live-stats feed.
    DssFormat(DssMod),
    /// Shape used by the XML career-savegame feed.
    CsgFormat(CsgMod),
}

/// A mod record as the live-stats feed transmits it. Every field is
/// optional; an absent field stays absent, it is never replaced by an empty
/// string.
#[derive(Clone, Debug)]
pub struct DssMod {
    pub author: Option<String>,
    pub hash: Option<String>,
    /// Filename-like identifier, e.g. "FS25_precisionFarming".
    pub name: Option<String>,
    pub version: Option<String>,
    /// Friendly name, e.g. "Precision Farming".
    pub description: Option<String>,
}

/// A mod record as the career-savegame feed transmits it, carried entirely
/// as element attributes. Every field is optional; an absent field stays
/// absent, it is never replaced by an empty string.
#[derive(Clone, Debug)]
pub struct CsgMod {
    /// Filename-like identifier, e.g. "FS25_precisionFarming".
    pub mod_name: Option<String>,
    /// Friendly name, e.g. "Precision Farming".
    pub title: Option<String>,
    pub version: Option<String>,
    /// Wire-native flag text, kept as transmitted.
    pub required: Option<String>,
    pub file_hash: Option<String>,
}

/// The filename-like identifier a unified mod reports, whichever wire field
/// carried it.
pub open spec fn spec_name(m: Mod) -> Option<Seq<char>> {
    match m {
        Mod::DssFormat(d) => match d.name {
            Some(s) => Some(s@),
            None => None,
        },
        Mod::CsgFormat(c) => match c.mod_name {
            Some(s) => Some(s@),
            None => None,
        },
    }
}

/// The version a unified mod reports.
pub open spec fn spec_version(m: Mod) -> Option<Seq<char>> {
    match m {
        Mod::DssFormat(d) => match d.version {
            Some(s) => Some(s@),
            None => None,
        },
        Mod::CsgFormat(c) => match c.version {
            Some(s) => Some(s@),
            None => None,
        },
    }
}

/// The content hash a unified mod reports, whichever wire field carried it.
pub open spec fn spec_hash(m: Mod) -> Option<Seq<char>> {
    match m {
        Mod::DssFormat(d) => match d.hash {
            Some(s) => Some(s@),
            None => None,
        },
        Mod::CsgFormat(c) => match c.file_hash {
            Some(s) => Some(s@),
            None => None,
        },
    }
}

/// The human/friendly label a unified mod reports, whichever wire field
/// carried it.
pub open spec fn spec_description(m: Mod) -> Option<Seq<char>> {
    match m {
        Mod::DssFormat(d) => match d.description {
            Some(s) => Some(s@),
            None => None,
        },
        Mod::CsgFormat(c) => match c.title {
            Some(s) => Some(s@),
            None => None,
        },
    }
}

impl Mod {
    /// Retrieve the mod's name, that is its filename-like identifier,
    /// whichever feed reported it.
    pub fn name(&self) -> (r: Option<&str>)
        ensures
            r is Some <==> spec_name(*self) is Some,
            r matches Some(s) ==> spec_name(*self) == Some(s@),
    {
        match self {
            Mod::DssFormat(dss_mod) => match &dss_mod.name {
                Some(s) => Some(s.as_str()),
                None => None,
            },
            Mod::CsgFormat(csg_mod) => match &csg_mod.mod_name {
                Some(s) => Some(s.as_str()),
                None => None,
            },
        }
    }

    /// Retrieve the mod's version, whichever feed reported it.
    pub fn version(&self) -> (r: Option<&str>)
        ensures
            r is Some <==> spec_version(*self) is Some,
            r matches Some(s) ==> spec_version(*self) == Some(s@),
    {
        match self {
            Mod::DssFormat(dss_mod) => match &dss_mod.version {
                Some(s) => Some(s.as_str()),
                None => None,
            },
            Mod::CsgFormat(csg_mod) => match &csg_mod.version {
                Some(s) => Some(s.as_str()),
                None => None,
            },
        }
    }

    /// Retrieve the mod's content hash, whichever feed reported it.
    pub fn hash(&self) -> (r: Option<&str>)
        ensures
            r is Some <==> spec_hash(*self) is Some,
            r matches Some(s) ==> spec_hash(*self) == Some(s@),
    {
        match self {
            Mod::DssFormat(dss_mod) => match &dss_mod.hash {
                Some(s) => Some(s.as_str()),
                None => None,
            },
            Mod::CsgFormat(csg_mod) => match &csg_mod.file_hash {
                Some(s) => Some(s.as_str()),
                None => None,
            },
        }
    }

    /// Retrieve the mod's description, that is its human/friendly label,
    /// whichever feed reported it.
    pub fn description(&self) -> (r: Option<&str>)
        ensures
            r is Some <==> spec_description(*self) is Some,
            r matches Some(s) ==> spec_description(*self) == Some(s@),
    {
        match self {
            Mod::DssFormat(dss_mod) => match &dss_mod.description {
                Some(s) => Some(s.as_str()),
                None => None,
            },
            Mod::CsgFormat(csg_mod) => match &csg_mod.title {
                Some(s) => Some(s.as_str()),
                None => None,
            },
        }
    }
}

/// Law: accessor meaning does not depend on the originating feed. Whenever a
/// live-stats record and a career-savegame record carry the same data — the
/// identifier under `name` and `mod_name` respectively, the friendly label
/// under `description` and `title`, the hash under `hash` and `file_hash`,
/// the version under `version` in both — the two unified entities answer all
/// four accessors identically.
pub proof fn lemma_accessors_uniform(d: DssMod, c: CsgMod)
    requires
        d.name == c.mod_name,
        d.version == c.version,
        d.hash == c.file_hash,
        d.description == c.title,
    ensures
        spec_name(Mod::DssFormat(d)) == spec_name(Mod::CsgFormat(c)),
        spec_version(Mod::DssFormat(d)) == spec_version(Mod::CsgFormat(c)),
        spec_hash(Mod::DssFormat(d)) == spec_hash(Mod::CsgFormat(c)),
        spec_description(Mod::DssFormat(d)) == spec_description(Mod::CsgFormat(c)),
{
}

/// Bridges a sequence of live-stats mod records into unified entities,
/// preserving input order and cardinality exactly: no dedup, no reorder, no
/// filtering. Every output value carries the live-stats tag, whatever the
/// record's contents.
pub fn mods_from_stats(records: Vec<DssMod>) -> (r: Vec<Mod>)
    ensures
        r@.len() == records@.len(),
        forall|i: int| 0 <= i < r@.len() ==> r@[i] == Mod::DssFormat(records@[i]),
{
    let mut unified: Vec<Mod> = Vec::new();
    let mut remaining = records;
    let ghost all = remaining@;
    while remaining.len() > 0
        invariant
            unified@.len() + remaining@.len() == all.len(),
            remaining@ =~= all.subrange(unified@.len() as int, all.len() as int),
            forall|i: int| 0 <= i < unified@.len() ==> unified@[i] == Mod::DssFormat(all[i]),
        decreases remaining@.len(),
    {
        let record = remaining.remove(0);
        proof {
            assert(record == all[unified@.len() as int]);
        }
        unified.push(Mod::DssFormat(record));
        proof {
            assert(remaining@ =~= all.subrange(unified@.len() as int, all.len() as int));
        }
    }
    unified
}

/// Bridges a sequence of career-savegame mod records into unified entities,
/// preserving input order and cardinality exactly: no dedup, no reorder, no
/// filtering. Every output value carries the career-savegame tag, whatever
/// the record's contents.
pub fn mods_from_savegame(records: Vec<CsgMod>) -> (r: Vec<Mod>)
    ensures
        r@.len() == records@.len(),
        forall|i: int| 0 <= i < r@.len() ==> r@[i] == Mod::CsgFormat(records@[i]),
{
    let mut unified: Vec<Mod> = Vec::new();
    let mut remaining = records;
    let ghost all = remaining@;
    while remaining.len() > 0
        invariant
            unified@.len() + remaining@.len() == all.len(),
            remaining@ =~= all.subrange(unified@.len() as int, all.len() as int),
            forall|i: int| 0 <= i < unified@.len() ==> unified@[i] == Mod::CsgFormat(all[i]),
        decreases remaining@.len(),
    {
        let record = remaining.remove(0);
        proof {
            assert(record == all[unified@.len() as int]);
        }
        unified.push(Mod::CsgFormat(record));
        proof {
            assert(remaining@ =~= all.subrange(unified@.len() as int, all.len() as int));
        }
    }
    unified
}

} // verus!
