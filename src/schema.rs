//! Typed configuration records read from a decoded value tree: the overhaul
//! fission (solid-fuel reactor) configuration.
//!
//! Wire keys are camel case. Optional fields take their defaults when absent;
//! required ones fail with `MissingField`; keys that no record names are
//! ignored. The stats of a block or recipe sit inline among its own keys, each
//! kind of stats under its own key, and the stats inside a cell are read only
//! when its `hasBaseStats` is true. Numbers that the reactor model treats as
//! fractions are kept as the wire numbers that held them.
//!
//! Each record has a model and a spec function that reads the model from an
//! object's entries, failing with the first failing field's error.

use crate::fields::{
    bool_field,
    entries_field,
    entries_of,
    flag_field,
    get_bool,
    get_flag,
    get_int,
    get_int_or_zero,
    get_list,
    get_number,
    get_object,
    get_opt_bool,
    get_opt_int,
    get_opt_ints,
    get_opt_number,
    get_opt_object,
    get_string,
    get_strings,
    int_field,
    int_or_zero_field,
    kind,
    kind_of,
    list_field,
    lookup,
    mismatch,
    number_field,
    opt_bool_field,
    opt_entries_field,
    opt_int_field,
    opt_ints_field,
    opt_number_field,
    string_field,
    strings_field,
    strings_view,
    Entries,
    Kind,
    ProjectError,
    SpecProjectError,
};
use crate::texture::TextureInfo;
use crate::value::{entries_view, lemma_object_view, views, Number, SpecValue, Value};
use vstd::prelude::*;

verus! {

/// Wire key `k` of `es`.
pub open spec fn at(es: Entries, k: &str) -> Option<SpecValue> {
    lookup(es, k@)
}

/// The integers of an optional texture field.
pub open spec fn texture_view(t: Option<TextureInfo>) -> Option<Seq<i32>> {
    match t {
        Some(t) => Some(t.0@),
        None => None,
    }
}

fn texture_of(x: Option<Vec<i32>>) -> (r: Option<TextureInfo>)
    ensures
        texture_view(r) == match x {
            Some(v) => Some(v@),
            None => None::<Seq<i32>>,
        },
{
    match x {
        Some(v) => Some(TextureInfo(v)),
        None => None,
    }
}

/// Stats of a fuel cell.
#[derive(Clone, Debug)]
pub struct OverhaulFuelCell {
    pub efficiency: Number,
    pub heat: i32,
    pub criticality: i32,
    pub self_priming: bool,
}

/// The model of [`OverhaulFuelCell`].
pub struct SpecOverhaulFuelCell {
    pub efficiency: Number,
    pub heat: i32,
    pub criticality: i32,
    pub self_priming: bool,
}

impl View for OverhaulFuelCell {
    type V = SpecOverhaulFuelCell;

    open spec fn view(&self) -> SpecOverhaulFuelCell {
        SpecOverhaulFuelCell {
            efficiency: self.efficiency,
            heat: self.heat,
            criticality: self.criticality,
            self_priming: self.self_priming,
        }
    }
}

/// The record that the entries `es` hold, or the first failing field's error,
/// fields taken in declaration order.
#[verifier::opaque]
pub open spec fn project_fuel_cell(es: Entries) -> Result<SpecOverhaulFuelCell, SpecProjectError> {
match number_field(at(es, "efficiency"), "efficiency"@) {
 Err(e) => Err(e),
 Ok(efficiency) => match int_field(at(es, "heat"), "heat"@) {
 Err(e) => Err(e),
 Ok(heat) => match int_field(at(es, "criticality"), "criticality"@) {
 Err(e) => Err(e),
 Ok(criticality) => match flag_field(at(es, "selfPriming"), "selfPriming"@) {
 Err(e) => Err(e),
 Ok(self_priming) => Ok(SpecOverhaulFuelCell { efficiency, heat, criticality, self_priming }),
 },
 },
 },
 }
}

impl OverhaulFuelCell {
    /// Reads the record from an object's entries.
    pub fn from_entries(es: &Vec<(String, Value)>) -> (r: Result<Self, ProjectError>)
        ensures
            match r {
                Ok(x) => project_fuel_cell(entries_view(es@)) == Ok::<_, SpecProjectError>(x@),
                Err(e) => project_fuel_cell(entries_view(es@)) == Err::<SpecOverhaulFuelCell, _>(e@),
            },
    {
        proof {
            reveal(project_fuel_cell);
        }
        let efficiency = match get_number(es, "efficiency") {
            Ok(x) => x,
            Err(e) => return Err(e),
        };
        let heat = match get_int(es, "heat") {
            Ok(x) => x,
            Err(e) => return Err(e),
        };
        let criticality = match get_int(es, "criticality") {
            Ok(x) => x,
            Err(e) => return Err(e),
        };
        let self_priming = match get_flag(es, "selfPriming") {
            Ok(x) => x,
            Err(e) => return Err(e),
        };
        Ok(OverhaulFuelCell { efficiency, heat, criticality, self_priming })
    }
}

/// Stats of a reflector.
#[derive(Clone, Debug)]
pub struct OverhaulReflector {
    pub efficiency: Number,
    pub reflectivity: Number,
}

/// The model of [`OverhaulReflector`].
pub struct SpecOverhaulReflector {
    pub efficiency: Number,
    pub reflectivity: Number,
}

impl View for OverhaulReflector {
    type V = SpecOverhaulReflector;

    open spec fn view(&self) -> SpecOverhaulReflector {
        SpecOverhaulReflector {
            efficiency: self.efficiency,
            reflectivity: self.reflectivity,
        }
    }
}

/// The record that the entries `es` hold, or the first failing field's error,
/// fields taken in declaration order.
#[verifier::opaque]
pub open spec fn project_reflector(es: Entries) -> Result<SpecOverhaulReflector, SpecProjectError> {
match number_field(at(es, "efficiency"), "efficiency"@) {
 Err(e) => Err(e),
 Ok(efficiency) => match number_field(at(es, "reflectivity"), "reflectivity"@) {
 Err(e) => Err(e),
 Ok(reflectivity) => Ok(SpecOverhaulReflector { efficiency, reflectivity }),
 },
 }
}

impl OverhaulReflector {
    /// Reads the record from an object's entries.
    pub fn from_entries(es: &Vec<(String, Value)>) -> (r: Result<Self, ProjectError>)
        ensures
            match r {
                Ok(x) => project_reflector(entries_view(es@)) == Ok::<_, SpecProjectError>(x@),
                Err(e) => project_reflector(entries_view(es@)) == Err::<SpecOverhaulReflector, _>(e@),
            },
    {
        proof {
            reveal(project_reflector);
        }
        let efficiency = match get_number(es, "efficiency") {
            Ok(x) => x,
            Err(e) => return Err(e),
        };
        let reflectivity = match get_number(es, "reflectivity") {
            Ok(x) => x,
            Err(e) => return Err(e),
        };
        Ok(OverhaulReflector { efficiency, reflectivity })
    }
}

/// Stats of a moderator.
#[derive(Clone, Debug)]
pub struct OverhaulModerator {
    pub flux: i32,
    pub efficiency: Number,
    pub active: bool,
}

/// The model of [`OverhaulModerator`].
pub struct SpecOverhaulModerator {
    pub flux: i32,
    pub efficiency: Number,
    pub active: bool,
}

impl View for OverhaulModerator {
    type V = SpecOverhaulModerator;

    open spec fn view(&self) -> SpecOverhaulModerator {
        SpecOverhaulModerator {
            flux: self.flux,
            efficiency: self.efficiency,
            active: self.active,
        }
    }
}

/// The record that the entries `es` hold, or the first failing field's error,
/// fields taken in declaration order.
#[verifier::opaque]
pub open spec fn project_moderator(es: Entries) -> Result<SpecOverhaulModerator, SpecProjectError> {
match int_field(at(es, "flux"), "flux"@) {
 Err(e) => Err(e),
 Ok(flux) => match number_field(at(es, "efficiency"), "efficiency"@) {
 Err(e) => Err(e),
 Ok(efficiency) => match flag_field(at(es, "active"), "active"@) {
 Err(e) => Err(e),
 Ok(active) => Ok(SpecOverhaulModerator { flux, efficiency, active }),
 },
 },
 }
}

impl OverhaulModerator {
    /// Reads the record from an object's entries.
    pub fn from_entries(es: &Vec<(String, Value)>) -> (r: Result<Self, ProjectError>)
        ensures
            match r {
                Ok(x) => project_moderator(entries_view(es@)) == Ok::<_, SpecProjectError>(x@),
                Err(e) => project_moderator(entries_view(es@)) == Err::<SpecOverhaulModerator, _>(e@),
            },
    {
        proof {
            reveal(project_moderator);
        }
        let flux = match get_int(es, "flux") {
            Ok(x) => x,
            Err(e) => return Err(e),
        };
        let efficiency = match get_number(es, "efficiency") {
            Ok(x) => x,
            Err(e) => return Err(e),
        };
        let active = match get_flag(es, "active") {
            Ok(x) => x,
            Err(e) => return Err(e),
        };
        Ok(OverhaulModerator { flux, efficiency, active })
    }
}

/// Stats of a heat sink.
#[derive(Clone, Debug)]
pub struct OverhaulHeatSink {
    pub cooling: i32,
}

/// The model of [`OverhaulHeatSink`].
pub struct SpecOverhaulHeatSink {
    pub cooling: i32,
}

impl View for OverhaulHeatSink {
    type V = SpecOverhaulHeatSink;

    open spec fn view(&self) -> SpecOverhaulHeatSink {
        SpecOverhaulHeatSink {
            cooling: self.cooling,
        }
    }
}

/// The record that the entries `es` hold, or the first failing field's error,
/// fields taken in declaration order.
#[verifier::opaque]
pub open spec fn project_heat_sink(es: Entries) -> Result<SpecOverhaulHeatSink, SpecProjectError> {
match int_field(at(es, "cooling"), "cooling"@) {
 Err(e) => Err(e),
 Ok(cooling) => Ok(SpecOverhaulHeatSink { cooling }),
 }
}

impl OverhaulHeatSink {
    /// Reads the record from an object's entries.
    pub fn from_entries(es: &Vec<(String, Value)>) -> (r: Result<Self, ProjectError>)
        ensures
            match r {
                Ok(x) => project_heat_sink(entries_view(es@)) == Ok::<_, SpecProjectError>(x@),
                Err(e) => project_heat_sink(entries_view(es@)) == Err::<SpecOverhaulHeatSink, _>(e@),
            },
    {
        proof {
            reveal(project_heat_sink);
        }
        let cooling = match get_int(es, "cooling") {
            Ok(x) => x,
            Err(e) => return Err(e),
        };
        Ok(OverhaulHeatSink { cooling })
    }
}

/// Stats of a neutron source.
#[derive(Clone, Debug)]
pub struct OverhaulSource {
    pub cooling: Number,
}

/// The model of [`OverhaulSource`].
pub struct SpecOverhaulSource {
    pub cooling: Number,
}

impl View for OverhaulSource {
    type V = SpecOverhaulSource;

    open spec fn view(&self) -> SpecOverhaulSource {
        SpecOverhaulSource {
            cooling: self.cooling,
        }
    }
}

/// The record that the entries `es` hold, or the first failing field's error,
/// fields taken in declaration order.
#[verifier::opaque]
pub open spec fn project_source(es: Entries) -> Result<SpecOverhaulSource, SpecProjectError> {
match number_field(at(es, "cooling"), "cooling"@) {
 Err(e) => Err(e),
 Ok(cooling) => Ok(SpecOverhaulSource { cooling }),
 }
}

impl OverhaulSource {
    /// Reads the record from an object's entries.
    pub fn from_entries(es: &Vec<(String, Value)>) -> (r: Result<Self, ProjectError>)
        ensures
            match r {
                Ok(x) => project_source(entries_view(es@)) == Ok::<_, SpecProjectError>(x@),
                Err(e) => project_source(entries_view(es@)) == Err::<SpecOverhaulSource, _>(e@),
            },
    {
        proof {
            reveal(project_source);
        }
        let cooling = match get_number(es, "cooling") {
            Ok(x) => x,
            Err(e) => return Err(e),
        };
        Ok(OverhaulSource { cooling })
    }
}

/// Stats of a coolant vent.
#[derive(Clone, Debug)]
pub struct OverhaulCoolantVent {
    pub out_texture: Option<TextureInfo>,
    pub out_display_name: String,
}

/// The model of [`OverhaulCoolantVent`].
pub struct SpecOverhaulCoolantVent {
    pub out_texture: Option<Seq<i32>>,
    pub out_display_name: Seq<char>,
}

impl View for OverhaulCoolantVent {
    type V = SpecOverhaulCoolantVent;

    open spec fn view(&self) -> SpecOverhaulCoolantVent {
        SpecOverhaulCoolantVent {
            out_texture: texture_view(self.out_texture),
            out_display_name: self.out_display_name@,
        }
    }
}

/// The record that the entries `es` hold, or the first failing field's error,
/// fields taken in declaration order.
#[verifier::opaque]
pub open spec fn project_coolant_vent(es: Entries) -> Result<SpecOverhaulCoolantVent, SpecProjectError> {
match opt_ints_field(at(es, "outTexture"), "outTexture"@) {
 Err(e) => Err(e),
 Ok(out_texture) => match string_field(at(es, "outDisplayName"), "outDisplayName"@) {
 Err(e) => Err(e),
 Ok(out_display_name) => Ok(SpecOverhaulCoolantVent { out_texture, out_display_name }),
 },
 }
}

impl OverhaulCoolantVent {
    /// Reads the record from an object's entries.
    pub fn from_entries(es: &Vec<(String, Value)>) -> (r: Result<Self, ProjectError>)
        ensures
            match r {
                Ok(x) => project_coolant_vent(entries_view(es@)) == Ok::<_, SpecProjectError>(x@),
                Err(e) => project_coolant_vent(entries_view(es@)) == Err::<SpecOverhaulCoolantVent, _>(e@),
            },
    {
        proof {
            reveal(project_coolant_vent);
        }
        let out_texture = match get_opt_ints(es, "outTexture") {
            Ok(x) => texture_of(x),
            Err(e) => return Err(e),
        };
        let out_display_name = match get_string(es, "outDisplayName") {
            Ok(x) => x,
            Err(e) => return Err(e),
        };
        Ok(OverhaulCoolantVent { out_texture, out_display_name })
    }
}

/// A stats cell: whether the block has base stats, and those stats, read only
/// when it has them.
#[derive(Clone, Debug)]
pub struct StatsCell<T> {
    pub has_base_stats: Option<bool>,
    pub stats: Option<T>,
}

/// The model of a [`StatsCell`].
pub struct SpecStatsCell<V> {
    pub has_base_stats: Option<bool>,
    pub stats: Option<V>,
}

impl<T: View> View for StatsCell<T> {
    type V = SpecStatsCell<T::V>;

    open spec fn view(&self) -> SpecStatsCell<T::V> {
        SpecStatsCell {
            has_base_stats: self.has_base_stats,
            stats: match self.stats {
                Some(s) => Some(s@),
                None => None,
            },
        }
    }
}

/// The cell of OverhaulFuelCell stats that the entries `es` hold, or the first error: the
/// stats are read only where `hasBaseStats` is true.
#[verifier::opaque]
pub open spec fn fuel_cell_stats_of(es: Entries) -> Result<SpecStatsCell<SpecOverhaulFuelCell>, SpecProjectError> {
    match opt_bool_field(at(es, "hasBaseStats"), "hasBaseStats"@) {
        Err(e) => Err(e),
        Ok(h) => if h == Some(true) {
            match project_fuel_cell(es) {
                Err(e) => Err(e),
                Ok(s) => Ok(SpecStatsCell { has_base_stats: h, stats: Some(s) }),
            }
        } else {
            Ok(SpecStatsCell { has_base_stats: h, stats: None })
        },
    }
}

/// Reads a cell of OverhaulFuelCell stats from an object's entries.
pub fn fuel_cell_stats(es: &Vec<(String, Value)>) -> (r: Result<StatsCell<OverhaulFuelCell>, ProjectError>)
    ensures
        match r {
            Ok(c) => fuel_cell_stats_of(entries_view(es@)) == Ok::<_, SpecProjectError>(c@),
            Err(e) => fuel_cell_stats_of(entries_view(es@)) == Err::<SpecStatsCell<SpecOverhaulFuelCell>, _>(e@),
        },
{
    proof {
        reveal(fuel_cell_stats_of);
    }
    let has_base_stats = match get_opt_bool(es, "hasBaseStats") {
        Ok(x) => x,
        Err(e) => return Err(e),
    };
    let stats = if has_base_stats == Some(true) {
        match OverhaulFuelCell::from_entries(es) {
            Ok(x) => Some(x),
            Err(e) => return Err(e),
        }
    } else {
        None
    };
    Ok(StatsCell { has_base_stats, stats })
}

/// The cell of OverhaulReflector stats that the entries `es` hold, or the first error: the
/// stats are read only where `hasBaseStats` is true.
#[verifier::opaque]
pub open spec fn reflector_stats_of(es: Entries) -> Result<SpecStatsCell<SpecOverhaulReflector>, SpecProjectError> {
    match opt_bool_field(at(es, "hasBaseStats"), "hasBaseStats"@) {
        Err(e) => Err(e),
        Ok(h) => if h == Some(true) {
            match project_reflector(es) {
                Err(e) => Err(e),
                Ok(s) => Ok(SpecStatsCell { has_base_stats: h, stats: Some(s) }),
            }
        } else {
            Ok(SpecStatsCell { has_base_stats: h, stats: None })
        },
    }
}

/// Reads a cell of OverhaulReflector stats from an object's entries.
pub fn reflector_stats(es: &Vec<(String, Value)>) -> (r: Result<StatsCell<OverhaulReflector>, ProjectError>)
    ensures
        match r {
            Ok(c) => reflector_stats_of(entries_view(es@)) == Ok::<_, SpecProjectError>(c@),
            Err(e) => reflector_stats_of(entries_view(es@)) == Err::<SpecStatsCell<SpecOverhaulReflector>, _>(e@),
        },
{
    proof {
        reveal(reflector_stats_of);
    }
    let has_base_stats = match get_opt_bool(es, "hasBaseStats") {
        Ok(x) => x,
        Err(e) => return Err(e),
    };
    let stats = if has_base_stats == Some(true) {
        match OverhaulReflector::from_entries(es) {
            Ok(x) => Some(x),
            Err(e) => return Err(e),
        }
    } else {
        None
    };
    Ok(StatsCell { has_base_stats, stats })
}

/// The cell of OverhaulModerator stats that the entries `es` hold, or the first error: the
/// stats are read only where `hasBaseStats` is true.
#[verifier::opaque]
pub open spec fn moderator_stats_of(es: Entries) -> Result<SpecStatsCell<SpecOverhaulModerator>, SpecProjectError> {
    match opt_bool_field(at(es, "hasBaseStats"), "hasBaseStats"@) {
        Err(e) => Err(e),
        Ok(h) => if h == Some(true) {
            match project_moderator(es) {
                Err(e) => Err(e),
                Ok(s) => Ok(SpecStatsCell { has_base_stats: h, stats: Some(s) }),
            }
        } else {
            Ok(SpecStatsCell { has_base_stats: h, stats: None })
        },
    }
}

/// Reads a cell of OverhaulModerator stats from an object's entries.
pub fn moderator_stats(es: &Vec<(String, Value)>) -> (r: Result<StatsCell<OverhaulModerator>, ProjectError>)
    ensures
        match r {
            Ok(c) => moderator_stats_of(entries_view(es@)) == Ok::<_, SpecProjectError>(c@),
            Err(e) => moderator_stats_of(entries_view(es@)) == Err::<SpecStatsCell<SpecOverhaulModerator>, _>(e@),
        },
{
    proof {
        reveal(moderator_stats_of);
    }
    let has_base_stats = match get_opt_bool(es, "hasBaseStats") {
        Ok(x) => x,
        Err(e) => return Err(e),
    };
    let stats = if has_base_stats == Some(true) {
        match OverhaulModerator::from_entries(es) {
            Ok(x) => Some(x),
            Err(e) => return Err(e),
        }
    } else {
        None
    };
    Ok(StatsCell { has_base_stats, stats })
}

/// The cell of OverhaulHeatSink stats that the entries `es` hold, or the first error: the
/// stats are read only where `hasBaseStats` is true.
#[verifier::opaque]
pub open spec fn heat_sink_stats_of(es: Entries) -> Result<SpecStatsCell<SpecOverhaulHeatSink>, SpecProjectError> {
    match opt_bool_field(at(es, "hasBaseStats"), "hasBaseStats"@) {
        Err(e) => Err(e),
        Ok(h) => if h == Some(true) {
            match project_heat_sink(es) {
                Err(e) => Err(e),
                Ok(s) => Ok(SpecStatsCell { has_base_stats: h, stats: Some(s) }),
            }
        } else {
            Ok(SpecStatsCell { has_base_stats: h, stats: None })
        },
    }
}

/// Reads a cell of OverhaulHeatSink stats from an object's entries.
pub fn heat_sink_stats(es: &Vec<(String, Value)>) -> (r: Result<StatsCell<OverhaulHeatSink>, ProjectError>)
    ensures
        match r {
            Ok(c) => heat_sink_stats_of(entries_view(es@)) == Ok::<_, SpecProjectError>(c@),
            Err(e) => heat_sink_stats_of(entries_view(es@)) == Err::<SpecStatsCell<SpecOverhaulHeatSink>, _>(e@),
        },
{
    proof {
        reveal(heat_sink_stats_of);
    }
    let has_base_stats = match get_opt_bool(es, "hasBaseStats") {
        Ok(x) => x,
        Err(e) => return Err(e),
    };
    let stats = if has_base_stats == Some(true) {
        match OverhaulHeatSink::from_entries(es) {
            Ok(x) => Some(x),
            Err(e) => return Err(e),
        }
    } else {
        None
    };
    Ok(StatsCell { has_base_stats, stats })
}

/// The cell of OverhaulSource stats that the entries `es` hold, or the first error: the
/// stats are read only where `hasBaseStats` is true.
#[verifier::opaque]
pub open spec fn source_stats_of(es: Entries) -> Result<SpecStatsCell<SpecOverhaulSource>, SpecProjectError> {
    match opt_bool_field(at(es, "hasBaseStats"), "hasBaseStats"@) {
        Err(e) => Err(e),
        Ok(h) => if h == Some(true) {
            match project_source(es) {
                Err(e) => Err(e),
                Ok(s) => Ok(SpecStatsCell { has_base_stats: h, stats: Some(s) }),
            }
        } else {
            Ok(SpecStatsCell { has_base_stats: h, stats: None })
        },
    }
}

/// Reads a cell of OverhaulSource stats from an object's entries.
pub fn source_stats(es: &Vec<(String, Value)>) -> (r: Result<StatsCell<OverhaulSource>, ProjectError>)
    ensures
        match r {
            Ok(c) => source_stats_of(entries_view(es@)) == Ok::<_, SpecProjectError>(c@),
            Err(e) => source_stats_of(entries_view(es@)) == Err::<SpecStatsCell<SpecOverhaulSource>, _>(e@),
        },
{
    proof {
        reveal(source_stats_of);
    }
    let has_base_stats = match get_opt_bool(es, "hasBaseStats") {
        Ok(x) => x,
        Err(e) => return Err(e),
    };
    let stats = if has_base_stats == Some(true) {
        match OverhaulSource::from_entries(es) {
            Ok(x) => Some(x),
            Err(e) => return Err(e),
        }
    } else {
        None
    };
    Ok(StatsCell { has_base_stats, stats })
}

/// The stats that a block or recipe may carry, each kind under its own key.
#[derive(Clone, Debug)]
pub struct OverhaulStats {
    pub coolant_vent: Option<OverhaulCoolantVent>,
    pub fuel_cell: Option<StatsCell<OverhaulFuelCell>>,
    pub reflector: Option<StatsCell<OverhaulReflector>>,
    pub moderator: Option<StatsCell<OverhaulModerator>>,
    pub heat_sink: Option<StatsCell<OverhaulHeatSink>>,
    pub source: Option<StatsCell<OverhaulSource>>,
}

/// The model of [`OverhaulStats`].
pub struct SpecOverhaulStats {
    pub coolant_vent: Option<SpecOverhaulCoolantVent>,
    pub fuel_cell: Option<SpecStatsCell<SpecOverhaulFuelCell>>,
    pub reflector: Option<SpecStatsCell<SpecOverhaulReflector>>,
    pub moderator: Option<SpecStatsCell<SpecOverhaulModerator>>,
    pub heat_sink: Option<SpecStatsCell<SpecOverhaulHeatSink>>,
    pub source: Option<SpecStatsCell<SpecOverhaulSource>>,
}

impl View for OverhaulStats {
    type V = SpecOverhaulStats;

    open spec fn view(&self) -> SpecOverhaulStats {
        SpecOverhaulStats {
            coolant_vent: match self.coolant_vent { Some(y) => Some(y@), None => None },
            fuel_cell: match self.fuel_cell { Some(y) => Some(y@), None => None },
            reflector: match self.reflector { Some(y) => Some(y@), None => None },
            moderator: match self.moderator { Some(y) => Some(y@), None => None },
            heat_sink: match self.heat_sink { Some(y) => Some(y@), None => None },
            source: match self.source { Some(y) => Some(y@), None => None },
        }
    }
}

/// The record that the entries `es` hold, or the first failing field's error,
/// fields taken in declaration order.
#[verifier::opaque]
pub open spec fn project_stats(es: Entries) -> Result<SpecOverhaulStats, SpecProjectError> {
match opt_entries_field(at(es, "coolantVent"), "coolantVent"@) {
 Err(e) => Err(e),
 Ok(None) => {
 let coolant_vent = None::<SpecOverhaulCoolantVent>;
 match opt_entries_field(at(es, "fuelCell"), "fuelCell"@) {
 Err(e) => Err(e),
 Ok(None) => {
 let fuel_cell = None::<SpecStatsCell<SpecOverhaulFuelCell>>;
 match opt_entries_field(at(es, "reflector"), "reflector"@) {
 Err(e) => Err(e),
 Ok(None) => {
 let reflector = None::<SpecStatsCell<SpecOverhaulReflector>>;
 match opt_entries_field(at(es, "moderator"), "moderator"@) {
 Err(e) => Err(e),
 Ok(None) => {
 let moderator = None::<SpecStatsCell<SpecOverhaulModerator>>;
 match opt_entries_field(at(es, "heatsink"), "heatsink"@) {
 Err(e) => Err(e),
 Ok(None) => {
 let heat_sink = None::<SpecStatsCell<SpecOverhaulHeatSink>>;
 match opt_entries_field(at(es, "source"), "source"@) {
 Err(e) => Err(e),
 Ok(None) => {
 let source = None::<SpecStatsCell<SpecOverhaulSource>>;
 Ok(SpecOverhaulStats { coolant_vent, fuel_cell, reflector, moderator, heat_sink, source })
 },
 Ok(Some(source_es)) => match source_stats_of(source_es) {
 Err(e) => Err(e),
 Ok(source_v) => {
 let source = Some(source_v);
 Ok(SpecOverhaulStats { coolant_vent, fuel_cell, reflector, moderator, heat_sink, source })
 },
 },
 }
 },
 Ok(Some(heat_sink_es)) => match heat_sink_stats_of(heat_sink_es) {
 Err(e) => Err(e),
 Ok(heat_sink_v) => {
 let heat_sink = Some(heat_sink_v);
 match opt_entries_field(at(es, "source"), "source"@) {
 Err(e) => Err(e),
 Ok(None) => {
 let source = None::<SpecStatsCell<SpecOverhaulSource>>;
 Ok(SpecOverhaulStats { coolant_vent, fuel_cell, reflector, moderator, heat_sink, source })
 },
 Ok(Some(source_es)) => match source_stats_of(source_es) {
 Err(e) => Err(e),
 Ok(source_v) => {
 let source = Some(source_v);
 Ok(SpecOverhaulStats { coolant_vent, fuel_cell, reflector, moderator, heat_sink, source })
 },
 },
 }
 },
 },
 }
 },
 Ok(Some(moderator_es)) => match moderator_stats_of(moderator_es) {
 Err(e) => Err(e),
 Ok(moderator_v) => {
 let moderator = Some(moderator_v);
 match opt_entries_field(at(es, "heatsink"), "heatsink"@) {
 Err(e) => Err(e),
 Ok(None) => {
 let heat_sink = None::<SpecStatsCell<SpecOverhaulHeatSink>>;
 match opt_entries_field(at(es, "source"), "source"@) {
 Err(e) => Err(e),
 Ok(None) => {
 let source = None::<SpecStatsCell<SpecOverhaulSource>>;
 Ok(SpecOverhaulStats { coolant_vent, fuel_cell, reflector, moderator, heat_sink, source })
 },
 Ok(Some(source_es)) => match source_stats_of(source_es) {
 Err(e) => Err(e),
 Ok(source_v) => {
 let source = Some(source_v);
 Ok(SpecOverhaulStats { coolant_vent, fuel_cell, reflector, moderator, heat_sink, source })
 },
 },
 }
 },
 Ok(Some(heat_sink_es)) => match heat_sink_stats_of(heat_sink_es) {
 Err(e) => Err(e),
 Ok(heat_sink_v) => {
 let heat_sink = Some(heat_sink_v);
 match opt_entries_field(at(es, "source"), "source"@) {
 Err(e) => Err(e),
 Ok(None) => {
 let source = None::<SpecStatsCell<SpecOverhaulSource>>;
 Ok(SpecOverhaulStats { coolant_vent, fuel_cell, reflector, moderator, heat_sink, source })
 },
 Ok(Some(source_es)) => match source_stats_of(source_es) {
 Err(e) => Err(e),
 Ok(source_v) => {
 let source = Some(source_v);
 Ok(SpecOverhaulStats { coolant_vent, fuel_cell, reflector, moderator, heat_sink, source })
 },
 },
 }
 },
 },
 }
 },
 },
 }
 },
 Ok(Some(reflector_es)) => match reflector_stats_of(reflector_es) {
 Err(e) => Err(e),
 Ok(reflector_v) => {
 let reflector = Some(reflector_v);
 match opt_entries_field(at(es, "moderator"), "moderator"@) {
 Err(e) => Err(e),
 Ok(None) => {
 let moderator = None::<SpecStatsCell<SpecOverhaulModerator>>;
 match opt_entries_field(at(es, "heatsink"), "heatsink"@) {
 Err(e) => Err(e),
 Ok(None) => {
 let heat_sink = None::<SpecStatsCell<SpecOverhaulHeatSink>>;
 match opt_entries_field(at(es, "source"), "source"@) {
 Err(e) => Err(e),
 Ok(None) => {
 let source = None::<SpecStatsCell<SpecOverhaulSource>>;
 Ok(SpecOverhaulStats { coolant_vent, fuel_cell, reflector, moderator, heat_sink, source })
 },
 Ok(Some(source_es)) => match source_stats_of(source_es) {
 Err(e) => Err(e),
 Ok(source_v) => {
 let source = Some(source_v);
 Ok(SpecOverhaulStats { coolant_vent, fuel_cell, reflector, moderator, heat_sink, source })
 },
 },
 }
 },
 Ok(Some(heat_sink_es)) => match heat_sink_stats_of(heat_sink_es) {
 Err(e) => Err(e),
 Ok(heat_sink_v) => {
 let heat_sink = Some(heat_sink_v);
 match opt_entries_field(at(es, "source"), "source"@) {
 Err(e) => Err(e),
 Ok(None) => {
 let source = None::<SpecStatsCell<SpecOverhaulSource>>;
 Ok(SpecOverhaulStats { coolant_vent, fuel_cell, reflector, moderator, heat_sink, source })
 },
 Ok(Some(source_es)) => match source_stats_of(source_es) {
 Err(e) => Err(e),
 Ok(source_v) => {
 let source = Some(source_v);
 Ok(SpecOverhaulStats { coolant_vent, fuel_cell, reflector, moderator, heat_sink, source })
 },
 },
 }
 },
 },
 }
 },
 Ok(Some(moderator_es)) => match moderator_stats_of(moderator_es) {
 Err(e) => Err(e),
 Ok(moderator_v) => {
 let moderator = Some(moderator_v);
 match opt_entries_field(at(es, "heatsink"), "heatsink"@) {
 Err(e) => Err(e),
 Ok(None) => {
 let heat_sink = None::<SpecStatsCell<SpecOverhaulHeatSink>>;
 match opt_entries_field(at(es, "source"), "source"@) {
 Err(e) => Err(e),
 Ok(None) => {
 let source = None::<SpecStatsCell<SpecOverhaulSource>>;
 Ok(SpecOverhaulStats { coolant_vent, fuel_cell, reflector, moderator, heat_sink, source })
 },
 Ok(Some(source_es)) => match source_stats_of(source_es) {
 Err(e) => Err(e),
 Ok(source_v) => {
 let source = Some(source_v);
 Ok(SpecOverhaulStats { coolant_vent, fuel_cell, reflector, moderator, heat_sink, source })
 },
 },
 }
 },
 Ok(Some(heat_sink_es)) => match heat_sink_stats_of(heat_sink_es) {
 Err(e) => Err(e),
 Ok(heat_sink_v) => {
 let heat_sink = Some(heat_sink_v);
 match opt_entries_field(at(es, "source"), "source"@) {
 Err(e) => Err(e),
 Ok(None) => {
 let source = None::<SpecStatsCell<SpecOverhaulSource>>;
 Ok(SpecOverhaulStats { coolant_vent, fuel_cell, reflector, moderator, heat_sink, source })
 },
 Ok(Some(source_es)) => match source_stats_of(source_es) {
 Err(e) => Err(e),
 Ok(source_v) => {
 let source = Some(source_v);
 Ok(SpecOverhaulStats { coolant_vent, fuel_cell, reflector, moderator, heat_sink, source })
 },
 },
 }
 },
 },
 }
 },
 },
 }
 },
 },
 }
 },
 Ok(Some(fuel_cell_es)) => match fuel_cell_stats_of(fuel_cell_es) {
 Err(e) => Err(e),
 Ok(fuel_cell_v) => {
 let fuel_cell = Some(fuel_cell_v);
 match opt_entries_field(at(es, "reflector"), "reflector"@) {
 Err(e) => Err(e),
 Ok(None) => {
 let reflector = None::<SpecStatsCell<SpecOverhaulReflector>>;
 match opt_entries_field(at(es, "moderator"), "moderator"@) {
 Err(e) => Err(e),
 Ok(None) => {
 let moderator = None::<SpecStatsCell<SpecOverhaulModerator>>;
 match opt_entries_field(at(es, "heatsink"), "heatsink"@) {
 Err(e) => Err(e),
 Ok(None) => {
 let heat_sink = None::<SpecStatsCell<SpecOverhaulHeatSink>>;
 match opt_entries_field(at(es, "source"), "source"@) {
 Err(e) => Err(e),
 Ok(None) => {
 let source = None::<SpecStatsCell<SpecOverhaulSource>>;
 Ok(SpecOverhaulStats { coolant_vent, fuel_cell, reflector, moderator, heat_sink, source })
 },
 Ok(Some(source_es)) => match source_stats_of(source_es) {
 Err(e) => Err(e),
 Ok(source_v) => {
 let source = Some(source_v);
 Ok(SpecOverhaulStats { coolant_vent, fuel_cell, reflector, moderator, heat_sink, source })
 },
 },
 }
 },
 Ok(Some(heat_sink_es)) => match heat_sink_stats_of(heat_sink_es) {
 Err(e) => Err(e),
 Ok(heat_sink_v) => {
 let heat_sink = Some(heat_sink_v);
 match opt_entries_field(at(es, "source"), "source"@) {
 Err(e) => Err(e),
 Ok(None) => {
 let source = None::<SpecStatsCell<SpecOverhaulSource>>;
 Ok(SpecOverhaulStats { coolant_vent, fuel_cell, reflector, moderator, heat_sink, source })
 },
 Ok(Some(source_es)) => match source_stats_of(source_es) {
 Err(e) => Err(e),
 Ok(source_v) => {
 let source = Some(source_v);
 Ok(SpecOverhaulStats { coolant_vent, fuel_cell, reflector, moderator, heat_sink, source })
 },
 },
 }
 },
 },
 }
 },
 Ok(Some(moderator_es)) => match moderator_stats_of(moderator_es) {
 Err(e) => Err(e),
 Ok(moderator_v) => {
 let moderator = Some(moderator_v);
 match opt_entries_field(at(es, "heatsink"), "heatsink"@) {
 Err(e) => Err(e),
 Ok(None) => {
 let heat_sink = None::<SpecStatsCell<SpecOverhaulHeatSink>>;
 match opt_entries_field(at(es, "source"), "source"@) {
 Err(e) => Err(e),
 Ok(None) => {
 let source = None::<SpecStatsCell<SpecOverhaulSource>>;
 Ok(SpecOverhaulStats { coolant_vent, fuel_cell, reflector, moderator, heat_sink, source })
 },
 Ok(Some(source_es)) => match source_stats_of(source_es) {
 Err(e) => Err(e),
 Ok(source_v) => {
 let source = Some(source_v);
 Ok(SpecOverhaulStats { coolant_vent, fuel_cell, reflector, moderator, heat_sink, source })
 },
 },
 }
 },
 Ok(Some(heat_sink_es)) => match heat_sink_stats_of(heat_sink_es) {
 Err(e) => Err(e),
 Ok(heat_sink_v) => {
 let heat_sink = Some(heat_sink_v);
 match opt_entries_field(at(es, "source"), "source"@) {
 Err(e) => Err(e),
 Ok(None) => {
 let source = None::<SpecStatsCell<SpecOverhaulSource>>;
 Ok(SpecOverhaulStats { coolant_vent, fuel_cell, reflector, moderator, heat_sink, source })
 },
 Ok(Some(source_es)) => match source_stats_of(source_es) {
 Err(e) => Err(e),
 Ok(source_v) => {
 let source = Some(source_v);
 Ok(SpecOverhaulStats { coolant_vent, fuel_cell, reflector, moderator, heat_sink, source })
 },
 },
 }
 },
 },
 }
 },
 },
 }
 },
 Ok(Some(reflector_es)) => match reflector_stats_of(reflector_es) {
 Err(e) => Err(e),
 Ok(reflector_v) => {
 let reflector = Some(reflector_v);
 match opt_entries_field(at(es, "moderator"), "moderator"@) {
 Err(e) => Err(e),
 Ok(None) => {
 let moderator = None::<SpecStatsCell<SpecOverhaulModerator>>;
 match opt_entries_field(at(es, "heatsink"), "heatsink"@) {
 Err(e) => Err(e),
 Ok(None) => {
 let heat_sink = None::<SpecStatsCell<SpecOverhaulHeatSink>>;
 match opt_entries_field(at(es, "source"), "source"@) {
 Err(e) => Err(e),
 Ok(None) => {
 let source = None::<SpecStatsCell<SpecOverhaulSource>>;
 Ok(SpecOverhaulStats { coolant_vent, fuel_cell, reflector, moderator, heat_sink, source })
 },
 Ok(Some(source_es)) => match source_stats_of(source_es) {
 Err(e) => Err(e),
 Ok(source_v) => {
 let source = Some(source_v);
 Ok(SpecOverhaulStats { coolant_vent, fuel_cell, reflector, moderator, heat_sink, source })
 },
 },
 }
 },
 Ok(Some(heat_sink_es)) => match heat_sink_stats_of(heat_sink_es) {
 Err(e) => Err(e),
 Ok(heat_sink_v) => {
 let heat_sink = Some(heat_sink_v);
 match opt_entries_field(at(es, "source"), "source"@) {
 Err(e) => Err(e),
 Ok(None) => {
 let source = None::<SpecStatsCell<SpecOverhaulSource>>;
 Ok(SpecOverhaulStats { coolant_vent, fuel_cell, reflector, moderator, heat_sink, source })
 },
 Ok(Some(source_es)) => match source_stats_of(source_es) {
 Err(e) => Err(e),
 Ok(source_v) => {
 let source = Some(source_v);
 Ok(SpecOverhaulStats { coolant_vent, fuel_cell, reflector, moderator, heat_sink, source })
 },
 },
 }
 },
 },
 }
 },
 Ok(Some(moderator_es)) => match moderator_stats_of(moderator_es) {
 Err(e) => Err(e),
 Ok(moderator_v) => {
 let moderator = Some(moderator_v);
 match opt_entries_field(at(es, "heatsink"), "heatsink"@) {
 Err(e) => Err(e),
 Ok(None) => {
 let heat_sink = None::<SpecStatsCell<SpecOverhaulHeatSink>>;
 match opt_entries_field(at(es, "source"), "source"@) {
 Err(e) => Err(e),
 Ok(None) => {
 let source = None::<SpecStatsCell<SpecOverhaulSource>>;
 Ok(SpecOverhaulStats { coolant_vent, fuel_cell, reflector, moderator, heat_sink, source })
 },
 Ok(Some(source_es)) => match source_stats_of(source_es) {
 Err(e) => Err(e),
 Ok(source_v) => {
 let source = Some(source_v);
 Ok(SpecOverhaulStats { coolant_vent, fuel_cell, reflector, moderator, heat_sink, source })
 },
 },
 }
 },
 Ok(Some(heat_sink_es)) => match heat_sink_stats_of(heat_sink_es) {
 Err(e) => Err(e),
 Ok(heat_sink_v) => {
 let heat_sink = Some(heat_sink_v);
 match opt_entries_field(at(es, "source"), "source"@) {
 Err(e) => Err(e),
 Ok(None) => {
 let source = None::<SpecStatsCell<SpecOverhaulSource>>;
 Ok(SpecOverhaulStats { coolant_vent, fuel_cell, reflector, moderator, heat_sink, source })
 },
 Ok(Some(source_es)) => match source_stats_of(source_es) {
 Err(e) => Err(e),
 Ok(source_v) => {
 let source = Some(source_v);
 Ok(SpecOverhaulStats { coolant_vent, fuel_cell, reflector, moderator, heat_sink, source })
 },
 },
 }
 },
 },
 }
 },
 },
 }
 },
 },
 }
 },
 },
 }
 },
 Ok(Some(coolant_vent_es)) => match project_coolant_vent(coolant_vent_es) {
 Err(e) => Err(e),
 Ok(coolant_vent_v) => {
 let coolant_vent = Some(coolant_vent_v);
 match opt_entries_field(at(es, "fuelCell"), "fuelCell"@) {
 Err(e) => Err(e),
 Ok(None) => {
 let fuel_cell = None::<SpecStatsCell<SpecOverhaulFuelCell>>;
 match opt_entries_field(at(es, "reflector"), "reflector"@) {
 Err(e) => Err(e),
 Ok(None) => {
 let reflector = None::<SpecStatsCell<SpecOverhaulReflector>>;
 match opt_entries_field(at(es, "moderator"), "moderator"@) {
 Err(e) => Err(e),
 Ok(None) => {
 let moderator = None::<SpecStatsCell<SpecOverhaulModerator>>;
 match opt_entries_field(at(es, "heatsink"), "heatsink"@) {
 Err(e) => Err(e),
 Ok(None) => {
 let heat_sink = None::<SpecStatsCell<SpecOverhaulHeatSink>>;
 match opt_entries_field(at(es, "source"), "source"@) {
 Err(e) => Err(e),
 Ok(None) => {
 let source = None::<SpecStatsCell<SpecOverhaulSource>>;
 Ok(SpecOverhaulStats { coolant_vent, fuel_cell, reflector, moderator, heat_sink, source })
 },
 Ok(Some(source_es)) => match source_stats_of(source_es) {
 Err(e) => Err(e),
 Ok(source_v) => {
 let source = Some(source_v);
 Ok(SpecOverhaulStats { coolant_vent, fuel_cell, reflector, moderator, heat_sink, source })
 },
 },
 }
 },
 Ok(Some(heat_sink_es)) => match heat_sink_stats_of(heat_sink_es) {
 Err(e) => Err(e),
 Ok(heat_sink_v) => {
 let heat_sink = Some(heat_sink_v);
 match opt_entries_field(at(es, "source"), "source"@) {
 Err(e) => Err(e),
 Ok(None) => {
 let source = None::<SpecStatsCell<SpecOverhaulSource>>;
 Ok(SpecOverhaulStats { coolant_vent, fuel_cell, reflector, moderator, heat_sink, source })
 },
 Ok(Some(source_es)) => match source_stats_of(source_es) {
 Err(e) => Err(e),
 Ok(source_v) => {
 let source = Some(source_v);
 Ok(SpecOverhaulStats { coolant_vent, fuel_cell, reflector, moderator, heat_sink, source })
 },
 },
 }
 },
 },
 }
 },
 Ok(Some(moderator_es)) => match moderator_stats_of(moderator_es) {
 Err(e) => Err(e),
 Ok(moderator_v) => {
 let moderator = Some(moderator_v);
 match opt_entries_field(at(es, "heatsink"), "heatsink"@) {
 Err(e) => Err(e),
 Ok(None) => {
 let heat_sink = None::<SpecStatsCell<SpecOverhaulHeatSink>>;
 match opt_entries_field(at(es, "source"), "source"@) {
 Err(e) => Err(e),
 Ok(None) => {
 let source = None::<SpecStatsCell<SpecOverhaulSource>>;
 Ok(SpecOverhaulStats { coolant_vent, fuel_cell, reflector, moderator, heat_sink, source })
 },
 Ok(Some(source_es)) => match source_stats_of(source_es) {
 Err(e) => Err(e),
 Ok(source_v) => {
 let source = Some(source_v);
 Ok(SpecOverhaulStats { coolant_vent, fuel_cell, reflector, moderator, heat_sink, source })
 },
 },
 }
 },
 Ok(Some(heat_sink_es)) => match heat_sink_stats_of(heat_sink_es) {
 Err(e) => Err(e),
 Ok(heat_sink_v) => {
 let heat_sink = Some(heat_sink_v);
 match opt_entries_field(at(es, "source"), "source"@) {
 Err(e) => Err(e),
 Ok(None) => {
 let source = None::<SpecStatsCell<SpecOverhaulSource>>;
 Ok(SpecOverhaulStats { coolant_vent, fuel_cell, reflector, moderator, heat_sink, source })
 },
 Ok(Some(source_es)) => match source_stats_of(source_es) {
 Err(e) => Err(e),
 Ok(source_v) => {
 let source = Some(source_v);
 Ok(SpecOverhaulStats { coolant_vent, fuel_cell, reflector, moderator, heat_sink, source })
 },
 },
 }
 },
 },
 }
 },
 },
 }
 },
 Ok(Some(reflector_es)) => match reflector_stats_of(reflector_es) {
 Err(e) => Err(e),
 Ok(reflector_v) => {
 let reflector = Some(reflector_v);
 match opt_entries_field(at(es, "moderator"), "moderator"@) {
 Err(e) => Err(e),
 Ok(None) => {
 let moderator = None::<SpecStatsCell<SpecOverhaulModerator>>;
 match opt_entries_field(at(es, "heatsink"), "heatsink"@) {
 Err(e) => Err(e),
 Ok(None) => {
 let heat_sink = None::<SpecStatsCell<SpecOverhaulHeatSink>>;
 match opt_entries_field(at(es, "source"), "source"@) {
 Err(e) => Err(e),
 Ok(None) => {
 let source = None::<SpecStatsCell<SpecOverhaulSource>>;
 Ok(SpecOverhaulStats { coolant_vent, fuel_cell, reflector, moderator, heat_sink, source })
 },
 Ok(Some(source_es)) => match source_stats_of(source_es) {
 Err(e) => Err(e),
 Ok(source_v) => {
 let source = Some(source_v);
 Ok(SpecOverhaulStats { coolant_vent, fuel_cell, reflector, moderator, heat_sink, source })
 },
 },
 }
 },
 Ok(Some(heat_sink_es)) => match heat_sink_stats_of(heat_sink_es) {
 Err(e) => Err(e),
 Ok(heat_sink_v) => {
 let heat_sink = Some(heat_sink_v);
 match opt_entries_field(at(es, "source"), "source"@) {
 Err(e) => Err(e),
 Ok(None) => {
 let source = None::<SpecStatsCell<SpecOverhaulSource>>;
 Ok(SpecOverhaulStats { coolant_vent, fuel_cell, reflector, moderator, heat_sink, source })
 },
 Ok(Some(source_es)) => match source_stats_of(source_es) {
 Err(e) => Err(e),
 Ok(source_v) => {
 let source = Some(source_v);
 Ok(SpecOverhaulStats { coolant_vent, fuel_cell, reflector, moderator, heat_sink, source })
 },
 },
 }
 },
 },
 }
 },
 Ok(Some(moderator_es)) => match moderator_stats_of(moderator_es) {
 Err(e) => Err(e),
 Ok(moderator_v) => {
 let moderator = Some(moderator_v);
 match opt_entries_field(at(es, "heatsink"), "heatsink"@) {
 Err(e) => Err(e),
 Ok(None) => {
 let heat_sink = None::<SpecStatsCell<SpecOverhaulHeatSink>>;
 match opt_entries_field(at(es, "source"), "source"@) {
 Err(e) => Err(e),
 Ok(None) => {
 let source = None::<SpecStatsCell<SpecOverhaulSource>>;
 Ok(SpecOverhaulStats { coolant_vent, fuel_cell, reflector, moderator, heat_sink, source })
 },
 Ok(Some(source_es)) => match source_stats_of(source_es) {
 Err(e) => Err(e),
 Ok(source_v) => {
 let source = Some(source_v);
 Ok(SpecOverhaulStats { coolant_vent, fuel_cell, reflector, moderator, heat_sink, source })
 },
 },
 }
 },
 Ok(Some(heat_sink_es)) => match heat_sink_stats_of(heat_sink_es) {
 Err(e) => Err(e),
 Ok(heat_sink_v) => {
 let heat_sink = Some(heat_sink_v);
 match opt_entries_field(at(es, "source"), "source"@) {
 Err(e) => Err(e),
 Ok(None) => {
 let source = None::<SpecStatsCell<SpecOverhaulSource>>;
 Ok(SpecOverhaulStats { coolant_vent, fuel_cell, reflector, moderator, heat_sink, source })
 },
 Ok(Some(source_es)) => match source_stats_of(source_es) {
 Err(e) => Err(e),
 Ok(source_v) => {
 let source = Some(source_v);
 Ok(SpecOverhaulStats { coolant_vent, fuel_cell, reflector, moderator, heat_sink, source })
 },
 },
 }
 },
 },
 }
 },
 },
 }
 },
 },
 }
 },
 Ok(Some(fuel_cell_es)) => match fuel_cell_stats_of(fuel_cell_es) {
 Err(e) => Err(e),
 Ok(fuel_cell_v) => {
 let fuel_cell = Some(fuel_cell_v);
 match opt_entries_field(at(es, "reflector"), "reflector"@) {
 Err(e) => Err(e),
 Ok(None) => {
 let reflector = None::<SpecStatsCell<SpecOverhaulReflector>>;
 match opt_entries_field(at(es, "moderator"), "moderator"@) {
 Err(e) => Err(e),
 Ok(None) => {
 let moderator = None::<SpecStatsCell<SpecOverhaulModerator>>;
 match opt_entries_field(at(es, "heatsink"), "heatsink"@) {
 Err(e) => Err(e),
 Ok(None) => {
 let heat_sink = None::<SpecStatsCell<SpecOverhaulHeatSink>>;
 match opt_entries_field(at(es, "source"), "source"@) {
 Err(e) => Err(e),
 Ok(None) => {
 let source = None::<SpecStatsCell<SpecOverhaulSource>>;
 Ok(SpecOverhaulStats { coolant_vent, fuel_cell, reflector, moderator, heat_sink, source })
 },
 Ok(Some(source_es)) => match source_stats_of(source_es) {
 Err(e) => Err(e),
 Ok(source_v) => {
 let source = Some(source_v);
 Ok(SpecOverhaulStats { coolant_vent, fuel_cell, reflector, moderator, heat_sink, source })
 },
 },
 }
 },
 Ok(Some(heat_sink_es)) => match heat_sink_stats_of(heat_sink_es) {
 Err(e) => Err(e),
 Ok(heat_sink_v) => {
 let heat_sink = Some(heat_sink_v);
 match opt_entries_field(at(es, "source"), "source"@) {
 Err(e) => Err(e),
 Ok(None) => {
 let source = None::<SpecStatsCell<SpecOverhaulSource>>;
 Ok(SpecOverhaulStats { coolant_vent, fuel_cell, reflector, moderator, heat_sink, source })
 },
 Ok(Some(source_es)) => match source_stats_of(source_es) {
 Err(e) => Err(e),
 Ok(source_v) => {
 let source = Some(source_v);
 Ok(SpecOverhaulStats { coolant_vent, fuel_cell, reflector, moderator, heat_sink, source })
 },
 },
 }
 },
 },
 }
 },
 Ok(Some(moderator_es)) => match moderator_stats_of(moderator_es) {
 Err(e) => Err(e),
 Ok(moderator_v) => {
 let moderator = Some(moderator_v);
 match opt_entries_field(at(es, "heatsink"), "heatsink"@) {
 Err(e) => Err(e),
 Ok(None) => {
 let heat_sink = None::<SpecStatsCell<SpecOverhaulHeatSink>>;
 match opt_entries_field(at(es, "source"), "source"@) {
 Err(e) => Err(e),
 Ok(None) => {
 let source = None::<SpecStatsCell<SpecOverhaulSource>>;
 Ok(SpecOverhaulStats { coolant_vent, fuel_cell, reflector, moderator, heat_sink, source })
 },
 Ok(Some(source_es)) => match source_stats_of(source_es) {
 Err(e) => Err(e),
 Ok(source_v) => {
 let source = Some(source_v);
 Ok(SpecOverhaulStats { coolant_vent, fuel_cell, reflector, moderator, heat_sink, source })
 },
 },
 }
 },
 Ok(Some(heat_sink_es)) => match heat_sink_stats_of(heat_sink_es) {
 Err(e) => Err(e),
 Ok(heat_sink_v) => {
 let heat_sink = Some(heat_sink_v);
 match opt_entries_field(at(es, "source"), "source"@) {
 Err(e) => Err(e),
 Ok(None) => {
 let source = None::<SpecStatsCell<SpecOverhaulSource>>;
 Ok(SpecOverhaulStats { coolant_vent, fuel_cell, reflector, moderator, heat_sink, source })
 },
 Ok(Some(source_es)) => match source_stats_of(source_es) {
 Err(e) => Err(e),
 Ok(source_v) => {
 let source = Some(source_v);
 Ok(SpecOverhaulStats { coolant_vent, fuel_cell, reflector, moderator, heat_sink, source })
 },
 },
 }
 },
 },
 }
 },
 },
 }
 },
 Ok(Some(reflector_es)) => match reflector_stats_of(reflector_es) {
 Err(e) => Err(e),
 Ok(reflector_v) => {
 let reflector = Some(reflector_v);
 match opt_entries_field(at(es, "moderator"), "moderator"@) {
 Err(e) => Err(e),
 Ok(None) => {
 let moderator = None::<SpecStatsCell<SpecOverhaulModerator>>;
 match opt_entries_field(at(es, "heatsink"), "heatsink"@) {
 Err(e) => Err(e),
 Ok(None) => {
 let heat_sink = None::<SpecStatsCell<SpecOverhaulHeatSink>>;
 match opt_entries_field(at(es, "source"), "source"@) {
 Err(e) => Err(e),
 Ok(None) => {
 let source = None::<SpecStatsCell<SpecOverhaulSource>>;
 Ok(SpecOverhaulStats { coolant_vent, fuel_cell, reflector, moderator, heat_sink, source })
 },
 Ok(Some(source_es)) => match source_stats_of(source_es) {
 Err(e) => Err(e),
 Ok(source_v) => {
 let source = Some(source_v);
 Ok(SpecOverhaulStats { coolant_vent, fuel_cell, reflector, moderator, heat_sink, source })
 },
 },
 }
 },
 Ok(Some(heat_sink_es)) => match heat_sink_stats_of(heat_sink_es) {
 Err(e) => Err(e),
 Ok(heat_sink_v) => {
 let heat_sink = Some(heat_sink_v);
 match opt_entries_field(at(es, "source"), "source"@) {
 Err(e) => Err(e),
 Ok(None) => {
 let source = None::<SpecStatsCell<SpecOverhaulSource>>;
 Ok(SpecOverhaulStats { coolant_vent, fuel_cell, reflector, moderator, heat_sink, source })
 },
 Ok(Some(source_es)) => match source_stats_of(source_es) {
 Err(e) => Err(e),
 Ok(source_v) => {
 let source = Some(source_v);
 Ok(SpecOverhaulStats { coolant_vent, fuel_cell, reflector, moderator, heat_sink, source })
 },
 },
 }
 },
 },
 }
 },
 Ok(Some(moderator_es)) => match moderator_stats_of(moderator_es) {
 Err(e) => Err(e),
 Ok(moderator_v) => {
 let moderator = Some(moderator_v);
 match opt_entries_field(at(es, "heatsink"), "heatsink"@) {
 Err(e) => Err(e),
 Ok(None) => {
 let heat_sink = None::<SpecStatsCell<SpecOverhaulHeatSink>>;
 match opt_entries_field(at(es, "source"), "source"@) {
 Err(e) => Err(e),
 Ok(None) => {
 let source = None::<SpecStatsCell<SpecOverhaulSource>>;
 Ok(SpecOverhaulStats { coolant_vent, fuel_cell, reflector, moderator, heat_sink, source })
 },
 Ok(Some(source_es)) => match source_stats_of(source_es) {
 Err(e) => Err(e),
 Ok(source_v) => {
 let source = Some(source_v);
 Ok(SpecOverhaulStats { coolant_vent, fuel_cell, reflector, moderator, heat_sink, source })
 },
 },
 }
 },
 Ok(Some(heat_sink_es)) => match heat_sink_stats_of(heat_sink_es) {
 Err(e) => Err(e),
 Ok(heat_sink_v) => {
 let heat_sink = Some(heat_sink_v);
 match opt_entries_field(at(es, "source"), "source"@) {
 Err(e) => Err(e),
 Ok(None) => {
 let source = None::<SpecStatsCell<SpecOverhaulSource>>;
 Ok(SpecOverhaulStats { coolant_vent, fuel_cell, reflector, moderator, heat_sink, source })
 },
 Ok(Some(source_es)) => match source_stats_of(source_es) {
 Err(e) => Err(e),
 Ok(source_v) => {
 let source = Some(source_v);
 Ok(SpecOverhaulStats { coolant_vent, fuel_cell, reflector, moderator, heat_sink, source })
 },
 },
 }
 },
 },
 }
 },
 },
 }
 },
 },
 }
 },
 },
 }
 },
 },
 }
}

impl OverhaulStats {
    /// Reads the record from an object's entries.
    pub fn from_entries(es: &Vec<(String, Value)>) -> (r: Result<Self, ProjectError>)
        ensures
            match r {
                Ok(x) => project_stats(entries_view(es@)) == Ok::<_, SpecProjectError>(x@),
                Err(e) => project_stats(entries_view(es@)) == Err::<SpecOverhaulStats, _>(e@),
            },
    {
        proof {
            reveal(project_stats);
        }
        let coolant_vent = match get_opt_object(es, "coolantVent") {
            Ok(None) => None,
            Ok(Some(o)) => match OverhaulCoolantVent::from_entries(o) {
                Ok(x) => Some(x),
                Err(e) => return Err(e),
            },
            Err(e) => return Err(e),
        };
        let fuel_cell = match get_opt_object(es, "fuelCell") {
            Ok(None) => None,
            Ok(Some(o)) => match fuel_cell_stats(o) {
                Ok(x) => Some(x),
                Err(e) => return Err(e),
            },
            Err(e) => return Err(e),
        };
        let reflector = match get_opt_object(es, "reflector") {
            Ok(None) => None,
            Ok(Some(o)) => match reflector_stats(o) {
                Ok(x) => Some(x),
                Err(e) => return Err(e),
            },
            Err(e) => return Err(e),
        };
        let moderator = match get_opt_object(es, "moderator") {
            Ok(None) => None,
            Ok(Some(o)) => match moderator_stats(o) {
                Ok(x) => Some(x),
                Err(e) => return Err(e),
            },
            Err(e) => return Err(e),
        };
        let heat_sink = match get_opt_object(es, "heatsink") {
            Ok(None) => None,
            Ok(Some(o)) => match heat_sink_stats(o) {
                Ok(x) => Some(x),
                Err(e) => return Err(e),
            },
            Err(e) => return Err(e),
        };
        let source = match get_opt_object(es, "source") {
            Ok(None) => None,
            Ok(Some(o)) => match source_stats(o) {
                Ok(x) => Some(x),
                Err(e) => return Err(e),
            },
            Err(e) => return Err(e),
        };
        Ok(OverhaulStats { coolant_vent, fuel_cell, reflector, moderator, heat_sink, source })
    }
}

/// The input or output of a recipe.
#[derive(Clone, Debug)]
pub struct OverhaulRecipeIO {
    pub name: String,
    pub display_name: String,
    pub legacy_names: Vec<String>,
    pub texture: Option<TextureInfo>,
    pub rate: i32,
}

/// The model of [`OverhaulRecipeIO`].
pub struct SpecOverhaulRecipeIO {
    pub name: Seq<char>,
    pub display_name: Seq<char>,
    pub legacy_names: Seq<Seq<char>>,
    pub texture: Option<Seq<i32>>,
    pub rate: i32,
}

impl View for OverhaulRecipeIO {
    type V = SpecOverhaulRecipeIO;

    open spec fn view(&self) -> SpecOverhaulRecipeIO {
        SpecOverhaulRecipeIO {
            name: self.name@,
            display_name: self.display_name@,
            legacy_names: strings_view(self.legacy_names@),
            texture: texture_view(self.texture),
            rate: self.rate,
        }
    }
}

/// The record that the entries `es` hold, or the first failing field's error,
/// fields taken in declaration order.
#[verifier::opaque]
pub open spec fn project_recipe_io(es: Entries) -> Result<SpecOverhaulRecipeIO, SpecProjectError> {
match string_field(at(es, "name"), "name"@) {
 Err(e) => Err(e),
 Ok(name) => match string_field(at(es, "displayName"), "displayName"@) {
 Err(e) => Err(e),
 Ok(display_name) => match strings_field(at(es, "legacyNames"), "legacyNames"@) {
 Err(e) => Err(e),
 Ok(legacy_names) => match opt_ints_field(at(es, "texture"), "texture"@) {
 Err(e) => Err(e),
 Ok(texture) => match int_or_zero_field(at(es, "rate"), "rate"@) {
 Err(e) => Err(e),
 Ok(rate) => Ok(SpecOverhaulRecipeIO { name, display_name, legacy_names, texture, rate }),
 },
 },
 },
 },
 }
}

impl OverhaulRecipeIO {
    /// Reads the record from an object's entries.
    pub fn from_entries(es: &Vec<(String, Value)>) -> (r: Result<Self, ProjectError>)
        ensures
            match r {
                Ok(x) => project_recipe_io(entries_view(es@)) == Ok::<_, SpecProjectError>(x@),
                Err(e) => project_recipe_io(entries_view(es@)) == Err::<SpecOverhaulRecipeIO, _>(e@),
            },
    {
        proof {
            reveal(project_recipe_io);
        }
        let name = match get_string(es, "name") {
            Ok(x) => x,
            Err(e) => return Err(e),
        };
        let display_name = match get_string(es, "displayName") {
            Ok(x) => x,
            Err(e) => return Err(e),
        };
        let legacy_names = match get_strings(es, "legacyNames") {
            Ok(x) => x,
            Err(e) => return Err(e),
        };
        let texture = match get_opt_ints(es, "texture") {
            Ok(x) => texture_of(x),
            Err(e) => return Err(e),
        };
        let rate = match get_int_or_zero(es, "rate") {
            Ok(x) => x,
            Err(e) => return Err(e),
        };
        Ok(OverhaulRecipeIO { name, display_name, legacy_names, texture, rate })
    }
}

/// A recipe of a block, with its stats inline.
#[derive(Clone, Debug)]
pub struct OverhaulSFRRecipe {
    pub input: OverhaulRecipeIO,
    pub output: OverhaulRecipeIO,
    pub stats: OverhaulStats,
}

/// The model of [`OverhaulSFRRecipe`].
pub struct SpecOverhaulSFRRecipe {
    pub input: SpecOverhaulRecipeIO,
    pub output: SpecOverhaulRecipeIO,
    pub stats: SpecOverhaulStats,
}

impl View for OverhaulSFRRecipe {
    type V = SpecOverhaulSFRRecipe;

    open spec fn view(&self) -> SpecOverhaulSFRRecipe {
        SpecOverhaulSFRRecipe {
            input: self.input@,
            output: self.output@,
            stats: self.stats@,
        }
    }
}

/// The record that the entries `es` hold, or the first failing field's error,
/// fields taken in declaration order.
#[verifier::opaque]
pub open spec fn project_recipe(es: Entries) -> Result<SpecOverhaulSFRRecipe, SpecProjectError> {
match entries_field(at(es, "input"), "input"@) {
 Err(e) => Err(e),
 Ok(input_es) => match project_recipe_io(input_es) {
 Err(e) => Err(e),
 Ok(input) => match entries_field(at(es, "output"), "output"@) {
 Err(e) => Err(e),
 Ok(output_es) => match project_recipe_io(output_es) {
 Err(e) => Err(e),
 Ok(output) => match project_stats(es) {
 Err(e) => Err(e),
 Ok(stats) => Ok(SpecOverhaulSFRRecipe { input, output, stats }),
 },
 },
 },
 },
 }
}

impl OverhaulSFRRecipe {
    /// Reads the record from an object's entries.
    pub fn from_entries(es: &Vec<(String, Value)>) -> (r: Result<Self, ProjectError>)
        ensures
            match r {
                Ok(x) => project_recipe(entries_view(es@)) == Ok::<_, SpecProjectError>(x@),
                Err(e) => project_recipe(entries_view(es@)) == Err::<SpecOverhaulSFRRecipe, _>(e@),
            },
    {
        proof {
            reveal(project_recipe);
        }
        let input = match get_object(es, "input") {
            Ok(o) => match OverhaulRecipeIO::from_entries(o) {
                Ok(x) => x,
                Err(e) => return Err(e),
            },
            Err(e) => return Err(e),
        };
        let output = match get_object(es, "output") {
            Ok(o) => match OverhaulRecipeIO::from_entries(o) {
                Ok(x) => x,
                Err(e) => return Err(e),
            },
            Err(e) => return Err(e),
        };
        let stats = match OverhaulStats::from_entries(es) {
            Ok(x) => x,
            Err(e) => return Err(e),
        };
        Ok(OverhaulSFRRecipe { input, output, stats })
    }
}

/// The models of a sequence of [`OverhaulSFRRecipe`].
pub open spec fn recipes_view(xs: Seq<OverhaulSFRRecipe>) -> Seq<SpecOverhaulSFRRecipe> {
    Seq::new(xs.len(), |i: int| xs[i]@)
}

/// The records that the list items hold, appended to `acc`, or the first
/// failing item's error.
pub open spec fn recipe_items(items: Seq<SpecValue>, acc: Seq<SpecOverhaulSFRRecipe>) -> Result<Seq<SpecOverhaulSFRRecipe>, SpecProjectError>
    decreases items.len(),
{
    if items.len() == 0 {
        Ok(acc)
    } else {
        match items[0] {
            SpecValue::Object(e) => match project_recipe(e) {
                Err(x) => Err(x),
                Ok(y) => recipe_items(items.drop_first(), acc.push(y)),
            },
            v => mismatch("recipes"@, Kind::Object, v),
        }
    }
}

/// The records of the list under "recipes".
pub open spec fn project_recipes(es: Entries) -> Result<Seq<SpecOverhaulSFRRecipe>, SpecProjectError> {
    match list_field(at(es, "recipes"), "recipes"@, true) {
        Err(e) => Err(e),
        Ok(items) => recipe_items(items, Seq::empty()),
    }
}

/// Reads the list of records under "recipes".
fn read_recipes(es: &Vec<(String, Value)>) -> (r: Result<Vec<OverhaulSFRRecipe>, ProjectError>)
    ensures
        match r {
            Ok(xs) => project_recipes(entries_view(es@)) == Ok::<_, SpecProjectError>(recipes_view(xs@)),
            Err(e) => project_recipes(entries_view(es@)) == Err::<Seq<SpecOverhaulSFRRecipe>, _>(e@),
        },
{
    let mut out: Vec<OverhaulSFRRecipe> = Vec::new();
    let items = match get_list(es, "recipes", true) {
        Ok(None) => {
            assert(recipes_view(out@) =~= Seq::empty());
            return Ok(out);
        },
        Ok(Some(items)) => items,
        Err(e) => return Err(e),
    };
    let ghost iv = views(items@);
    let n = items.len();
    let mut i: usize = 0;
    assert(iv.subrange(0, n as int) =~= iv);
    assert(recipes_view(out@) =~= Seq::empty());
    while i < n
        invariant
            n == items@.len(),
            iv == views(items@),
            i <= n,
            project_recipes(entries_view(es@)) == recipe_items(iv.subrange(i as int, n as int), recipes_view(out@)),
        decreases n - i,
    {
        let v = &items[i];
        assert(iv[i as int] == v@);
        assert(iv.subrange(i as int, n as int).drop_first() =~= iv.subrange(i + 1, n as int));
        assert(iv.subrange(i as int, n as int)[0] == iv[i as int]);
        match v {
            Value::Object(o) => {
                proof {
                    lemma_object_view(*o);
                }
                match OverhaulSFRRecipe::from_entries(o) {
                    Ok(x) => {
                        let ghost before = out@;
                        let ghost xv = x@;
                        out.push(x);
                        assert(recipes_view(out@) =~= recipes_view(before).push(xv));
                    },
                    Err(e) => return Err(e),
                }
            },
            _ => {
                return Err(ProjectError::TypeMismatch("recipes".to_owned(), Kind::Object, kind(v)));
            },
        }
        i = i + 1;
    }
    assert(iv.subrange(n as int, n as int) =~= Seq::<SpecValue>::empty());
    Ok(out)
}

/// A block of the reactor, with its stats inline.
#[derive(Clone, Debug)]
pub struct OverhaulSFRBlock {
    pub name: String,
    pub display_name: String,
    pub legacy_names: Vec<String>,
    pub texture: Option<TextureInfo>,
    pub cluster: bool,
    pub create_cluster: bool,
    pub conductor: bool,
    pub functional: bool,
    pub block_los: bool,
    pub casing: bool,
    pub casing_edge: bool,
    pub controller: bool,
    pub stats: OverhaulStats,
    pub recipes: Vec<OverhaulSFRRecipe>,
}

/// The model of [`OverhaulSFRBlock`].
pub struct SpecOverhaulSFRBlock {
    pub name: Seq<char>,
    pub display_name: Seq<char>,
    pub legacy_names: Seq<Seq<char>>,
    pub texture: Option<Seq<i32>>,
    pub cluster: bool,
    pub create_cluster: bool,
    pub conductor: bool,
    pub functional: bool,
    pub block_los: bool,
    pub casing: bool,
    pub casing_edge: bool,
    pub controller: bool,
    pub stats: SpecOverhaulStats,
    pub recipes: Seq<SpecOverhaulSFRRecipe>,
}

impl View for OverhaulSFRBlock {
    type V = SpecOverhaulSFRBlock;

    open spec fn view(&self) -> SpecOverhaulSFRBlock {
        SpecOverhaulSFRBlock {
            name: self.name@,
            display_name: self.display_name@,
            legacy_names: strings_view(self.legacy_names@),
            texture: texture_view(self.texture),
            cluster: self.cluster,
            create_cluster: self.create_cluster,
            conductor: self.conductor,
            functional: self.functional,
            block_los: self.block_los,
            casing: self.casing,
            casing_edge: self.casing_edge,
            controller: self.controller,
            stats: self.stats@,
            recipes: recipes_view(self.recipes@),
        }
    }
}

/// The record that the entries `es` hold, or the first failing field's error,
/// fields taken in declaration order.
#[verifier::opaque]
pub open spec fn project_block(es: Entries) -> Result<SpecOverhaulSFRBlock, SpecProjectError> {
match string_field(at(es, "name"), "name"@) {
 Err(e) => Err(e),
 Ok(name) => match string_field(at(es, "displayName"), "displayName"@) {
 Err(e) => Err(e),
 Ok(display_name) => match strings_field(at(es, "legacyNames"), "legacyNames"@) {
 Err(e) => Err(e),
 Ok(legacy_names) => match opt_ints_field(at(es, "texture"), "texture"@) {
 Err(e) => Err(e),
 Ok(texture) => match flag_field(at(es, "cluster"), "cluster"@) {
 Err(e) => Err(e),
 Ok(cluster) => match flag_field(at(es, "createCluster"), "createCluster"@) {
 Err(e) => Err(e),
 Ok(create_cluster) => match flag_field(at(es, "conductor"), "conductor"@) {
 Err(e) => Err(e),
 Ok(conductor) => match flag_field(at(es, "functional"), "functional"@) {
 Err(e) => Err(e),
 Ok(functional) => match flag_field(at(es, "blockLOS"), "blockLOS"@) {
 Err(e) => Err(e),
 Ok(block_los) => match flag_field(at(es, "casing"), "casing"@) {
 Err(e) => Err(e),
 Ok(casing) => match flag_field(at(es, "casingEdge"), "casingEdge"@) {
 Err(e) => Err(e),
 Ok(casing_edge) => match flag_field(at(es, "controller"), "controller"@) {
 Err(e) => Err(e),
 Ok(controller) => match project_stats(es) {
 Err(e) => Err(e),
 Ok(stats) => match project_recipes(es) {
 Err(e) => Err(e),
 Ok(recipes) => Ok(SpecOverhaulSFRBlock { name, display_name, legacy_names, texture, cluster, create_cluster, conductor, functional, block_los, casing, casing_edge, controller, stats, recipes }),
 },
 },
 },
 },
 },
 },
 },
 },
 },
 },
 },
 },
 },
 }
}

impl OverhaulSFRBlock {
    /// Reads the record from an object's entries.
    pub fn from_entries(es: &Vec<(String, Value)>) -> (r: Result<Self, ProjectError>)
        ensures
            match r {
                Ok(x) => project_block(entries_view(es@)) == Ok::<_, SpecProjectError>(x@),
                Err(e) => project_block(entries_view(es@)) == Err::<SpecOverhaulSFRBlock, _>(e@),
            },
    {
        proof {
            reveal(project_block);
        }
        let name = match get_string(es, "name") {
            Ok(x) => x,
            Err(e) => return Err(e),
        };
        let display_name = match get_string(es, "displayName") {
            Ok(x) => x,
            Err(e) => return Err(e),
        };
        let legacy_names = match get_strings(es, "legacyNames") {
            Ok(x) => x,
            Err(e) => return Err(e),
        };
        let texture = match get_opt_ints(es, "texture") {
            Ok(x) => texture_of(x),
            Err(e) => return Err(e),
        };
        let cluster = match get_flag(es, "cluster") {
            Ok(x) => x,
            Err(e) => return Err(e),
        };
        let create_cluster = match get_flag(es, "createCluster") {
            Ok(x) => x,
            Err(e) => return Err(e),
        };
        let conductor = match get_flag(es, "conductor") {
            Ok(x) => x,
            Err(e) => return Err(e),
        };
        let functional = match get_flag(es, "functional") {
            Ok(x) => x,
            Err(e) => return Err(e),
        };
        let block_los = match get_flag(es, "blockLOS") {
            Ok(x) => x,
            Err(e) => return Err(e),
        };
        let casing = match get_flag(es, "casing") {
            Ok(x) => x,
            Err(e) => return Err(e),
        };
        let casing_edge = match get_flag(es, "casingEdge") {
            Ok(x) => x,
            Err(e) => return Err(e),
        };
        let controller = match get_flag(es, "controller") {
            Ok(x) => x,
            Err(e) => return Err(e),
        };
        let stats = match OverhaulStats::from_entries(es) {
            Ok(x) => x,
            Err(e) => return Err(e),
        };
        let recipes = match read_recipes(es) {
            Ok(x) => x,
            Err(e) => return Err(e),
        };
        Ok(OverhaulSFRBlock { name, display_name, legacy_names, texture, cluster, create_cluster, conductor, functional, block_los, casing, casing_edge, controller, stats, recipes })
    }
}

/// The models of a sequence of [`OverhaulSFRBlock`].
pub open spec fn blocks_view(xs: Seq<OverhaulSFRBlock>) -> Seq<SpecOverhaulSFRBlock> {
    Seq::new(xs.len(), |i: int| xs[i]@)
}

/// The records that the list items hold, appended to `acc`, or the first
/// failing item's error.
pub open spec fn block_items(items: Seq<SpecValue>, acc: Seq<SpecOverhaulSFRBlock>) -> Result<Seq<SpecOverhaulSFRBlock>, SpecProjectError>
    decreases items.len(),
{
    if items.len() == 0 {
        Ok(acc)
    } else {
        match items[0] {
            SpecValue::Object(e) => match project_block(e) {
                Err(x) => Err(x),
                Ok(y) => block_items(items.drop_first(), acc.push(y)),
            },
            v => mismatch("blocks"@, Kind::Object, v),
        }
    }
}

/// The records of the list under "blocks".
pub open spec fn project_blocks(es: Entries) -> Result<Seq<SpecOverhaulSFRBlock>, SpecProjectError> {
    match list_field(at(es, "blocks"), "blocks"@, false) {
        Err(e) => Err(e),
        Ok(items) => block_items(items, Seq::empty()),
    }
}

/// Reads the list of records under "blocks".
fn read_blocks(es: &Vec<(String, Value)>) -> (r: Result<Vec<OverhaulSFRBlock>, ProjectError>)
    ensures
        match r {
            Ok(xs) => project_blocks(entries_view(es@)) == Ok::<_, SpecProjectError>(blocks_view(xs@)),
            Err(e) => project_blocks(entries_view(es@)) == Err::<Seq<SpecOverhaulSFRBlock>, _>(e@),
        },
{
    let mut out: Vec<OverhaulSFRBlock> = Vec::new();
    let items = match get_list(es, "blocks", false) {
        Ok(None) => {
            assert(blocks_view(out@) =~= Seq::empty());
            return Ok(out);
        },
        Ok(Some(items)) => items,
        Err(e) => return Err(e),
    };
    let ghost iv = views(items@);
    let n = items.len();
    let mut i: usize = 0;
    assert(iv.subrange(0, n as int) =~= iv);
    assert(blocks_view(out@) =~= Seq::empty());
    while i < n
        invariant
            n == items@.len(),
            iv == views(items@),
            i <= n,
            project_blocks(entries_view(es@)) == block_items(iv.subrange(i as int, n as int), blocks_view(out@)),
        decreases n - i,
    {
        let v = &items[i];
        assert(iv[i as int] == v@);
        assert(iv.subrange(i as int, n as int).drop_first() =~= iv.subrange(i + 1, n as int));
        assert(iv.subrange(i as int, n as int)[0] == iv[i as int]);
        match v {
            Value::Object(o) => {
                proof {
                    lemma_object_view(*o);
                }
                match OverhaulSFRBlock::from_entries(o) {
                    Ok(x) => {
                        let ghost before = out@;
                        let ghost xv = x@;
                        out.push(x);
                        assert(blocks_view(out@) =~= blocks_view(before).push(xv));
                    },
                    Err(e) => return Err(e),
                }
            },
            _ => {
                return Err(ProjectError::TypeMismatch("blocks".to_owned(), Kind::Object, kind(v)));
            },
        }
        i = i + 1;
    }
    assert(iv.subrange(n as int, n as int) =~= Seq::<SpecValue>::empty());
    Ok(out)
}

/// The solid-fuel reactor configuration.
#[derive(Clone, Debug)]
pub struct OverhaulSFRConfiguration {
    pub min_size: Option<i32>,
    pub max_size: Option<i32>,
    pub neutron_reach: Option<i32>,
    pub cooling_efficiency_leniency: Option<i32>,
    pub sparsity_penalty_mult: Option<Number>,
    pub sparsity_penalty_threshold: Option<Number>,
    pub blocks: Vec<OverhaulSFRBlock>,
}

/// The model of [`OverhaulSFRConfiguration`].
pub struct SpecOverhaulSFRConfiguration {
    pub min_size: Option<i32>,
    pub max_size: Option<i32>,
    pub neutron_reach: Option<i32>,
    pub cooling_efficiency_leniency: Option<i32>,
    pub sparsity_penalty_mult: Option<Number>,
    pub sparsity_penalty_threshold: Option<Number>,
    pub blocks: Seq<SpecOverhaulSFRBlock>,
}

impl View for OverhaulSFRConfiguration {
    type V = SpecOverhaulSFRConfiguration;

    open spec fn view(&self) -> SpecOverhaulSFRConfiguration {
        SpecOverhaulSFRConfiguration {
            min_size: self.min_size,
            max_size: self.max_size,
            neutron_reach: self.neutron_reach,
            cooling_efficiency_leniency: self.cooling_efficiency_leniency,
            sparsity_penalty_mult: self.sparsity_penalty_mult,
            sparsity_penalty_threshold: self.sparsity_penalty_threshold,
            blocks: blocks_view(self.blocks@),
        }
    }
}

/// The record that the entries `es` hold, or the first failing field's error,
/// fields taken in declaration order.
#[verifier::opaque]
pub open spec fn project_sfr(es: Entries) -> Result<SpecOverhaulSFRConfiguration, SpecProjectError> {
match opt_int_field(at(es, "minSize"), "minSize"@) {
 Err(e) => Err(e),
 Ok(min_size) => match opt_int_field(at(es, "maxSize"), "maxSize"@) {
 Err(e) => Err(e),
 Ok(max_size) => match opt_int_field(at(es, "neutronReach"), "neutronReach"@) {
 Err(e) => Err(e),
 Ok(neutron_reach) => match opt_int_field(at(es, "coolingEfficiencyLeniency"), "coolingEfficiencyLeniency"@) {
 Err(e) => Err(e),
 Ok(cooling_efficiency_leniency) => match opt_number_field(at(es, "sparsityPenaltyMult"), "sparsityPenaltyMult"@) {
 Err(e) => Err(e),
 Ok(sparsity_penalty_mult) => match opt_number_field(at(es, "sparsityPenaltyThreshold"), "sparsityPenaltyThreshold"@) {
 Err(e) => Err(e),
 Ok(sparsity_penalty_threshold) => match project_blocks(es) {
 Err(e) => Err(e),
 Ok(blocks) => Ok(SpecOverhaulSFRConfiguration { min_size, max_size, neutron_reach, cooling_efficiency_leniency, sparsity_penalty_mult, sparsity_penalty_threshold, blocks }),
 },
 },
 },
 },
 },
 },
 }
}

impl OverhaulSFRConfiguration {
    /// Reads the record from an object's entries.
    pub fn from_entries(es: &Vec<(String, Value)>) -> (r: Result<Self, ProjectError>)
        ensures
            match r {
                Ok(x) => project_sfr(entries_view(es@)) == Ok::<_, SpecProjectError>(x@),
                Err(e) => project_sfr(entries_view(es@)) == Err::<SpecOverhaulSFRConfiguration, _>(e@),
            },
    {
        proof {
            reveal(project_sfr);
        }
        let min_size = match get_opt_int(es, "minSize") {
            Ok(x) => x,
            Err(e) => return Err(e),
        };
        let max_size = match get_opt_int(es, "maxSize") {
            Ok(x) => x,
            Err(e) => return Err(e),
        };
        let neutron_reach = match get_opt_int(es, "neutronReach") {
            Ok(x) => x,
            Err(e) => return Err(e),
        };
        let cooling_efficiency_leniency = match get_opt_int(es, "coolingEfficiencyLeniency") {
            Ok(x) => x,
            Err(e) => return Err(e),
        };
        let sparsity_penalty_mult = match get_opt_number(es, "sparsityPenaltyMult") {
            Ok(x) => x,
            Err(e) => return Err(e),
        };
        let sparsity_penalty_threshold = match get_opt_number(es, "sparsityPenaltyThreshold") {
            Ok(x) => x,
            Err(e) => return Err(e),
        };
        let blocks = match read_blocks(es) {
            Ok(x) => x,
            Err(e) => return Err(e),
        };
        Ok(OverhaulSFRConfiguration { min_size, max_size, neutron_reach, cooling_efficiency_leniency, sparsity_penalty_mult, sparsity_penalty_threshold, blocks })
    }
}

/// The overhaul configurations.
#[derive(Clone, Debug)]
pub struct OverhaulConfiguration {
    pub fission_sfr: OverhaulSFRConfiguration,
}

/// The model of [`OverhaulConfiguration`].
pub struct SpecOverhaulConfiguration {
    pub fission_sfr: SpecOverhaulSFRConfiguration,
}

impl View for OverhaulConfiguration {
    type V = SpecOverhaulConfiguration;

    open spec fn view(&self) -> SpecOverhaulConfiguration {
        SpecOverhaulConfiguration {
            fission_sfr: self.fission_sfr@,
        }
    }
}

/// The record that the entries `es` hold, or the first failing field's error,
/// fields taken in declaration order.
#[verifier::opaque]
pub open spec fn project_overhaul(es: Entries) -> Result<SpecOverhaulConfiguration, SpecProjectError> {
match entries_field(at(es, "fissionSFR"), "fissionSFR"@) {
 Err(e) => Err(e),
 Ok(fission_sfr_es) => match project_sfr(fission_sfr_es) {
 Err(e) => Err(e),
 Ok(fission_sfr) => Ok(SpecOverhaulConfiguration { fission_sfr }),
 },
 }
}

impl OverhaulConfiguration {
    /// Reads the record from an object's entries.
    pub fn from_entries(es: &Vec<(String, Value)>) -> (r: Result<Self, ProjectError>)
        ensures
            match r {
                Ok(x) => project_overhaul(entries_view(es@)) == Ok::<_, SpecProjectError>(x@),
                Err(e) => project_overhaul(entries_view(es@)) == Err::<SpecOverhaulConfiguration, _>(e@),
            },
    {
        proof {
            reveal(project_overhaul);
        }
        let fission_sfr = match get_object(es, "fissionSFR") {
            Ok(o) => match OverhaulSFRConfiguration::from_entries(o) {
                Ok(x) => x,
                Err(e) => return Err(e),
            },
            Err(e) => return Err(e),
        };
        Ok(OverhaulConfiguration { fission_sfr })
    }
}

/// A configuration document.
#[derive(Clone, Debug)]
pub struct NCPF11 {
    pub addon: bool,
    pub name: String,
    pub version: String,
    pub underhaul_version: String,
    pub overhaul: OverhaulConfiguration,
}

/// The model of [`NCPF11`].
pub struct SpecNCPF11 {
    pub addon: bool,
    pub name: Seq<char>,
    pub version: Seq<char>,
    pub underhaul_version: Seq<char>,
    pub overhaul: SpecOverhaulConfiguration,
}

impl View for NCPF11 {
    type V = SpecNCPF11;

    open spec fn view(&self) -> SpecNCPF11 {
        SpecNCPF11 {
            addon: self.addon,
            name: self.name@,
            version: self.version@,
            underhaul_version: self.underhaul_version@,
            overhaul: self.overhaul@,
        }
    }
}

/// The record that the entries `es` hold, or the first failing field's error,
/// fields taken in declaration order.
#[verifier::opaque]
pub open spec fn project_ncpf11(es: Entries) -> Result<SpecNCPF11, SpecProjectError> {
match bool_field(at(es, "addon"), "addon"@) {
 Err(e) => Err(e),
 Ok(addon) => match string_field(at(es, "name"), "name"@) {
 Err(e) => Err(e),
 Ok(name) => match string_field(at(es, "version"), "version"@) {
 Err(e) => Err(e),
 Ok(version) => match string_field(at(es, "underhaulVersion"), "underhaulVersion"@) {
 Err(e) => Err(e),
 Ok(underhaul_version) => match entries_field(at(es, "overhaul"), "overhaul"@) {
 Err(e) => Err(e),
 Ok(overhaul_es) => match project_overhaul(overhaul_es) {
 Err(e) => Err(e),
 Ok(overhaul) => Ok(SpecNCPF11 { addon, name, version, underhaul_version, overhaul }),
 },
 },
 },
 },
 },
 }
}

impl NCPF11 {
    /// Reads the record from an object's entries.
    pub fn from_entries(es: &Vec<(String, Value)>) -> (r: Result<Self, ProjectError>)
        ensures
            match r {
                Ok(x) => project_ncpf11(entries_view(es@)) == Ok::<_, SpecProjectError>(x@),
                Err(e) => project_ncpf11(entries_view(es@)) == Err::<SpecNCPF11, _>(e@),
            },
    {
        proof {
            reveal(project_ncpf11);
        }
        let addon = match get_bool(es, "addon") {
            Ok(x) => x,
            Err(e) => return Err(e),
        };
        let name = match get_string(es, "name") {
            Ok(x) => x,
            Err(e) => return Err(e),
        };
        let version = match get_string(es, "version") {
            Ok(x) => x,
            Err(e) => return Err(e),
        };
        let underhaul_version = match get_string(es, "underhaulVersion") {
            Ok(x) => x,
            Err(e) => return Err(e),
        };
        let overhaul = match get_object(es, "overhaul") {
            Ok(o) => match OverhaulConfiguration::from_entries(o) {
                Ok(x) => x,
                Err(e) => return Err(e),
            },
            Err(e) => return Err(e),
        };
        Ok(NCPF11 { addon, name, version, underhaul_version, overhaul })
    }
}

impl NCPF11 {
    /// Reads a configuration document from its decoded root value.
    pub fn from_value(v: &Value) -> (r: Result<Self, ProjectError>)
        ensures
            match v@ {
                SpecValue::Object(es) => match r {
                    Ok(x) => project_ncpf11(es) == Ok::<_, SpecProjectError>(x@),
                    Err(e) => project_ncpf11(es) == Err::<SpecNCPF11, _>(e@),
                },
                _ => r matches Err(e) && e@ == SpecProjectError::NotAnObject(kind_of(v@)),
            },
    {
        match entries_of(v) {
            Ok(es) => NCPF11::from_entries(es),
            Err(e) => Err(e),
        }
    }
}

impl OverhaulSFRBlock {
    /// Reads a block from a value.
    pub fn from_value(v: &Value) -> (r: Result<Self, ProjectError>)
        ensures
            match v@ {
                SpecValue::Object(es) => match r {
                    Ok(x) => project_block(es) == Ok::<_, SpecProjectError>(x@),
                    Err(e) => project_block(es) == Err::<SpecOverhaulSFRBlock, _>(e@),
                },
                _ => r matches Err(e) && e@ == SpecProjectError::NotAnObject(kind_of(v@)),
            },
    {
        match entries_of(v) {
            Ok(es) => OverhaulSFRBlock::from_entries(es),
            Err(e) => Err(e),
        }
    }
}

/// A block without a `name` key fails with a missing-field error naming `name`.
pub proof fn lemma_block_requires_name(es: Entries)
    requires
        lookup(es, "name"@) is None,
    ensures
        project_block(es) == Err::<SpecOverhaulSFRBlock, _>(
            SpecProjectError::MissingField("name"@),
        ),
{
    reveal(project_block);
}

/// A configuration without a `minSize` key reads with the minimum size unset.
pub proof fn lemma_min_size_defaults(es: Entries)
    requires
        lookup(es, "minSize"@) is None,
        project_sfr(es) is Ok,
    ensures
        project_sfr(es)->Ok_0.min_size is None,
{
    reveal(project_sfr);
}

/// A block that reads keeps the texture integers that its wire object held,
/// well formed or not.
pub proof fn lemma_block_keeps_texture(es: Entries)
    requires
        project_block(es) is Ok,
    ensures
        opt_ints_field(at(es, "texture"), "texture"@) == Ok::<_, SpecProjectError>(
            project_block(es)->Ok_0.texture,
        ),
{
    reveal(project_block);
}

/// The specification of a configuration; it holds nothing yet.
#[derive(Clone, Debug)]
pub struct ConfigSpecification {}

/// A block as the reactor model names it, with the other names it is known by.
#[derive(Clone, Debug)]
pub struct OverhaulBlock {
    pub name: String,
    pub alias_names: Vec<String>,
}

} // verus!
