use vstd::prelude::*;

use crate::element::{Element, ElementSign};

verus! {

/// Where the widths of the transits come from.
#[derive(PartialEq, Eq, Structural, Clone, Copy, Debug)]
pub enum TransitionType {
    /// The widths recorded in the building description are kept.
    FromBim,
    /// The scenario sets the widths of inner doors and of exits.
    Users,
}

/// Where the initial number of people in a zone comes from.
#[derive(PartialEq, Eq, Structural, Clone, Copy, Debug)]
pub enum DistributionType {
    /// The numbers recorded in the building description are kept.
    FromBim,
    /// Every zone inside the building gets the same density of people.
    Uniform,
}

/// A setting that the scenario gives to the elements with the listed uuids.
#[derive(Clone, Debug)]
pub struct Special<V> {
    pub uuid: Vec<String>,
    pub value: V,
}

/// The transit part of a scenario, generic over the width values.
#[derive(Clone, Debug)]
pub struct TransitionCfg<W> {
    pub transitions_type: TransitionType,
    pub doorway_in: W,
    pub doorway_out: W,
    pub special: Vec<Special<W>>,
}

/// The distribution part of a scenario, generic over the density values.
#[derive(Clone, Debug)]
pub struct DistributionCfg<D> {
    pub distribution_type: DistributionType,
    pub density: D,
    pub special: Vec<Special<D>>,
}

/// A transit of the building together with its width.
#[derive(Clone, Debug)]
pub struct Transit<W> {
    pub element: Element,
    pub width: W,
}

/// A level of the building, with its own copies of its zones and transits.
#[derive(Clone, Debug)]
pub struct Level<Z, W> {
    pub zones: Vec<Z>,
    pub transits: Vec<Transit<W>>,
}

/// Which setting of the scenario gives a transit its width.
#[derive(PartialEq, Eq, Structural, Clone, Copy, Debug)]
pub enum WidthSource {
    /// No setting applies: the width stays as it is.
    Unchanged,
    /// The width of inner doors.
    DoorwayIn,
    /// The width of exits.
    DoorwayOut,
    /// The special setting with this index.
    Special(usize),
}

/// Which setting of the scenario gives a zone its density of people.
#[derive(PartialEq, Eq, Structural, Clone, Copy, Debug)]
pub enum DensitySource {
    /// No setting applies: the number of people stays as it is.
    Unchanged,
    /// The uniform density.
    Uniform,
    /// The special setting with this index.
    Special(usize),
}

/// The uuids of a special setting, as sequences of characters.
pub open spec fn uuid_views(uuids: Seq<String>) -> Seq<Seq<char>> {
    uuids.map_values(|s: String| s@)
}

/// Whether a special setting lists `uuid`.
pub open spec fn special_lists<V>(special: Special<V>, uuid: Seq<char>) -> bool {
    uuid_views(special.uuid@).contains(uuid)
}

/// The index of the last special setting that lists `uuid`, if any: the
/// settings are applied in order, so the last one that lists an element is
/// the one that stays.
pub open spec fn last_special_match<V>(specials: Seq<Special<V>>, uuid: Seq<char>) -> Option<nat>
    decreases specials.len(),
{
    if specials.len() == 0 {
        None
    } else if special_lists(specials.last(), uuid) {
        Some((specials.len() - 1) as nat)
    } else {
        last_special_match(specials.drop_last(), uuid)
    }
}

/// The width that the door rule of the scenario gives to an element of kind
/// `sign`, before the special settings.
pub open spec fn door_width_source(sign: ElementSign, transitions_type: TransitionType) -> WidthSource {
    if transitions_type == TransitionType::Users && sign == ElementSign::DoorWayIn {
        WidthSource::DoorwayIn
    } else if transitions_type == TransitionType::Users && sign == ElementSign::DoorWayOut {
        WidthSource::DoorwayOut
    } else {
        WidthSource::Unchanged
    }
}

/// The setting that gives a transit its width: the last special setting that
/// lists its uuid, else the door rule.
pub open spec fn spec_width_source<W>(transit: Element, cfg: TransitionCfg<W>) -> WidthSource {
    match last_special_match(cfg.special@, transit.uuid@) {
        Some(i) => WidthSource::Special(i as usize),
        None => door_width_source(transit.sign, cfg.transitions_type),
    }
}

/// The width that `source` gives to a transit whose width was `old`.
pub open spec fn width_from<W>(source: WidthSource, old: W, cfg: TransitionCfg<W>) -> W {
    match source {
        WidthSource::Unchanged => old,
        WidthSource::DoorwayIn => cfg.doorway_in,
        WidthSource::DoorwayOut => cfg.doorway_out,
        WidthSource::Special(i) => cfg.special@[i as int].value,
    }
}

/// The transit after the scenario has set its width.
pub open spec fn transit_with_scenario<W>(transit: Transit<W>, cfg: TransitionCfg<W>) -> Transit<W> {
    Transit {
        element: transit.element,
        width: width_from(spec_width_source(transit.element, cfg), transit.width, cfg),
    }
}

/// Every transit after the scenario has set its width.
pub open spec fn transits_with_scenario<W>(transits: Seq<Transit<W>>, cfg: TransitionCfg<W>) -> Seq<Transit<W>> {
    transits.map_values(|t: Transit<W>| transit_with_scenario(t, cfg))
}

/// The setting that gives a zone its density: none for the outside zone;
/// else the last special setting that lists its uuid; else the uniform
/// density when the distribution is uniform.
pub open spec fn spec_density_source<D>(zone: Element, cfg: DistributionCfg<D>) -> DensitySource {
    if zone.sign == ElementSign::Outside {
        DensitySource::Unchanged
    } else {
        match last_special_match(cfg.special@, zone.uuid@) {
            Some(i) => DensitySource::Special(i as usize),
            None => if cfg.distribution_type == DistributionType::Uniform {
                DensitySource::Uniform
            } else {
                DensitySource::Unchanged
            },
        }
    }
}

/// The density that `source` gives to a zone, if any.
pub open spec fn density_from<D>(source: DensitySource, cfg: DistributionCfg<D>) -> Option<D> {
    match source {
        DensitySource::Unchanged => None,
        DensitySource::Uniform => Some(cfg.density),
        DensitySource::Special(i) => Some(cfg.special@[i as int].value),
    }
}

/// The last special setting that lists `uuid` is found exactly: it lists
/// `uuid`, and no later setting does; when there is none, no setting lists it.
pub proof fn lemma_last_special_match<V>(specials: Seq<Special<V>>, uuid: Seq<char>)
    ensures
        last_special_match(specials, uuid) matches Some(i) ==> {
            &&& i < specials.len()
            &&& special_lists(specials[i as int], uuid)
            &&& forall|j: int| i < j < specials.len() ==> !special_lists(#[trigger] specials[j], uuid)
        },
        last_special_match(specials, uuid) is None ==> forall|j: int|
            0 <= j < specials.len() ==> !special_lists(#[trigger] specials[j], uuid),
    decreases specials.len(),
{
    if specials.len() > 0 {
        let n: int = specials.len() as int;
        let prefix = specials.drop_last();
        lemma_last_special_match(prefix, uuid);
        if !special_lists(specials.last(), uuid) {
            assert forall|j: int| 0 <= j < n && special_lists(#[trigger] specials[j], uuid)
                implies last_special_match(specials, uuid) matches Some(i) && j <= i by {
                if j < n - 1 {
                    assert(prefix[j] == specials[j]);
                }
            }
            if let Some(i) = last_special_match(prefix, uuid) {
                assert(prefix[i as int] == specials[i as int]);
                assert forall|j: int| i < j < n implies !special_lists(#[trigger] specials[j], uuid) by {
                    if j < n - 1 {
                        assert(prefix[j] == specials[j]);
                    }
                }
            }
        }
    }
}

/// Whether the special setting `special` lists `uuid`.
fn special_lists_uuid<V>(special: &Special<V>, uuid: &String) -> (r: bool)
    ensures
        r == special_lists(*special, uuid@),
{
    let n: usize = special.uuid.len();
    let mut k: usize = 0;
    while k < n
        invariant
            n == special.uuid@.len(),
            0 <= k <= n,
            forall|j: int| 0 <= j < k ==> special.uuid@[j]@ != uuid@,
        decreases n - k,
    {
        if special.uuid[k] == *uuid {
            assert(uuid_views(special.uuid@)[k as int] == uuid@);
            return true;
        }
        k = k + 1;
    }
    proof {
        let views = uuid_views(special.uuid@);
        if views.contains(uuid@) {
            let j: int = choose|j: int| 0 <= j < views.len() && views[j] == uuid@;
            assert(special.uuid@[j]@ == uuid@);
        }
    }
    false
}

/// The index of the last special setting that lists `uuid`, if any.
pub fn find_last_special<V>(specials: &Vec<Special<V>>, uuid: &String) -> (r: Option<usize>)
    ensures
        r matches Some(i) ==> last_special_match(specials@, uuid@) == Some(i as nat),
        r is None ==> last_special_match(specials@, uuid@) is None,
{
    let n: usize = specials.len();
    let mut found: Option<usize> = None;
    let mut i: usize = 0;
    while i < n
        invariant
            n == specials@.len(),
            0 <= i <= n,
            found matches Some(f) ==> last_special_match(specials@.take(i as int), uuid@) == Some(f as nat),
            found is None ==> last_special_match(specials@.take(i as int), uuid@) is None,
        decreases n - i,
    {
        let lists = special_lists_uuid(&specials[i], uuid);
        proof {
            let next = specials@.take(i + 1);
            assert(next.drop_last() =~= specials@.take(i as int));
            assert(next.last() == specials@[i as int]);
        }
        if lists {
            found = Some(i);
        }
        i = i + 1;
    }
    assert(specials@.take(n as int) =~= specials@);
    found
}

/// The setting of the scenario that gives `transit` its width: the last
/// special setting that lists its uuid; else, when the scenario sets door
/// widths, the width of inner doors or of exits by its kind; else none.
pub fn transition_width_source<W>(transit: &Element, cfg: &TransitionCfg<W>) -> (r: WidthSource)
    ensures
        r == spec_width_source(*transit, *cfg),
{
    match find_last_special(&cfg.special, &transit.uuid) {
        Some(i) => WidthSource::Special(i),
        None => {
            if cfg.transitions_type == TransitionType::Users {
                match transit.sign {
                    ElementSign::DoorWayIn => WidthSource::DoorwayIn,
                    ElementSign::DoorWayOut => WidthSource::DoorwayOut,
                    _ => WidthSource::Unchanged,
                }
            } else {
                WidthSource::Unchanged
            }
        },
    }
}

/// The setting of the scenario that gives `zone` its density of people: none
/// for the outside zone; else the last special setting that lists its uuid;
/// else the uniform density when the distribution is uniform; else none.
pub fn zone_density_source<D>(zone: &Element, cfg: &DistributionCfg<D>) -> (r: DensitySource)
    ensures
        r == spec_density_source(*zone, *cfg),
{
    if zone.sign == ElementSign::Outside {
        return DensitySource::Unchanged;
    }
    match find_last_special(&cfg.special, &zone.uuid) {
        Some(i) => DensitySource::Special(i),
        None => {
            if cfg.distribution_type == DistributionType::Uniform {
                DensitySource::Uniform
            } else {
                DensitySource::Unchanged
            }
        },
    }
}

/// The width of `transit` after the scenario: the width of the setting that
/// applies to it, or its own width when none does.
pub fn scenario_width<W: Copy>(transit: &Transit<W>, cfg: &TransitionCfg<W>) -> (r: W)
    ensures
        r == width_from(spec_width_source(transit.element, *cfg), transit.width, *cfg),
{
    match transition_width_source(&transit.element, cfg) {
        WidthSource::Unchanged => transit.width,
        WidthSource::DoorwayIn => cfg.doorway_in,
        WidthSource::DoorwayOut => cfg.doorway_out,
        WidthSource::Special(i) => {
            proof {
                lemma_last_special_match(cfg.special@, transit.element.uuid@);
            }
            cfg.special[i].value
        },
    }
}

/// Sets the width of every transit as the scenario says: each transit keeps
/// its element, and gets the width of the setting that applies to it.
pub fn apply_transition_widths<W: Copy>(transits: &mut Vec<Transit<W>>, cfg: &TransitionCfg<W>)
    ensures
        final(transits)@ == transits_with_scenario(old(transits)@, *cfg),
{
    let n: usize = transits.len();
    let mut i: usize = 0;
    while i < n
        invariant
            n == transits@.len(),
            n == old(transits)@.len(),
            0 <= i <= n,
            forall|j: int| 0 <= j < i ==> #[trigger] transits@[j] == transit_with_scenario(old(transits)@[j], *cfg),
            forall|j: int| i <= j < n ==> #[trigger] transits@[j] == old(transits)@[j],
        decreases n - i,
    {
        let w = scenario_width(&transits[i], cfg);
        transits[i].width = w;
        i = i + 1;
    }
    assert(transits@ =~= transits_with_scenario(old(transits)@, *cfg));
}

/// Applying a scenario to the transits a second time changes nothing:
/// which setting applies does not depend on the width, and every setting
/// gives a fixed width.
pub proof fn lemma_transit_widths_idempotent<W>(transits: Seq<Transit<W>>, cfg: TransitionCfg<W>)
    ensures
        transits_with_scenario(transits_with_scenario(transits, cfg), cfg)
            == transits_with_scenario(transits, cfg),
{
    let once = transits_with_scenario(transits, cfg);
    assert(transits_with_scenario(once, cfg) =~= once);
}

/// The density of people that the scenario gives to `zone`, or `None` when
/// its number of people stays as it is.
pub fn scenario_density<D: Copy>(zone: &Element, cfg: &DistributionCfg<D>) -> (r: Option<D>)
    ensures
        r == density_from(spec_density_source(*zone, *cfg), *cfg),
{
    match zone_density_source(zone, cfg) {
        DensitySource::Unchanged => None,
        DensitySource::Uniform => Some(cfg.density),
        DensitySource::Special(i) => {
            proof {
                lemma_last_special_match(cfg.special@, zone.uuid@);
            }
            Some(cfg.special[i].value)
        },
    }
}

/// Sets the widths of the transit copies that every level holds, as the
/// scenario says: each level keeps its zones, and its transits become what
/// [`apply_transition_widths`] makes of them.
pub fn apply_transition_widths_to_levels<Z, W: Copy>(
    levels: &mut Vec<Level<Z, W>>,
    cfg: &TransitionCfg<W>,
)
    ensures
        final(levels)@.len() == old(levels)@.len(),
        forall|i: int|
            0 <= i < old(levels)@.len() ==> {
                &&& (#[trigger] final(levels)@[i]).zones == old(levels)@[i].zones
                &&& final(levels)@[i].transits@ == transits_with_scenario(old(levels)@[i].transits@, *cfg)
            },
{
    let n: usize = levels.len();
    let mut i: usize = 0;
    while i < n
        invariant
            n == levels@.len(),
            n == old(levels)@.len(),
            0 <= i <= n,
            forall|j: int|
                0 <= j < i ==> {
                    &&& (#[trigger] levels@[j]).zones == old(levels)@[j].zones
                    &&& levels@[j].transits@ == transits_with_scenario(old(levels)@[j].transits@, *cfg)
                },
            forall|j: int| i <= j < n ==> #[trigger] levels@[j] == old(levels)@[j],
        decreases n - i,
    {
        apply_transition_widths(&mut levels[i].transits, cfg);
        i = i + 1;
    }
}

/// A special setting lists a uuid exactly when that uuid occurs anywhere in
/// its list of uuids.
pub proof fn lemma_special_lists_is_membership<V>(special: Special<V>, uuid: Seq<char>)
    ensures
        special_lists(special, uuid) <==> exists|j: int|
            0 <= j < special.uuid@.len() && (#[trigger] special.uuid@[j])@ == uuid,
{
    let views = uuid_views(special.uuid@);
    if special_lists(special, uuid) {
        let j: int = choose|j: int| 0 <= j < views.len() && views[j] == uuid;
        assert(special.uuid@[j]@ == uuid);
    }
    if exists|j: int| 0 <= j < special.uuid@.len() && (#[trigger] special.uuid@[j])@ == uuid {
        let j: int = choose|j: int| 0 <= j < special.uuid@.len() && (#[trigger] special.uuid@[j])@ == uuid;
        assert(views[j] == uuid);
    }
}

/// The last special setting that lists `uuid`, stated over the uuid lists
/// themselves: a setting `k` that lists it, with no later setting listing
/// it, is the one found; when no setting lists it, none is found.
proof fn lemma_last_match_by_lists<V>(specials: Seq<Special<V>>, uuid: Seq<char>)
    ensures
        forall|k: int|
            #![trigger specials[k]]
            0 <= k < specials.len()
                && (exists|j: int| 0 <= j < specials[k].uuid@.len() && (#[trigger] specials[k].uuid@[j])@ == uuid)
                && (forall|m: int, j: int|
                    k < m < specials.len() && 0 <= j < specials[m].uuid@.len()
                        ==> (#[trigger] specials[m].uuid@[j])@ != uuid)
                ==> last_special_match(specials, uuid) == Some(k as nat),
        (forall|m: int, j: int|
            0 <= m < specials.len() && 0 <= j < specials[m].uuid@.len()
                ==> (#[trigger] specials[m].uuid@[j])@ != uuid)
            ==> last_special_match(specials, uuid) is None,
{
    lemma_last_special_match(specials, uuid);
    assert forall|m: int| 0 <= m < specials.len() implies
        (special_lists(#[trigger] specials[m], uuid) <==> exists|j: int|
            0 <= j < specials[m].uuid@.len() && (#[trigger] specials[m].uuid@[j])@ == uuid) by {
        lemma_special_lists_is_membership(specials[m], uuid);
    }
    assert forall|k: int|
        #![trigger specials[k]]
        0 <= k < specials.len()
            && (exists|j: int| 0 <= j < specials[k].uuid@.len() && (#[trigger] specials[k].uuid@[j])@ == uuid)
            && (forall|m: int, j: int|
                k < m < specials.len() && 0 <= j < specials[m].uuid@.len()
                    ==> (#[trigger] specials[m].uuid@[j])@ != uuid)
        implies last_special_match(specials, uuid) == Some(k as nat) by {
        assert(special_lists(specials[k], uuid));
        match last_special_match(specials, uuid) {
            Some(i) => {
                if (i as int) < k {
                } else if (i as int) > k {
                    assert(special_lists(specials[i as int], uuid));
                    let j: int = choose|j: int|
                        0 <= j < specials[i as int].uuid@.len() && (#[trigger] specials[i as int].uuid@[j])@ == uuid;
                    assert(specials[i as int].uuid@[j]@ != uuid);
                }
            },
            None => {},
        }
    }
    if forall|m: int, j: int|
        0 <= m < specials.len() && 0 <= j < specials[m].uuid@.len()
            ==> (#[trigger] specials[m].uuid@[j])@ != uuid {
        if let Some(i) = last_special_match(specials, uuid) {
            assert(special_lists(specials[i as int], uuid));
            let j: int = choose|j: int|
                0 <= j < specials[i as int].uuid@.len() && (#[trigger] specials[i as int].uuid@[j])@ == uuid;
            assert(specials[i as int].uuid@[j]@ != uuid);
        }
    }
}

/// Which setting gives a transit its width: the last special setting whose
/// uuid list holds the transit's uuid; when no special setting lists it,
/// the inner-door width for inner doors and the exit width for exits when
/// the scenario sets door widths, and otherwise none.
pub proof fn lemma_width_source_rule<W>(transit: Element, cfg: TransitionCfg<W>)
    ensures
        forall|k: int|
            #![trigger cfg.special@[k]]
            0 <= k < cfg.special@.len()
                && (exists|j: int|
                    0 <= j < cfg.special@[k].uuid@.len() && (#[trigger] cfg.special@[k].uuid@[j])@ == transit.uuid@)
                && (forall|m: int, j: int|
                    k < m < cfg.special@.len() && 0 <= j < cfg.special@[m].uuid@.len()
                        ==> (#[trigger] cfg.special@[m].uuid@[j])@ != transit.uuid@)
                ==> spec_width_source(transit, cfg) == WidthSource::Special(k as usize),
        (forall|m: int, j: int|
            0 <= m < cfg.special@.len() && 0 <= j < cfg.special@[m].uuid@.len()
                ==> (#[trigger] cfg.special@[m].uuid@[j])@ != transit.uuid@)
            ==> {
            &&& (spec_width_source(transit, cfg) == WidthSource::DoorwayIn
                <==> (cfg.transitions_type == TransitionType::Users && transit.sign == ElementSign::DoorWayIn))
            &&& (spec_width_source(transit, cfg) == WidthSource::DoorwayOut
                <==> (cfg.transitions_type == TransitionType::Users && transit.sign == ElementSign::DoorWayOut))
            &&& (spec_width_source(transit, cfg) == WidthSource::Unchanged
                <==> (cfg.transitions_type != TransitionType::Users
                    || (transit.sign != ElementSign::DoorWayIn && transit.sign != ElementSign::DoorWayOut)))
        },
{
    lemma_last_match_by_lists(cfg.special@, transit.uuid@);
    assert(cfg.special@.len() == cfg.special.len());
}

/// The width a transit gets from the scenario, stated over the fields of the
/// scenario: the value of the last special setting whose uuid list holds the
/// transit's uuid; when there is none and the scenario sets door widths,
/// `doorway_in` for an inner door and `doorway_out` for an exit, whatever
/// the number of special settings; otherwise its own width. The transit
/// keeps its element.
pub proof fn lemma_scenario_width_rule<W>(transit: Transit<W>, cfg: TransitionCfg<W>)
    ensures
        transit_with_scenario(transit, cfg).element == transit.element,
        forall|k: int|
            #![trigger cfg.special@[k]]
            0 <= k < cfg.special@.len()
                && (exists|j: int|
                    0 <= j < cfg.special@[k].uuid@.len()
                        && (#[trigger] cfg.special@[k].uuid@[j])@ == transit.element.uuid@)
                && (forall|m: int, j: int|
                    k < m < cfg.special@.len() && 0 <= j < cfg.special@[m].uuid@.len()
                        ==> (#[trigger] cfg.special@[m].uuid@[j])@ != transit.element.uuid@)
                ==> transit_with_scenario(transit, cfg).width == cfg.special@[k].value,
        (forall|m: int, j: int|
            0 <= m < cfg.special@.len() && 0 <= j < cfg.special@[m].uuid@.len()
                ==> (#[trigger] cfg.special@[m].uuid@[j])@ != transit.element.uuid@)
            ==> transit_with_scenario(transit, cfg).width == (
            if cfg.transitions_type == TransitionType::Users && transit.element.sign == ElementSign::DoorWayIn {
                cfg.doorway_in
            } else if cfg.transitions_type == TransitionType::Users && transit.element.sign
                == ElementSign::DoorWayOut {
                cfg.doorway_out
            } else {
                transit.width
            }),
{
    lemma_last_match_by_lists(cfg.special@, transit.element.uuid@);
    assert(cfg.special@.len() == cfg.special.len());
}

/// Setting the widths of a list of transits sets each one on its own: the
/// list keeps its length, and each position holds what the scenario makes of
/// the transit that stood there.
pub proof fn lemma_transits_with_scenario_pointwise<W>(transits: Seq<Transit<W>>, cfg: TransitionCfg<W>)
    ensures
        transits_with_scenario(transits, cfg).len() == transits.len(),
        forall|i: int|
            0 <= i < transits.len() ==> #[trigger] transits_with_scenario(transits, cfg)[i]
                == transit_with_scenario(transits[i], cfg),
{
}

/// Which setting gives a zone its density: none for the outside zone;
/// otherwise the last special setting whose uuid list holds the zone's uuid;
/// when there is none, the uniform density exactly when the distribution is
/// uniform, and otherwise none, whatever the kind of the zone.
pub proof fn lemma_density_source_rule<D>(zone: Element, cfg: DistributionCfg<D>)
    ensures
        zone.sign == ElementSign::Outside ==> spec_density_source(zone, cfg) == DensitySource::Unchanged,
        forall|k: int|
            #![trigger cfg.special@[k]]
            zone.sign != ElementSign::Outside && 0 <= k < cfg.special@.len()
                && (exists|j: int|
                    0 <= j < cfg.special@[k].uuid@.len() && (#[trigger] cfg.special@[k].uuid@[j])@ == zone.uuid@)
                && (forall|m: int, j: int|
                    k < m < cfg.special@.len() && 0 <= j < cfg.special@[m].uuid@.len()
                        ==> (#[trigger] cfg.special@[m].uuid@[j])@ != zone.uuid@)
                ==> spec_density_source(zone, cfg) == DensitySource::Special(k as usize),
        zone.sign != ElementSign::Outside && (forall|m: int, j: int|
            0 <= m < cfg.special@.len() && 0 <= j < cfg.special@[m].uuid@.len()
                ==> (#[trigger] cfg.special@[m].uuid@[j])@ != zone.uuid@)
            ==> (spec_density_source(zone, cfg) == DensitySource::Uniform
                <==> cfg.distribution_type == DistributionType::Uniform)
                && (spec_density_source(zone, cfg) == DensitySource::Unchanged
                <==> cfg.distribution_type == DistributionType::FromBim),
        spec_density_source(zone, cfg) == DensitySource::Uniform ==> cfg.distribution_type
            == DistributionType::Uniform,
{
    lemma_last_match_by_lists(cfg.special@, zone.uuid@);
    assert(cfg.special@.len() == cfg.special.len());
}

/// The density a zone gets from the scenario, stated over the fields of the
/// scenario: none for the outside zone; otherwise the value of the last
/// special setting whose uuid list holds the zone's uuid; when there is none,
/// `density` when the distribution is uniform and none when it comes from
/// the building description.
pub proof fn lemma_scenario_density_rule<D>(zone: Element, cfg: DistributionCfg<D>)
    ensures
        zone.sign == ElementSign::Outside ==> density_from(spec_density_source(zone, cfg), cfg) is None,
        forall|k: int|
            #![trigger cfg.special@[k]]
            zone.sign != ElementSign::Outside && 0 <= k < cfg.special@.len()
                && (exists|j: int|
                    0 <= j < cfg.special@[k].uuid@.len() && (#[trigger] cfg.special@[k].uuid@[j])@ == zone.uuid@)
                && (forall|m: int, j: int|
                    k < m < cfg.special@.len() && 0 <= j < cfg.special@[m].uuid@.len()
                        ==> (#[trigger] cfg.special@[m].uuid@[j])@ != zone.uuid@)
                ==> density_from(spec_density_source(zone, cfg), cfg) == Some(cfg.special@[k].value),
        zone.sign != ElementSign::Outside && (forall|m: int, j: int|
            0 <= m < cfg.special@.len() && 0 <= j < cfg.special@[m].uuid@.len()
                ==> (#[trigger] cfg.special@[m].uuid@[j])@ != zone.uuid@)
            ==> density_from(spec_density_source(zone, cfg), cfg) == (
            if cfg.distribution_type == DistributionType::Uniform {
                Some(cfg.density)
            } else {
                None
            }),
{
    lemma_last_match_by_lists(cfg.special@, zone.uuid@);
    assert(cfg.special@.len() == cfg.special.len());
}

} // verus!
