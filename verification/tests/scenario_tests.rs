use bim_evac::element::{Element, ElementSign};
use bim_evac::scenario::{
    apply_transition_widths, apply_transition_widths_to_levels, find_last_special, scenario_density, scenario_width, Level, transition_width_source,
    zone_density_source, DensitySource, DistributionCfg, DistributionType, Special, Transit,
    TransitionCfg, TransitionType, WidthSource,
};

fn element(id: u64, uuid: &str, sign: ElementSign) -> Element {
    Element { id, uuid: String::from(uuid), sign }
}

fn special<V>(uuids: &[&str], value: V) -> Special<V> {
    Special { uuid: uuids.iter().map(|u| String::from(*u)).collect(), value }
}

fn transition_cfg(transitions_type: TransitionType) -> TransitionCfg<f64> {
    TransitionCfg {
        transitions_type,
        doorway_in: 1.2,
        doorway_out: 2.4,
        special: vec![
            special(&["{d1}", "{d2}"], 0.9),
            special(&["{d3}"], 1.5),
            special(&["{d2}"], 3.0),
        ],
    }
}

fn distribution_cfg(distribution_type: DistributionType) -> DistributionCfg<f64> {
    DistributionCfg {
        distribution_type,
        density: 0.5,
        special: vec![special(&["{z1}"], 1.0), special(&["{z2}", "{z1}"], 2.0)],
    }
}

#[test]
fn find_last_special_returns_last_listing() {
    let cfg = transition_cfg(TransitionType::Users);
    assert_eq!(find_last_special(&cfg.special, &String::from("{d1}")), Some(0));
    assert_eq!(find_last_special(&cfg.special, &String::from("{d2}")), Some(2));
    assert_eq!(find_last_special(&cfg.special, &String::from("{d3}")), Some(1));
    assert_eq!(find_last_special(&cfg.special, &String::from("{d4}")), None);
}

#[test]
fn find_last_special_on_empty_list() {
    let specials: Vec<Special<f64>> = Vec::new();
    assert_eq!(find_last_special(&specials, &String::from("{d1}")), None);
}

#[test]
fn users_door_rule_by_kind() {
    let cfg = transition_cfg(TransitionType::Users);
    let inner = element(1, "{x}", ElementSign::DoorWayIn);
    let exit = element(2, "{y}", ElementSign::DoorWayOut);
    let way = element(3, "{w}", ElementSign::DoorWay);
    assert_eq!(transition_width_source(&inner, &cfg), WidthSource::DoorwayIn);
    assert_eq!(transition_width_source(&exit, &cfg), WidthSource::DoorwayOut);
    assert_eq!(transition_width_source(&way, &cfg), WidthSource::Unchanged);
}

#[test]
fn bim_widths_are_kept_without_specials() {
    let cfg = transition_cfg(TransitionType::FromBim);
    let inner = element(1, "{x}", ElementSign::DoorWayIn);
    let exit = element(2, "{y}", ElementSign::DoorWayOut);
    assert_eq!(transition_width_source(&inner, &cfg), WidthSource::Unchanged);
    assert_eq!(transition_width_source(&exit, &cfg), WidthSource::Unchanged);
}

#[test]
fn special_overrides_door_rule_and_last_special_wins() {
    let cfg = transition_cfg(TransitionType::Users);
    let exit = element(2, "{d2}", ElementSign::DoorWayOut);
    assert_eq!(transition_width_source(&exit, &cfg), WidthSource::Special(2));
    let bim_cfg = transition_cfg(TransitionType::FromBim);
    let way = element(3, "{d3}", ElementSign::DoorWay);
    assert_eq!(transition_width_source(&way, &bim_cfg), WidthSource::Special(1));
}

#[test]
fn scenario_width_values() {
    let cfg = transition_cfg(TransitionType::Users);
    let t = |uuid: &str, sign: ElementSign, width: f64| Transit { element: element(1, uuid, sign), width };
    assert_eq!(scenario_width(&t("{x}", ElementSign::DoorWayIn, 0.8), &cfg), 1.2);
    assert_eq!(scenario_width(&t("{x}", ElementSign::DoorWayOut, 0.8), &cfg), 2.4);
    assert_eq!(scenario_width(&t("{x}", ElementSign::DoorWay, 0.8), &cfg), 0.8);
    assert_eq!(scenario_width(&t("{d1}", ElementSign::DoorWayOut, 0.8), &cfg), 0.9);
    assert_eq!(scenario_width(&t("{d2}", ElementSign::DoorWayIn, 0.8), &cfg), 3.0);
}

#[test]
fn apply_transition_widths_sets_each_transit() {
    let cfg = transition_cfg(TransitionType::Users);
    let mut transits = vec![
        Transit { element: element(1, "{a}", ElementSign::DoorWayIn), width: 0.7 },
        Transit { element: element(2, "{b}", ElementSign::DoorWayOut), width: 0.7 },
        Transit { element: element(3, "{c}", ElementSign::DoorWay), width: 0.7 },
        Transit { element: element(4, "{d3}", ElementSign::DoorWay), width: 0.7 },
    ];
    apply_transition_widths(&mut transits, &cfg);
    let widths: Vec<f64> = transits.iter().map(|t| t.width).collect();
    assert_eq!(widths, vec![1.2, 2.4, 0.7, 1.5]);
    let ids: Vec<u64> = transits.iter().map(|t| t.element.id).collect();
    assert_eq!(ids, vec![1, 2, 3, 4]);
}

#[test]
fn apply_transition_widths_twice_changes_nothing() {
    let cfg = transition_cfg(TransitionType::Users);
    let mut transits = vec![
        Transit { element: element(1, "{a}", ElementSign::DoorWayIn), width: 0.7 },
        Transit { element: element(2, "{d2}", ElementSign::DoorWay), width: 0.3 },
        Transit { element: element(3, "{c}", ElementSign::Room), width: 0.1 },
    ];
    apply_transition_widths(&mut transits, &cfg);
    let once: Vec<f64> = transits.iter().map(|t| t.width).collect();
    apply_transition_widths(&mut transits, &cfg);
    let twice: Vec<f64> = transits.iter().map(|t| t.width).collect();
    assert_eq!(once, twice);
    assert_eq!(once, vec![1.2, 3.0, 0.1]);
}

#[test]
fn apply_transition_widths_on_empty_building() {
    let cfg = transition_cfg(TransitionType::Users);
    let mut transits: Vec<Transit<f64>> = Vec::new();
    apply_transition_widths(&mut transits, &cfg);
    assert!(transits.is_empty());
}

#[test]
fn outside_zone_never_gets_a_density() {
    let cfg = distribution_cfg(DistributionType::Uniform);
    let outside = element(9, "{z1}", ElementSign::Outside);
    assert_eq!(zone_density_source(&outside, &cfg), DensitySource::Unchanged);
}

#[test]
fn uniform_distribution_and_specials() {
    let cfg = distribution_cfg(DistributionType::Uniform);
    let room = element(1, "{r}", ElementSign::Room);
    let stair = element(2, "{s}", ElementSign::Staircase);
    let z1 = element(3, "{z1}", ElementSign::Room);
    let z2 = element(4, "{z2}", ElementSign::Room);
    assert_eq!(zone_density_source(&room, &cfg), DensitySource::Uniform);
    assert_eq!(zone_density_source(&stair, &cfg), DensitySource::Uniform);
    assert_eq!(zone_density_source(&z1, &cfg), DensitySource::Special(1));
    assert_eq!(zone_density_source(&z2, &cfg), DensitySource::Special(1));
}

#[test]
fn bim_distribution_keeps_numbers_except_specials() {
    let cfg = distribution_cfg(DistributionType::FromBim);
    let room = element(1, "{r}", ElementSign::Room);
    let z1 = element(3, "{z1}", ElementSign::Room);
    assert_eq!(zone_density_source(&room, &cfg), DensitySource::Unchanged);
    assert_eq!(zone_density_source(&z1, &cfg), DensitySource::Special(1));
}

#[test]
fn scenario_density_values() {
    let uniform = distribution_cfg(DistributionType::Uniform);
    let bim = distribution_cfg(DistributionType::FromBim);
    let room = element(1, "{r}", ElementSign::Room);
    let z1 = element(3, "{z1}", ElementSign::Staircase);
    let outside = element(9, "{z2}", ElementSign::Outside);
    assert_eq!(scenario_density(&room, &uniform), Some(0.5));
    assert_eq!(scenario_density(&z1, &uniform), Some(2.0));
    assert_eq!(scenario_density(&outside, &uniform), None);
    assert_eq!(scenario_density(&room, &bim), None);
    assert_eq!(scenario_density(&z1, &bim), Some(2.0));
}

#[test]
fn apply_transition_widths_to_every_level() {
    let cfg = transition_cfg(TransitionType::Users);
    let mut levels: Vec<Level<u32, f64>> = vec![
        Level {
            zones: vec![1, 2],
            transits: vec![
                Transit { element: element(1, "{a}", ElementSign::DoorWayIn), width: 0.7 },
                Transit { element: element(2, "{d1}", ElementSign::DoorWayOut), width: 0.7 },
            ],
        },
        Level { zones: vec![3], transits: Vec::new() },
        Level {
            zones: Vec::new(),
            transits: vec![Transit { element: element(3, "{c}", ElementSign::Staircase), width: 0.4 }],
        },
    ];
    apply_transition_widths_to_levels(&mut levels, &cfg);
    assert_eq!(levels.len(), 3);
    let widths: Vec<Vec<f64>> =
        levels.iter().map(|l| l.transits.iter().map(|t| t.width).collect()).collect();
    assert_eq!(widths, vec![vec![1.2, 0.9], vec![], vec![0.4]]);
    let zones: Vec<Vec<u32>> = levels.iter().map(|l| l.zones.clone()).collect();
    assert_eq!(zones, vec![vec![1, 2], vec![3], vec![]]);
}
