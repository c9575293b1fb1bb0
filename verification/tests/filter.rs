use strecken_info::disruptions::{
    dedup_disruption_stations, dedup_stations, Disruption, DisruptionPeriod,
    DisruptionRequestPayload, DisruptionStation, TrackRestriction,
};
use strecken_info::filter::{DisruptionsFilter, DisruptionsFilterTime, RegionArea};
use strecken_info::time::{Date, DateTime, Time};

#[test]
fn default_filter_asks_for_the_next_two_hours_everywhere() {
    let f = DisruptionsFilter::default();
    assert!(f.construction_sites);
    assert!(!f.construction_sites_only_full_closures);
    assert!(f.stations.is_empty());
    assert_eq!(
        f.region_areas,
        vec![
            RegionArea::Middle,
            RegionArea::North,
            RegionArea::East,
            RegionArea::South,
            RegionArea::SouthEast,
            RegionArea::SouthWest,
            RegionArea::West
        ]
    );
    assert!(f.disruptions);
    assert!(f.railway_line_numbers.is_empty());
    assert!(f.railway_line_rest);
    assert_eq!(f.duration_of_effect, 0);
    assert!(matches!(f.time, DisruptionsFilterTime::Hours { hours: 2 }));
}

fn station(name: &str, ril100: &str) -> DisruptionStation {
    DisruptionStation { name: name.to_string(), ril100: ril100.to_string() }
}

#[test]
fn payload_keeps_filter_and_revision() {
    let p = DisruptionRequestPayload::new(DisruptionsFilter::default(), 42);
    assert_eq!(p.revision, 42);
    assert_eq!(p.filter.duration_of_effect, 0);
}

#[test]
fn consecutive_station_names_collapse() {
    let stations = vec![
        station("A", "1"),
        station("A", "2"),
        station("B", "3"),
        station("A", "4"),
        station("A", "5"),
        station("A", "6"),
        station("C", "7"),
    ];
    let deduped = dedup_stations(&stations);
    assert_eq!(deduped, vec![station("A", "1"), station("B", "3"), station("A", "4"), station("C", "7")]);
    assert_eq!(dedup_stations(&Vec::new()), Vec::<DisruptionStation>::new());
    let distinct = vec![station("A", "1"), station("B", "2")];
    assert_eq!(dedup_stations(&distinct), distinct);
}

fn moment() -> DateTime {
    DateTime { date: Date { year: 2023, month: 1, day: 1 }, time: Time { hour: 0, minute: 0, second: 0, nanosecond: 0 } }
}

fn rest_disruption(key: &str, stations: Vec<DisruptionStation>) -> Disruption {
    Disruption {
        key: key.to_string(),
        subcause: None,
        cause: "cause".to_string(),
        expired: false,
        track_restriction: TrackRestriction::Slight,
        text: "text".to_string(),
        region_areas: vec![],
        regions: vec![],
        coordinates: vec![],
        stations,
        sections: vec![],
        effects: vec![],
        period: DisruptionPeriod { start: moment(), end: moment() },
        collective_report: false,
    }
}

#[test]
fn every_disruption_loses_repeated_stations() {
    let mut ds = vec![
        rest_disruption("x", vec![station("A", "1"), station("A", "2")]),
        rest_disruption("y", vec![station("B", "1"), station("C", "2"), station("C", "3")]),
    ];
    dedup_disruption_stations(&mut ds);
    assert_eq!(ds.len(), 2);
    assert_eq!(ds[0].key, "x");
    assert_eq!(ds[0].stations, vec![station("A", "1")]);
    assert_eq!(ds[1].stations, vec![station("B", "1"), station("C", "2")]);
}
