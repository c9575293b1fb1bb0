use strecken_info::details::{disruption_from_response, DetailsRequest, DetailsResponse};
use strecken_info::disruption::{Disruption, Event, Location, Region};
use strecken_info::error::StreckenInfoError;
use strecken_info::geo_pos::{
    disruptions_from_response, Edge, GeoPosCommon, GeoPosRequest, GeoPosResponse, MsgEvent, Pos,
};
use strecken_info::request::{
    position_of_answer, FullRequest, RequestType, Response, ResponseType, ServiceKind,
};
use strecken_info::time::{Date, DateTime, Time};

fn date(year: i32, month: u32, day: u32) -> Date {
    Date { year, month, day }
}

fn time(hour: u32, minute: u32, second: u32) -> Time {
    Time { hour, minute, second, nanosecond: 0 }
}

fn hafas_disruption(id: &str, edges: Vec<u16>, regions: Vec<u16>, events: Vec<u16>) -> Disruption {
    Disruption {
        act: true,
        planned: false,
        display_head: true,
        start_date: date(2023, 11, 19),
        start_time: time(8, 0, 0),
        end_date: date(2023, 11, 20),
        end_time: time(18, 0, 0),
        id: id.to_string(),
        last_modified_date: date(2023, 11, 18),
        last_modified_time: time(12, 0, 0),
        prio: 50,
        affected_regions: None,
        head: "head".to_string(),
        text: None,
        impact: None,
        affected_journeys: None,
        edge_ref_l: edges,
        region_ref_l: regions,
        event_ref_l: events,
        locations: vec![],
        regions: vec![],
        events: vec![],
    }
}

fn location(name: &str) -> Location {
    Location {
        lid: format!("L={name}"),
        type_: "S".to_string(),
        name: name.to_string(),
        ext_id: "1".to_string(),
    }
}

fn common(disruptions: Vec<Disruption>) -> GeoPosCommon {
    GeoPosCommon {
        disruptions,
        locations: vec![location("Berlin"), location("Hamburg")],
        regions: vec![Region { name: "Nord".to_string() }],
        edges: vec![Edge { f_loc_x: 0, f_loc_y: Some(1) }, Edge { f_loc_x: 1, f_loc_y: None }],
        msg_events: vec![MsgEvent {
            f_date: date(2023, 11, 19),
            f_time: time(8, 0, 0),
            t_date: date(2023, 11, 20),
            t_time: time(18, 30, 0),
        }],
    }
}

#[test]
fn pos_new_keeps_coordinates() {
    let p = Pos::new(3, 4);
    assert_eq!((p.x, p.y), (3, 4));
}

#[test]
fn link_resolves_every_reference() {
    let mut c = common(vec![
        hafas_disruption("a", vec![0, 1], vec![0], vec![0]),
        hafas_disruption("b", vec![], vec![], vec![]),
    ]);
    assert!(c.link().is_ok());
    let a = &c.disruptions[0];
    assert_eq!(a.locations.len(), 2);
    assert_eq!(a.locations[0].from.name, "Berlin");
    assert_eq!(a.locations[0].to.as_ref().map(|l| l.name.clone()), Some("Hamburg".to_string()));
    assert_eq!(a.locations[1].from.name, "Hamburg");
    assert!(a.locations[1].to.is_none());
    assert_eq!(a.regions.len(), 1);
    assert_eq!(a.regions[0].name, "Nord");
    assert_eq!(
        a.events,
        vec![Event {
            start_time: DateTime { date: date(2023, 11, 19), time: time(8, 0, 0) },
            end_time: DateTime { date: date(2023, 11, 20), time: time(18, 30, 0) },
        }]
    );
    assert!(c.disruptions[1].locations.is_empty());
}

#[test]
fn link_refuses_broken_references() {
    let mut c = common(vec![hafas_disruption("a", vec![2], vec![], vec![])]);
    assert!(matches!(c.link(), Err(StreckenInfoError::ReferenceError)));
    let mut c = common(vec![hafas_disruption("a", vec![], vec![1], vec![])]);
    assert!(matches!(c.link(), Err(StreckenInfoError::ReferenceError)));
    let mut c = common(vec![hafas_disruption("a", vec![], vec![], vec![1])]);
    assert!(matches!(c.link(), Err(StreckenInfoError::ReferenceError)));
    let mut c = common(vec![hafas_disruption("a", vec![0], vec![], vec![])]);
    c.edges[0].f_loc_y = Some(7);
    assert!(matches!(c.link(), Err(StreckenInfoError::ReferenceError)));
    let mut c = common(vec![hafas_disruption("a", vec![0], vec![], vec![])]);
    c.edges[0].f_loc_x = 9;
    assert!(matches!(c.link(), Err(StreckenInfoError::ReferenceError)));
}

fn geo_answer(err: &str, disruptions: Vec<Disruption>) -> ResponseType {
    ResponseType::HimGeoPos { res: GeoPosResponse { common: common(disruptions) }, err: err.to_string() }
}

fn details_answer(err: &str, disruptions: Vec<Disruption>) -> ResponseType {
    ResponseType::HimDetails { res: DetailsResponse { common: common(disruptions) }, err: err.to_string() }
}

#[test]
fn geo_pos_answer_yields_linked_disruptions() {
    let response = Response {
        response: vec![
            details_answer("OK", vec![]),
            geo_answer("OK", vec![hafas_disruption("a", vec![1], vec![], vec![])]),
            geo_answer("FAIL", vec![]),
        ],
    };
    let ds = disruptions_from_response(response).unwrap();
    assert_eq!(ds.len(), 1);
    assert_eq!(ds[0].id, "a");
    assert_eq!(ds[0].locations[0].from.name, "Hamburg");
}

#[test]
fn geo_pos_answer_errors() {
    let none = Response { response: vec![details_answer("OK", vec![])] };
    assert!(matches!(disruptions_from_response(none), Err(StreckenInfoError::InvalidResponse)));
    let empty = Response { response: vec![] };
    assert!(matches!(disruptions_from_response(empty), Err(StreckenInfoError::InvalidResponse)));
    let failed = Response { response: vec![geo_answer("H890", vec![])] };
    match disruptions_from_response(failed) {
        Err(StreckenInfoError::ResponseError(e)) => assert_eq!(e, "H890"),
        _ => panic!("expected a response error"),
    }
    let broken = Response { response: vec![geo_answer("OK", vec![hafas_disruption("a", vec![5], vec![], vec![])])] };
    assert!(matches!(disruptions_from_response(broken), Err(StreckenInfoError::ReferenceError)));
}

#[test]
fn details_answer_yields_first_disruption() {
    let response = Response {
        response: vec![
            geo_answer("OK", vec![]),
            details_answer(
                "OK",
                vec![
                    hafas_disruption("first", vec![0], vec![0], vec![]),
                    hafas_disruption("second", vec![], vec![], vec![]),
                ],
            ),
        ],
    };
    let d = disruption_from_response(response).unwrap().unwrap();
    assert_eq!(d.id, "first");
    assert_eq!(d.locations.len(), 1);
    assert_eq!(d.regions[0].name, "Nord");

    let empty = Response { response: vec![details_answer("OK", vec![])] };
    assert!(disruption_from_response(empty).unwrap().is_none());
    let none = Response { response: vec![geo_answer("OK", vec![])] };
    assert!(matches!(disruption_from_response(none), Err(StreckenInfoError::InvalidResponse)));
    let failed = Response { response: vec![details_answer("ERR", vec![])] };
    assert!(matches!(disruption_from_response(failed), Err(StreckenInfoError::ResponseError(e)) if e == "ERR"));
}

#[test]
fn geo_pos_request_formats_moments_and_defaults_to_germany() {
    let start = DateTime { date: date(2023, 11, 9), time: time(7, 5, 0) };
    let end = DateTime { date: date(2024, 1, 1), time: time(23, 59, 59) };
    let req = GeoPosRequest::new(start, end, 100, 90, None);
    assert_eq!(req.date_b, "20231109");
    assert_eq!(req.time_b, "070500");
    assert_eq!(req.date_e, "20240101");
    assert_eq!(req.time_e, "235959");
    assert_eq!(req.max_num, 100);
    assert_eq!(req.prio, 90);
    assert!(!req.get_poly_line);
    assert!(!req.only_him_id);
    assert_eq!(req.rect.ll_crd, Pos::new(5383300, 48026672));
    assert_eq!(req.rect.ur_crd, Pos::new(14238281, 54156001));
    assert_eq!(req.him_fltr_l.len(), 2);
    assert_eq!(req.him_fltr_l[0].mode, "INC");
    assert_eq!(req.him_fltr_l[0].type_, "HIMCAT");
    assert_eq!(req.him_fltr_l[0].value, "0");
    assert_eq!(req.him_fltr_l[1].value, "1");

    let req = GeoPosRequest::new(start, end, 10, 100, Some((Pos::new(1, 2), Pos::new(3, 4))));
    assert_eq!(req.rect.ll_crd, Pos::new(1, 2));
    assert_eq!(req.rect.ur_crd, Pos::new(3, 4));
}

#[test]
fn details_request_formats_moment() {
    let at = DateTime { date: date(2023, 11, 19), time: time(14, 3, 2) };
    let req = DetailsRequest::new("HIM_FREITEXT_1", true, at);
    assert_eq!(req.input, "HIM_FREITEXT_1");
    assert!(req.get_trains);
    assert_eq!(req.date, "20231119");
    assert_eq!(req.time, "140302");
}

#[test]
fn full_request_wraps_one_service() {
    let at = DateTime { date: date(2023, 11, 19), time: time(14, 3, 2) };
    let full = FullRequest::new(RequestType::HimDetails { req: DetailsRequest::new("x", false, at) });
    assert_eq!(full.auth.aid, "hf7mcf9bv3nv8g5f");
    assert_eq!(full.auth.type_, "AID");
    assert_eq!(full.client.id, "DBZUGRADARNETZ");
    assert_eq!(full.client.name, "webapp");
    assert_eq!(full.client.type_, "WEB");
    assert_eq!(full.client.v, "0.1.0");
    assert_eq!(full.ext, "DBNETZZUGRADAR.2");
    assert!(!full.formatted);
    assert_eq!(full.lang, "deu");
    assert_eq!(full.ver, "1.15");
    assert_eq!(full.svc_req_l.len(), 1);
    assert!(full.svc_req_l[0].cfg.cfg_grp_l.is_empty());
    assert_eq!(full.svc_req_l[0].cfg.cfg_hash, "i74dckao7PmBwS0rbk0p");
    assert!(matches!(&full.svc_req_l[0].request, RequestType::HimDetails { req } if req.input == "x"));
}

#[test]
fn first_answer_of_a_service_is_found() {
    let answers = vec![details_answer("OK", vec![]), geo_answer("OK", vec![]), details_answer("OK", vec![])];
    assert_eq!(position_of_answer(&answers, ServiceKind::Details), Some(0));
    assert_eq!(position_of_answer(&answers, ServiceKind::GeoPos), Some(1));
    assert_eq!(position_of_answer(&vec![], ServiceKind::GeoPos), None);
}

#[test]
fn failed_link_leaves_a_partial_state() {
    let mut c = common(vec![
        hafas_disruption("a", vec![0], vec![0], vec![0]),
        hafas_disruption("b", vec![1, 0], vec![0, 4], vec![0]),
        hafas_disruption("c", vec![0], vec![], vec![]),
    ]);
    assert!(matches!(c.link(), Err(StreckenInfoError::ReferenceError)));
    // the first disruption is linked completely
    assert_eq!(c.disruptions[0].locations.len(), 1);
    assert_eq!(c.disruptions[0].regions.len(), 1);
    assert_eq!(c.disruptions[0].events.len(), 1);
    // the second got its edges and the regions before the broken one
    assert_eq!(c.disruptions[1].locations.len(), 2);
    assert_eq!(c.disruptions[1].regions.len(), 1);
    assert!(c.disruptions[1].events.is_empty());
    // the third is untouched
    assert!(c.disruptions[2].locations.is_empty());

    let mut c = common(vec![hafas_disruption("a", vec![0], vec![], vec![])]);
    c.locations.truncate(1);
    assert!(matches!(c.link(), Err(StreckenInfoError::ReferenceError)));
    assert!(c.disruptions[0].locations.is_empty());
}
