use flowers::handlers::{
    add_flower_step, bad_request, creation_response, creation_step, deletion_response,
    flower_list_response, flower_response, AddStep, Body, Response,
};
use flowers::model::{Flower, NewFlower};
use flowers::store::{StoreError, LIST_LIMIT};
use flowers::uid::{Uid, UidError};

fn astilbe() -> NewFlower {
    NewFlower {
        flw_source: String::from("http://www.gardening.cornell.edu/homegardening/scenecea9.html"),
        flw_name: String::from("Astilbe, Chinese"),
        flw_img: String::from("http://www.gardening.cornell.edu/homegardening/images/garden/photos_garden/Saxifragaceae/Astilbe/chinensis/whole.jpg"),
        flw_family: String::from("Herbaceous Perennial Flower"),
        flw_season: String::from("Summer"),
        flw_desc: String::from("Deceptively delicate in appearance this moisture- and sem"),
        flw_site_chars: String::from("Prefers shady, moist sites, but needs good drainage over winter."),
        flw_plant_traits: String::from("Most varieties grow about 1.5 to 3 feet tall. 'Davidii' grows up to 6 feet tall."),
        flw_special_cons: String::from("bears ornamental fruit - Spent flowers are attractive and can be left until spring."),
        flw_growing_infos: String::from("Propagate by division"),
        flw_varieties: String::from("var. davidii grows 3 to 6 feet tall with deep green leaves heavily"),
    }
}

fn counting_uid() -> Uid {
    Uid { bytes: [0, 1, 2, 3, 4, 5, 6, 7, 8, 9, 10, 11, 12, 13, 14, 15] }
}

fn row_named(id: &str, name: &str) -> Flower {
    let mut f = Flower::from_new(&astilbe(), String::from(id));
    f.flw_name = String::from(name);
    f
}

fn inserted_row(step: AddStep) -> Flower {
    match step {
        AddStep::Insert(row) => row,
        AddStep::Respond(r) => panic!("expected an insert, got status {}", r.status),
    }
}

fn body_flower(r: &Response) -> &Flower {
    match &r.body {
        Body::Flower(f) => f,
        _ => panic!("expected one record"),
    }
}

#[test]
fn flower_routes() {
    // POST /flower with a name the table does not hold
    let step = add_flower_step(astilbe(), Ok(None));
    let row = inserted_row(step);
    let resp = creation_response(row.clone(), Ok(1));
    assert_eq!(resp.status, 200);
    let created = body_flower(&resp).clone();
    assert_eq!(created.flw_name, "Astilbe, Chinese");

    // GET /flower/{id}
    let uid = Uid::parse(&created.flw_id).unwrap();
    let resp = flower_response(&uid, Ok(Some(row.clone())));
    assert_eq!(resp.status, 200);
    assert_eq!(body_flower(&resp).flw_name, "Astilbe, Chinese");

    // DELETE /flower/{id}
    let resp = deletion_response(&uid, Ok(1));
    assert_eq!(resp.status, 200);
    match resp.body {
        Body::Deletion { flw_uid, status } => {
            assert_eq!(created.flw_id, flw_uid);
            assert_eq!("deleted", status);
        }
        _ => panic!("expected a deletion body"),
    }
}

#[test]
fn created_record_has_fresh_random_identifier() {
    let a = inserted_row(add_flower_step(astilbe(), Ok(None)));
    let b = inserted_row(add_flower_step(astilbe(), Ok(None)));
    assert_eq!(a.flw_id.len(), 36);
    assert_eq!(a.flw_id.as_bytes()[14], b'4');
    assert!(matches!(a.flw_id.as_bytes()[19], b'8' | b'9' | b'a' | b'b'));
    assert_ne!(a.flw_id, b.flw_id);
    assert!(Uid::parse(&a.flw_id).is_ok());
}

#[test]
fn created_record_keeps_supplied_fields() {
    let row = inserted_row(creation_step(astilbe(), Ok(None), counting_uid()));
    let n = astilbe();
    assert_eq!(row.flw_id, "00010203-0405-0607-0809-0a0b0c0d0e0f");
    assert_eq!(row.flw_source, n.flw_source);
    assert_eq!(row.flw_name, n.flw_name);
    assert_eq!(row.flw_img, n.flw_img);
    assert_eq!(row.flw_family, n.flw_family);
    assert_eq!(row.flw_season, n.flw_season);
    assert_eq!(row.flw_desc, n.flw_desc);
    assert_eq!(row.flw_site_chars, n.flw_site_chars);
    assert_eq!(row.flw_plant_traits, n.flw_plant_traits);
    assert_eq!(row.flw_special_cons, n.flw_special_cons);
    assert_eq!(row.flw_growing_infos, n.flw_growing_infos);
    assert_eq!(row.flw_varieties, n.flw_varieties);
}

#[test]
fn existing_name_answers_see_other_with_existing_record() {
    let existing = row_named("11111111-2222-4333-8444-555555555555", "Astilbe, Chinese");
    let step = add_flower_step(astilbe(), Ok(Some(existing)));
    match step {
        AddStep::Respond(r) => {
            assert_eq!(r.status, 303);
            assert_eq!(body_flower(&r).flw_id, "11111111-2222-4333-8444-555555555555");
        }
        AddStep::Insert(_) => panic!("a duplicate name must not be inserted"),
    }
}

#[test]
fn created_then_found_is_same_record() {
    let row = inserted_row(creation_step(astilbe(), Ok(None), counting_uid()));
    let uid = Uid::parse(&row.flw_id).unwrap();
    assert_eq!(uid, counting_uid());
    let resp = flower_response(&uid, Ok(Some(row.clone())));
    assert_eq!(resp.status, 200);
    let found = body_flower(&resp);
    assert_eq!(found.flw_id, row.flw_id);
    assert_eq!(found.flw_name, row.flw_name);
    assert_eq!(found.flw_varieties, row.flw_varieties);
}

#[test]
fn missing_flower_is_not_found() {
    let resp = flower_response(&counting_uid(), Ok(None));
    assert_eq!(resp.status, 404);
    match resp.body {
        Body::Text(t) => assert_eq!(t, "No flower found with uid: 00010203-0405-0607-0809-0a0b0c0d0e0f"),
        _ => panic!("expected plain text"),
    }
}

#[test]
fn deleting_missing_flower_still_succeeds() {
    let resp = deletion_response(&counting_uid(), Ok(0));
    assert_eq!(resp.status, 200);
    match resp.body {
        Body::Deletion { flw_uid, status } => {
            assert_eq!(flw_uid, "00010203-0405-0607-0809-0a0b0c0d0e0f");
            assert_eq!(status, "deleted");
        }
        _ => panic!("expected a deletion body"),
    }
}

#[test]
fn store_failures_answer_server_error() {
    for e in [StoreError::PoolExhausted, StoreError::Query] {
        let r = flower_list_response(Err(e));
        assert_eq!(r.status, 500);
        assert!(matches!(r.body, Body::Empty));
        assert_eq!(flower_response(&counting_uid(), Err(e)).status, 500);
        assert_eq!(deletion_response(&counting_uid(), Err(e)).status, 500);
        let row = Flower::from_new(&astilbe(), String::from("x"));
        assert_eq!(creation_response(row, Err(e)).status, 500);
        match add_flower_step(astilbe(), Err(e)) {
            AddStep::Respond(r) => assert_eq!(r.status, 500),
            AddStep::Insert(_) => panic!("nothing is inserted after a failed lookup"),
        }
    }
}

fn rows(n: usize) -> Vec<Flower> {
    (0..n).map(|i| row_named(&format!("id-{}", i), &format!("flower {}", i))).collect()
}

fn listed(r: Response) -> Vec<Flower> {
    assert_eq!(r.status, 200);
    match r.body {
        Body::Flowers(v) => v,
        _ => panic!("expected an array"),
    }
}

#[test]
fn list_never_exceeds_limit() {
    assert_eq!(LIST_LIMIT, 10);
    let out = listed(flower_list_response(Ok(rows(12))));
    assert_eq!(out.len(), 10);
    assert_eq!(out[0].flw_id, "id-0");
    assert_eq!(out[9].flw_id, "id-9");
    assert_eq!(listed(flower_list_response(Ok(rows(10)))).len(), 10);
    let out = listed(flower_list_response(Ok(rows(3))));
    assert_eq!(out.len(), 3);
    assert_eq!(out[2].flw_name, "flower 2");
}

#[test]
fn empty_table_lists_empty_array() {
    assert!(listed(flower_list_response(Ok(Vec::new()))).is_empty());
}

#[test]
fn uid_text_is_hyphenated_lowercase() {
    let u = Uid { bytes: [0xab, 0xcd, 0xef, 0x01, 0x23, 0x45, 0x67, 0x89, 0xfe, 0xdc, 0xba, 0x98, 0x76, 0x54, 0x32, 0x10] };
    assert_eq!(u.to_text(), "abcdef01-2345-6789-fedc-ba9876543210");
}

#[test]
fn uid_parse_accepts_uuid_forms() {
    let text = "abcdef01-2345-6789-fedc-ba9876543210";
    let u = Uid::parse(text).unwrap();
    assert_eq!(u.to_text(), text);
    assert_eq!(Uid::parse("ABCDEF01-2345-6789-FEDC-BA9876543210"), Ok(u));
    assert_eq!(Uid::parse("abcdef0123456789fedcba9876543210"), Ok(u));
}

#[test]
fn uid_parse_rejects_malformed_text() {
    assert_eq!(Uid::parse(""), Err(UidError::Malformed));
    assert_eq!(Uid::parse("not-a-uuid"), Err(UidError::Malformed));
    assert_eq!(Uid::parse("zzzzzzzz-2345-6789-fedc-ba9876543210"), Err(UidError::Malformed));
    assert_eq!(Uid::parse("abcdef0-12345-6789-fedc-ba9876543210"), Err(UidError::Malformed));
}

#[test]
fn bad_request_has_status_400() {
    let r = bad_request();
    assert_eq!(r.status, 400);
    assert!(matches!(r.body, Body::Empty));
}
