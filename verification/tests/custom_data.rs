use cdevent::custom_data::{get_custom_data, EventData, Json, NotText};
use cdevent::service::{to_cloud_event, ServiceDeployedArgs};
use cdevent::string_map::StringMap;

fn member(key: &str, value: Json) -> (String, Json) {
    (String::from(key), value)
}

fn text(value: &str) -> Json {
    Json::Text(String::from(value))
}

fn sorted_pairs(map: &StringMap) -> Vec<(String, String)> {
    let mut pairs = map.to_pairs();
    pairs.sort();
    pairs
}

fn model(value: &serde_json::Value) -> Json {
    match value {
        serde_json::Value::String(s) => Json::Text(s.clone()),
        serde_json::Value::Object(map) => {
            Json::Object(map.iter().map(|(k, v)| (k.clone(), model(v))).collect())
        }
        _ => Json::Other,
    }
}

#[test]
fn no_data_means_no_custom_data() {
    assert!(get_custom_data(None).unwrap().is_none());
}

#[test]
fn raw_data_means_no_custom_data() {
    assert!(get_custom_data(Some(&EventData::Raw)).unwrap().is_none());
}

#[test]
fn a_document_that_is_no_object_means_empty_custom_data() {
    let empty = get_custom_data(Some(&EventData::Json(Json::Other))).unwrap().unwrap();
    assert_eq!(empty.len(), 0);
    let empty = get_custom_data(Some(&EventData::Json(text("x")))).unwrap().unwrap();
    assert_eq!(empty.len(), 0);
}

#[test]
fn an_object_without_custom_data_means_none() {
    let data = EventData::Json(Json::Object(vec![member("context", Json::Object(vec![]))]));
    assert!(get_custom_data(Some(&data)).unwrap().is_none());
    let data = EventData::Json(Json::Object(vec![]));
    assert!(get_custom_data(Some(&data)).unwrap().is_none());
}

#[test]
fn custom_data_that_is_no_object_means_none() {
    let data = EventData::Json(Json::Object(vec![member("customData", text("x"))]));
    assert!(get_custom_data(Some(&data)).unwrap().is_none());
    let data = EventData::Json(Json::Object(vec![member("customData", Json::Other)]));
    assert!(get_custom_data(Some(&data)).unwrap().is_none());
}

#[test]
fn custom_data_members_become_a_mapping() {
    let data = EventData::Json(Json::Object(vec![
        member("subject", Json::Object(vec![member("id", text("sub1"))])),
        member(
            "customData",
            Json::Object(vec![member("team", text("core")), member("tier", text("1"))]),
        ),
    ]));
    let custom = get_custom_data(Some(&data)).unwrap().unwrap();
    assert_eq!(
        sorted_pairs(&custom),
        vec![
            (String::from("team"), String::from("core")),
            (String::from("tier"), String::from("1"))
        ]
    );
}

#[test]
fn empty_custom_data_is_an_empty_mapping() {
    let data = EventData::Json(Json::Object(vec![member("customData", Json::Object(vec![]))]));
    assert_eq!(get_custom_data(Some(&data)).unwrap().unwrap().len(), 0);
}

#[test]
fn the_last_member_with_a_key_counts() {
    let data = EventData::Json(Json::Object(vec![
        member("customData", Json::Object(vec![member("a", text("old"))])),
        member("customData", Json::Object(vec![member("a", text("1")), member("a", text("2"))])),
    ]));
    let custom = get_custom_data(Some(&data)).unwrap().unwrap();
    assert_eq!(custom.to_pairs(), vec![(String::from("a"), String::from("2"))]);
}

#[test]
fn a_member_that_is_no_text_is_reported() {
    let data = EventData::Json(Json::Object(vec![member(
        "customData",
        Json::Object(vec![
            member("a", text("1")),
            member("b", Json::Other),
            member("c", Json::Object(vec![])),
        ]),
    )]));
    assert_eq!(get_custom_data(Some(&data)).err(), Some(NotText { key: String::from("b") }));
}

#[test]
fn custom_data_of_a_built_event_reads_back() {
    let pairs = vec![
        (String::from("a"), String::from("1")),
        (String::from("b"), String::from("x y")),
        (String::from("a"), String::from("2")),
    ];
    let args = ServiceDeployedArgs {
        id: String::from("e1"),
        source: String::from("svc"),
        subject_id: String::from("sub1"),
        env_id: String::from("prod"),
        env_name: None,
        env_source: None,
        artifact: Some(String::from("art1")),
        custom_data: Some(StringMap::from_pairs(&pairs)),
    };
    let event = to_cloud_event(&args).unwrap();
    let data = match event.data() {
        Some(cloudevents::Data::Json(json)) => EventData::Json(model(json)),
        Some(_) => EventData::Raw,
        None => panic!("the event has no data"),
    };
    let custom = get_custom_data(Some(&data)).unwrap().unwrap();
    assert_eq!(
        sorted_pairs(&custom),
        vec![
            (String::from("a"), String::from("2")),
            (String::from("b"), String::from("x y"))
        ]
    );
}

#[test]
fn an_event_without_custom_data_reads_back_as_none() {
    let args = ServiceDeployedArgs {
        id: String::from("e1"),
        source: String::from("svc"),
        subject_id: String::from("sub1"),
        env_id: String::from("prod"),
        env_name: None,
        env_source: None,
        artifact: Some(String::from("art1")),
        custom_data: None,
    };
    let event = to_cloud_event(&args).unwrap();
    let data = match event.data() {
        Some(cloudevents::Data::Json(json)) => EventData::Json(model(json)),
        _ => panic!("the event has no JSON data"),
    };
    assert!(get_custom_data(Some(&data)).unwrap().is_none());
}
