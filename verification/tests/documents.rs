use geojson_decode::document::{
    decode_feature_document, decode_geometry_document, event_runs, process_geojson, Decoded,
};
use geojson_decode::events::{geometry_events, Event};
use geojson_decode::feature::feature_events;
use geojson_decode::geometry::{Coordinate, Error, Geometry};
use geojson_decode::json::{Json, Member, Number};
use geojson_decode::sniff::{read_geojson_prelude, DocumentShape, Prelude};
use geojson_decode::stream::{next_feature, read_features, Failure, Step};

const POLYGON: &str = r#"{
    "type": "FeatureCollection",
    "features": [{
        "type": "Feature",
        "geometry": {
            "type": "Polygon",
            "coordinates": [[[30, 10], [40, 40], [20, 40], [10, 20], [30, 10]]]
        },
        "properties": {
            "test1": 1,
            "test2": 1.1,
            "test3": "test3"
        }
    }]
}"#;

const POLYGON_FEATURE: &str = r#"{
        "type": "Feature",
        "geometry": {
            "type": "Polygon",
            "coordinates": [[[30, 10], [40, 40], [20, 40], [10, 20], [30, 10]]]
        },
        "properties": {
            "test1": 1,
            "test2": 1.1,
            "test3": "test3"
        }
        }"#;

const POLYGON_GEOMETRY: &str = r#"{
            "type": "Polygon",
            "coordinates": [[[30, 10], [40, 40], [20, 40], [10, 20], [30, 10]]]
        }"#;

const POINT: &str = r#"{
    "type": "FeatureCollection",
    "features": [{
        "type": "Feature",
        "geometry": {
            "type": "Point",
            "coordinates": [1,1]
        },
        "properties": {
            "test1": 1,
            "test2": 1.1,
            "test3": "test3"
        }
    }]
}"#;

fn at(x: f64, y: f64) -> Coordinate {
    Coordinate { x: x.to_bits(), y: y.to_bits() }
}

fn coordinate(x: f64, y: f64, index: usize) -> Event {
    Event::Coordinate { x: x.to_bits(), y: y.to_bits(), index }
}

fn ring() -> Vec<Coordinate> {
    vec![at(30.0, 10.0), at(40.0, 40.0), at(20.0, 40.0), at(10.0, 20.0), at(30.0, 10.0)]
}

fn ring_events(index: usize) -> Vec<Event> {
    vec![
        Event::LineBegin { count: 5, index },
        coordinate(30.0, 10.0, 0),
        coordinate(40.0, 40.0, 1),
        coordinate(20.0, 40.0, 2),
        coordinate(10.0, 20.0, 3),
        coordinate(30.0, 10.0, 4),
        Event::LineEnd { index },
    ]
}

fn features_of(doc: &str) -> (usize, bool) {
    match process_geojson(doc.as_bytes()) {
        Ok(Decoded::Features(list)) => (list.items.len(), list.closed),
        other => panic!("a feature collection expected, got {:?}", other),
    }
}

#[test]
fn deserialize_fc() {
    match process_geojson(POLYGON.as_bytes()) {
        Ok(Decoded::Features(list)) => {
            assert_eq!(list.items.len(), 1);
            if let Geometry::Polygon(coordinates) = &list.items[0].geometry {
                assert_eq!(coordinates[0].len(), 5);
            } else {
                assert!(false, "Geometry::Polygon expected");
            }
        }
        other => panic!("a feature collection expected, got {:?}", other),
    }

    match process_geojson(POINT.as_bytes()) {
        Ok(Decoded::Features(list)) => {
            assert_eq!(list.items.len(), 1);
            if let Geometry::Point(coordinates) = &list.items[0].geometry {
                assert_eq!(
                    (f64::from_bits(coordinates.x), f64::from_bits(coordinates.y)),
                    (1.0, 1.0)
                );
            } else {
                assert!(false, "Geometry::Point expected");
            }
        }
        other => panic!("a feature collection expected, got {:?}", other),
    }
}

#[test]
fn missing_type() {
    let json = r#"{
    "type": "WrongType",
    "features": [{
        "type": "Feature",
        "geometry": {
            "type": "Polygon",
            "coordinates": [[[30, 10], [40, 40], [20, 40], [10, 20], [30, 10]]]
        }
    }]
}"#;
    let res = process_geojson(json.as_bytes());
    assert_eq!(res.as_ref().err(), None);
    assert_eq!(res, Ok(Decoded::Nothing));

    let json = r#"{
    "features": [{
        "type": "Feature",
        "geometry": {
            "type": "Polygon",
            "coordinates": [[[30, 10], [40, 40], [20, 40], [10, 20], [30, 10]]]
        },
        "properties": {
        }
    }]
}"#;
    let res = process_geojson(json.as_bytes());
    assert_eq!(res.as_ref().err(), None);
    assert_eq!(res, Ok(Decoded::Nothing));
}

#[test]
fn prelude_reader() {
    let json = r#"{
    "name": "poly_landmarks",
    "type": "FeatureCollection",
    "crs": { "type": "name", "properties": { "name": "urn:ogc:def:crs:OGC:1.3:CRS84" } },
    "features": [
        { "type": "Feature", "properties": { }, "geometry": { "type": "Polygon", "coordinates": [ [ [ -74.020683, 40.691059 ], [ -74.02092, 40.691208 ], [ -74.020466, 40.69124 ], [ -74.020683, 40.691059 ] ] ] } },
        { "type": "Feature", "properties": { }, "geometry": { "type": "Polygon", "coordinates": [ [ [ -73.939885, 40.846674 ], [ -73.940083, 40.846213 ], [ -73.940434, 40.845506 ], [ -73.942533, 40.846403 ], [ -73.94209, 40.84785 ], [ -73.940574, 40.847582 ], [ -73.939686, 40.847381 ], [ -73.939885, 40.846674 ] ] ] } }
    ]
}"#;
    let prelude = read_geojson_prelude(json.as_bytes());
    assert_eq!(prelude.shape, DocumentShape::FeatureCollection);
    assert_eq!(prelude.offset, 172);
    assert_eq!(features_of(json), (2, true));
}

#[test]
fn feature_collection() {
    let json = r#"{
    "type": "FeatureCollection",
    "features": [{
        "type": "Feature",
        "geometry": {
            "type": "Polygon",
            "coordinates": [[[30, 10], [40, 40], [20, 40], [10, 20], [30, 10]]]
        },
        "properties": {
            "test1": 1,
            "test2": 1.1,
            "test3": "test3"
        }
    }"#;
    let res = process_geojson(json.as_bytes());
    assert!(res.is_ok());
    assert_eq!(features_of(json), (1, false));

    let json = r#"{
    "type": "FeatureCollection",
    "features": [{
        "type": "Feature",
        "geometry": {
            "type": "Polygon",
            "coordinates": [[[30, 10], [40, 40], [20, 40], [10, 20], [30, 10]]]
        },
        "properties": {
            "test1": 1,
            "test2": 1.1,
            "test3": "test3"
        }
    }{
        "type": "Feature",
        "geometry": {
            "type": "Polygon",
            "coordinates": [[[30, 10], [40, 40], [20, 40], [10, 20], [30, 10]]]
        },
        "properties": {
            "test1": 1,
            "test2": 1.1,
            "test3": "test3"
        }
    }"#;
    let res = process_geojson(json.as_bytes());
    assert!(res.is_ok());
    assert_eq!(features_of(json), (2, false));

    let json = r#"{
    "type": "FeatureCollection",
    "features": [{
        "type": "Feature",
        "geometry": {
            "type": "Polygon",
            "coordinates": [[[30, 10], [40, 40], [20, 40], [10, 20], [30, 10]]]
        },
        "properties": {
            "test1": 1,
            "test2": 1.1,
            "test3": "test3"
        }
    },{
        "type": "Feature",
        "geometry": {
            "type": "Polygon",
            "coordinates": [[[30, 10], [40, 40], [20, 40], [10, 20], [30, 10]]]
        },
        "properties": {
            "test1": 1,
            "test2": 1.1,
            "test3": "test3"
        }
    }]
}"#;
    let res = process_geojson(json.as_bytes());
    assert!(res.is_ok());
    assert_eq!(features_of(json), (2, true));
}

#[test]
fn feature() {
    let res = process_geojson(POLYGON_FEATURE.as_bytes());
    assert!(res.is_ok());
}

#[test]
fn geometry() {
    let res = process_geojson(POLYGON_GEOMETRY.as_bytes());
    assert!(res.is_ok());
}

#[test]
fn whole_feature_is_decoded_with_its_properties() {
    let feature = decode_feature_document(POLYGON_FEATURE.as_bytes()).unwrap();
    assert_eq!(feature.geometry, Geometry::Polygon(vec![ring()]));
    assert!(!feature.properties_first);
    assert_eq!(feature.properties.len(), 3);
    assert_eq!(feature.properties[0].key, b"test1".to_vec());
    assert_eq!(feature.properties[1].key, b"test2".to_vec());
    assert_eq!(feature.properties[2].key, b"test3".to_vec());
    assert_eq!(
        feature.properties[0].value,
        Json::Number(Number {
            unsigned: Some(1),
            signed: Some(1),
            double_bits: Some(1.0f64.to_bits())
        })
    );
    assert_eq!(
        feature.properties[1].value,
        Json::Number(Number { unsigned: None, signed: None, double_bits: Some(1.1f64.to_bits()) })
    );
    assert_eq!(feature.properties[2].value, Json::Text(b"test3".to_vec()));
}

#[test]
fn whole_geometry_is_decoded() {
    let geometry = decode_geometry_document(POLYGON_GEOMETRY.as_bytes()).unwrap();
    assert_eq!(geometry, Geometry::Polygon(vec![ring()]));
}

#[test]
fn point_document_gives_three_events() {
    let geometry = decode_geometry_document(br#"{"type":"Point","coordinates":[1,1]}"#).unwrap();
    assert_eq!(geometry, Geometry::Point(at(1.0, 1.0)));
    assert_eq!(
        geometry_events(&geometry),
        vec![Event::PointBegin { index: 0 }, coordinate(1.0, 1.0, 0), Event::PointEnd]
    );
    let runs = event_runs(&Decoded::Geometry(geometry));
    assert_eq!(runs.len(), 1);
    assert!(runs[0].iter().all(|e| !matches!(
        e,
        Event::PropertiesBegin | Event::Property { .. } | Event::PropertiesEnd
    )));
}

#[test]
fn collection_of_one_polygon_with_one_property() {
    let doc = br#"{"type":"FeatureCollection","features":[{"type":"Feature","geometry":{"type":"Polygon","coordinates":[[[30,10],[40,40],[20,40],[10,20],[30,10]]]},"properties":{"a":1}}]}"#;
    let decoded = process_geojson(doc).unwrap();
    let runs = event_runs(&decoded);
    let mut expected = vec![Event::PolyBegin { rings: 1, index: 0 }];
    expected.extend(ring_events(0));
    expected.push(Event::PolyEnd { index: 0 });
    expected.push(Event::PropertiesBegin);
    expected.push(Event::Property { index: 0 });
    expected.push(Event::PropertiesEnd);
    assert_eq!(runs, vec![expected]);
    match decoded {
        Decoded::Features(list) => {
            assert!(list.closed);
            assert_eq!(list.items.len(), 1);
            assert_eq!(
                list.items[0].properties,
                vec![Member {
                    key: b"a".to_vec(),
                    value: Json::Number(Number {
                        unsigned: Some(1),
                        signed: Some(1),
                        double_bits: Some(1.0f64.to_bits())
                    })
                }]
            );
        }
        other => panic!("a feature collection expected, got {:?}", other),
    }
}

#[test]
fn polygon_of_one_ring_is_not_closed_again() {
    let open_ring = vec![at(0.0, 0.0), at(1.0, 0.0), at(1.0, 1.0)];
    let events = geometry_events(&Geometry::Polygon(vec![open_ring]));
    assert_eq!(
        events,
        vec![
            Event::PolyBegin { rings: 1, index: 0 },
            Event::LineBegin { count: 3, index: 0 },
            coordinate(0.0, 0.0, 0),
            coordinate(1.0, 0.0, 1),
            coordinate(1.0, 1.0, 2),
            Event::LineEnd { index: 0 },
            Event::PolyEnd { index: 0 },
        ]
    );
    let mut expected = vec![Event::PolyBegin { rings: 1, index: 0 }];
    expected.extend(ring_events(0));
    expected.push(Event::PolyEnd { index: 0 });
    assert_eq!(geometry_events(&Geometry::Polygon(vec![ring()])), expected);
}

#[test]
fn events_of_the_other_kinds() {
    let two = vec![at(1.0, 2.0), at(3.0, 4.0)];
    assert_eq!(
        geometry_events(&Geometry::MultiPoint(two.clone())),
        vec![
            Event::MultiPointBegin { count: 2, index: 0 },
            coordinate(1.0, 2.0, 0),
            coordinate(3.0, 4.0, 1),
            Event::MultiPointEnd,
        ]
    );
    assert_eq!(
        geometry_events(&Geometry::LineString(two.clone())),
        vec![
            Event::LineBegin { count: 2, index: 0 },
            coordinate(1.0, 2.0, 0),
            coordinate(3.0, 4.0, 1),
            Event::LineEnd { index: 0 },
        ]
    );
    assert_eq!(
        geometry_events(&Geometry::MultiLineString(vec![two.clone(), vec![at(5.0, 6.0)]])),
        vec![
            Event::MultiLineBegin { count: 2, index: 0 },
            Event::LineBegin { count: 2, index: 0 },
            coordinate(1.0, 2.0, 0),
            coordinate(3.0, 4.0, 1),
            Event::LineEnd { index: 0 },
            Event::LineBegin { count: 1, index: 1 },
            coordinate(5.0, 6.0, 0),
            Event::LineEnd { index: 1 },
            Event::MultiLineEnd,
        ]
    );
    assert_eq!(
        geometry_events(&Geometry::MultiPolygon(vec![vec![two.clone()], vec![]])),
        vec![
            Event::PolyBegin { rings: 1, index: 0 },
            Event::LineBegin { count: 2, index: 0 },
            coordinate(1.0, 2.0, 0),
            coordinate(3.0, 4.0, 1),
            Event::LineEnd { index: 0 },
            Event::PolyEnd { index: 0 },
            Event::PolyBegin { rings: 0, index: 1 },
            Event::PolyEnd { index: 1 },
        ]
    );
    assert_eq!(geometry_events(&Geometry::MultiPolygon(vec![])), vec![]);
}

#[test]
fn every_kind_is_decoded() {
    let cases: Vec<(&str, Geometry)> = vec![
        (r#"{"type":"Point","coordinates":[1.5,-2]}"#, Geometry::Point(at(1.5, -2.0))),
        (
            r#"{"type":"MultiPoint","coordinates":[[1,2],[3,4]]}"#,
            Geometry::MultiPoint(vec![at(1.0, 2.0), at(3.0, 4.0)]),
        ),
        (
            r#"{"coordinates":[[1,2],[3,4]],"type":"LineString"}"#,
            Geometry::LineString(vec![at(1.0, 2.0), at(3.0, 4.0)]),
        ),
        (
            r#"{"type":"MultiLineString","coordinates":[[[1,2]],[]]}"#,
            Geometry::MultiLineString(vec![vec![at(1.0, 2.0)], vec![]]),
        ),
        (
            r#"{"type":"Polygon","coordinates":[[[1,2],[3,4]],[[5,6]]]}"#,
            Geometry::Polygon(vec![vec![at(1.0, 2.0), at(3.0, 4.0)], vec![at(5.0, 6.0)]]),
        ),
        (
            r#"{"type":"MultiPolygon","coordinates":[[[[1,2]]],[]]}"#,
            Geometry::MultiPolygon(vec![vec![vec![at(1.0, 2.0)]], vec![]]),
        ),
    ];
    for (text, expected) in cases {
        assert_eq!(decode_geometry_document(text.as_bytes()), Ok(expected));
    }
}

#[test]
fn geometry_errors() {
    let decode = Err(Failure { error: Error::Decode, offset: 0 });
    let unsupported = Err(Failure { error: Error::UnsupportedGeometry, offset: 0 });
    assert_eq!(decode_geometry_document(br#"{"type":"GeometryCollection","geometries":[]}"#), unsupported);
    assert_eq!(decode_geometry_document(br#"{"type":"Circle","coordinates":[1,1]}"#), unsupported);
    assert_eq!(decode_geometry_document(br#"{"type":"Point","coordinates":["1",1]}"#), decode);
    assert_eq!(decode_geometry_document(br#"{"type":"Point","coordinates":[1,1,1]}"#), decode);
    assert_eq!(decode_geometry_document(br#"{"type":"Point","coordinates":[1]}"#), decode);
    assert_eq!(decode_geometry_document(br#"{"type":"Point"}"#), decode);
    assert_eq!(decode_geometry_document(br#"{"type":7,"coordinates":[1,1]}"#), decode);
    assert_eq!(decode_geometry_document(br#"{"coordinates":[1,1]}"#), decode);
    assert_eq!(decode_geometry_document(br#"{"type":"LineString","coordinates":[1,1]}"#), decode);
    assert_eq!(decode_geometry_document(br#"{"type":"Polygon","coordinates":[[1,1]]}"#), decode);
    assert_eq!(decode_geometry_document(br#"[1,1]"#), decode);
    assert_eq!(decode_geometry_document(br#"{"type":"Point","coordinates":[1,1]} x"#), decode);
    assert_eq!(decode_geometry_document(br#"{"type":"Point","coordinates":[1,1]"#), decode);
    assert_eq!(decode_geometry_document(b""), decode);
}

#[test]
fn feature_errors() {
    let decode = Err(Failure { error: Error::Decode, offset: 0 });
    let point = r#"{"type":"Point","coordinates":[1,1]}"#;
    let doc = format!(r#"{{"type":"Feature","geometry":{},"properties":{{}}}}"#, point);
    assert!(decode_feature_document(doc.as_bytes()).is_ok());
    let doc = format!(r#"{{"type":"Features","geometry":{},"properties":{{}}}}"#, point);
    assert_eq!(decode_feature_document(doc.as_bytes()), decode);
    let doc = format!(r#"{{"geometry":{},"properties":{{}}}}"#, point);
    assert_eq!(decode_feature_document(doc.as_bytes()), decode);
    let doc = format!(r#"{{"type":"Feature","geometry":{}}}"#, point);
    assert_eq!(decode_feature_document(doc.as_bytes()), decode);
    let doc = format!(r#"{{"type":"Feature","geometry":{},"properties":[]}}"#, point);
    assert_eq!(decode_feature_document(doc.as_bytes()), decode);
    let doc = r#"{"type":"Feature","properties":{}}"#;
    assert_eq!(decode_feature_document(doc.as_bytes()), decode);
    let doc = r#"{"type":"Feature","geometry":{"type":"GeometryCollection"},"properties":{}}"#;
    assert_eq!(
        decode_feature_document(doc.as_bytes()),
        Err(Failure { error: Error::UnsupportedGeometry, offset: 0 })
    );
}

#[test]
fn properties_before_the_geometry_come_first() {
    let doc = br#"{"type":"Feature","properties":{"b":true,"a":null},"geometry":{"type":"Point","coordinates":[1,1]}}"#;
    let feature = decode_feature_document(doc).unwrap();
    assert!(feature.properties_first);
    assert_eq!(
        feature.properties,
        vec![
            Member { key: b"b".to_vec(), value: Json::Bool(true) },
            Member { key: b"a".to_vec(), value: Json::Null },
        ]
    );
    assert_eq!(
        feature_events(&feature),
        vec![
            Event::PropertiesBegin,
            Event::Property { index: 0 },
            Event::Property { index: 1 },
            Event::PropertiesEnd,
            Event::PointBegin { index: 0 },
            coordinate(1.0, 1.0, 0),
            Event::PointEnd,
        ]
    );
}

#[test]
fn empty_properties_still_begin_and_end() {
    let doc = br#"{"type":"Feature","geometry":{"type":"Point","coordinates":[1,1]},"properties":{}}"#;
    let feature = decode_feature_document(doc).unwrap();
    assert_eq!(
        feature_events(&feature),
        vec![
            Event::PointBegin { index: 0 },
            coordinate(1.0, 1.0, 0),
            Event::PointEnd,
            Event::PropertiesBegin,
            Event::PropertiesEnd,
        ]
    );
}

#[test]
fn property_values_are_kept_whole() {
    let doc = br#"{"type":"Feature","geometry":{"type":"Point","coordinates":[1,1]},"properties":{"n":{"k":[1,-2,"x"]}}}"#;
    let feature = decode_feature_document(doc).unwrap();
    assert_eq!(
        feature.properties,
        vec![Member {
            key: b"n".to_vec(),
            value: Json::Object(vec![Member {
                key: b"k".to_vec(),
                value: Json::Array(vec![
                    Json::Number(Number {
                        unsigned: Some(1),
                        signed: Some(1),
                        double_bits: Some(1.0f64.to_bits())
                    }),
                    Json::Number(Number {
                        unsigned: None,
                        signed: Some(-2),
                        double_bits: Some((-2.0f64).to_bits())
                    }),
                    Json::Text(b"x".to_vec()),
                ]),
            }]),
        }]
    );
}

#[test]
fn wrong_type_is_unknown_and_silent() {
    let doc = br#"{"type":"WrongType","features":[{"type":"Feature"}]}"#;
    assert_eq!(
        read_geojson_prelude(doc),
        Prelude { shape: DocumentShape::Unknown, offset: 0 }
    );
    let decoded = process_geojson(doc).unwrap();
    assert_eq!(decoded, Decoded::Nothing);
    assert_eq!(event_runs(&decoded).len(), 0);
}

#[test]
fn prelude_shapes() {
    let unknown = Prelude { shape: DocumentShape::Unknown, offset: 0 };
    assert_eq!(
        read_geojson_prelude(br#"{"type":"FeatureCollection","features":[]}"#),
        Prelude { shape: DocumentShape::FeatureCollection, offset: 40 }
    );
    assert_eq!(
        read_geojson_prelude(br#"{"type":"Feature","geometry":null}"#),
        Prelude { shape: DocumentShape::Feature, offset: 0 }
    );
    assert_eq!(
        read_geojson_prelude(br#"{"type":"Geometry"}"#),
        Prelude { shape: DocumentShape::Geometry, offset: 0 }
    );
    assert_eq!(read_geojson_prelude(br#"{"type":"FeatureCollection"}"#), unknown);
    assert_eq!(read_geojson_prelude(br#"{"type":"FeatureCollection","features":"#), unknown);
    assert_eq!(read_geojson_prelude(br#"{"features":["#), unknown);
    assert_eq!(read_geojson_prelude(br#"{"type":["FeatureCollection"]}"#), unknown);
    assert_eq!(read_geojson_prelude(br#"["type","FeatureCollection"]"#), unknown);
    assert_eq!(read_geojson_prelude(br#"{"type":"Point","coordinates":[1,1]}"#), unknown);
    assert_eq!(read_geojson_prelude(POLYGON_FEATURE.as_bytes()), unknown);
    assert_eq!(read_geojson_prelude(b""), unknown);
    assert_eq!(read_geojson_prelude(&[0xff, 0xfe]), unknown);
}

#[test]
fn array_beyond_the_cap_is_unknown() {
    let head = r#"{"type":"FeatureCollection","name":""#;
    let tail = r#"","features":[]}"#;
    let fill = 1024 - head.len() - tail.len() + 3;
    let doc = format!("{}{}{}", head, "x".repeat(fill), tail);
    assert_eq!(doc.find('['), Some(1024));
    assert_eq!(
        read_geojson_prelude(doc.as_bytes()),
        Prelude { shape: DocumentShape::Unknown, offset: 0 }
    );
    assert_eq!(process_geojson(doc.as_bytes()), Ok(Decoded::Nothing));

    let doc = format!("{}{}{}", head, "x".repeat(fill - 1), tail);
    assert_eq!(doc.find('['), Some(1023));
    assert_eq!(
        read_geojson_prelude(doc.as_bytes()),
        Prelude { shape: DocumentShape::FeatureCollection, offset: 1024 }
    );
    assert_eq!(features_of(&doc), (0, true));
}

#[test]
fn empty_array_has_no_features() {
    assert_eq!(features_of(r#"{"type":"FeatureCollection","features":[]}"#), (0, true));
    assert_eq!(features_of(r#"{"type":"FeatureCollection","features":[ ] }"#), (0, true));
    assert_eq!(features_of(r#"{"type":"FeatureCollection","features":["#), (0, false));
    let decoded = process_geojson(br#"{"type":"FeatureCollection","features":[]}"#).unwrap();
    assert_eq!(event_runs(&decoded).len(), 0);
}

fn point_feature(x: u32) -> String {
    format!(
        r#"{{"type":"Feature","geometry":{{"type":"Point","coordinates":[{},0]}},"properties":{{}}}}"#,
        x
    )
}

#[test]
fn one_feature_for_each_element() {
    let doc = format!(
        r#"{{"type":"FeatureCollection","features":[{}, {} ,{}]}}"#,
        point_feature(1),
        point_feature(2),
        point_feature(3)
    );
    match process_geojson(doc.as_bytes()) {
        Ok(Decoded::Features(list)) => {
            assert!(list.closed);
            assert_eq!(list.items.len(), 3);
            assert_eq!(list.items[0].geometry, Geometry::Point(at(1.0, 0.0)));
            assert_eq!(list.items[1].geometry, Geometry::Point(at(2.0, 0.0)));
            assert_eq!(list.items[2].geometry, Geometry::Point(at(3.0, 0.0)));
        }
        other => panic!("a feature collection expected, got {:?}", other),
    }
}

#[test]
fn features_back_to_back() {
    let doc = format!("[{}{}", point_feature(1), point_feature(2));
    let list = read_features(doc.as_bytes(), 1).unwrap();
    assert!(!list.closed);
    assert_eq!(list.items.len(), 2);
    assert_eq!(list.items[0].geometry, Geometry::Point(at(1.0, 0.0)));
    assert_eq!(list.items[1].geometry, Geometry::Point(at(2.0, 0.0)));
    assert_eq!(feature_events(&list.items[1]).len(), 5);
}

#[test]
fn malformed_feature_in_the_middle_ends_the_reading() {
    let first = point_feature(1);
    let bad = r#"{"type":"Feature","geometry":{"type":"Point","coordinates":[1]},"properties":{}}"#;
    let doc = format!("[{}{}{}", first, bad, point_feature(3));
    assert_eq!(
        read_features(doc.as_bytes(), 1).err(),
        Some(Failure { error: Error::Decode, offset: 1 + first.len() })
    );
    let doc = format!("[{}{{\"type\": {}", first, point_feature(3));
    assert_eq!(
        read_features(doc.as_bytes(), 1).err(),
        Some(Failure { error: Error::Decode, offset: 1 + first.len() })
    );
    let doc = format!(
        r#"{{"type":"FeatureCollection","features":[{},{{"type":"Feature","geometry":{{"type":"GeometryCollection"}},"properties":{{}}}}]}}"#,
        first
    );
    assert_eq!(
        process_geojson(doc.as_bytes()).err(),
        Some(Failure { error: Error::UnsupportedGeometry, offset: 41 + first.len() })
    );
}

#[test]
fn steps_of_the_reading() {
    let first = point_feature(1);
    let doc = format!(" {} , {} ]", first, point_feature(2));
    let bytes = doc.as_bytes();
    let next = match next_feature(bytes, 0).unwrap() {
        Step::Item { feature, next } => {
            assert_eq!(feature.geometry, Geometry::Point(at(1.0, 0.0)));
            assert_eq!(next, 1 + first.len());
            next
        }
        other => panic!("a feature expected, got {:?}", other),
    };
    let next = match next_feature(bytes, next).unwrap() {
        Step::Item { feature, next } => {
            assert_eq!(feature.geometry, Geometry::Point(at(2.0, 0.0)));
            assert_eq!(next, bytes.len() - 2);
            next
        }
        other => panic!("a feature expected, got {:?}", other),
    };
    assert_eq!(next_feature(bytes, next), Ok(Step::End { closed: true }));
    assert_eq!(next_feature(bytes, bytes.len()), Ok(Step::End { closed: false }));
    assert_eq!(next_feature(bytes, bytes.len() + 7), Ok(Step::End { closed: false }));
    assert_eq!(
        next_feature(b"  12 ", 0),
        Err(Failure { error: Error::Decode, offset: 2 })
    );
}

#[test]
fn feature_and_geometry_shapes_decode_the_whole_document() {
    assert_eq!(
        process_geojson(br#"{"type":"Feature","geometry":null,"properties":{}}"#),
        Err(Failure { error: Error::Decode, offset: 0 })
    );
    assert_eq!(
        process_geojson(br#"{"type":"Geometry"}"#),
        Err(Failure { error: Error::UnsupportedGeometry, offset: 0 })
    );
}
