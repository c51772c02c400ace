use ogcapi_features::ApiErrorKind;
use ogcapi_features::AppConfig;
use ogcapi_features::CollectionConfig;
use ogcapi_features::Feature;
use ogcapi_features::FeatureRow;
use ogcapi_features::FeaturesWithCount;
use ogcapi_features::GetItemsParams;
use ogcapi_features::LinkRel;
use ogcapi_features::OgcApiFeatureCollection;
use ogcapi_features::build_collection;
use ogcapi_features::build_feature_page;
use ogcapi_features::build_ogc_api_feature_collection;
use ogcapi_features::collection_detail;
use ogcapi_features::collections_list;
use ogcapi_features::conformance;
use ogcapi_features::landing_page;
use ogcapi_features::prepare_feature_request;
use ogcapi_features::prepare_features_request;
use ogcapi_features::row_to_feature;
use ogcapi_features::rows_to_features;
use ogcapi_features::single_feature_outcome;

fn countries_config() -> AppConfig {
    AppConfig {
        title: "Demo service".to_string(),
        description: "Feature collections".to_string(),
        url_base: "http://localhost:3000".to_string(),
        collections: vec![(
            "countries".to_string(),
            CollectionConfig {
                table: "naturalearth_lowres".to_string(),
                id_column: "ogc_fid".to_string(),
                geometry_column: "wkb_geometry".to_string(),
                properties: vec!["name".to_string(), "pop_est".to_string()],
            },
        )],
    }
}

fn point_geometry_value() -> serde_json::Value {
    serde_json::from_str(r#"{"type":"Point","coordinates":[1.0,2.0]}"#).unwrap()
}

fn properties_value() -> serde_json::Value {
    serde_json::from_str(r#"{"name":"Fiji","pop_est":889953.0}"#).unwrap()
}

fn sample_row(id: i32) -> FeatureRow {
    FeatureRow {
        geometry: point_geometry_value(),
        properties: properties_value(),
        id,
    }
}

#[test]
fn features_plan_without_bbox() {
    let config = countries_config();
    let params = GetItemsParams {
        limit: Some(7),
        offset: Some(3),
        bbox: None,
    };
    let plan = prepare_features_request(&config, "countries", &params).unwrap();
    assert_eq!(
        plan.count_sql,
        "SELECT count(*) from naturalearth_lowres WHERE ogc_fid > $1"
    );
    assert_eq!(
        plan.list_sql,
        "SELECT 'Feature' as type, ST_AsGeoJSON(wkb_geometry)::jsonb as geometry, json_build_object('name', name, 'pop_est', pop_est) as properties, ogc_fid as id from naturalearth_lowres WHERE ogc_fid > $1 order by ogc_fid LIMIT $2"
    );
    assert!(plan.bbox_binds.is_none());
    assert_eq!(plan.offset, 3);
    assert_eq!(plan.limit, 7);
}

#[test]
fn features_plan_defaults_limit_and_offset() {
    let config = countries_config();
    let params = GetItemsParams {
        limit: None,
        offset: None,
        bbox: None,
    };
    let plan = prepare_features_request(&config, "countries", &params).unwrap();
    assert_eq!(plan.offset, 0);
    assert_eq!(plan.limit, 10);
}

#[test]
fn features_plan_with_bbox_binds_its_components() {
    let config = countries_config();
    let params = GetItemsParams {
        limit: None,
        offset: None,
        bbox: Some(vec![
            "5.3".to_string(),
            "43.2".to_string(),
            "13.8".to_string(),
            "51.6".to_string(),
        ]),
    };
    let plan = prepare_features_request(&config, "countries", &params).unwrap();
    assert_eq!(
        plan.count_sql,
        "SELECT count(*) from naturalearth_lowres WHERE ST_Intersects(wkb_geometry, ST_MakeEnvelope($1, $2, $3, $4, 4326)) AND ogc_fid > $5"
    );
    assert_eq!(
        plan.bbox_binds,
        Some(vec![
            "5.3".to_string(),
            "43.2".to_string(),
            "13.8".to_string(),
            "51.6".to_string(),
        ])
    );
}

#[test]
fn features_plan_unknown_collection_is_not_found() {
    let config = countries_config();
    let params = GetItemsParams {
        limit: None,
        offset: None,
        bbox: None,
    };
    let err = prepare_features_request(&config, "rivers", &params).unwrap_err();
    assert_eq!(err.kind, ApiErrorKind::NotFound);
    assert_eq!(err.message, "Collection rivers not found");
    assert_eq!(err.status_code(), 404);
}

#[test]
fn feature_plan_parses_the_id() {
    let config = countries_config();
    let plan = prepare_feature_request(&config, "countries", "17").unwrap();
    assert_eq!(plan.feature_id, 17);
    assert_eq!(
        plan.sql,
        "SELECT 'Feature' as type, ST_AsGeoJSON(wkb_geometry)::jsonb as geometry, json_build_object('name', name, 'pop_est', pop_est) as properties, ogc_fid as id from naturalearth_lowres WHERE ogc_fid = $1"
    );
}

#[test]
fn feature_plan_non_numeric_id_is_bad_request() {
    let config = countries_config();
    let err = prepare_feature_request(&config, "countries", "abc").unwrap_err();
    assert_eq!(err.kind, ApiErrorKind::BadRequest);
    assert_eq!(err.message, "Invalid feature ID");
    assert_eq!(err.status_code(), 400);
}

#[test]
fn feature_plan_unknown_collection_wins_over_bad_id() {
    let config = countries_config();
    let err = prepare_feature_request(&config, "rivers", "abc").unwrap_err();
    assert_eq!(err.kind, ApiErrorKind::NotFound);
    assert_eq!(err.message, "Collection rivers not found");
}

#[test]
fn row_decoding_keeps_id_and_property_keys() {
    let feature = row_to_feature(sample_row(42)).unwrap();
    assert_eq!(feature.id, 42);
    assert_eq!(feature.properties.len(), 2);
    assert!(feature.properties.contains_key("name"));
    assert!(feature.properties.contains_key("pop_est"));
}

#[test]
fn row_decoding_yields_the_decoded_values() {
    let feature = row_to_feature(sample_row(7)).unwrap();
    let expected_geometry = geojson::Geometry::from_json_value(point_geometry_value()).unwrap();
    assert_eq!(feature.geometry, expected_geometry);
    let expected_properties: serde_json::Map<String, serde_json::Value> =
        serde_json::from_value(properties_value()).unwrap();
    assert_eq!(feature.properties, expected_properties);
}

#[test]
fn decode_errors_carry_the_decoder_message() {
    let bad_geometry: serde_json::Value = serde_json::from_str(r#"{"type":"Nonsense"}"#).unwrap();
    let expected_geometry_message = geojson::Geometry::from_json_value(bad_geometry.clone())
        .unwrap_err()
        .to_string();
    let row = FeatureRow {
        geometry: bad_geometry,
        properties: properties_value(),
        id: 1,
    };
    assert_eq!(row_to_feature(row).unwrap_err().message, expected_geometry_message);

    let bad_properties: serde_json::Value = serde_json::from_str("3").unwrap();
    let expected_properties_message = serde_json::from_value::<
        serde_json::Map<String, serde_json::Value>,
    >(bad_properties.clone())
    .unwrap_err()
    .to_string();
    let row = FeatureRow {
        geometry: point_geometry_value(),
        properties: bad_properties,
        id: 1,
    };
    assert_eq!(
        row_to_feature(row).unwrap_err().message,
        expected_properties_message
    );
}

#[test]
fn row_with_bad_geometry_is_internal_error() {
    let row = FeatureRow {
        geometry: serde_json::from_str(r#"{"type":"Nonsense"}"#).unwrap(),
        properties: properties_value(),
        id: 1,
    };
    let err = row_to_feature(row).unwrap_err();
    assert_eq!(err.kind, ApiErrorKind::Internal);
    assert_eq!(err.status_code(), 500);
}

#[test]
fn row_with_non_object_properties_is_internal_error() {
    let row = FeatureRow {
        geometry: point_geometry_value(),
        properties: serde_json::from_str("3").unwrap(),
        id: 1,
    };
    let err = row_to_feature(row).unwrap_err();
    assert_eq!(err.kind, ApiErrorKind::Internal);
}

#[test]
fn rows_decode_in_order() {
    let rows = vec![sample_row(1), sample_row(2), sample_row(3)];
    let features = rows_to_features(rows).unwrap();
    let ids: Vec<i32> = features.iter().map(|f| f.id).collect();
    assert_eq!(ids, vec![1, 2, 3]);
}

#[test]
fn missing_row_is_not_found() {
    let err = single_feature_outcome(None).unwrap_err();
    assert_eq!(err.kind, ApiErrorKind::NotFound);
    assert_eq!(err.message, "Feature not found");
}

#[test]
fn present_row_decodes() {
    let feature = single_feature_outcome(Some(sample_row(9))).unwrap();
    assert_eq!(feature.id, 9);
}

#[test]
fn page_counts_returned_features() {
    let rows = vec![sample_row(1), sample_row(2)];
    let features = rows_to_features(rows).unwrap();
    let page = build_feature_page(features, 25);
    assert_eq!(page.number_matched, 25);
    assert_eq!(page.number_returned, 2);
}

fn empty_page(number_matched: u64) -> FeaturesWithCount {
    let features: Vec<Feature> = Vec::new();
    build_feature_page(features, number_matched)
}

#[test]
fn next_link_appears_only_when_more_rows_match() {
    let params = GetItemsParams {
        limit: Some(10),
        offset: Some(0),
        bbox: None,
    };
    let with_next = build_ogc_api_feature_collection(
        empty_page(11),
        "http",
        "localhost:3000",
        "countries",
        &params,
    );
    assert_eq!(with_next.links.len(), 2);
    assert_eq!(with_next.links[1].rel, LinkRel::Next);
    assert_eq!(
        with_next.links[1].href,
        "http://localhost:3000/collections/countries/items?limit=10&offset=10"
    );

    let without_next = build_ogc_api_feature_collection(
        empty_page(10),
        "http",
        "localhost:3000",
        "countries",
        &params,
    );
    assert_eq!(without_next.links.len(), 1);
}

#[test]
fn self_link_is_always_first() {
    let params = GetItemsParams {
        limit: None,
        offset: None,
        bbox: None,
    };
    let envelope = build_ogc_api_feature_collection(
        empty_page(0),
        "https",
        "example.org",
        "countries",
        &params,
    );
    assert_eq!(envelope.type_, "FeatureCollection");
    assert_eq!(envelope.links[0].rel, LinkRel::Self_);
    assert_eq!(
        envelope.links[0].href,
        "https://example.org/collections/countries/items"
    );
    assert_eq!(envelope.links[0].type_, Some("application/geo+json".to_string()));
}

#[test]
fn next_link_echoes_the_bbox_and_advances_offset_by_limit() {
    let params = GetItemsParams {
        limit: Some(5),
        offset: Some(10),
        bbox: Some(vec![
            "5.3".to_string(),
            "43.2".to_string(),
            "13.8".to_string(),
            "51.6".to_string(),
        ]),
    };
    let envelope = build_ogc_api_feature_collection(
        empty_page(16),
        "http",
        "localhost:3000",
        "countries",
        &params,
    );
    assert_eq!(envelope.links.len(), 2);
    assert_eq!(
        envelope.links[1].href,
        "http://localhost:3000/collections/countries/items?limit=5&offset=15&bbox=5.3,43.2,13.8,51.6"
    );
    assert_eq!(envelope.bbox, params.bbox);
}

#[test]
fn envelope_keeps_the_page_totals() {
    let params = GetItemsParams {
        limit: Some(10),
        offset: Some(0),
        bbox: None,
    };
    let rows = vec![sample_row(1), sample_row(2)];
    let features = rows_to_features(rows).unwrap();
    let page = build_feature_page(features, 2);
    let envelope =
        build_ogc_api_feature_collection(page, "http", "localhost:3000", "countries", &params);
    assert_eq!(envelope.number_matched, 2);
    assert_eq!(envelope.number_returned, 2);
    assert!(envelope.number_returned <= 10);
    assert!(envelope.features.iter().all(|f| {
        f.properties.len() == 2
            && f.properties.contains_key("name")
            && f.properties.contains_key("pop_est")
    }));
}

#[test]
fn envelope_constructor_sets_the_type() {
    let envelope = OgcApiFeatureCollection::new(Vec::new(), 0, 0, Vec::new(), None);
    assert_eq!(envelope.type_, "FeatureCollection");
}

#[test]
fn landing_page_lists_the_five_entry_links() {
    let config = countries_config();
    let page = landing_page(&config);
    assert_eq!(page.title, "Demo service");
    assert_eq!(page.description, "Feature collections");
    assert_eq!(page.links.len(), 5);
    assert_eq!(page.links[0].rel, LinkRel::Self_);
    assert_eq!(page.links[0].href, "http://localhost:3000/");
    assert_eq!(page.links[1].rel, LinkRel::ServiceDesc);
    assert_eq!(page.links[1].href, "http://localhost:3000/api/openapi.json");
    assert_eq!(page.links[2].rel, LinkRel::ServiceDoc);
    assert_eq!(page.links[2].href, "http://localhost:3000/api.html");
    assert_eq!(page.links[3].rel, LinkRel::Conformance);
    assert_eq!(page.links[3].href, "http://localhost:3000/conformance");
    assert_eq!(page.links[4].rel, LinkRel::Data);
    assert_eq!(page.links[4].href, "http://localhost:3000/collections");
}

#[test]
fn conformance_lists_the_three_classes() {
    let c = conformance();
    assert_eq!(
        c.conforms_to,
        vec![
            "http://www.opengis.net/spec/ogcapi-features-1/1.0/conf/core".to_string(),
            "http://www.opengis.net/spec/ogcapi-features-1/1.0/conf/oas30".to_string(),
            "http://www.opengis.net/spec/ogcapi-features-1/1.0/conf/geojson".to_string(),
        ]
    );
}

#[test]
fn collection_descriptor_has_self_and_items_links() {
    let c = build_collection("http://localhost:3000", "countries");
    assert_eq!(c.id, "countries");
    assert_eq!(c.title, "countries");
    assert_eq!(c.description, "Collection of countries");
    assert_eq!(c.links.len(), 2);
    assert_eq!(c.links[0].rel, LinkRel::Self_);
    assert_eq!(c.links[0].href, "http://localhost:3000/collections/countries");
    assert_eq!(c.links[1].rel, LinkRel::Items);
    assert_eq!(
        c.links[1].href,
        "http://localhost:3000/collections/countries/items"
    );
}

#[test]
fn collections_listing_covers_every_configured_collection() {
    let config = countries_config();
    let listing = collections_list(&config);
    assert_eq!(listing.collections.len(), 1);
    assert_eq!(listing.collections[0].id, "countries");
}

#[test]
fn unknown_collection_detail_is_not_found() {
    let config = countries_config();
    let err = collection_detail(&config, "rivers").unwrap_err();
    assert_eq!(err.kind, ApiErrorKind::NotFound);
    assert_eq!(err.message, "Collection rivers not found");
    assert_eq!(err.status_code(), 404);
    let ok = collection_detail(&config, "countries").unwrap();
    assert_eq!(ok.id, "countries");
}

#[test]
fn link_relations_have_their_wire_names() {
    assert_eq!(LinkRel::Self_.as_str(), "self");
    assert_eq!(LinkRel::Next.as_str(), "next");
    assert_eq!(LinkRel::Alternate.as_str(), "alternate");
    assert_eq!(LinkRel::Collection.as_str(), "collection");
    assert_eq!(LinkRel::Items.as_str(), "items");
    assert_eq!(LinkRel::ServiceDesc.as_str(), "service-desc");
    assert_eq!(LinkRel::ServiceDoc.as_str(), "service-doc");
    assert_eq!(LinkRel::Conformance.as_str(), "conformance");
    assert_eq!(LinkRel::Data.as_str(), "data");
}
