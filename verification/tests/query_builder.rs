use ogcapi_features::CollectionConfig;
use ogcapi_features::FeatureQueryParts;
use ogcapi_features::GetItemsParams;
use ogcapi_features::build_count_sql;
use ogcapi_features::build_feature_list_sql;
use ogcapi_features::build_single_feature_sql;
use ogcapi_features::get_properties_columns_sql;

fn get_test_collection() -> CollectionConfig {
    CollectionConfig {
        table: "naturalearth_lowres".to_string(),
        id_column: "ogc_fid".to_string(),
        geometry_column: "wkb_geometry".to_string(),
        properties: vec!["name".to_string(), "pop_est".to_string()],
    }
}

fn test_bbox() -> Option<Vec<String>> {
    Some(vec![
        "0.0".to_string(),
        "0.0".to_string(),
        "10.0".to_string(),
        "10.0".to_string(),
    ])
}

#[test]
fn test_feature_query_parts_new_no_bbox() {
    let collection = get_test_collection();
    let params = GetItemsParams {
        limit: Some(10),
        offset: Some(0),
        bbox: None,
    };
    let query_parts = FeatureQueryParts::new(&collection, &params);

    assert_eq!(query_parts.where_sql, "WHERE ogc_fid > $1");
    assert_eq!(query_parts.placeholder_count, 1);
}

#[test]
fn test_feature_query_parts_new_with_bbox() {
    let collection = get_test_collection();
    let params_with_bbox = GetItemsParams {
        limit: Some(10),
        offset: Some(0),
        bbox: test_bbox(),
    };
    let query_parts_with_bbox = FeatureQueryParts::new(&collection, &params_with_bbox);

    assert_eq!(
        query_parts_with_bbox.where_sql,
        "WHERE ST_Intersects(wkb_geometry, ST_MakeEnvelope($1, $2, $3, $4, 4326)) AND ogc_fid > $5"
    );
    assert_eq!(query_parts_with_bbox.placeholder_count, 5);
}

#[test]
fn test_get_properties_columns_sql() {
    let collection = get_test_collection();
    let sql = get_properties_columns_sql(&collection);
    assert_eq!(sql, "'name', name, 'pop_est', pop_est");
}

#[test]
fn test_build_single_feature_sql() {
    let collection = get_test_collection();
    let sql = build_single_feature_sql(&collection);
    let expected_sql = "SELECT 'Feature' as type, ST_AsGeoJSON(wkb_geometry)::jsonb as geometry, json_build_object('name', name, 'pop_est', pop_est) as properties, ogc_fid as id from naturalearth_lowres WHERE ogc_fid = $1";
    assert_eq!(sql, expected_sql);
}

#[test]
fn test_build_feature_list_sql() {
    let collection = get_test_collection();
    let params = GetItemsParams {
        limit: Some(10),
        offset: Some(0),
        bbox: None,
    };
    let query_parts = FeatureQueryParts::new(&collection, &params);
    let sql = build_feature_list_sql(&collection, &query_parts);
    let expected_sql = "SELECT 'Feature' as type, ST_AsGeoJSON(wkb_geometry)::jsonb as geometry, json_build_object('name', name, 'pop_est', pop_est) as properties, ogc_fid as id from naturalearth_lowres WHERE ogc_fid > $1 order by ogc_fid LIMIT $2";
    assert_eq!(sql, expected_sql);
}

#[test]
fn test_build_feature_list_sql_with_bbox() {
    let collection = get_test_collection();
    let params = GetItemsParams {
        limit: Some(10),
        offset: Some(0),
        bbox: test_bbox(),
    };
    let query_parts = FeatureQueryParts::new(&collection, &params);
    let sql = build_feature_list_sql(&collection, &query_parts);
    let expected_sql = "SELECT 'Feature' as type, ST_AsGeoJSON(wkb_geometry)::jsonb as geometry, json_build_object('name', name, 'pop_est', pop_est) as properties, ogc_fid as id from naturalearth_lowres WHERE ST_Intersects(wkb_geometry, ST_MakeEnvelope($1, $2, $3, $4, 4326)) AND ogc_fid > $5 order by ogc_fid LIMIT $6";
    assert_eq!(sql, expected_sql);
}

#[test]
fn test_build_count_sql() {
    let collection = get_test_collection();
    let params = GetItemsParams {
        limit: Some(10),
        offset: Some(0),
        bbox: None,
    };
    let query_parts = FeatureQueryParts::new(&collection, &params);
    let sql = build_count_sql(&collection, &query_parts);
    let expected_sql = "SELECT count(*) from naturalearth_lowres WHERE ogc_fid > $1";
    assert_eq!(sql, expected_sql);
}

#[test]
fn six_component_bbox_builds_the_same_sql_as_no_bbox() {
    let collection = get_test_collection();
    let params_none = GetItemsParams {
        limit: Some(10),
        offset: Some(0),
        bbox: None,
    };
    let params_six = GetItemsParams {
        limit: Some(10),
        offset: Some(0),
        bbox: Some(vec![
            "0.0".to_string(),
            "0.0".to_string(),
            "0.0".to_string(),
            "10.0".to_string(),
            "10.0".to_string(),
            "10.0".to_string(),
        ]),
    };
    let parts_none = FeatureQueryParts::new(&collection, &params_none);
    let parts_six = FeatureQueryParts::new(&collection, &params_six);
    assert_eq!(parts_six.where_sql, parts_none.where_sql);
    assert_eq!(parts_six.placeholder_count, parts_none.placeholder_count);
    assert_eq!(
        build_feature_list_sql(&collection, &parts_six),
        build_feature_list_sql(&collection, &parts_none)
    );
    assert_eq!(
        build_count_sql(&collection, &parts_six),
        build_count_sql(&collection, &parts_none)
    );
}

#[test]
fn properties_sql_of_one_and_no_columns() {
    let mut collection = get_test_collection();
    collection.properties = vec!["name".to_string()];
    assert_eq!(get_properties_columns_sql(&collection), "'name', name");
    collection.properties = vec![];
    assert_eq!(get_properties_columns_sql(&collection), "");
}
