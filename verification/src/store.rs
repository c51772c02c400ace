use vstd::prelude::*;
use crate::config::AppConfig;
use crate::config::spec_lookup;
use crate::error::ApiError;
use crate::error::ApiErrorKind;
use crate::params::GetItemsParams;
use crate::query::FeatureQueryParts;
use crate::query::build_count_sql;
use crate::query::build_feature_list_sql;
use crate::query::build_single_feature_sql;
use crate::query::spec_count_sql;
use crate::query::spec_feature_list_sql;
use crate::query::spec_single_feature_sql;
use crate::text::parse_i32;
use crate::text::spec_i32_of_text;
use crate::text::spec_is_i32_text;

verus! {

#[verifier::external_type_specification]
#[verifier::external_body]
pub struct ExJsonValue(serde_json::Value);

#[verifier::external_type_specification]
#[verifier::external_body]
#[verifier::reject_recursive_types(K)]
#[verifier::reject_recursive_types(V)]
pub struct ExJsonMap<K, V>(serde_json::Map<K, V>);

#[verifier::external_type_specification]
#[verifier::external_body]
pub struct ExGeometry(geojson::Geometry);

#[verifier::external_type_specification]
#[verifier::external_body]
pub struct ExGeoJsonError(geojson::Error);

#[verifier::external_type_specification]
#[verifier::external_body]
pub struct ExSerdeJsonError(serde_json::Error);

/// What geojson::Geometry::from_json_value returns for a JSON value: the
/// decoded geometry, or the decoder's error. A function of the value alone.
pub uninterp spec fn spec_decoded_geometry(v: serde_json::Value) -> Result<
    geojson::Geometry,
    geojson::Error,
>;

/// What serde_json::from_value returns for a JSON value decoded as an object
/// map: the map, or the decoder's error. A function of the value alone.
pub uninterp spec fn spec_decoded_properties(v: serde_json::Value) -> Result<
    serde_json::Map<String, serde_json::Value>,
    serde_json::Error,
>;

/// What geojson::Error's Display impl renders: a function of the error alone.
pub uninterp spec fn spec_geojson_error_text(e: geojson::Error) -> Seq<char>;

/// What serde_json::Error's Display impl renders: a function of the error
/// alone.
pub uninterp spec fn spec_serde_json_error_text(e: serde_json::Error) -> Seq<char>;

/// Relies on geojson::Geometry::from_json_value: decodes a GeoJSON geometry
/// from a JSON value, failing on values that do not form one; the outcome
/// depends on the value alone.
#[verifier::external_body]
fn geometry_from_json(v: serde_json::Value) -> (r: Result<geojson::Geometry, geojson::Error>)
    ensures
        r == spec_decoded_geometry(v),
{
    geojson::Geometry::from_json_value(v)
}

/// Relies on serde_json::from_value: decodes a JSON object map from a JSON
/// value, failing on values that are not an object; the outcome depends on
/// the value alone.
#[verifier::external_body]
fn json_object_from_value(v: serde_json::Value) -> (r: Result<
    serde_json::Map<String, serde_json::Value>,
    serde_json::Error,
>)
    ensures
        r == spec_decoded_properties(v),
{
    serde_json::from_value(v)
}

/// Relies on geojson::Error's Display impl to render the failure text, which
/// depends on the error value alone.
#[verifier::external_body]
fn geojson_error_text(e: &geojson::Error) -> (r: String)
    ensures
        r@ == spec_geojson_error_text(*e),
{
    e.to_string()
}

/// Relies on serde_json::Error's Display impl to render the failure text,
/// which depends on the error value alone.
#[verifier::external_body]
fn serde_json_error_text(e: &serde_json::Error) -> (r: String)
    ensures
        r@ == spec_serde_json_error_text(*e),
{
    e.to_string()
}

/// One decoded feature: the numeric identifier, the geometry, and the
/// exposed properties. Geometry and properties are opaque decoded values,
/// carried through unread to serialization.
#[derive(Debug)]
pub struct Feature {
    pub id: i32,
    pub geometry: geojson::Geometry,
    pub properties: serde_json::Map<String, serde_json::Value>,
}

/// The three column values of one result row, as the database returned them:
/// the geometry rendered as JSON, the properties object, and the id.
#[derive(Debug)]
pub struct FeatureRow {
    pub geometry: serde_json::Value,
    pub properties: serde_json::Value,
    pub id: i32,
}

/// Whether a row's two JSON values both decode: the geometry as a GeoJSON
/// geometry and the properties as an object map.
pub open spec fn spec_row_decodes(row: FeatureRow) -> bool {
    spec_decoded_geometry(row.geometry) is Ok && spec_decoded_properties(row.properties) is Ok
}

/// The feature a decodable row decodes to: its id, the decoded geometry, and
/// the decoded properties map.
pub open spec fn spec_is_decoded_feature(row: FeatureRow, f: Feature) -> bool {
    &&& f.id == row.id
    &&& (spec_decoded_geometry(row.geometry) matches Ok(g) && f.geometry == g)
    &&& (spec_decoded_properties(row.properties) matches Ok(p) && f.properties == p)
}

/// The message a failing row yields: the rendered error of the first
/// decoder that refuses its value (the geometry is decoded first).
pub open spec fn spec_row_error_text(row: FeatureRow) -> Seq<char> {
    match spec_decoded_geometry(row.geometry) {
        Err(ge) => spec_geojson_error_text(ge),
        Ok(_) => match spec_decoded_properties(row.properties) {
            Err(pe) => spec_serde_json_error_text(pe),
            Ok(_) => Seq::<char>::empty(),
        },
    }
}

/// Decodes one row into a Feature: succeeds exactly when the geometry value
/// forms a GeoJSON geometry and the properties value a JSON object, and then
/// carries the decoded values; either failure is an internal error carrying
/// the decoder's message.
pub fn row_to_feature(row: FeatureRow) -> (r: Result<Feature, ApiError>)
    ensures
        r is Ok <==> spec_row_decodes(row),
        r matches Ok(f) ==> spec_is_decoded_feature(row, f),
        r matches Err(e) ==> e.kind == ApiErrorKind::Internal && e.message@ == spec_row_error_text(
            row,
        ),
{
    let geometry = match geometry_from_json(row.geometry) {
        Ok(g) => g,
        Err(e) => {
            return Err(ApiError::new(ApiErrorKind::Internal, geojson_error_text(&e)));
        },
    };
    let properties = match json_object_from_value(row.properties) {
        Ok(p) => p,
        Err(e) => {
            return Err(ApiError::new(ApiErrorKind::Internal, serde_json_error_text(&e)));
        },
    };
    Ok(Feature { id: row.id, geometry, properties })
}

/// Decodes every row of a page, in order: succeeds exactly when every row
/// decodes, and then each feature is its row's decoded feature; the first
/// failure aborts the page with its internal error, so no partial page is
/// ever produced.
pub fn rows_to_features(rows: Vec<FeatureRow>) -> (r: Result<Vec<Feature>, ApiError>)
    ensures
        r is Ok <==> (forall|i: int| 0 <= i < rows@.len() ==> spec_row_decodes(#[trigger] rows@[i])),
        r matches Ok(fs) ==> fs@.len() == rows@.len() && (forall|i: int|
            0 <= i < fs@.len() ==> spec_is_decoded_feature(rows@[i], #[trigger] fs@[i])),
        r matches Err(e) ==> e.kind == ApiErrorKind::Internal,
{
    let ghost orig = rows@;
    let mut rest = rows;
    let mut out: Vec<Feature> = Vec::new();
    while rest.len() > 0
        invariant
            orig == rows@,
            out@.len() + rest@.len() == orig.len(),
            rest@ =~= orig.skip(out@.len() as int),
            forall|i: int|
                0 <= i < out@.len() ==> spec_row_decodes(#[trigger] orig[i])
                    && spec_is_decoded_feature(orig[i], out@[i]),
        decreases rest@.len(),
    {
        let ghost k = out@.len() as int;
        let row = rest.remove(0);
        proof {
            assert(row == orig[k]);
            assert(rest@ =~= orig.skip(k + 1));
        }
        match row_to_feature(row) {
            Ok(f) => {
                out.push(f);
            },
            Err(e) => {
                proof {
                    assert(!spec_row_decodes(orig[k]));
                }
                return Err(e);
            },
        }
    }
    proof {
        assert(forall|i: int| 0 <= i < orig.len() ==> spec_row_decodes(#[trigger] orig[i]));
    }
    Ok(out)
}

/// One page of features with the envelope's two totals.
#[derive(Debug)]
pub struct FeaturesWithCount {
    pub features: Vec<Feature>,
    pub number_matched: u64,
    pub number_returned: u64,
}

impl FeaturesWithCount {
    pub fn new(features: Vec<Feature>, number_matched: u64, number_returned: u64) -> (r:
        FeaturesWithCount)
        ensures
            r.features == features,
            r.number_matched == number_matched,
            r.number_returned == number_returned,
    {
        FeaturesWithCount { features, number_matched, number_returned }
    }
}

/// Combines a fetched page with the matched total; number_returned is
/// exactly the page's length.
pub fn build_feature_page(features: Vec<Feature>, number_matched: u64) -> (r: FeaturesWithCount)
    ensures
        r.features == features,
        r.number_matched == number_matched,
        r.number_returned == features@.len(),
{
    let number_returned = features.len() as u64;
    FeaturesWithCount { features, number_matched, number_returned }
}

/// Everything the database needs to run one feature-list request: the count
/// and list SQL texts, and the values to bind, in placeholder order (the
/// bbox components when four are present, then the offset, then — for the
/// list query — the limit).
#[derive(Debug)]
pub struct FeaturesQueryPlan {
    pub count_sql: String,
    pub list_sql: String,
    pub bbox_binds: Option<Vec<String>>,
    pub offset: u64,
    pub limit: u64,
}

/// Plans a feature-list request: finds the collection (NotFound otherwise)
/// and builds the count and list queries. The count query keeps the offset
/// lower bound, so the matched total counts rows from the current offset
/// onward, never the whole table.
pub fn prepare_features_request(
    config: &AppConfig,
    collection_id: &str,
    params: &GetItemsParams,
) -> (r: Result<FeaturesQueryPlan, ApiError>)
    ensures
        match r {
            Ok(plan) => {
                &&& spec_lookup(config.collections@, collection_id@) matches Some(c)
                &&& plan.count_sql@ == spec_count_sql(c, params.spec_bbox4())
                &&& plan.list_sql@ == spec_feature_list_sql(c, params.spec_bbox4())
                &&& plan.offset as int == params.spec_offset()
                &&& plan.limit as int == params.spec_limit()
                &&& if params.spec_bbox4() {
                    &&& plan.bbox_binds matches Some(bs)
                    &&& params.bbox matches Some(b)
                    &&& bs@.len() == 4
                    &&& forall|i: int| 0 <= i < 4 ==> bs@[i]@ == b@[i]@
                } else {
                    plan.bbox_binds is None
                }
            },
            Err(e) => {
                &&& spec_lookup(config.collections@, collection_id@) is None
                &&& e.kind == ApiErrorKind::NotFound
                &&& e.message@ == "Collection "@ + collection_id@ + " not found"@
            },
        },
{
    let collection = match config.get_collection(collection_id) {
        Some(c) => c,
        None => {
            return Err(ApiError::collection_not_found(collection_id));
        },
    };
    let query_parts = FeatureQueryParts::new(collection, params);
    let count_sql = build_count_sql(collection, &query_parts);
    let list_sql = build_feature_list_sql(collection, &query_parts);
    let bbox_binds = if params.bbox_is_4() {
        match &params.bbox {
            Some(b) => {
                let mut bs: Vec<String> = Vec::new();
                let mut i: usize = 0;
                while i < 4
                    invariant
                        0 <= i <= 4,
                        b@.len() == 4,
                        bs@.len() == i,
                        forall|j: int| 0 <= j < i ==> bs@[j]@ == b@[j]@,
                    decreases 4 - i,
                {
                    bs.push(b[i].clone());
                    i += 1;
                }
                Some(bs)
            },
            None => None,
        }
    } else {
        None
    };
    Ok(
        FeaturesQueryPlan {
            count_sql,
            list_sql,
            bbox_binds,
            offset: params.offset_or_default(),
            limit: params.limit_or_default(),
        },
    )
}

/// Everything the database needs to run one single-feature request: the SQL
/// text and the parsed id to bind to its one placeholder.
#[derive(Debug)]
pub struct SingleFeatureQueryPlan {
    pub sql: String,
    pub feature_id: i32,
}

/// Plans a single-feature request: finds the collection (NotFound
/// otherwise), then parses the feature id (BadRequest otherwise), and builds
/// the exact-id query.
pub fn prepare_feature_request(config: &AppConfig, collection_id: &str, id: &str) -> (r: Result<
    SingleFeatureQueryPlan,
    ApiError,
>)
    ensures
        match r {
            Ok(plan) => {
                &&& spec_lookup(config.collections@, collection_id@) matches Some(c)
                &&& plan.sql@ == spec_single_feature_sql(c)
                &&& spec_is_i32_text(id@)
                &&& plan.feature_id as int == spec_i32_of_text(id@)
            },
            Err(e) => {
                &&& (e.kind == ApiErrorKind::NotFound <==> spec_lookup(
                    config.collections@,
                    collection_id@,
                ) is None)
                &&& e.kind == ApiErrorKind::NotFound ==> e.message@ == "Collection "@
                    + collection_id@ + " not found"@
                &&& e.kind == ApiErrorKind::BadRequest ==> !spec_is_i32_text(id@) && e.message@
                    == "Invalid feature ID"@
                &&& (e.kind == ApiErrorKind::NotFound || e.kind == ApiErrorKind::BadRequest)
            },
        },
{
    let collection = match config.get_collection(collection_id) {
        Some(c) => c,
        None => {
            return Err(ApiError::collection_not_found(collection_id));
        },
    };
    let feature_id = match parse_i32(id) {
        Some(v) => v,
        None => {
            return Err(ApiError::new(ApiErrorKind::BadRequest, "Invalid feature ID".to_owned()));
        },
    };
    let sql = build_single_feature_sql(collection);
    Ok(SingleFeatureQueryPlan { sql, feature_id })
}

/// Settles a single-feature lookup from what the database handed back: no
/// row at all is NotFound; a present row succeeds exactly when it decodes,
/// yielding its decoded feature, and otherwise is an internal error with the
/// decoder's message.
pub fn single_feature_outcome(row: Option<FeatureRow>) -> (r: Result<Feature, ApiError>)
    ensures
        row is None ==> (r matches Err(e) && e.kind == ApiErrorKind::NotFound && e.message@
            == "Feature not found"@),
        row matches Some(fr) ==> {
            &&& (r is Ok <==> spec_row_decodes(fr))
            &&& (r matches Ok(f) ==> spec_is_decoded_feature(fr, f))
            &&& (r matches Err(e) ==> e.kind == ApiErrorKind::Internal && e.message@
                == spec_row_error_text(fr))
        },
{
    match row {
        Some(fr) => row_to_feature(fr),
        None => Err(ApiError::new(ApiErrorKind::NotFound, "Feature not found".to_owned())),
    }
}

} // verus!
