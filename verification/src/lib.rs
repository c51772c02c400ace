mod bbox;
mod config;
mod error;
mod features;
mod handlers;
mod models;
mod params;
mod query;
mod store;
mod text;

pub use bbox::BboxParseError;
pub use bbox::is_float_text;
pub use bbox::parse_bbox_text;
pub use bbox::spec_is_float_text;
pub use bbox::spec_split_commas;
pub use bbox::split_commas;
pub use bbox::trim_of;
pub use config::AppConfig;
pub use config::CollectionConfig;
pub use config::spec_lookup;
pub use error::ApiError;
pub use error::ApiErrorKind;
pub use features::OgcApiFeatureCollection;
pub use features::build_ogc_api_feature_collection;
pub use features::spec_base_url;
pub use features::spec_bbox_echo;
pub use features::spec_next_items_href;
pub use features::spec_self_items_href;
pub use handlers::build_collection;
pub use handlers::collection_detail;
pub use handlers::collections_list;
pub use handlers::conformance;
pub use handlers::landing_page;
pub use handlers::spec_is_built_collection;
pub use handlers::spec_landing_links;
pub use models::Collection;
pub use models::Collections;
pub use models::Conformance;
pub use models::LandingPage;
pub use models::Link;
pub use models::LinkRel;
pub use params::GetItemsParams;
pub use store::Feature;
pub use store::FeatureRow;
pub use store::FeaturesQueryPlan;
pub use store::FeaturesWithCount;
pub use store::SingleFeatureQueryPlan;
pub use store::build_feature_page;
pub use store::prepare_feature_request;
pub use store::prepare_features_request;
pub use store::row_to_feature;
pub use store::rows_to_features;
pub use store::single_feature_outcome;
pub use store::spec_decoded_geometry;
pub use store::spec_decoded_properties;
pub use store::spec_geojson_error_text;
pub use store::spec_is_decoded_feature;
pub use store::spec_row_decodes;
pub use store::spec_row_error_text;
pub use store::spec_serde_json_error_text;
pub use query::FeatureQueryParts;
pub use query::build_count_sql;
pub use query::build_feature_list_sql;
pub use query::build_single_feature_sql;
pub use query::get_properties_columns_sql;
pub use query::lemma_bbox6_like_none;
pub use query::spec_count_sql;
pub use query::spec_feature_list_sql;
pub use query::spec_placeholder_count;
pub use query::spec_props_sql;
pub use query::spec_select_clause;
pub use query::spec_single_feature_sql;
pub use query::spec_where_sql;
pub use text::parse_i32;
pub use text::spec_i32_of_text;
pub use text::spec_is_i32_text;
pub use text::spec_u64_string;
pub use text::str_eq;
pub use text::u64_to_string;
