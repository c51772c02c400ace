use vstd::prelude::*;
use crate::config::CollectionConfig;
use crate::params::GetItemsParams;
use crate::text::spec_u64_string;
use crate::text::u64_to_string;

verus! {

/// How many bind placeholders the WHERE clause consumes: four for the
/// spatial test when a 4-component bbox is present, then one for the id
/// lower bound.
pub open spec fn spec_placeholder_count(bbox4: bool) -> int {
    if bbox4 {
        5
    } else {
        1
    }
}

/// The WHERE clause shared by the list and count queries: a spatial
/// intersection test first when a 4-component bbox is present, then the
/// keyset predicate `id_column > $n` that implements offset pagination.
/// Placeholders are numbered sequentially from 1.
pub open spec fn spec_where_sql(c: CollectionConfig, bbox4: bool) -> Seq<char> {
    if bbox4 {
        "WHERE ST_Intersects("@ + c.geometry_column@
            + ", ST_MakeEnvelope($1, $2, $3, $4, 4326)) AND "@ + c.id_column@ + " > $5"@
    } else {
        "WHERE "@ + c.id_column@ + " > $1"@
    }
}

/// One exposed property rendered for `json_build_object`: `'name', name`.
pub open spec fn spec_prop_pair(p: Seq<char>) -> Seq<char> {
    "'"@ + p + "', "@ + p
}

/// The configured properties rendered in order, separated by `, `.
pub open spec fn spec_props_sql(props: Seq<String>) -> Seq<char>
    decreases props.len(),
{
    if props.len() == 0 {
        Seq::empty()
    } else if props.len() == 1 {
        spec_prop_pair(props[0]@)
    } else {
        spec_props_sql(props.drop_last()) + ", "@ + spec_prop_pair(props.last()@)
    }
}

/// The SELECT clause shared by the single-feature and list queries: the
/// `Feature` type literal, the geometry as GeoJSON, the configured
/// properties as a JSON object, and the id column aliased `id`.
pub open spec fn spec_select_clause(c: CollectionConfig) -> Seq<char> {
    "SELECT 'Feature' as type, ST_AsGeoJSON("@ + c.geometry_column@
        + ")::jsonb as geometry, json_build_object("@ + spec_props_sql(c.properties@)
        + ") as properties, "@ + c.id_column@ + " as id from "@ + c.table@
}

/// The fixed-shape single-feature query: exact id equality on one placeholder.
pub open spec fn spec_single_feature_sql(c: CollectionConfig) -> Seq<char> {
    spec_select_clause(c) + " WHERE "@ + c.id_column@ + " = $1"@
}

/// The list query: shared WHERE clause, ordered by the id column, with the
/// limit bound to the next placeholder after the WHERE clause's.
pub open spec fn spec_feature_list_sql(c: CollectionConfig, bbox4: bool) -> Seq<char> {
    spec_select_clause(c) + " "@ + spec_where_sql(c, bbox4) + " order by "@ + c.id_column@
        + " LIMIT $"@ + spec_u64_string((spec_placeholder_count(bbox4) + 1) as nat)
}

/// The count query: `count(*)` under the same WHERE clause, no order or limit.
pub open spec fn spec_count_sql(c: CollectionConfig, bbox4: bool) -> Seq<char> {
    "SELECT count(*) from "@ + c.table@ + " "@ + spec_where_sql(c, bbox4)
}

/// The WHERE clause and placeholder bookkeeping shared by the list and count
/// queries of one request.
pub struct FeatureQueryParts {
    pub where_sql: String,
    pub placeholder_count: usize,
}

impl FeatureQueryParts {
    pub fn new(collection: &CollectionConfig, params: &GetItemsParams) -> (r: FeatureQueryParts)
        ensures
            r.where_sql@ == spec_where_sql(*collection, params.spec_bbox4()),
            r.placeholder_count == spec_placeholder_count(params.spec_bbox4()),
    {
        let mut where_sql = String::new();
        if params.bbox_is_4() {
            where_sql.append("WHERE ST_Intersects(");
            where_sql.append(collection.geometry_column.as_str());
            where_sql.append(", ST_MakeEnvelope($1, $2, $3, $4, 4326)) AND ");
            where_sql.append(collection.id_column.as_str());
            where_sql.append(" > $5");
            proof {
                assert(where_sql@ =~= spec_where_sql(*collection, true));
            }
            FeatureQueryParts { where_sql, placeholder_count: 5 }
        } else {
            where_sql.append("WHERE ");
            where_sql.append(collection.id_column.as_str());
            where_sql.append(" > $1");
            proof {
                assert(where_sql@ =~= spec_where_sql(*collection, false));
            }
            FeatureQueryParts { where_sql, placeholder_count: 1 }
        }
    }
}

/// The configured property columns as `json_build_object` arguments, in
/// configured order.
pub fn get_properties_columns_sql(collection: &CollectionConfig) -> (r: String)
    ensures
        r@ == spec_props_sql(collection.properties@),
{
    let mut s = String::new();
    let n = collection.properties.len();
    let mut i: usize = 0;
    while i < n
        invariant
            0 <= i <= n,
            n == collection.properties@.len(),
            s@ =~= spec_props_sql(collection.properties@.take(i as int)),
        decreases n - i,
    {
        if i > 0 {
            s.append(", ");
        }
        s.append("'");
        s.append(collection.properties[i].as_str());
        s.append("', ");
        s.append(collection.properties[i].as_str());
        proof {
            let ps = collection.properties@;
            assert(ps.take(i + 1).drop_last() =~= ps.take(i as int));
            assert(ps.take(i + 1).last() == ps[i as int]);
            assert(s@ =~= spec_props_sql(ps.take(i + 1)));
        }
        i += 1;
    }
    proof {
        assert(collection.properties@.take(n as int) =~= collection.properties@);
    }
    s
}

/// Builds the single-feature query for a collection.
pub fn build_single_feature_sql(collection: &CollectionConfig) -> (r: String)
    ensures
        r@ == spec_single_feature_sql(*collection),
{
    let mut s = build_select_clause(collection);
    s.append(" WHERE ");
    s.append(collection.id_column.as_str());
    s.append(" = $1");
    proof {
        assert(s@ =~= spec_single_feature_sql(*collection));
    }
    s
}

fn build_select_clause(collection: &CollectionConfig) -> (r: String)
    ensures
        r@ == spec_select_clause(*collection),
{
    let mut s = String::new();
    s.append("SELECT 'Feature' as type, ST_AsGeoJSON(");
    s.append(collection.geometry_column.as_str());
    s.append(")::jsonb as geometry, json_build_object(");
    let props = get_properties_columns_sql(collection);
    s.append(props.as_str());
    s.append(") as properties, ");
    s.append(collection.id_column.as_str());
    s.append(" as id from ");
    s.append(collection.table.as_str());
    proof {
        assert(s@ =~= spec_select_clause(*collection));
    }
    s
}

/// Builds the list query around already-built query parts. The limit
/// placeholder is numbered right after the WHERE clause's last one.
pub fn build_feature_list_sql(collection: &CollectionConfig, query_parts: &FeatureQueryParts) -> (r:
    String)
    requires
        query_parts.placeholder_count < usize::MAX,
    ensures
        r@ == spec_select_clause(*collection) + " "@ + query_parts.where_sql@ + " order by "@
            + collection.id_column@ + " LIMIT $"@ + spec_u64_string(
            (query_parts.placeholder_count + 1) as nat,
        ),
{
    let mut s = build_select_clause(collection);
    s.append(" ");
    s.append(query_parts.where_sql.as_str());
    s.append(" order by ");
    s.append(collection.id_column.as_str());
    s.append(" LIMIT $");
    let num = u64_to_string((query_parts.placeholder_count + 1) as u64);
    s.append(num.as_str());
    proof {
        assert(s@ =~= spec_select_clause(*collection) + " "@ + query_parts.where_sql@
            + " order by "@ + collection.id_column@ + " LIMIT $"@ + spec_u64_string(
            (query_parts.placeholder_count + 1) as nat,
        ));
    }
    s
}

/// Builds the count query around already-built query parts.
pub fn build_count_sql(collection: &CollectionConfig, query_parts: &FeatureQueryParts) -> (r:
    String)
    ensures
        r@ == "SELECT count(*) from "@ + collection.table@ + " "@ + query_parts.where_sql@,
{
    let mut s = String::new();
    s.append("SELECT count(*) from ");
    s.append(collection.table.as_str());
    s.append(" ");
    s.append(query_parts.where_sql.as_str());
    proof {
        assert(s@ =~= "SELECT count(*) from "@ + collection.table@ + " "@
            + query_parts.where_sql@);
    }
    s
}

/// A 6-component bbox adds no spatial filter: each query is built exactly as
/// with no bbox at all.
pub proof fn lemma_bbox6_like_none(
    c: CollectionConfig,
    with_six: GetItemsParams,
    without: GetItemsParams,
)
    requires
        with_six.bbox matches Some(b) && b@.len() == 6,
        without.bbox is None,
    ensures
        spec_where_sql(c, with_six.spec_bbox4()) == spec_where_sql(c, without.spec_bbox4()),
        spec_feature_list_sql(c, with_six.spec_bbox4()) == spec_feature_list_sql(
            c,
            without.spec_bbox4(),
        ),
        spec_count_sql(c, with_six.spec_bbox4()) == spec_count_sql(c, without.spec_bbox4()),
        spec_placeholder_count(with_six.spec_bbox4()) == spec_placeholder_count(
            without.spec_bbox4(),
        ),
{
}

} // verus!


