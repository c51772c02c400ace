use vstd::prelude::*;
use crate::models::Link;
use crate::models::LinkRel;
use crate::params::GetItemsParams;
use crate::store::Feature;
use crate::store::FeaturesWithCount;
use crate::text::spec_u64_string;
use crate::text::u64_to_string;

verus! {

/// The response envelope of a feature-list request: a GeoJSON
/// FeatureCollection with the matched and returned totals, the echoed bbox,
/// and the navigation links.
#[derive(Debug)]
pub struct OgcApiFeatureCollection {
    pub type_: &'static str,
    pub bbox: Option<Vec<String>>,
    pub features: Vec<Feature>,
    pub number_matched: u64,
    pub number_returned: u64,
    pub links: Vec<Link>,
}

impl OgcApiFeatureCollection {
    pub fn new(
        features: Vec<Feature>,
        number_matched: u64,
        number_returned: u64,
        links: Vec<Link>,
        bbox: Option<Vec<String>>,
    ) -> (r: OgcApiFeatureCollection)
        ensures
            r.type_@ == "FeatureCollection"@,
            r.features == features,
            r.number_matched == number_matched,
            r.number_returned == number_returned,
            r.links == links,
            r.bbox == bbox,
    {
        OgcApiFeatureCollection {
            type_: "FeatureCollection",
            bbox,
            features,
            number_matched,
            number_returned,
            links,
        }
    }
}

/// The base every link URL of a feature response starts from, as derived
/// from the request's scheme and host.
pub open spec fn spec_base_url(scheme: Seq<char>, host: Seq<char>) -> Seq<char> {
    scheme + "://"@ + host + "/"@
}

/// The self link of a feature-list response.
pub open spec fn spec_self_items_href(
    scheme: Seq<char>,
    host: Seq<char>,
    collection_id: Seq<char>,
) -> Seq<char> {
    spec_base_url(scheme, host) + "collections/"@ + collection_id + "/items"@
}

/// The bbox echoed into the next link: its first four components, comma
/// separated; nothing when no bbox was given.
pub open spec fn spec_bbox_echo(bbox: Option<Vec<String>>) -> Seq<char> {
    match bbox {
        Some(b) => "&bbox="@ + b@[0]@ + ","@ + b@[1]@ + ","@ + b@[2]@ + ","@ + b@[3]@,
        None => Seq::<char>::empty(),
    }
}

/// The next link of a feature-list response: the same items URL with the
/// limit, the advanced offset, and the echoed bbox as query parameters.
pub open spec fn spec_next_items_href(
    scheme: Seq<char>,
    host: Seq<char>,
    collection_id: Seq<char>,
    limit: int,
    next_offset: int,
    bbox: Option<Vec<String>>,
) -> Seq<char> {
    spec_base_url(scheme, host) + "collections/"@ + collection_id + "/items?limit="@
        + spec_u64_string(limit as nat) + "&offset="@ + spec_u64_string(next_offset as nat)
        + spec_bbox_echo(bbox)
}

fn clone_bbox(bbox: &Option<Vec<String>>) -> (r: Option<Vec<String>>)
    ensures
        r is Some <==> bbox is Some,
        bbox matches Some(b) ==> (r matches Some(rb) && rb@.len() == b@.len() && (forall|i: int|
            0 <= i < b@.len() ==> rb@[i]@ == b@[i]@)),
{
    match bbox {
        Some(b) => {
            let rb = b.clone();
            proof {
                assert(forall|i: int| 0 <= i < b@.len() ==> rb@[i]@ == b@[i]@) by {
                    assert(forall|i: int|
                        0 <= i < b@.len() ==> cloned::<String>(b@[i], #[trigger] rb@[i]));
                }
            }
            Some(rb)
        },
        None => None,
    }
}

/// Shapes one page of features into the response envelope. The self link is
/// always present; the next link is present exactly when the matched total
/// exceeds the current offset plus the limit, and advances the offset by the
/// limit while echoing the request's bbox.
pub fn build_ogc_api_feature_collection(
    page: FeaturesWithCount,
    scheme: &str,
    host: &str,
    collection_id: &str,
    params: &GetItemsParams,
) -> (r: OgcApiFeatureCollection)
    requires
        params.bbox matches Some(b) ==> b@.len() == 4 || b@.len() == 6,
    ensures
        r.type_@ == "FeatureCollection"@,
        r.features == page.features,
        r.number_matched == page.number_matched,
        r.number_returned == page.number_returned,
        r.bbox is Some <==> params.bbox is Some,
        params.bbox matches Some(b) ==> (r.bbox matches Some(rb) && rb@.len() == b@.len() && (
        forall|i: int| 0 <= i < b@.len() ==> rb@[i]@ == b@[i]@)),
        r.links@.len() == 1 || r.links@.len() == 2,
        r.links@[0].rel == LinkRel::Self_,
        r.links@[0].href@ == spec_self_items_href(scheme@, host@, collection_id@),
        (r.links@[0].type_ matches Some(t) && t@ == "application/geo+json"@),
        (r.links@[0].title matches Some(t) && t@ == "this document"@),
        r.links@.len() == 2 <==> page.number_matched > params.spec_offset() + params.spec_limit(),
        r.links@.len() == 2 ==> {
            &&& r.links@[1].rel == LinkRel::Next
            &&& r.links@[1].href@ == spec_next_items_href(
                scheme@,
                host@,
                collection_id@,
                params.spec_limit(),
                params.spec_offset() + params.spec_limit(),
                params.bbox,
            )
            &&& (r.links@[1].type_ matches Some(t) && t@ == "application/geo+json"@)
            &&& (r.links@[1].title matches Some(t) && t@ == "next page"@)
        },
{
    let limit = params.limit_or_default();
    let offset = params.offset_or_default();

    let mut base_url = scheme.to_owned();
    base_url.append("://");
    base_url.append(host);
    base_url.append("/");
    proof {
        assert(base_url@ =~= spec_base_url(scheme@, host@));
    }

    let mut self_href = base_url.clone();
    self_href.append("collections/");
    self_href.append(collection_id);
    self_href.append("/items");
    proof {
        assert(self_href@ =~= spec_self_items_href(scheme@, host@, collection_id@));
    }

    let mut links: Vec<Link> = Vec::new();
    links.push(
        Link {
            href: self_href,
            rel: LinkRel::Self_,
            type_: Some("application/geo+json".to_owned()),
            title: Some("this document".to_owned()),
        },
    );

    let has_next = match offset.checked_add(limit) {
        Some(s) => page.number_matched > s,
        None => false,
    };
    if has_next {
        let next_offset = offset + limit;
        let mut next_href = base_url.clone();
        next_href.append("collections/");
        next_href.append(collection_id);
        next_href.append("/items?limit=");
        let limit_text = u64_to_string(limit);
        next_href.append(limit_text.as_str());
        next_href.append("&offset=");
        let offset_text = u64_to_string(next_offset);
        next_href.append(offset_text.as_str());
        match &params.bbox {
            Some(b) => {
                next_href.append("&bbox=");
                next_href.append(b[0].as_str());
                next_href.append(",");
                next_href.append(b[1].as_str());
                next_href.append(",");
                next_href.append(b[2].as_str());
                next_href.append(",");
                next_href.append(b[3].as_str());
            },
            None => {},
        }
        proof {
            assert(next_href@ =~= spec_next_items_href(
                scheme@,
                host@,
                collection_id@,
                params.spec_limit(),
                params.spec_offset() + params.spec_limit(),
                params.bbox,
            ));
        }
        links.push(
            Link {
                href: next_href,
                rel: LinkRel::Next,
                type_: Some("application/geo+json".to_owned()),
                title: Some("next page".to_owned()),
            },
        );
    }

    let bbox = clone_bbox(&params.bbox);
    OgcApiFeatureCollection {
        type_: "FeatureCollection",
        bbox,
        features: page.features,
        number_matched: page.number_matched,
        number_returned: page.number_returned,
        links,
    }
}

} // verus!
