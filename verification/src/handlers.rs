use vstd::prelude::*;
use crate::config::AppConfig;
use crate::config::spec_lookup;
use crate::error::ApiError;
use crate::error::ApiErrorKind;
use crate::models::Collection;
use crate::models::Collections;
use crate::models::Conformance;
use crate::models::LandingPage;
use crate::models::Link;
use crate::models::LinkRel;

verus! {

/// What a collection descriptor holds for the collection named `id` served
/// under `url_base`: the name as id and title, a derived description, and
/// its self and items links.
pub open spec fn spec_is_built_collection(url_base: Seq<char>, id: Seq<char>, r: Collection) -> bool {
    &&& r.id@ == id
    &&& r.title@ == id
    &&& r.description@ == "Collection of "@ + id
    &&& r.links@.len() == 2
    &&& r.links@[0].rel == LinkRel::Self_
    &&& r.links@[0].href@ == url_base + "/collections/"@ + id
    &&& (r.links@[0].type_ matches Some(t) && t@ == "application/json"@)
    &&& (r.links@[0].title matches Some(t) && t@ == "this document"@)
    &&& r.links@[1].rel == LinkRel::Items
    &&& r.links@[1].href@ == url_base + "/collections/"@ + id + "/items"@
    &&& (r.links@[1].type_ matches Some(t) && t@ == "application/geo+json"@)
    &&& (r.links@[1].title matches Some(t) && t@ == "Items"@)
}

/// Builds the descriptor of one collection.
pub fn build_collection(url_base: &str, id: &str) -> (r: Collection)
    ensures
        spec_is_built_collection(url_base@, id@, r),
{
    let mut collection_url = url_base.to_owned();
    collection_url.append("/collections/");
    collection_url.append(id);
    let mut items_url = collection_url.clone();
    items_url.append("/items");
    let mut description = "Collection of ".to_owned();
    description.append(id);
    let mut links: Vec<Link> = Vec::new();
    links.push(
        Link {
            href: collection_url,
            rel: LinkRel::Self_,
            type_: Some("application/json".to_owned()),
            title: Some("this document".to_owned()),
        },
    );
    links.push(
        Link {
            href: items_url,
            rel: LinkRel::Items,
            type_: Some("application/geo+json".to_owned()),
            title: Some("Items".to_owned()),
        },
    );
    let r = Collection { id: id.to_owned(), title: id.to_owned(), description, links };
    proof {
        assert(r.links@[0].href@ =~= url_base@ + "/collections/"@ + id@);
        assert(r.links@[1].href@ =~= url_base@ + "/collections/"@ + id@ + "/items"@);
        assert(r.description@ =~= "Collection of "@ + id@);
    }
    r
}

/// What the landing page's five links hold: the self link, the two API
/// description links, the conformance link, and the collections link.
pub open spec fn spec_landing_links(url_base: Seq<char>, links: Seq<Link>) -> bool {
    &&& links.len() == 5
    &&& links[0].rel == LinkRel::Self_
    &&& links[0].href@ == url_base + "/"@
    &&& (links[0].type_ matches Some(t) && t@ == "application/json"@)
    &&& (links[0].title matches Some(t) && t@ == "this document"@)
    &&& links[1].rel == LinkRel::ServiceDesc
    &&& links[1].href@ == url_base + "/api/openapi.json"@
    &&& (links[1].type_ matches Some(t) && t@ == "application/vnd.oai.openapi+json;version=3.0"@)
    &&& (links[1].title matches Some(t) && t@ == "the API definition"@)
    &&& links[2].rel == LinkRel::ServiceDoc
    &&& links[2].href@ == url_base + "/api.html"@
    &&& (links[2].type_ matches Some(t) && t@ == "text/html"@)
    &&& (links[2].title matches Some(t) && t@ == "the API documentation"@)
    &&& links[3].rel == LinkRel::Conformance
    &&& links[3].href@ == url_base + "/conformance"@
    &&& (links[3].type_ matches Some(t) && t@ == "application/json"@)
    &&& (links[3].title matches Some(t) && t@
        == "OGC API conformance classes implemented by this server"@)
    &&& links[4].rel == LinkRel::Data
    &&& links[4].href@ == url_base + "/collections"@
    &&& (links[4].type_ matches Some(t) && t@ == "application/json"@)
    &&& (links[4].title matches Some(t) && t@ == "Information about the feature collections"@)
}

/// Builds the landing page from the loaded configuration.
pub fn landing_page(config: &AppConfig) -> (r: LandingPage)
    ensures
        r.title@ == config.title@,
        r.description@ == config.description@,
        spec_landing_links(config.url_base@, r.links@),
{
    let url_base = &config.url_base;
    let mut links: Vec<Link> = Vec::new();

    let mut self_href = url_base.clone();
    self_href.append("/");
    links.push(
        Link {
            href: self_href,
            rel: LinkRel::Self_,
            type_: Some("application/json".to_owned()),
            title: Some("this document".to_owned()),
        },
    );

    let mut openapi_href = url_base.clone();
    openapi_href.append("/api/openapi.json");
    links.push(
        Link {
            href: openapi_href,
            rel: LinkRel::ServiceDesc,
            type_: Some("application/vnd.oai.openapi+json;version=3.0".to_owned()),
            title: Some("the API definition".to_owned()),
        },
    );

    let mut api_html_href = url_base.clone();
    api_html_href.append("/api.html");
    links.push(
        Link {
            href: api_html_href,
            rel: LinkRel::ServiceDoc,
            type_: Some("text/html".to_owned()),
            title: Some("the API documentation".to_owned()),
        },
    );

    let mut conformance_href = url_base.clone();
    conformance_href.append("/conformance");
    links.push(
        Link {
            href: conformance_href,
            rel: LinkRel::Conformance,
            type_: Some("application/json".to_owned()),
            title: Some("OGC API conformance classes implemented by this server".to_owned()),
        },
    );

    let mut collections_href = url_base.clone();
    collections_href.append("/collections");
    links.push(
        Link {
            href: collections_href,
            rel: LinkRel::Data,
            type_: Some("application/json".to_owned()),
            title: Some("Information about the feature collections".to_owned()),
        },
    );

    LandingPage { title: config.title.clone(), description: config.description.clone(), links }
}

/// Builds the conformance declaration: the OGC API Features conformance
/// classes this service implements.
pub fn conformance() -> (r: Conformance)
    ensures
        r.conforms_to@.len() == 3,
        r.conforms_to@[0]@ == "http://www.opengis.net/spec/ogcapi-features-1/1.0/conf/core"@,
        r.conforms_to@[1]@ == "http://www.opengis.net/spec/ogcapi-features-1/1.0/conf/oas30"@,
        r.conforms_to@[2]@ == "http://www.opengis.net/spec/ogcapi-features-1/1.0/conf/geojson"@,
{
    let mut conforms_to: Vec<String> = Vec::new();
    conforms_to.push("http://www.opengis.net/spec/ogcapi-features-1/1.0/conf/core".to_owned());
    conforms_to.push("http://www.opengis.net/spec/ogcapi-features-1/1.0/conf/oas30".to_owned());
    conforms_to.push("http://www.opengis.net/spec/ogcapi-features-1/1.0/conf/geojson".to_owned());
    Conformance { conforms_to }
}

/// Builds the list of every configured collection's descriptor, in
/// configuration order. Under a well-formed configuration no name is listed
/// twice, so every listed collection is the one its name serves.
pub fn collections_list(config: &AppConfig) -> (r: Collections)
    ensures
        r.collections@.len() == config.collections@.len(),
        forall|i: int|
            0 <= i < r.collections@.len() ==> spec_is_built_collection(
                config.url_base@,
                config.collections@[i].0@,
                #[trigger] r.collections@[i],
            ),
        config.wf() ==> (forall|i: int, j: int|
            0 <= i < j < r.collections@.len() ==> (#[trigger] r.collections@[i]).id@ != (
            #[trigger] r.collections@[j]).id@),
{
    let n = config.collections.len();
    let mut collections: Vec<Collection> = Vec::new();
    let mut i: usize = 0;
    while i < n
        invariant
            0 <= i <= n,
            n == config.collections@.len(),
            collections@.len() == i,
            forall|j: int|
                0 <= j < i ==> spec_is_built_collection(
                    config.url_base@,
                    config.collections@[j].0@,
                    #[trigger] collections@[j],
                ),
        decreases n - i,
    {
        let c = build_collection(config.url_base.as_str(), config.collections[i].0.as_str());
        collections.push(c);
        i += 1;
    }
    Collections { collections }
}

/// Serves one collection's descriptor, or NotFound when no collection of
/// that name is configured.
pub fn collection_detail(config: &AppConfig, collection_id: &str) -> (r: Result<
    Collection,
    ApiError,
>)
    ensures
        match r {
            Ok(c) => spec_lookup(config.collections@, collection_id@) is Some
                && spec_is_built_collection(config.url_base@, collection_id@, c),
            Err(e) => {
                &&& spec_lookup(config.collections@, collection_id@) is None
                &&& e.kind == ApiErrorKind::NotFound
                &&& e.message@ == "Collection "@ + collection_id@ + " not found"@
            },
        },
{
    if config.contains_collection(collection_id) {
        Ok(build_collection(config.url_base.as_str(), collection_id))
    } else {
        Err(ApiError::collection_not_found(collection_id))
    }
}

} // verus!
