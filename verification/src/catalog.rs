//! The records served by the remote image catalog, and the request-shaping
//! decisions of the catalog client: which query parameters a search
//! carries, when a credential is attached, when an unauthorized search is
//! retried without it, and which URL each call addresses. The transport
//! itself is the host program's part.

use vstd::prelude::*;
use vstd::string::StrSliceExecFns;
use vstd::string::StringExecFns;

use crate::strutil::{decimal_of, trimmed};

verus! {

/// A catalog tag attached to a wallpaper.
pub struct Tag {
    pub id: u64,
    pub name: String,
}

/// The mathematical value of a `Tag`.
#[verifier::ext_equal]
pub struct TagV {
    pub id: u64,
    pub name: Seq<char>,
}

impl View for Tag {
    type V = TagV;

    open spec fn view(&self) -> TagV {
        TagV { id: self.id, name: self.name@ }
    }
}

impl DeepView for Tag {
    type V = TagV;

    open spec fn deep_view(&self) -> TagV {
        self.view()
    }
}

/// The thumbnail URLs of a wallpaper.
pub struct Thumbs {
    pub large: String,
    pub original: String,
    pub small: String,
}

/// The mathematical value of a `Thumbs` record.
#[verifier::ext_equal]
pub struct ThumbsV {
    pub large: Seq<char>,
    pub original: Seq<char>,
    pub small: Seq<char>,
}

impl View for Thumbs {
    type V = ThumbsV;

    open spec fn view(&self) -> ThumbsV {
        ThumbsV { large: self.large@, original: self.original@, small: self.small@ }
    }
}

impl DeepView for Thumbs {
    type V = ThumbsV;

    open spec fn deep_view(&self) -> ThumbsV {
        self.view()
    }
}

/// A wallpaper record as the catalog serves it: identity, page URL, the
/// download source URL under `path`, thumbnails, resolution, and tags.
pub struct Wallpaper {
    pub id: String,
    pub url: String,
    pub path: String,
    pub thumbs: Thumbs,
    pub resolution: String,
    pub tags: Vec<Tag>,
}

/// The mathematical value of a `Wallpaper`.
#[verifier::ext_equal]
pub struct WallpaperV {
    pub id: Seq<char>,
    pub url: Seq<char>,
    pub path: Seq<char>,
    pub thumbs: ThumbsV,
    pub resolution: Seq<char>,
    pub tags: Seq<TagV>,
}

impl View for Wallpaper {
    type V = WallpaperV;

    open spec fn view(&self) -> WallpaperV {
        WallpaperV {
            id: self.id@,
            url: self.url@,
            path: self.path@,
            thumbs: self.thumbs@,
            resolution: self.resolution@,
            tags: self.tags.deep_view(),
        }
    }
}

impl DeepView for Wallpaper {
    type V = WallpaperV;

    open spec fn deep_view(&self) -> WallpaperV {
        self.view()
    }
}

/// A user collection as the catalog lists it.
pub struct Collection {
    pub id: u64,
    pub label: String,
    pub views: u64,
    pub public: u8,
    pub count: u64,
}

/// The mathematical value of a `Collection`.
#[verifier::ext_equal]
pub struct CollectionV {
    pub id: u64,
    pub label: Seq<char>,
    pub views: u64,
    pub public: u8,
    pub count: u64,
}

impl View for Collection {
    type V = CollectionV;

    open spec fn view(&self) -> CollectionV {
        CollectionV {
            id: self.id,
            label: self.label@,
            views: self.views,
            public: self.public,
            count: self.count,
        }
    }
}

impl DeepView for Collection {
    type V = CollectionV;

    open spec fn deep_view(&self) -> CollectionV {
        self.view()
    }
}

/// The tag listing the catalog serves for one wallpaper.
pub struct WallpaperInfo {
    pub tags: Vec<Tag>,
}

/// The mathematical value of a `WallpaperInfo`.
#[verifier::ext_equal]
pub struct WallpaperInfoV {
    pub tags: Seq<TagV>,
}

impl View for WallpaperInfo {
    type V = WallpaperInfoV;

    open spec fn view(&self) -> WallpaperInfoV {
        WallpaperInfoV { tags: self.tags.deep_view() }
    }
}

impl DeepView for WallpaperInfo {
    type V = WallpaperInfoV;

    open spec fn deep_view(&self) -> WallpaperInfoV {
        self.view()
    }
}

/// One query parameter of a catalog request.
pub struct QueryParam {
    pub key: String,
    pub value: String,
}

/// The mathematical value of a `QueryParam`.
#[verifier::ext_equal]
pub struct QueryParamV {
    pub key: Seq<char>,
    pub value: Seq<char>,
}

impl View for QueryParam {
    type V = QueryParamV;

    open spec fn view(&self) -> QueryParamV {
        QueryParamV { key: self.key@, value: self.value@ }
    }
}

impl DeepView for QueryParam {
    type V = QueryParamV;

    open spec fn deep_view(&self) -> QueryParamV {
        self.view()
    }
}

impl Clone for Tag {
    /// Copies the tag; the copy carries the same value.
    fn clone(&self) -> (res: Self)
        ensures
            res@ == self@,
    {
        Tag { id: self.id, name: self.name.clone() }
    }
}

impl Clone for Thumbs {
    /// Copies the thumbnail record; the copy carries the same value.
    fn clone(&self) -> (res: Self)
        ensures
            res@ == self@,
    {
        Thumbs {
            large: self.large.clone(),
            original: self.original.clone(),
            small: self.small.clone(),
        }
    }
}

impl Clone for Wallpaper {
    /// Copies the wallpaper record; the copy carries the same value.
    fn clone(&self) -> (res: Self)
        ensures
            res@ == self@,
    {
        let mut tags: Vec<Tag> = Vec::new();
        let mut i: usize = 0;
        while i < self.tags.len()
            invariant
                i <= self.tags.len(),
                tags.deep_view() =~= self.tags.deep_view().take(i as int),
            decreases self.tags.len() - i,
        {
            let ghost prev = tags.deep_view();
            let t = self.tags[i].clone();
            assert(t.deep_view() == self.tags.deep_view()[i as int]);
            tags.push(t);
            assert(tags.deep_view() =~= prev.push(self.tags.deep_view()[i as int]));
            i = i + 1;
            assert(tags.deep_view() =~= self.tags.deep_view().take(i as int));
        }
        let res = Wallpaper {
            id: self.id.clone(),
            url: self.url.clone(),
            path: self.path.clone(),
            thumbs: self.thumbs.clone(),
            resolution: self.resolution.clone(),
            tags,
        };
        proof {
            assert(self.tags.deep_view().take(self.tags.len() as int) =~= self.tags.deep_view());
            assert(res@ =~= self@);
        }
        res
    }
}

/// The query parameters of a catalog search: the sorting, purity,
/// categories and page parameters always, the query string and the
/// minimum-resolution filter only when they are non-empty.
pub open spec fn spec_search_params(
    sorting: Seq<char>,
    purity: Seq<char>,
    categories: Seq<char>,
    atleast: Seq<char>,
    page: u32,
    query: Seq<char>,
) -> Seq<QueryParamV> {
    let base = seq![
        QueryParamV { key: "sorting"@, value: sorting },
        QueryParamV { key: "purity"@, value: purity },
        QueryParamV { key: "categories"@, value: categories },
        QueryParamV { key: "page"@, value: decimal_of(page as nat) },
    ];
    let with_query = if query.len() > 0 {
        base.push(QueryParamV { key: "q"@, value: query })
    } else {
        base
    };
    if atleast.len() > 0 {
        with_query.push(QueryParamV { key: "atleast"@, value: atleast })
    } else {
        with_query
    }
}

fn param(key: &str, value: String) -> (r: QueryParam)
    ensures
        r@ == (QueryParamV { key: key@, value: value@ }),
{
    QueryParam { key: key.to_owned(), value }
}

/// Builds the query parameters of a catalog search. An absent page asks
/// for the first; an unauthorized first attempt is retried with these
/// parameters rebuilt from the default purity and without the credential.
pub fn search_params(
    sorting: &str,
    purity: &str,
    categories: &str,
    atleast: &str,
    page: Option<u32>,
    query: &str,
) -> (r: Vec<QueryParam>)
    ensures
        r.deep_view() == spec_search_params(
            sorting@,
            purity@,
            categories@,
            atleast@,
            match page {
                Some(p) => p,
                None => 1u32,
            },
            query@,
        ),
{
    let page_num: u32 = match page {
        Some(p) => p,
        None => 1,
    };
    let mut r: Vec<QueryParam> = Vec::new();
    r.push(param("sorting", sorting.to_owned()));
    r.push(param("purity", purity.to_owned()));
    r.push(param("categories", categories.to_owned()));
    r.push(param("page", crate::strutil::u32_to_string(page_num)));
    if query.unicode_len() > 0 {
        r.push(param("q", query.to_owned()));
    }
    if atleast.unicode_len() > 0 {
        r.push(param("atleast", atleast.to_owned()));
    }
    assert(r.deep_view() =~= spec_search_params(
        sorting@,
        purity@,
        categories@,
        atleast@,
        page_num,
        query@,
    ));
    r
}

/// The query parameters of the one automatic recovery: after an
/// unauthorized answer the search is repeated once with the default
/// purity, the same sorting, categories, page, query and minimum
/// resolution, and no credential attached.
pub fn retry_search_params(
    sorting: &str,
    categories: &str,
    atleast: &str,
    page: Option<u32>,
    query: &str,
) -> (r: Vec<QueryParam>)
    ensures
        r.deep_view() == spec_search_params(
            sorting@,
            "100"@,
            categories@,
            atleast@,
            match page {
                Some(p) => p,
                None => 1u32,
            },
            query@,
        ),
{
    search_params(sorting, "100", categories, atleast, page, query)
}

/// The credential header of a catalog request: the trimmed key when that
/// is non-empty, nothing otherwise.
pub fn api_key_header(api_key: &str) -> (r: Option<String>)
    ensures
        match r {
            Some(k) => trimmed(api_key@).len() > 0 && k@ == trimmed(api_key@),
            None => trimmed(api_key@).len() == 0,
        },
{
    let t = crate::strutil::trim_spaces(api_key);
    if t.as_str().unicode_len() > 0 {
        Some(t)
    } else {
        None
    }
}

/// Whether a search response calls for the one automatic recovery: the
/// catalog answered unauthorized while a credential was attached, so the
/// search is repeated once without it.
pub fn should_retry_without_key(status: u16, api_key: &str) -> (r: bool)
    ensures
        r == (status == 401 && trimmed(api_key@).len() > 0),
{
    let t = crate::strutil::trim_spaces(api_key);
    status == 401 && t.as_str().unicode_len() > 0
}

/// What to do with a search response.
#[derive(Debug)]
pub enum SearchResponseAction {
    /// The one automatic recovery: repeat the search once, with the
    /// default purity and no credential, and parse whatever that second
    /// attempt returns.
    RetryWithoutKey,
    /// Give up with this error.
    Fail { error: String },
    /// Parse the body.
    ParseBody,
}

/// Decides what a search response calls for: an unauthorized answer to a
/// request that carried a credential is retried once without it, any other
/// non-success status is the error naming it, and a success is parsed.
pub fn search_response_action(status: u16, api_key: &str) -> (r: SearchResponseAction)
    ensures
        status == 401 && trimmed(api_key@).len() > 0 ==> r is RetryWithoutKey,
        !(status == 401 && trimmed(api_key@).len() > 0) && !(200 <= status < 300) ==> (r matches
            SearchResponseAction::Fail { error } && error@ == "API error: status "@ + decimal_of(
            status as nat,
        )),
        !(status == 401 && trimmed(api_key@).len() > 0) && 200 <= status < 300 ==> r is ParseBody,
{
    if should_retry_without_key(status, api_key) {
        SearchResponseAction::RetryWithoutKey
    } else {
        match status_outcome(status) {
            Ok(()) => SearchResponseAction::ParseBody,
            Err(error) => SearchResponseAction::Fail { error },
        }
    }
}

/// Classifies a catalog response status: the two-hundreds succeed, every
/// other status is the error naming it.
pub fn status_outcome(status: u16) -> (r: Result<(), String>)
    ensures
        r is Ok <==> 200 <= status < 300,
        match r {
            Ok(()) => true,
            Err(e) => e@ == "API error: status "@ + decimal_of(status as nat),
        },
{
    if 200 <= status && status < 300 {
        Ok(())
    } else {
        Err(String::from_str("API error: status ").concat(
            crate::strutil::u64_to_string(status as u64).as_str(),
        ))
    }
}

/// The URL listing a user's collections; a blank user name is rejected
/// before any request is made.
pub fn collections_url(username: &str) -> (r: Result<String, String>)
    ensures
        match r {
            Ok(u) => trimmed(username@).len() > 0 && u@ == "https://wallhaven.cc/api/v1/collections/"@
                + trimmed(username@),
            Err(e) => trimmed(username@).len() == 0 && e@
                == "Username not configured. Set it in Settings."@,
        },
{
    let t = crate::strutil::trim_spaces(username);
    if t.as_str().unicode_len() == 0 {
        Err("Username not configured. Set it in Settings.".to_owned())
    } else {
        Ok(String::from_str("https://wallhaven.cc/api/v1/collections/").concat(t.as_str()))
    }
}

/// The URL listing the wallpapers of one collection of a user; a blank
/// user name is rejected before any request is made.
pub fn collection_wallpapers_url(username: &str, collection_id: u64) -> (r: Result<String, String>)
    ensures
        match r {
            Ok(u) => trimmed(username@).len() > 0 && u@ == "https://wallhaven.cc/api/v1/collections/"@
                + trimmed(username@) + "/"@ + decimal_of(collection_id as nat),
            Err(e) => trimmed(username@).len() == 0 && e@
                == "Username not configured. Set it in Settings."@,
        },
{
    let t = crate::strutil::trim_spaces(username);
    if t.as_str().unicode_len() == 0 {
        Err("Username not configured. Set it in Settings.".to_owned())
    } else {
        Ok(
            String::from_str("https://wallhaven.cc/api/v1/collections/").concat(t.as_str()).concat(
                "/",
            ).concat(crate::strutil::u64_to_string(collection_id).as_str()),
        )
    }
}

/// The URL of one wallpaper's detail record, which carries its tags.
pub fn wallpaper_info_url(wallpaper_id: &str) -> (r: String)
    ensures
        r@ == "https://wallhaven.cc/api/v1/w/"@ + wallpaper_id@,
{
    String::from_str("https://wallhaven.cc/api/v1/w/").concat(wallpaper_id)
}

/// The URL of a catalog search, before its query parameters.
pub fn search_url() -> (r: String)
    ensures
        r@ == "https://wallhaven.cc/api/v1/search"@,
{
    "https://wallhaven.cc/api/v1/search".to_owned()
}

} // verus!
