use vstd::prelude::*;
use vstd::string::StringExecFns;
use crate::error::BackendError;
use crate::youtube::{yt_results_model, YoutubePlayer};

verus! {

/// The catalog providers the session can be wired to.
#[derive(Debug, PartialEq, Eq, Hash, Structural)]
pub enum BackendType {
    Youtube,
}

/// One candidate from the catalog: an opaque identifier, a display title and
/// an optional remote thumbnail reference.
#[derive(Debug)]
pub struct BackendSearchResult {
    pub thumbnail: Option<String>,
    pub id: String,
    pub title: String,
}

/// The abstract value of a search result: the characters of its fields.
pub struct SearchResultView {
    pub id: Seq<char>,
    pub title: Seq<char>,
    pub thumbnail: Option<Seq<char>>,
}

impl View for BackendSearchResult {
    type V = SearchResultView;

    open spec fn view(&self) -> SearchResultView {
        SearchResultView {
            id: self.id@,
            title: self.title@,
            thumbnail: match self.thumbnail {
                Some(t) => Some(t@),
                None => None,
            },
        }
    }
}

impl Clone for BackendSearchResult {
    fn clone(&self) -> (r: Self)
        ensures
            r == *self,
    {
        BackendSearchResult {
            thumbnail: match &self.thumbnail {
                Some(t) => Some(t.clone()),
                None => None,
            },
            id: self.id.clone(),
            title: self.title.clone(),
        }
    }
}

/// The abstract values of a whole result list, in order.
pub open spec fn results_view(s: Seq<BackendSearchResult>) -> Seq<SearchResultView> {
    s.map_values(|r: BackendSearchResult| r@)
}

/// A pluggable search capability: free-text search and related-item lookup,
/// each returning candidates in the provider's native relevance order.
pub trait Backend {
    fn find_related_tracks(&self, id: &str) -> Result<Vec<BackendSearchResult>, BackendError>;

    fn search(&self, keywords: &str) -> Result<Vec<BackendSearchResult>, BackendError>;
}

/// Dispatches catalog work to the configured provider. Only the parts of the
/// provider that compute — request construction and response decoding — live
/// here; performing the transfer is its caller's concern.
pub struct MasterBackend {
    pub btype: BackendType,
    pub ytb: YoutubePlayer,
}

impl MasterBackend {
    pub fn new(yt_api_key: &str) -> (r: MasterBackend)
        ensures
            r.btype == BackendType::Youtube,
            r.ytb.youtube_api_key@ == yt_api_key@,
    {
        MasterBackend {
            btype: BackendType::Youtube,
            ytb: YoutubePlayer::new(String::from_str(yt_api_key)),
        }
    }

    /// The request that a free-text search translates to.
    pub fn search_request_url(&self, keywords: &str) -> (r: String)
        ensures
            r@ == crate::youtube::spec_search_url(keywords@),
    {
        match self.btype {
            BackendType::Youtube => self.ytb.search_url(keywords),
        }
    }

    /// The request that a related-tracks lookup translates to.
    pub fn related_request_url(&self, video_id: &str) -> (r: String)
        ensures
            r@ == crate::youtube::spec_related_url(video_id@),
    {
        match self.btype {
            BackendType::Youtube => self.ytb.related_url(video_id),
        }
    }

    /// The request with the provider's credential appended.
    pub fn authed_url(&self, url: &str) -> (r: String)
        ensures
            r@ == url@ + "&key="@ + self.ytb.youtube_api_key@,
    {
        match self.btype {
            BackendType::Youtube => self.ytb.authed_url(url),
        }
    }

    /// Decodes a raw catalog response into result records.
    pub fn parse_response(&self, body: &str) -> (r: Result<Vec<BackendSearchResult>, BackendError>)
        ensures
            match yt_results_model(body@) {
                Some(rs) => r matches Ok(v) && results_view(v@) == rs,
                None => r matches Err(e) && e == BackendError::MalformedResponse,
            },
    {
        match self.btype {
            BackendType::Youtube => crate::youtube::yt_json_parser(body),
        }
    }
}

} // verus!
