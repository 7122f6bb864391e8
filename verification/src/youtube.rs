use vstd::prelude::*;
use vstd::string::{StrSliceExecFns, StringExecFns};
use crate::backend::{results_view, BackendSearchResult, SearchResultView};
use crate::error::BackendError;
use crate::json::{
    json_as_array, json_as_str, json_get, json_model, json_parse, json_parse_model, values_model,
    JsonModel,
};
use crate::strutil::push_char;

verus! {

/// The YouTube catalog provider: builds API requests and decodes API
/// responses. Performing the HTTP transfer is its caller's concern.
pub struct YoutubePlayer {
    pub youtube_api_key: String,
}

/// Spaces in a query become pluses, as the API's query syntax wants.
pub open spec fn spec_plus_encode(q: Seq<char>) -> Seq<char> {
    q.map_values(|c: char| if c == ' ' { '+' } else { c })
}

pub open spec fn spec_search_url(q: Seq<char>) -> Seq<char> {
    "https://www.googleapis.com/youtube/v3/search?part=snippet&q="@ + spec_plus_encode(q)
        + "&type=video"@
}

pub open spec fn spec_related_url(video_id: Seq<char>) -> Seq<char> {
    "https://www.googleapis.com/youtube/v3/search?part=snippet&relatedToVideoId="@ + video_id
        + "&type=video"@
}

pub open spec fn spec_watch_url(video_id: Seq<char>) -> Seq<char> {
    "https://www.youtube.com/watch?v="@ + video_id
}

/// The public page for a video, which doubles as its stream locator and as
/// the address handed to the download tool.
pub fn watch_url(video_id: &str) -> (r: String)
    ensures
        r@ == spec_watch_url(video_id@),
{
    let mut url = String::from_str("https://www.youtube.com/watch?v=");
    url.append(video_id);
    url
}

fn plus_encode(q: &str) -> (r: String)
    ensures
        r@ == spec_plus_encode(q@),
{
    let len = q.unicode_len();
    let mut out = String::new();
    let mut i: usize = 0;
    while i < len
        invariant
            len == q@.len(),
            i <= len,
            out@ == spec_plus_encode(q@.take(i as int)),
        decreases len - i,
    {
        let c = q.get_char(i);
        if c == ' ' {
            push_char(&mut out, '+');
        } else {
            push_char(&mut out, c);
        }
        proof {
            assert(spec_plus_encode(q@.take(i + 1 as int)) =~= spec_plus_encode(
                q@.take(i as int),
            ).push(if q@[i as int] == ' ' { '+' } else { q@[i as int] }));
        }
        i += 1;
    }
    proof {
        assert(q@.take(len as int) =~= q@);
    }
    out
}

impl YoutubePlayer {
    pub fn new(youtube_api_key: String) -> (r: YoutubePlayer)
        ensures
            r.youtube_api_key@ == youtube_api_key@,
    {
        YoutubePlayer { youtube_api_key }
    }

    /// The search request for a free-text query.
    pub fn search_url(&self, keywords: &str) -> (r: String)
        ensures
            r@ == spec_search_url(keywords@),
    {
        let mut url = String::from_str(
            "https://www.googleapis.com/youtube/v3/search?part=snippet&q=",
        );
        let enc = plus_encode(keywords);
        url.append(enc.as_str());
        url.append("&type=video");
        url
    }

    /// The request for tracks related to a known video.
    pub fn related_url(&self, video_id: &str) -> (r: String)
        ensures
            r@ == spec_related_url(video_id@),
    {
        let mut url = String::from_str(
            "https://www.googleapis.com/youtube/v3/search?part=snippet&relatedToVideoId=",
        );
        url.append(video_id);
        url.append("&type=video");
        url
    }

    /// A request with the API credential appended.
    pub fn authed_url(&self, url: &str) -> (r: String)
        ensures
            r@ == url@ + "&key="@ + self.youtube_api_key@,
    {
        let mut out = String::from_str(url);
        out.append("&key=");
        out.append(self.youtube_api_key.as_str());
        out
    }

    /// The stream locator for a video id; pure construction, cannot fail.
    pub fn gen_download_url(&self, video_id: &str) -> (r: String)
        ensures
            r@ == spec_watch_url(video_id@),
    {
        watch_url(video_id)
    }
}

/// The field of an object model, if the model is an object that has it.
pub open spec fn obj_get(j: JsonModel, k: Seq<char>) -> Option<JsonModel> {
    match j {
        JsonModel::Object(m) => if m.dom().contains(k) {
            Some(m[k])
        } else {
            None
        },
        _ => None,
    }
}

pub open spec fn opt_get(o: Option<JsonModel>, k: Seq<char>) -> Option<JsonModel> {
    match o {
        Some(j) => obj_get(j, k),
        None => None,
    }
}

pub open spec fn as_text(o: Option<JsonModel>) -> Option<Seq<char>> {
    match o {
        Some(JsonModel::Text(t)) => Some(t),
        _ => None,
    }
}

/// What one entry of the response's item list decodes to: its title and
/// video id are required, the default thumbnail address is optional.
pub open spec fn extract_one(e: JsonModel) -> Option<SearchResultView> {
    let title = as_text(opt_get(obj_get(e, "snippet"@), "title"@));
    let id = as_text(opt_get(obj_get(e, "id"@), "videoId"@));
    let thumbnail = as_text(
        opt_get(opt_get(opt_get(obj_get(e, "snippet"@), "thumbnails"@), "default"@), "url"@),
    );
    match (title, id) {
        (Some(t), Some(v)) => Some(SearchResultView { id: v, title: t, thumbnail }),
        _ => None,
    }
}

/// The whole item list decodes exactly when every entry does, keeping order.
pub open spec fn extract_list(s: Seq<JsonModel>) -> Option<Seq<SearchResultView>>
    decreases s.len(),
{
    if s.len() == 0 {
        Some(Seq::empty())
    } else {
        match (extract_list(s.drop_last()), extract_one(s.last())) {
            (Some(front), Some(h)) => Some(front.push(h)),
            _ => None,
        }
    }
}

pub open spec fn yt_items(j: JsonModel) -> Option<Seq<JsonModel>> {
    match obj_get(j, "items"@) {
        Some(JsonModel::Array(s)) => Some(s),
        _ => None,
    }
}

pub open spec fn spec_extract(j: JsonModel) -> Option<Seq<SearchResultView>> {
    match yt_items(j) {
        Some(s) => extract_list(s),
        None => None,
    }
}

/// What a raw response body decodes to, if it is valid JSON of the
/// expected shape.
pub open spec fn yt_results_model(body: Seq<char>) -> Option<Seq<SearchResultView>> {
    match json_parse_model(body) {
        Some(j) => spec_extract(j),
        None => None,
    }
}

proof fn lemma_extract_list_none(s: Seq<JsonModel>, i: int)
    requires
        0 <= i < s.len(),
        extract_one(s[i]) is None,
    ensures
        extract_list(s) is None,
    decreases s.len(),
{
    if i == s.len() - 1 {
        assert(s.last() == s[i]);
    } else {
        assert(s.drop_last()[i] == s[i]);
        lemma_extract_list_none(s.drop_last(), i);
    }
}

fn extract_item(v: &serde_json::Value) -> (r: Option<BackendSearchResult>)
    ensures
        match extract_one(json_model(*v)) {
            Some(m) => r matches Some(b) && b@ == m,
            None => r is None,
        },
{
    let snippet = match json_get(v, "snippet") {
        Some(x) => x,
        None => {
            return None;
        },
    };
    let title_v = match json_get(snippet, "title") {
        Some(x) => x,
        None => {
            return None;
        },
    };
    let title = match json_as_str(title_v) {
        Some(x) => x,
        None => {
            return None;
        },
    };
    let id_obj = match json_get(v, "id") {
        Some(x) => x,
        None => {
            return None;
        },
    };
    let id_v = match json_get(id_obj, "videoId") {
        Some(x) => x,
        None => {
            return None;
        },
    };
    let id = match json_as_str(id_v) {
        Some(x) => x,
        None => {
            return None;
        },
    };
    let thumbnail = match json_get(snippet, "thumbnails") {
        Some(t) => match json_get(t, "default") {
            Some(d) => match json_get(d, "url") {
                Some(u) => match json_as_str(u) {
                    Some(s) => Some(String::from_str(s)),
                    None => None,
                },
                None => None,
            },
            None => None,
        },
        None => None,
    };
    Some(
        BackendSearchResult {
            thumbnail,
            id: String::from_str(id),
            title: String::from_str(title),
        },
    )
}

/// Decodes the item list of an already parsed response value.
pub fn extract_results(v: &serde_json::Value) -> (r: Result<
    Vec<BackendSearchResult>,
    BackendError,
>)
    ensures
        match spec_extract(json_model(*v)) {
            Some(rs) => r matches Ok(out) && results_view(out@) == rs,
            None => r matches Err(e) && e == BackendError::MalformedResponse,
        },
{
    let items_v = match json_get(v, "items") {
        Some(x) => x,
        None => {
            return Err(BackendError::MalformedResponse);
        },
    };
    let arr = match json_as_array(items_v) {
        Some(a) => a,
        None => {
            return Err(BackendError::MalformedResponse);
        },
    };
    let ghost s = values_model(arr@);
    let mut out: Vec<BackendSearchResult> = Vec::new();
    let mut i: usize = 0;
    while i < arr.len()
        invariant
            i <= arr@.len(),
            s == values_model(arr@),
            yt_items(json_model(*v)) == Some(s),
            extract_list(s.take(i as int)) == Some(results_view(out@)),
        decreases arr@.len() - i,
    {
        let item = &arr[i];
        proof {
            assert(s[i as int] == json_model(arr@[i as int]));
        }
        match extract_item(item) {
            Some(b) => {
                let ghost prev = out@;
                out.push(b);
                proof {
                    let t = s.take(i as int + 1);
                    assert(t.drop_last() =~= s.take(i as int));
                    assert(t.last() == s[i as int]);
                    assert(results_view(out@) =~= results_view(prev).push(b@));
                }
            },
            None => {
                proof {
                    lemma_extract_list_none(s, i as int);
                }
                return Err(BackendError::MalformedResponse);
            },
        }
        i += 1;
    }
    proof {
        assert(s.take(arr@.len() as int) =~= s);
    }
    Ok(out)
}

/// Decodes a raw catalog response into result records, failing exactly when
/// the body is not valid JSON of the expected shape.
pub fn yt_json_parser(yt_json: &str) -> (r: Result<Vec<BackendSearchResult>, BackendError>)
    ensures
        match yt_results_model(yt_json@) {
            Some(rs) => r matches Ok(v) && results_view(v@) == rs,
            None => r matches Err(e) && e == BackendError::MalformedResponse,
        },
{
    let parsed = match json_parse(yt_json) {
        Some(v) => v,
        None => {
            return Err(BackendError::MalformedResponse);
        },
    };
    extract_results(&parsed)
}

} // verus!
