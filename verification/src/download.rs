use vstd::prelude::*;
use vstd::string::{StrSliceExecFns, StringExecFns};
use crate::error::FetchError;
use crate::youtube::{spec_watch_url, watch_url};

verus! {

/// How a playable source for an id is obtained: a stream locator handed
/// straight to the player, or one run of the external download tool.
#[derive(Debug)]
pub enum AudioSource {
    /// Stream from this address; no disk and no tool are touched.
    Url(String),
    /// Run the download tool on `url`, writing under `output_template`;
    /// the tool's standard output then names the file it wrote.
    Download { url: String, output_template: String },
}

/// What to do about one thumbnail.
#[derive(Debug)]
pub enum ThumbPlan {
    /// No remote reference: nothing to show.
    NoThumbnail,
    /// The file is already in the cache: reuse it without any transfer.
    Cached { path: String },
    /// Create the file at `path` and fetch `url` into it.
    Fetch { url: String, path: String },
}

/// The abstract value of a thumbnail plan.
pub enum ThumbPlanModel {
    NoThumbnail,
    Cached { path: Seq<char> },
    Fetch { url: Seq<char>, path: Seq<char> },
}

impl View for ThumbPlan {
    type V = ThumbPlanModel;

    open spec fn view(&self) -> ThumbPlanModel {
        match self {
            ThumbPlan::NoThumbnail => ThumbPlanModel::NoThumbnail,
            ThumbPlan::Cached { path } => ThumbPlanModel::Cached { path: path@ },
            ThumbPlan::Fetch { url, path } => ThumbPlanModel::Fetch { url: url@, path: path@ },
        }
    }
}

/// The output template handed to the download tool: the tool picks the
/// file name under the given directory.
pub open spec fn spec_output_template(dir: Seq<char>) -> Seq<char> {
    dir + "/%(title)s.%(ext)s"@
}

pub fn output_template(dir: &str) -> (r: String)
    ensures
        r@ == spec_output_template(dir@),
{
    let mut t = String::from_str(dir);
    t.append("/%(title)s.%(ext)s");
    t
}

/// The fixed argument list of one download-tool run: extract the audio as
/// flac at best quality, into the template, from the address.
pub fn ytdl_args(template: &str, url: &str) -> (r: Vec<String>)
    ensures
        r@.len() == 8,
        r@[0]@ == "--extract-audio"@,
        r@[1]@ == "--audio-format"@,
        r@[2]@ == "flac"@,
        r@[3]@ == "--audio-quality"@,
        r@[4]@ == "0"@,
        r@[5]@ == "-o"@,
        r@[6]@ == template@,
        r@[7]@ == url@,
{
    let mut args: Vec<String> = Vec::new();
    args.push(String::from_str("--extract-audio"));
    args.push(String::from_str("--audio-format"));
    args.push(String::from_str("flac"));
    args.push(String::from_str("--audio-quality"));
    args.push(String::from_str("0"));
    args.push(String::from_str("-o"));
    args.push(String::from_str(template));
    args.push(String::from_str(url));
    args
}

/// The leftmost match of a pattern in a text, which is a function of the
/// two alone; absent when the pattern does not compile or nothing matches.
pub uninterp spec fn regex_first_match(pattern: Seq<char>, text: Seq<char>) -> Option<Seq<char>>;

/// Relies on regex::Regex::new and regex::Regex::find: compiles the
/// pattern and returns the leftmost match in the text.
#[verifier::external_body]
fn regex_find(pattern: &str, text: &str) -> (r: Option<String>)
    ensures
        match r {
            Some(m) => regex_first_match(pattern@, text@) == Some(m@),
            None => regex_first_match(pattern@, text@) is None,
        },
{
    match regex::Regex::new(pattern) {
        Ok(re) => re.find(text).map(|m| String::from(m.as_str())),
        Err(_) => None,
    }
}

/// Reads the destination file out of the download tool's standard output:
/// the line `Destination: <file>.flac` names it. The match keeps the label
/// and the line break; both are stripped.
pub fn get_dl_path_from_ytdl_stdout(out: &str) -> (r: Result<String, FetchError>)
    ensures
        match regex_first_match("Destination:.*flac\n"@, out@) {
            Some(m) => if m.len() >= 14 {
                r matches Ok(p) && p@ == m.subrange(13, m.len() as int - 1)
            } else {
                r matches Err(e) && e == FetchError::ToolFailure
            },
            None => r matches Err(e) && e == FetchError::ToolFailure,
        },
{
    match regex_find("Destination:.*flac\n", out) {
        Some(m) => {
            let len = m.as_str().unicode_len();
            if len >= 14 {
                let p = m.as_str().substring_char(13, len - 1);
                Ok(String::from_str(p))
            } else {
                Err(FetchError::ToolFailure)
            }
        },
        None => Err(FetchError::ToolFailure),
    }
}

/// What comes after the last path separator of an address; the whole
/// address when it has none.
pub open spec fn spec_last_segment(s: Seq<char>) -> Seq<char>
    decreases s.len(),
{
    if s.len() == 0 {
        s
    } else if s.last() == '/' {
        Seq::empty()
    } else {
        spec_last_segment(s.drop_last()).push(s.last())
    }
}

proof fn lemma_last_segment_after(s: Seq<char>, k: int)
    requires
        0 <= k < s.len(),
        s[k] == '/',
        forall|j: int| k < j < s.len() ==> s[j] != '/',
    ensures
        spec_last_segment(s) =~= s.subrange(k + 1, s.len() as int),
    decreases s.len(),
{
    if k < s.len() - 1 {
        lemma_last_segment_after(s.drop_last(), k);
    }
}

proof fn lemma_last_segment_whole(s: Seq<char>)
    requires
        forall|j: int| 0 <= j < s.len() ==> s[j] != '/',
    ensures
        spec_last_segment(s) =~= s,
    decreases s.len(),
{
    if s.len() > 0 {
        lemma_last_segment_whole(s.drop_last());
    }
}

/// The last segment of an address, as the cache key uses it.
pub fn last_segment(s: &str) -> (r: &str)
    ensures
        r@ == spec_last_segment(s@),
{
    let len = s.unicode_len();
    let mut i: usize = len;
    while i > 0
        invariant
            len == s@.len(),
            i <= len,
            forall|j: int| i <= j < len ==> s@[j] != '/',
        decreases i,
    {
        if s.get_char(i - 1) == '/' {
            let r = s.substring_char(i, len);
            proof {
                lemma_last_segment_after(s@, i - 1);
            }
            return r;
        }
        i -= 1;
    }
    proof {
        lemma_last_segment_whole(s@);
    }
    s
}

/// The cache file name for a thumbnail: the item's id and the reference's
/// last segment, joined by an underscore, under the thumbnail directory.
pub open spec fn spec_thumb_path(dir: Seq<char>, uid: Seq<char>, url: Seq<char>) -> Seq<char> {
    dir + "/"@ + uid + "_"@ + spec_last_segment(url)
}

/// The plan for a thumbnail reference, as a function of the reference, the
/// id and whether the cache file already exists.
pub open spec fn spec_thumbnail_plan(
    dir: Seq<char>,
    url: Option<Seq<char>>,
    uid: Seq<char>,
    file_exists: bool,
) -> ThumbPlanModel {
    match url {
        None => ThumbPlanModel::NoThumbnail,
        Some(u) => if file_exists {
            ThumbPlanModel::Cached { path: spec_thumb_path(dir, uid, u) }
        } else {
            ThumbPlanModel::Fetch { url: u, path: spec_thumb_path(dir, uid, u) }
        },
    }
}

/// Cache idempotence for thumbnails: the cache path is a function of the
/// reference and the id alone, so after a first call planned a fetch into
/// some path and that file was written, a second call with the same
/// arguments plans no transfer at all — it is a cache hit on exactly the
/// path the first call wrote.
pub proof fn lemma_thumbnail_cache_idempotent(dir: Seq<char>, uid: Seq<char>, url: Seq<char>)
    ensures
        spec_thumbnail_plan(dir, Some(url), uid, false) matches ThumbPlanModel::Fetch {
            url: u,
            path: p,
        } && u == url && spec_thumbnail_plan(dir, Some(url), uid, true)
            == (ThumbPlanModel::Cached { path: p }),
{
}

/// The filesystem-backed asset cache: decides how audio and thumbnails are
/// obtained and where thumbnails live on disk. Running the tool and the
/// transfers themselves are its caller's concern.
pub struct Downloader {
    pub music_dir: String,
    pub thumbnail_dir: String,
}

impl Downloader {
    pub fn new(music_dir: String, thumbnail_dir: String) -> (r: Downloader)
        ensures
            r.music_dir@ == music_dir@,
            r.thumbnail_dir@ == thumbnail_dir@,
    {
        Downloader { music_dir, thumbnail_dir }
    }

    /// How audio for an id is obtained. With the skip flag set, the stream
    /// address comes back at once and neither disk nor tool is touched;
    /// otherwise one tool run is planned — audio file names cannot be
    /// predicted, so no existence check is made beforehand.
    pub fn download_audio_from_yt(&self, id: &str, nodl: bool) -> (r: AudioSource)
        ensures
            nodl ==> (r matches AudioSource::Url(u) && u@ == spec_watch_url(id@)),
            !nodl ==> (r matches AudioSource::Download { url, output_template } && url@
                == spec_watch_url(id@) && output_template@ == spec_output_template(
                self.music_dir@,
            )),
    {
        let url = watch_url(id);
        if nodl {
            AudioSource::Url(url)
        } else {
            AudioSource::Download { url, output_template: output_template(self.music_dir.as_str()) }
        }
    }

    /// The cache file for a thumbnail reference.
    pub fn thumb_file_path(&self, url: &str, uid: &str) -> (r: String)
        ensures
            r@ == spec_thumb_path(self.thumbnail_dir@, uid@, url@),
    {
        let mut path = String::from_str(self.thumbnail_dir.as_str());
        path.append("/");
        path.append(uid);
        path.append("_");
        let seg = last_segment(url);
        path.append(seg);
        path
    }

    /// What to do about a thumbnail reference, given whether its cache
    /// file already exists: nothing without a reference, reuse on a hit,
    /// one fetch otherwise.
    pub fn download_thumbnail(&self, url: &Option<String>, uid: &str, file_exists: bool) -> (r:
        ThumbPlan)
        ensures
            r@ == spec_thumbnail_plan(
                self.thumbnail_dir@,
                match url {
                    Some(u) => Some(u@),
                    None => None,
                },
                uid@,
                file_exists,
            ),
    {
        match url {
            None => ThumbPlan::NoThumbnail,
            Some(u) => {
                let path = self.thumb_file_path(u.as_str(), uid);
                if file_exists {
                    ThumbPlan::Cached { path }
                } else {
                    ThumbPlan::Fetch { url: u.clone(), path }
                }
            },
        }
    }
}

} // verus!
