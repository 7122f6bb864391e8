use vstd::prelude::*;
use crate::download::{output_template, spec_output_template, AudioSource};

verus! {

/// A stand-alone handle on the external download tool, bound to one
/// download directory.
pub struct YoutubeDl {
    pub dl_path: String,
}

impl YoutubeDl {
    pub fn new(dl_path: String) -> (r: YoutubeDl)
        ensures
            r.dl_path@ == dl_path@,
    {
        YoutubeDl { dl_path }
    }

    /// The tool run that downloads audio from an address into this
    /// handle's directory. Running it is the caller's concern; the file
    /// the tool wrote is read back from its standard output through
    /// `get_dl_path_from_ytdl_stdout`.
    pub fn download_audio_from_url(&self, url: String) -> (r: AudioSource)
        ensures
            r matches AudioSource::Download { url: u, output_template: t } && u@ == url@ && t@
                == spec_output_template(self.dl_path@),
    {
        let template = output_template(self.dl_path.as_str());
        AudioSource::Download { url, output_template: template }
    }
}

} // verus!
