//! The descriptor of one day's image, and the canonical file name and
//! download address derived from it.
use vstd::prelude::*;
use vstd::string::*;
use crate::catalog::{effective_resolution, pick_resolution, requested_resolution};
use crate::error::WallpaperError;
use crate::text::{find_last, last_index_of, lemma_last_index_bounds, replace_double_dot,
    replace_double_dot_spec, starts_with, has_prefix, opt_view, has_double_dot, lemma_double_dot_gone};

verus! {

/// One day's published image, as the service describes it, together with the
/// resolution and market that were requested when it was fetched.
#[derive(Debug, Clone)]
pub struct ImageObject {
    /// First day of publication, `YYYYMMDD`.
    pub startdate: String,
    /// Start of publication in local time, `YYYYMMDDHHMM`.
    pub fullstartdate: String,
    pub enddate: String,
    pub url: String,
    /// Path fragment of the image on the service, such as `/th?id=OHR.Name_EN-US123`.
    pub urlbase: String,
    pub copyright: String,
    pub copyrightlink: String,
    pub title: String,
    pub quiz: String,
    pub wp: bool,
    pub hsh: String,
    pub drk: i64,
    pub top: i64,
    pub bot: i64,
    /// Resolution requested by the run that fetched this descriptor.
    pub resolution: Option<String>,
    /// Market requested by the run that fetched this descriptor.
    pub market: Option<String>,
    pub file_hash: Option<String>,
}

/// The segment that introduces an image name in a path fragment.
pub open spec fn name_marker() -> Seq<char> {
    "th?id=OHR."@
}

/// What follows the last `/` of `s`; all of `s` when it has none.
pub open spec fn last_segment(s: Seq<char>) -> Seq<char> {
    s.subrange(last_index_of(s, '/') + 1, s.len() as int)
}

/// The image name carried by a path fragment, with `..` made harmless, or
/// `None` when its last segment lacks the marker.
pub open spec fn cleaned_name(url_base: Seq<char>) -> Option<Seq<char>> {
    let seg = last_segment(url_base);
    if has_prefix(seg, name_marker()) {
        Some(replace_double_dot_spec(seg.subrange(name_marker().len() as int, seg.len() as int)))
    } else {
        None
    }
}

/// `{start_date}-{name}_{resolution}.jpg`, or `None` when the path fragment
/// carries no name.
pub open spec fn save_filename(start_date: Seq<char>, url_base: Seq<char>, resolution: Option<Seq<char>>) -> Option<Seq<char>> {
    match cleaned_name(url_base) {
        Some(name) => Some(start_date + "-"@ + name + "_"@ + requested_resolution(resolution) + ".jpg"@),
        None => None,
    }
}

/// `https://bing.com{url_base}_{resolution}.jpg`, with an unsupported
/// resolution replaced by the default.
pub open spec fn download_url(url_base: Seq<char>, resolution: Seq<char>) -> Seq<char> {
    "https://bing.com"@ + url_base + "_"@ + effective_resolution(resolution) + ".jpg"@
}

/// The resolution stored in a descriptor, or the default when there is none;
/// an unsupported one becomes the default too.
pub(crate) fn stored_resolution(r: &Option<String>) -> (e: &str)
    ensures
        e@ == requested_resolution(opt_view(*r)),
{
    match r {
        Some(v) => pick_resolution(v.as_str()),
        None => "UHD",
    }
}

/// The image name of a path fragment: the part of its last segment after the
/// marker, with every `..` replaced by `_`.
pub fn clean_name(url_base: &str) -> (r: Option<String>)
    ensures
        opt_view(r) == cleaned_name(url_base@),
{
    let n = url_base.unicode_len();
    proof {
        lemma_last_index_bounds(url_base@, '/');
    }
    let from: usize = match find_last(url_base, '/') {
        Some(k) => k + 1,
        None => 0,
    };
    let seg = url_base.substring_char(from, n);
    let marker = "th?id=OHR.";
    if !starts_with(seg, marker) {
        return None;
    }
    let m = marker.unicode_len();
    let rest = seg.substring_char(m, seg.unicode_len());
    Some(replace_double_dot(rest))
}

/// The file name depends on the start date, the path fragment and the
/// requested resolution alone, so two descriptors that agree on them get the
/// same name.
pub proof fn lemma_filename_deterministic(a: ImageObject, b: ImageObject)
    requires
        a.startdate@ == b.startdate@,
        a.urlbase@ == b.urlbase@,
        opt_view(a.resolution) == opt_view(b.resolution),
    ensures
        save_filename(a.startdate@, a.urlbase@, opt_view(a.resolution)) == save_filename(
            b.startdate@,
            b.urlbase@,
            opt_view(b.resolution),
        ),
{
}

/// A path fragment whose last segment lacks the marker gives no file name.
pub proof fn lemma_filename_needs_marker(start_date: Seq<char>, url_base: Seq<char>, resolution: Option<Seq<char>>)
    requires
        !has_prefix(last_segment(url_base), name_marker()),
    ensures
        save_filename(start_date, url_base, resolution) is None,
{
}

/// The image name in a file name never holds two dots side by side.
pub proof fn lemma_cleaned_name_has_no_double_dot(url_base: Seq<char>)
    ensures
        cleaned_name(url_base) matches Some(name) ==> !has_double_dot(name),
{
    let seg = last_segment(url_base);
    lemma_double_dot_gone(seg.subrange(name_marker().len() as int, seg.len() as int));
}

/// A field-for-field copy of an optional string.
pub fn copy_optional(o: &Option<String>) -> (r: Option<String>)
    ensures
        r == *o,
{
    match o {
        Some(s) => Some(s.clone()),
        None => None,
    }
}

impl ImageObject {
    /// A field-for-field copy.
    pub fn duplicate(&self) -> (r: ImageObject)
        ensures
            r == *self,
    {
        ImageObject {
            startdate: self.startdate.clone(),
            fullstartdate: self.fullstartdate.clone(),
            enddate: self.enddate.clone(),
            url: self.url.clone(),
            urlbase: self.urlbase.clone(),
            copyright: self.copyright.clone(),
            copyrightlink: self.copyrightlink.clone(),
            title: self.title.clone(),
            quiz: self.quiz.clone(),
            wp: self.wp,
            hsh: self.hsh.clone(),
            drk: self.drk,
            top: self.top,
            bot: self.bot,
            resolution: copy_optional(&self.resolution),
            market: copy_optional(&self.market),
            file_hash: copy_optional(&self.file_hash),
        }
    }

    /// The file name this image is saved under in a backup directory:
    /// `{startdate}-{name}_{resolution}.jpg`, where `name` is the last segment
    /// of `urlbase` after the `th?id=OHR.` marker with `..` replaced by `_`.
    /// A `urlbase` whose last segment lacks the marker is an error naming it.
    pub fn get_save_filename(&self) -> (r: Result<String, WallpaperError>)
        ensures
            match r {
                Ok(name) => save_filename(self.startdate@, self.urlbase@, opt_view(self.resolution))
                    == Some(name@),
                Err(e) => save_filename(self.startdate@, self.urlbase@, opt_view(self.resolution))
                    is None && e == WallpaperError::UnparseableUrlBase(self.urlbase),
            },
    {
        match clean_name(self.urlbase.as_str()) {
            Some(name) => {
                let mut out = self.startdate.clone();
                out.append("-");
                out.append(name.as_str());
                out.append("_");
                out.append(stored_resolution(&self.resolution));
                out.append(".jpg");
                Ok(out)
            },
            None => Err(WallpaperError::UnparseableUrlBase(self.urlbase.clone())),
        }
    }

    /// The address the image is downloaded from at `resolution`; an
    /// unsupported resolution is replaced by the default.
    pub fn get_download_url(&self, resolution: &str) -> (r: String)
        ensures
            r@ == download_url(self.urlbase@, resolution@),
    {
        let mut out = String::from_str("https://bing.com");
        out.append(self.urlbase.as_str());
        out.append("_");
        out.append(pick_resolution(resolution));
        out.append(".jpg");
        out
    }
}

} // verus!
