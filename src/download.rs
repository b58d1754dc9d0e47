//! Where the image is saved and from where it is downloaded.
use vstd::prelude::*;
use vstd::string::*;
use crate::catalog::requested_resolution;
use crate::error::WallpaperError;
use crate::image::{download_url, save_filename, stored_resolution, ImageObject};
use crate::text::{find_last, last_index_of, lemma_last_index_bounds, opt_view, replace_char,
    replace_char_spec};

verus! {

/// What a download needs: the image's address, the directory it goes to,
/// whether that directory is created when missing, and the file's full path.
#[derive(Debug, Clone)]
pub struct SavePlan {
    pub url: String,
    pub dir: String,
    pub path: String,
    pub create_dir: bool,
}

impl SavePlan {
    /// A field-for-field copy.
    pub fn duplicate(&self) -> (r: SavePlan)
        ensures
            r == *self,
    {
        SavePlan {
            url: self.url.clone(),
            dir: self.dir.clone(),
            path: self.path.clone(),
            create_dir: self.create_dir,
        }
    }
}

/// `name` inside directory `dir`, with a `/` between them unless `dir` is
/// empty or already ends with one.
pub open spec fn join_path(dir: Seq<char>, name: Seq<char>) -> Seq<char> {
    if dir.len() == 0 || dir.last() == '/' {
        dir + name
    } else {
        dir + "/"@ + name
    }
}

/// The file name used when no backup directory is configured.
pub open spec fn default_file_name() -> Seq<char> {
    ".wallpaper.jpg"@
}

/// The backup directory with each `~` replaced by the home directory.
pub open spec fn expanded_dir(backup: Seq<char>, home: Option<Seq<char>>) -> Option<Seq<char>> {
    if !backup.contains('~') {
        Some(backup)
    } else {
        match home {
            Some(h) => Some(replace_char_spec(backup, '~', h)),
            None => None,
        }
    }
}

/// Whether `plan` saves `image` into the backup directory `backup`.
pub open spec fn backup_plan(plan: SavePlan, image: ImageObject, backup: Seq<char>, home: Option<Seq<char>>) -> bool {
    let name = save_filename(image.startdate@, image.urlbase@, opt_view(image.resolution));
    &&& expanded_dir(backup, home) == Some(plan.dir@)
    &&& name is Some
    &&& plan.path@ == join_path(plan.dir@, name->0)
    &&& plan.create_dir
}

/// Whether `plan` saves `image` under the fixed name in the data directory.
pub open spec fn default_plan(plan: SavePlan, data_dir: Seq<char>) -> bool {
    &&& plan.dir@ == data_dir
    &&& plan.path@ == join_path(data_dir, default_file_name())
    &&& !plan.create_dir
}

/// The address an image is downloaded from, at the resolution it was requested for.
pub open spec fn image_url(image: ImageObject) -> Seq<char> {
    download_url(image.urlbase@, requested_resolution(opt_view(image.resolution)))
}

/// `name` inside directory `dir`.
pub fn join(dir: &str, name: &str) -> (r: String)
    ensures
        r@ == join_path(dir@, name@),
{
    let n = dir.unicode_len();
    let mut out = String::from_str(dir);
    if n > 0 && dir.get_char(n - 1) != '/' {
        out.append("/");
    }
    out.append(name);
    out
}

/// Whether `s` holds character `c`.
pub fn has_char(s: &str, c: char) -> (r: bool)
    ensures
        r == s@.contains(c),
{
    proof {
        lemma_last_index_bounds(s@, c);
    }
    match find_last(s, c) {
        Some(k) => {
            assert(s@[k as int] == c);
            true
        },
        None => {
            assert(forall|j: int| 0 <= j < s@.len() ==> s@[j] != c);
            false
        },
    }
}

/// Plans where `image` is saved. With a backup directory, each `~` in it
/// stands for the home directory (an error when that is unknown), the
/// directory is created when missing, and the file is named after the
/// image. Without one, the image goes to a fixed name in `data_local_dir`.
pub fn plan_save(
    image: &ImageObject,
    backup_dir: &Option<String>,
    home_dir: &Option<String>,
    data_local_dir: &str,
) -> (r: Result<SavePlan, WallpaperError>)
    ensures
        match r {
            Ok(plan) => plan.url@ == image_url(*image) && match backup_dir {
                Some(b) => backup_plan(plan, *image, b@, opt_view(*home_dir)),
                None => default_plan(plan, data_local_dir@),
            },
            Err(e) => match backup_dir {
                Some(b) => if expanded_dir(b@, opt_view(*home_dir)) is None {
                    e == WallpaperError::HomeDirUnavailable
                } else {
                    save_filename(image.startdate@, image.urlbase@, opt_view(image.resolution)) is None
                        && e == WallpaperError::UnparseableUrlBase(image.urlbase)
                },
                None => false,
            },
        },
{
    let url = image.get_download_url(stored_resolution(&image.resolution));
    proof {
        crate::catalog::lemma_effective_resolution_idempotent(opt_view(image.resolution));
    }
    match backup_dir {
        Some(b) => {
            let dir = if has_char(b.as_str(), '~') {
                match home_dir {
                    Some(h) => replace_char(b.as_str(), '~', h.as_str()),
                    None => {
                        return Err(WallpaperError::HomeDirUnavailable);
                    },
                }
            } else {
                b.clone()
            };
            let name = match image.get_save_filename() {
                Ok(n) => n,
                Err(e) => {
                    return Err(e);
                },
            };
            let path = join(dir.as_str(), name.as_str());
            Ok(SavePlan { url, dir, path, create_dir: true })
        },
        None => {
            let path = join(data_local_dir, ".wallpaper.jpg");
            Ok(SavePlan { url, dir: String::from_str(data_local_dir), path, create_dir: false })
        },
    }
}

} // verus!
