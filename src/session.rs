//! One run as a state machine: the caller performs each action the session
//! asks for and reports back what happened, and the session decides what
//! comes next.
use vstd::prelude::*;
use vstd::string::*;
use crate::actions::{planned_actions, post_actions, PostActions};
use crate::api::{api_url, first_image, offered_image, Response};
use crate::args::Arguments;
use crate::catalog::default_market;
use crate::download::{backup_plan, default_plan, expanded_dir, image_url, plan_save, SavePlan};
use crate::error::WallpaperError;
use crate::freshness::{is_cache_fresh, naive_parses, same_request, start_format};
use crate::image::{copy_optional, save_filename, ImageObject};
use crate::text::opt_view;

verus! {

#[derive(Debug, Clone, Copy, PartialEq, Eq)]
pub enum Phase {
    Start,
    /// Waiting for the cached descriptor.
    CacheCheck,
    /// Waiting for the service's answer.
    Fetching,
    /// Waiting for the new descriptor to be cached.
    Persisting,
    /// Waiting to learn whether the destination file exists.
    Downloading,
    /// Waiting for the image to be written.
    Transferring,
    /// Waiting for the post-actions to be performed.
    Finishing,
    Done,
    Failed,
}

/// What the caller reports.
#[derive(Debug)]
pub enum Event {
    Begin,
    /// The cached descriptor, or `None` when there is none or it is unreadable.
    CacheRead(Option<ImageObject>),
    /// The service's answer, or the failure to get or read it.
    Fetched(Result<Response, WallpaperError>),
    /// The descriptor was written to the cache, or writing it failed; either
    /// way the run goes on.
    CacheWritten,
    /// Whether the destination already exists as a regular file.
    DestinationChecked(bool),
    /// The image was written to the destination.
    Transferred,
    PostActionsDone,
}

/// What the session asks the caller to do.
#[derive(Debug, Clone)]
pub enum Action {
    ReadCache,
    /// Ask the service at this address.
    Fetch(String),
    /// Replace the cached descriptor with this one.
    WriteCache(ImageObject),
    /// Create the plan's directory if asked, then see whether its path exists.
    CheckDestination(SavePlan),
    /// Stream the plan's address into its path.
    Download(SavePlan),
    PostActions(PostActions),
    /// The run is over and succeeded.
    Finish,
    /// The run is over and failed.
    Abort(WallpaperError),
    /// The event does not fit the phase; nothing changes.
    Idle,
}

/// A run in progress.
pub struct Session {
    pub phase: Phase,
    pub args: Arguments,
    pub home_dir: Option<String>,
    pub data_local_dir: String,
    /// The descriptor fetched in this run.
    pub image: Option<ImageObject>,
    /// Where that descriptor's image goes.
    pub plan: Option<SavePlan>,
}

/// The address asked for the options' market, the default when unset.
pub open spec fn request_url(args: Arguments) -> Seq<char> {
    match args.market {
        Some(m) => api_url(m@),
        None => api_url(default_market()),
    }
}

/// `img` stamped with the resolution and market of `args`.
pub open spec fn stamped(img: ImageObject, args: Arguments) -> ImageObject {
    ImageObject { resolution: args.resolution, market: args.market, ..img }
}

impl Session {
    pub open spec fn wf(&self) -> bool {
        &&& (self.phase == Phase::Persisting || self.phase == Phase::Downloading || self.phase
            == Phase::Transferring || self.phase == Phase::Finishing) ==> self.image is Some
        &&& (self.phase == Phase::Downloading || self.phase == Phase::Transferring || self.phase
            == Phase::Finishing) ==> self.plan is Some
    }

    /// A run with options `args`, in an environment whose home directory (if
    /// known) and per-user data directory are given.
    pub fn new(args: Arguments, home_dir: Option<String>, data_local_dir: String) -> (r: Session)
        ensures
            r.wf(),
            r.phase == Phase::Start,
            r.args == args,
            r.home_dir == home_dir,
            r.data_local_dir == data_local_dir,
            r.image is None,
            r.plan is None,
    {
        Session { phase: Phase::Start, args, home_dir, data_local_dir, image: None, plan: None }
    }

    fn api_address(&self) -> (r: String)
        ensures
            r@ == request_url(self.args),
    {
        match &self.args.market {
            Some(m) => crate::api::get_api_url(m.as_str()),
            None => crate::api::get_api_url("en-US"),
        }
    }

    /// Takes the report `event` of the last action, moves to the next phase
    /// and says what to do next.
    pub fn step(&mut self, event: Event) -> (r: Action)
        requires
            old(self).wf(),
        ensures
            final(self).wf(),
            final(self).args == old(self).args,
            final(self).home_dir == old(self).home_dir,
            final(self).data_local_dir == old(self).data_local_dir,
            r is Idle ==> *final(self) == *old(self),
            old(self).phase == Phase::Start && event is Begin ==> final(self).phase == Phase::CacheCheck
                && r is ReadCache,
            old(self).phase == Phase::CacheCheck && event == Event::CacheRead(None) ==> final(self).phase
                == Phase::Fetching && r is Fetch && r->Fetch_0@ == request_url(old(self).args),
            old(self).phase == Phase::CacheCheck && event is CacheRead && event->CacheRead_0 is Some ==> {
                let c = event->CacheRead_0->0;
                ||| (final(self).phase == Phase::Done && r is Finish && naive_parses(
                    c.fullstartdate@,
                    start_format(),
                ) && same_request(c, old(self).args.resolution, old(self).args.market))
                ||| (final(self).phase == Phase::Fetching && r is Fetch && r->Fetch_0@ == request_url(
                    old(self).args,
                ))
            },
            old(self).phase == Phase::Fetching && event is Fetched ==> match event->Fetched_0 {
                Err(e) => final(self).phase == Phase::Failed && r == Action::Abort(e),
                Ok(resp) => match offered_image(resp) {
                    None => final(self).phase == Phase::Failed && r == Action::Abort(
                        WallpaperError::NoImageAvailable,
                    ),
                    Some(img) => final(self).phase == Phase::Persisting && final(self).image == Some(
                        stamped(img, old(self).args),
                    ) && r == Action::WriteCache(stamped(img, old(self).args)),
                },
            },
            old(self).phase == Phase::Persisting && event is CacheWritten ==> {
                let img = old(self).image->0;
                match r {
                    Action::CheckDestination(plan) => final(self).phase == Phase::Downloading
                        && final(self).plan == Some(plan) && plan.url@ == image_url(img) && match old(
                        self,
                    ).args.backup_dir {
                        Some(b) => backup_plan(plan, img, b@, opt_view(old(self).home_dir)),
                        None => default_plan(plan, old(self).data_local_dir@),
                    },
                    Action::Abort(e) => final(self).phase == Phase::Failed && match old(
                        self,
                    ).args.backup_dir {
                        Some(b) => if expanded_dir(b@, opt_view(old(self).home_dir)) is None {
                            e == WallpaperError::HomeDirUnavailable
                        } else {
                            save_filename(img.startdate@, img.urlbase@, opt_view(img.resolution))
                                is None && e == WallpaperError::UnparseableUrlBase(img.urlbase)
                        },
                        None => false,
                    },
                    _ => false,
                }
            },
            old(self).phase == Phase::Downloading && event == Event::DestinationChecked(true)
                ==> final(self).phase == Phase::Done && r is Finish,
            old(self).phase == Phase::Downloading && event == Event::DestinationChecked(false)
                ==> final(self).phase == Phase::Transferring && r == Action::Download(
                old(self).plan->0,
            ),
            old(self).phase == Phase::Transferring && event is Transferred ==> final(self).phase
                == Phase::Finishing && r is PostActions && planned_actions(
                old(self).args,
                old(self).image->0.title@,
                old(self).plan->0.path@,
                r->PostActions_0,
            ),
            old(self).phase == Phase::Finishing && event is PostActionsDone ==> final(self).phase
                == Phase::Done && r is Finish,
    {
        match (self.phase, event) {
            (Phase::Start, Event::Begin) => {
                self.phase = Phase::CacheCheck;
                Action::ReadCache
            },
            (Phase::CacheCheck, Event::CacheRead(cached)) => {
                let fresh = match &cached {
                    Some(c) => is_cache_fresh(c, &self.args.resolution, &self.args.market),
                    None => false,
                };
                if fresh {
                    self.phase = Phase::Done;
                    Action::Finish
                } else {
                    self.phase = Phase::Fetching;
                    Action::Fetch(self.api_address())
                }
            },
            (Phase::Fetching, Event::Fetched(answer)) => match answer {
                Err(e) => {
                    self.phase = Phase::Failed;
                    Action::Abort(e)
                },
                Ok(resp) => match first_image(resp) {
                    Err(e) => {
                        self.phase = Phase::Failed;
                        Action::Abort(e)
                    },
                    Ok(img) => {
                        let mut img = img;
                        img.resolution = copy_optional(&self.args.resolution);
                        img.market = copy_optional(&self.args.market);
                        let copy = img.duplicate();
                        self.image = Some(img);
                        self.phase = Phase::Persisting;
                        Action::WriteCache(copy)
                    },
                },
            },
            (Phase::Persisting, Event::CacheWritten) => {
                let planned = match &self.image {
                    Some(img) => plan_save(img, &self.args.backup_dir, &self.home_dir, self.data_local_dir.as_str()),
                    None => {
                        return Action::Idle;
                    },
                };
                match planned {
                    Ok(plan) => {
                        let copy = plan.duplicate();
                        self.plan = Some(plan);
                        self.phase = Phase::Downloading;
                        Action::CheckDestination(copy)
                    },
                    Err(e) => {
                        self.phase = Phase::Failed;
                        Action::Abort(e)
                    },
                }
            },
            (Phase::Downloading, Event::DestinationChecked(exists)) => {
                let copy = match &self.plan {
                    Some(p) => p.duplicate(),
                    None => {
                        return Action::Idle;
                    },
                };
                if exists {
                    self.phase = Phase::Done;
                    Action::Finish
                } else {
                    self.phase = Phase::Transferring;
                    Action::Download(copy)
                }
            },
            (Phase::Transferring, Event::Transferred) => {
                let todo = match (&self.image, &self.plan) {
                    (Some(img), Some(p)) => post_actions(&self.args, img.title.as_str(), p.path.as_str()),
                    _ => {
                        return Action::Idle;
                    },
                };
                self.phase = Phase::Finishing;
                Action::PostActions(todo)
            },
            (Phase::Finishing, Event::PostActionsDone) => {
                self.phase = Phase::Done;
                Action::Finish
            },
            _ => Action::Idle,
        }
    }
}

} // verus!
