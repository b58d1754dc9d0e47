//! The request to the image service and the reading of its answer.
use vstd::prelude::*;
use vstd::string::*;
use crate::catalog::{default_market, effective_market, lemma_default_market_supported, pick_market};
use crate::error::WallpaperError;
use crate::image::ImageObject;

verus! {

/// The service's answer: a list of image descriptors, possibly absent.
#[derive(Debug, Clone)]
pub struct Response {
    pub images: Option<Vec<ImageObject>>,
}

/// Address of the service's archive that asks for the one latest image of
/// `market`; an unsupported market is replaced by the default.
pub open spec fn api_url(market: Seq<char>) -> Seq<char> {
    "https://www.bing.com/HPImageArchive.aspx?format=js&idx=0&n=1&mbl=1&mkt="@ + effective_market(
        market,
    )
}

/// The image an answer offers: its first descriptor, if it lists any.
pub open spec fn offered_image(response: Response) -> Option<ImageObject> {
    match response.images {
        Some(v) => if v@.len() > 0 {
            Some(v@[0])
        } else {
            None
        },
        None => None,
    }
}

/// The address to ask the service for today's image of market `mkt`.
pub fn get_api_url(mkt: &str) -> (r: String)
    ensures
        r@ == api_url(mkt@),
{
    let mut out = String::from_str("https://www.bing.com/HPImageArchive.aspx?format=js&idx=0&n=1&mbl=1&mkt=");
    out.append(pick_market(mkt));
    out
}

/// The first image of the service's answer; an answer with no image is
/// `NoImageAvailable`.
pub fn first_image(response: Response) -> (r: Result<ImageObject, WallpaperError>)
    ensures
        match offered_image(response) {
            Some(img) => r == Ok::<ImageObject, WallpaperError>(img),
            None => r == Err::<ImageObject, WallpaperError>(WallpaperError::NoImageAvailable),
        },
{
    match response.images {
        Some(mut v) => {
            if v.len() == 0 {
                Err(WallpaperError::NoImageAvailable)
            } else {
                Ok(v.swap_remove(0))
            }
        },
        None => Err(WallpaperError::NoImageAvailable),
    }
}

/// An unsupported market asks for the same address as the default market.
pub proof fn lemma_unknown_market_uses_default(market: Seq<char>)
    requires
        !crate::catalog::supported_market(market),
    ensures
        api_url(market) == api_url(default_market()),
{
    lemma_default_market_supported();
}

} // verus!
