//! What a download needs before any byte moves: the address of the tier that
//! the deployment asks for, and the name of the file that receives it.

use crate::catalog::{Video, VideoView};
use crate::config::{Config, Resolution};
use crate::text::{remove_char, without};
use vstd::prelude::*;
use vstd::string::StringExecFns;

verus! {

/// Why a video cannot be downloaded before a transfer is even tried.
#[derive(Clone, Copy, Debug, PartialEq, Eq, Structural)]
pub enum AcquireError {
    /// The catalogue offers no address for the requested tier.
    MissingVariant,
}

/// Where a download comes from and which file receives it.
#[derive(Debug)]
pub struct Plan {
    /// Address of the media, credential included.
    pub url: String,
    /// Name of the target file inside the library directory.
    pub file_name: String,
}

pub struct PlanView {
    pub url: Seq<char>,
    pub file_name: Seq<char>,
}

impl View for Plan {
    type V = PlanView;

    open spec fn view(&self) -> PlanView {
        PlanView { url: self.url@, file_name: self.file_name@ }
    }
}

/// The address that the catalogue gives for a tier, if it gives one. No
/// other tier stands in for a missing one.
pub open spec fn variant_url(video: VideoView, resolution: Resolution) -> Option<Seq<char>> {
    match resolution {
        Resolution::HD => video.hd_url,
        Resolution::High => video.high_url,
        Resolution::Low => video.low_url,
    }
}

/// A media address with the credential attached.
pub open spec fn with_key(url: Seq<char>, api_key: Seq<char>) -> Seq<char> {
    url + "?api_key="@ + api_key
}

/// The text, or nothing where it is absent.
pub open spec fn or_empty(text: Option<Seq<char>>) -> Seq<char> {
    match text {
        Some(t) => t,
        None => Seq::empty(),
    }
}

/// The target file of a video: identifier, publish time as reported, show
/// title (or nothing) and the name without any `/`, joined by `-`, with the
/// extension `.mp4`.
pub open spec fn file_name(video: VideoView) -> Seq<char> {
    video.id + "-"@ + video.publish_date + "-"@ + or_empty(video.show_title) + "-"@ + without(
        video.name,
        '/',
    ) + ".mp4"@
}

/// The plan for a video under a deployment's tier and credential.
pub open spec fn planned(video: VideoView, resolution: Resolution, api_key: Seq<char>) -> Result<
    PlanView,
    AcquireError,
> {
    match variant_url(video, resolution) {
        Some(url) => Ok(PlanView { url: with_key(url, api_key), file_name: file_name(video) }),
        None => Err(AcquireError::MissingVariant),
    }
}

/// The name of the file that receives a video.
pub fn target_file_name(video: &Video) -> (r: String)
    ensures
        r@ == file_name(video@),
{
    let mut name = video.id.clone();
    name.append("-");
    name.append(video.publish_date.as_str());
    name.append("-");
    match &video.show_title {
        Some(title) => {
            name.append(title.as_str());
        },
        None => {
            assert(name@ + Seq::<char>::empty() =~= name@);
        },
    }
    name.append("-");
    let clean = remove_char(video.name.as_str(), '/');
    name.append(clean.as_str());
    name.append(".mp4");
    name
}

/// Picks the address of the configured tier and names the target file.
pub fn plan_acquisition(config: &Config, video: &Video) -> (r: Result<Plan, AcquireError>)
    ensures
        match r {
            Ok(plan) => planned(video@, config@.resolution, config@.api_key) == Ok::<
                PlanView,
                AcquireError,
            >(plan@),
            Err(e) => planned(video@, config@.resolution, config@.api_key) == Err::<
                PlanView,
                AcquireError,
            >(e),
        },
{
    let offered = match config.resolution {
        Resolution::HD => &video.hd_url,
        Resolution::High => &video.high_url,
        Resolution::Low => &video.low_url,
    };
    match offered {
        None => Err(AcquireError::MissingVariant),
        Some(address) => {
            let mut url = address.clone();
            url.append("?api_key=");
            url.append(config.api_key.as_str());
            Ok(Plan { url, file_name: target_file_name(video) })
        },
    }
}

} // verus!
