use vstd::prelude::*;
use crate::store::StoredImage;

verus! {

/// The multipart field that carries the caption.
pub const CAPTION_FIELD: &'static str = "content";

/// The multipart field that carries the image.
pub const FILE_FIELD: &'static str = "file";

/// The media type declared for the image part.
pub const IMAGE_MEDIA_TYPE: &'static str = "image/jpeg";

/// How long one delivery may take before it counts as a transport failure.
pub const DELIVERY_TIMEOUT_SECS: u64 = 10;

/// The caption sent with each captured frame.
pub const DEFAULT_CAPTION: &'static str = "**New activity detected by Raspberry Pi Camera!**";

/// Why a delivery failed.
#[derive(Clone, Copy, Debug, PartialEq, Eq, Structural)]
pub enum DeliveryFailure {
    /// The stored file could not be opened or read.
    FileUnreadable,
    /// The request could not be sent or no response came in time.
    Transport,
    /// The endpoint answered with a status outside 2xx.
    Status(u16),
}

/// The outcome of one delivery attempt; logged and then dropped.
#[derive(Clone, Copy, Debug, PartialEq, Eq, Structural)]
pub enum NotificationResult {
    Delivered,
    /// No endpoint is configured: nothing was sent, which is not an error.
    Skipped,
    Failed(DeliveryFailure),
}

impl NotificationResult {
    pub open spec fn is_success_spec(self) -> bool {
        !(self is Failed)
    }

    pub fn is_success(&self) -> (r: bool)
        ensures
            r == self.is_success_spec(),
    {
        !matches!(self, NotificationResult::Failed(_))
    }
}

/// What the transport reported for one POST.
#[derive(Clone, Copy, Debug, PartialEq, Eq, Structural)]
pub enum DeliveryOutcome {
    FileUnreadable,
    Transport,
    Responded(u16),
}

/// One multipart upload: the caption and the stored file, posted to `url`.
#[derive(Clone, Debug, PartialEq, Eq)]
pub struct Upload {
    pub url: String,
    pub caption: String,
    pub file_path: String,
    pub file_name: String,
}

/// What the notifier is to do for one stored image.
#[derive(Clone, Debug, PartialEq, Eq)]
pub enum DeliveryPlan {
    /// No request at all.
    Skip,
    Post(Upload),
}

/// An endpoint that is absent or empty turns delivery off.
pub open spec fn endpoint_configured(endpoint: Option<String>) -> bool {
    endpoint matches Some(url) && url@.len() > 0
}

/// A 2xx status.
pub open spec fn is_success_status_spec(code: u16) -> bool {
    200 <= code <= 299
}

pub fn is_success_status(code: u16) -> (r: bool)
    ensures
        r == is_success_status_spec(code),
{
    200 <= code && code <= 299
}

/// Decides whether and what to send for `image`: no request without a configured
/// endpoint, else one upload of the image's file with `caption`.
pub fn plan_delivery(image: &StoredImage, caption: String, endpoint: Option<String>) -> (r:
    DeliveryPlan)
    ensures
        !endpoint_configured(endpoint) <==> r == DeliveryPlan::Skip,
        endpoint_configured(endpoint) ==> (r matches DeliveryPlan::Post(u) && Some(u.url)
            == endpoint && u.caption@ == caption@ && u.file_path@ == image.path@
            && u.file_name@ == image.file_name@),
{
    match endpoint {
        None => DeliveryPlan::Skip,
        Some(url) => {
            if url.as_str().is_empty() {
                DeliveryPlan::Skip
            } else {
                DeliveryPlan::Post(
                    Upload {
                        url,
                        caption,
                        file_path: image.path.clone(),
                        file_name: image.file_name.clone(),
                    },
                )
            }
        },
    }
}

/// The result of a delivery from what the transport reported: success on a 2xx
/// answer, else a failure that names the cause.
pub fn delivery_result(outcome: DeliveryOutcome) -> (r: NotificationResult)
    ensures
        r == match outcome {
            DeliveryOutcome::Responded(code) => if is_success_status_spec(code) {
                NotificationResult::Delivered
            } else {
                NotificationResult::Failed(DeliveryFailure::Status(code))
            },
            DeliveryOutcome::FileUnreadable => NotificationResult::Failed(
                DeliveryFailure::FileUnreadable,
            ),
            DeliveryOutcome::Transport => NotificationResult::Failed(DeliveryFailure::Transport),
        },
{
    match outcome {
        DeliveryOutcome::Responded(code) => {
            if is_success_status(code) {
                NotificationResult::Delivered
            } else {
                NotificationResult::Failed(DeliveryFailure::Status(code))
            }
        },
        DeliveryOutcome::FileUnreadable => NotificationResult::Failed(
            DeliveryFailure::FileUnreadable,
        ),
        DeliveryOutcome::Transport => NotificationResult::Failed(DeliveryFailure::Transport),
    }
}

/// The result of a send for which no request was made.
pub fn skipped_result(plan: &DeliveryPlan) -> (r: Option<NotificationResult>)
    ensures
        (*plan == DeliveryPlan::Skip) <==> r == Some(NotificationResult::Skipped),
        !(*plan == DeliveryPlan::Skip) <==> r.is_none(),
{
    match plan {
        DeliveryPlan::Skip => Some(NotificationResult::Skipped),
        DeliveryPlan::Post(_) => None,
    }
}

} // verus!
