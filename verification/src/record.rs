//! Flattening a media item into the row the persistence store keeps: the
//! nested optional metadata is projected into flat columns, camera fields
//! falling back from the photo attributes to the video attributes, and the
//! write is stamped with the current time.

use vstd::prelude::*;

use crate::items::{MediaItem, VideoProcessingStatus};
use crate::store::clone_opt_string;

verus! {

/// The camera make recorded for an item: the photo's if given, else the
/// video's, else nothing.
pub open spec fn spec_camera_make(item: MediaItem) -> Option<String> {
    match item.mediaMetadata {
        Some(md) => {
            let from_photo: Option<String> = match md.photo {
                Some(p) => p.cameraMake,
                None => None,
            };
            match from_photo {
                Some(s) => Some(s),
                None => match md.video {
                    Some(v) => v.cameraMake,
                    None => None,
                },
            }
        },
        None => None,
    }
}

/// The camera model recorded for an item: photo first, then video.
pub open spec fn spec_camera_model(item: MediaItem) -> Option<String> {
    match item.mediaMetadata {
        Some(md) => {
            let from_photo: Option<String> = match md.photo {
                Some(p) => p.cameraModel,
                None => None,
            };
            match from_photo {
                Some(s) => Some(s),
                None => match md.video {
                    Some(v) => v.cameraModel,
                    None => None,
                },
            }
        },
        None => None,
    }
}

/// The video processing status carried by an item, if any.
pub open spec fn spec_video_status(item: MediaItem) -> Option<VideoProcessingStatus> {
    match item.mediaMetadata {
        Some(md) => match md.video {
            Some(v) => v.status,
            None => None,
        },
        None => None,
    }
}

/// The status name as the remote API spells it.
pub open spec fn spec_status_label(s: VideoProcessingStatus) -> Seq<char> {
    match s {
        VideoProcessingStatus::UNSPECIFIED => "UNSPECIFIED"@,
        VideoProcessingStatus::PROCESSING => "PROCESSING"@,
        VideoProcessingStatus::READY => "READY"@,
        VideoProcessingStatus::FAILED => "FAILED"@,
    }
}

/// One flat row of the media table.
pub struct MediaRecord {
    pub id: String,
    pub description: Option<String>,
    pub product_url: String,
    pub base_url: String,
    pub mime_type: Option<String>,
    pub filename: String,
    pub creation_time: Option<String>,
    pub width: Option<String>,
    pub height: Option<String>,
    pub camera_make: Option<String>,
    pub camera_model: Option<String>,
    pub iso_equivalent: Option<u64>,
    pub exposure_time: Option<String>,
    pub processing_status: Option<String>,
    pub profile_picture_url: Option<String>,
    pub display_name: Option<String>,
    pub download_attempts: u32,
    pub download_success: bool,
    /// When the row was written, in seconds since the Unix epoch.
    pub download_timestamp: u64,
}

impl MediaItem {
    /// The row this item is persisted as, stamped with `now`: identity and
    /// tracking fields are copied, the nested metadata is flattened, and
    /// the camera fields take the photo's attributes, falling back to the
    /// video's.
    pub fn to_record(&self, now: u64) -> (r: MediaRecord)
        ensures
            r.id == self.id,
            r.description == self.description,
            r.product_url == self.productUrl,
            r.base_url == self.baseUrl,
            r.mime_type == self.mimeType,
            r.filename == self.filename,
            r.creation_time == (match self.mediaMetadata {
                Some(md) => Some(md.creationTime),
                None => None::<String>,
            }),
            r.width == (match self.mediaMetadata {
                Some(md) => Some(md.width),
                None => None::<String>,
            }),
            r.height == (match self.mediaMetadata {
                Some(md) => Some(md.height),
                None => None::<String>,
            }),
            r.camera_make == spec_camera_make(*self),
            r.camera_model == spec_camera_model(*self),
            r.iso_equivalent == (match self.mediaMetadata {
                Some(md) => match md.photo {
                    Some(p) => p.isoEquivalent,
                    None => None::<u64>,
                },
                None => None::<u64>,
            }),
            r.exposure_time == (match self.mediaMetadata {
                Some(md) => match md.photo {
                    Some(p) => p.exposureTime,
                    None => None::<String>,
                },
                None => None::<String>,
            }),
            (match spec_video_status(*self) {
                Some(s) => r.processing_status matches Some(p) && p@ == spec_status_label(s),
                None => r.processing_status is None,
            }),
            r.profile_picture_url == (match self.contributorInfo {
                Some(ci) => Some(ci.profilePictureBaseUrl),
                None => None::<String>,
            }),
            r.display_name == (match self.contributorInfo {
                Some(ci) => Some(ci.displayName),
                None => None::<String>,
            }),
            r.download_attempts == self.download_attempts,
            r.download_success == self.download_success,
            r.download_timestamp == now,
    {
        let (creation_time, width, height) = match &self.mediaMetadata {
            Some(md) => (
                Some(md.creationTime.clone()),
                Some(md.width.clone()),
                Some(md.height.clone()),
            ),
            None => (None, None, None),
        };
        let camera_make = match &self.mediaMetadata {
            Some(md) => {
                let from_photo = match &md.photo {
                    Some(p) => clone_opt_string(&p.cameraMake),
                    None => None,
                };
                match from_photo {
                    Some(s) => Some(s),
                    None => match &md.video {
                        Some(v) => clone_opt_string(&v.cameraMake),
                        None => None,
                    },
                }
            },
            None => None,
        };
        let camera_model = match &self.mediaMetadata {
            Some(md) => {
                let from_photo = match &md.photo {
                    Some(p) => clone_opt_string(&p.cameraModel),
                    None => None,
                };
                match from_photo {
                    Some(s) => Some(s),
                    None => match &md.video {
                        Some(v) => clone_opt_string(&v.cameraModel),
                        None => None,
                    },
                }
            },
            None => None,
        };
        let iso_equivalent = match &self.mediaMetadata {
            Some(md) => match &md.photo {
                Some(p) => p.isoEquivalent,
                None => None,
            },
            None => None,
        };
        let exposure_time = match &self.mediaMetadata {
            Some(md) => match &md.photo {
                Some(p) => clone_opt_string(&p.exposureTime),
                None => None,
            },
            None => None,
        };
        let processing_status = match &self.mediaMetadata {
            Some(md) => match &md.video {
                Some(v) => match &v.status {
                    Some(s) => Some(s.label()),
                    None => None,
                },
                None => None,
            },
            None => None,
        };
        let (profile_picture_url, display_name) = match &self.contributorInfo {
            Some(ci) => (Some(ci.profilePictureBaseUrl.clone()), Some(ci.displayName.clone())),
            None => (None, None),
        };
        MediaRecord {
            id: self.id.clone(),
            description: clone_opt_string(&self.description),
            product_url: self.productUrl.clone(),
            base_url: self.baseUrl.clone(),
            mime_type: clone_opt_string(&self.mimeType),
            filename: self.filename.clone(),
            creation_time,
            width,
            height,
            camera_make,
            camera_model,
            iso_equivalent,
            exposure_time,
            processing_status,
            profile_picture_url,
            display_name,
            download_attempts: self.download_attempts,
            download_success: self.download_success,
            download_timestamp: now,
        }
    }
}

} // verus!
