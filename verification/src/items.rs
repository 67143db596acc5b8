//! The remote listing's data model: descriptors for media items as the
//! listing endpoint reports them, plus the local tracking fields the
//! pipeline mutates (`download_attempts`, `download_success`).
//!
//! Field names follow the remote payload's casing so that the surrounding
//! code reads the same as the wire documentation.

#![allow(non_snake_case)]

use vstd::prelude::*;

verus! {

/// Query payload carried by the authentication callback.
pub struct QueryData {
    pub code: String,
}

/// Parameters of one listing request made by the sync client.
pub struct RequestParameters {
    pub reload: bool,
    pub max_count: u8,
}

/// Camera attributes reported for a photo item.
pub struct Photo {
    pub cameraMake: Option<String>,
    pub cameraModel: Option<String>,
    pub isoEquivalent: Option<u64>,
    pub exposureTime: Option<String>,
}

/// Processing state reported for a video item.
pub enum VideoProcessingStatus {
    UNSPECIFIED,
    PROCESSING,
    READY,
    FAILED,
}

impl VideoProcessingStatus {
    /// The status name as the remote API spells it.
    pub fn label(&self) -> (r: String)
        ensures
            r@ == match self {
                VideoProcessingStatus::UNSPECIFIED => "UNSPECIFIED"@,
                VideoProcessingStatus::PROCESSING => "PROCESSING"@,
                VideoProcessingStatus::READY => "READY"@,
                VideoProcessingStatus::FAILED => "FAILED"@,
            },
    {
        match self {
            VideoProcessingStatus::UNSPECIFIED => "UNSPECIFIED".to_owned(),
            VideoProcessingStatus::PROCESSING => "PROCESSING".to_owned(),
            VideoProcessingStatus::READY => "READY".to_owned(),
            VideoProcessingStatus::FAILED => "FAILED".to_owned(),
        }
    }
}

/// Camera attributes reported for a video item.
pub struct Video {
    pub cameraMake: Option<String>,
    pub cameraModel: Option<String>,
    pub status: Option<VideoProcessingStatus>,
}

/// Nested metadata of a media item.
pub struct MediaMetadata {
    pub creationTime: String,
    pub width: String,
    pub height: String,
    pub photo: Option<Photo>,
    pub video: Option<Video>,
}

/// The account that contributed a shared item.
pub struct ContributorInfo {
    pub profilePictureBaseUrl: String,
    pub displayName: String,
}

/// One item of the remote library, as returned by a listing page, together
/// with the local download-tracking fields.
pub struct MediaItem {
    pub id: String,
    pub description: Option<String>,
    pub productUrl: String,
    pub baseUrl: String,
    pub mimeType: Option<String>,
    pub mediaMetadata: Option<MediaMetadata>,
    pub contributorInfo: Option<ContributorInfo>,
    pub filename: String,
    pub download_attempts: u32,
    pub download_success: bool,
}

/// One page of the remote listing: its items in listing order and the
/// continuation token, whose absence signals the end of this pass.
pub struct GetMediaItems {
    pub mediaItems: Vec<MediaItem>,
    pub nextPageToken: Option<String>,
}

/// The profile record returned by the identity provider.
pub struct GoogleProfile {
    pub sub: String,
    pub picture: String,
    pub email: String,
    pub email_verified: bool,
}

} // verus!
