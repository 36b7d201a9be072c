//! The steps that turn one video attachment into a segmented stream, as a
//! state machine. The caller performs each action and reports what came of
//! it; the machine decides what to do next.

use vstd::prelude::*;

use crate::media::AttachmentInfo;
use crate::text::owned;

verus! {

/// What is stored beside a processed video: the identity of the content it
/// was made from.
#[derive(Clone, Debug)]
pub struct VideoCacheRecord {
    pub file_token: String,
    pub size: u64,
    pub source_name: String,
}

/// Whether a stored record describes the same content as `att`.
pub open spec fn cache_matches(c: Option<VideoCacheRecord>, att: AttachmentInfo) -> bool {
    match c {
        Some(r) => r.file_token@ == att.file_token@ && r.size == att.size,
        None => false,
    }
}

/// The output can be reused exactly when the stored record has the same
/// token and size as the attachment.
pub fn is_cached(cached: &Option<VideoCacheRecord>, att: &AttachmentInfo) -> (r: bool)
    ensures
        r == cache_matches(*cached, *att),
{
    match cached {
        Some(rec) => rec.file_token == att.file_token && rec.size == att.size,
        None => false,
    }
}

/// The record written once `att` has been processed.
pub open spec fn record_of(r: VideoCacheRecord, att: AttachmentInfo) -> bool {
    &&& r.file_token@ == att.file_token@
    &&& r.size == att.size
    &&& r.source_name@ == att.name@
}

pub fn cache_record_for(att: &AttachmentInfo) -> (r: VideoCacheRecord)
    ensures
        record_of(r, *att),
{
    VideoCacheRecord { file_token: att.file_token.clone(), size: att.size, source_name: att.name.clone() }
}

/// Directory of a video's output, under the published root.
pub open spec fn video_dir_path(slug: Seq<char>) -> Seq<char> {
    "videos/"@ + slug
}

/// The index of a video's segments, under the published root.
pub open spec fn playlist_path(slug: Seq<char>) -> Seq<char> {
    video_dir_path(slug) + "/index.m3u8"@
}

/// Where the cache record of a video is kept, under the published root.
pub open spec fn cache_record_path(slug: Seq<char>) -> Seq<char> {
    video_dir_path(slug) + "/.meta.json"@
}

/// File name pattern of a video's segments.
pub open spec fn segment_file_pattern(slug: Seq<char>) -> Seq<char> {
    slug + "_%03d.ts"@
}

pub fn video_dir(slug: &str) -> (r: String)
    ensures
        r@ == video_dir_path(slug@),
{
    let mut r = owned("videos/");
    r.append(slug);
    r
}

pub fn playlist_url(slug: &str) -> (r: String)
    ensures
        r@ == playlist_path(slug@),
{
    let mut r = video_dir(slug);
    r.append("/index.m3u8");
    r
}

pub fn cache_record_location(slug: &str) -> (r: String)
    ensures
        r@ == cache_record_path(slug@),
{
    let mut r = video_dir(slug);
    r.append("/.meta.json");
    r
}

pub fn segment_pattern(slug: &str) -> (r: String)
    ensures
        r@ == segment_file_pattern(slug@),
{
    let mut r = owned(slug);
    r.append("_%03d.ts");
    r
}

/// Arguments of the transcoder: copy the streams without re-encoding, cut
/// fixed-length segments numbered from 0, keep every segment in the index,
/// and overwrite what is there.
pub fn transcoder_args(input: &str, segments: &str, playlist: &str) -> (r: Vec<String>)
    ensures
        r@.len() == 14,
        r@[0]@ == "-i"@,
        r@[1]@ == input@,
        r@[2]@ == "-codec"@,
        r@[3]@ == "copy"@,
        r@[4]@ == "-start_number"@,
        r@[5]@ == "0"@,
        r@[6]@ == "-hls_time"@,
        r@[7]@ == "10"@,
        r@[8]@ == "-hls_list_size"@,
        r@[9]@ == "0"@,
        r@[10]@ == "-hls_segment_filename"@,
        r@[11]@ == segments@,
        r@[12]@ == "-y"@,
        r@[13]@ == playlist@,
{
    let mut r: Vec<String> = Vec::new();
    r.push(owned("-i"));
    r.push(owned(input));
    r.push(owned("-codec"));
    r.push(owned("copy"));
    r.push(owned("-start_number"));
    r.push(owned("0"));
    r.push(owned("-hls_time"));
    r.push(owned("10"));
    r.push(owned("-hls_list_size"));
    r.push(owned("0"));
    r.push(owned("-hls_segment_filename"));
    r.push(owned(segments));
    r.push(owned("-y"));
    r.push(owned(playlist));
    r
}

/// Where a video job stands.
#[derive(Clone, Copy, Debug, PartialEq, Eq, Structural)]
pub enum VideoPhase {
    CheckingCache,
    Resolving,
    Downloading,
    Transcoding,
    WritingCache,
    Done,
    Failed,
}

/// What came of the last action.
pub enum VideoEvent {
    /// The stored record, if one could be read.
    CacheRead(Option<VideoCacheRecord>),
    /// The direct download address, or why there is none.
    Resolved(Result<String, String>),
    Downloaded(Result<(), String>),
    Transcoded(Result<(), String>),
    CacheWritten(Result<(), String>),
}

/// What the caller is to do next.
pub enum VideoAction {
    /// Exchange the token for a direct download address.
    Resolve { file_token: String },
    /// Fetch the file into scratch space under the given name.
    Download { url: String, file_name: String },
    /// Purge the old segments and index, then transcode the download.
    Transcode,
    /// Store this record beside the output and drop the download.
    WriteCache { record: VideoCacheRecord },
    /// The video is ready at this address.
    Finish { url: String },
    /// The video is dropped, for this reason.
    Fail { reason: String },
}

/// One video on its way through the pipeline. It starts by reading the cache
/// record at `cache_record_location(slug)`.
pub struct VideoJob {
    pub attachment: AttachmentInfo,
    pub slug: String,
    pub phase: VideoPhase,
}

pub open spec fn fails_with(next: VideoPhase, act: VideoAction, reason: Seq<char>) -> bool {
    next == VideoPhase::Failed && (act matches VideoAction::Fail { reason: r } && r@ == reason)
}

pub open spec fn unexpected(next: VideoPhase, act: VideoAction) -> bool {
    next == VideoPhase::Failed && act is Fail
}

pub open spec fn finishes(next: VideoPhase, act: VideoAction, slug: Seq<char>) -> bool {
    next == VideoPhase::Done && (act matches VideoAction::Finish { url } && url@ == playlist_path(slug))
}

/// One step of the pipeline: from `phase`, on `ev`, to `next` with `act`.
pub open spec fn video_transition(
    att: AttachmentInfo,
    slug: Seq<char>,
    phase: VideoPhase,
    ev: VideoEvent,
    next: VideoPhase,
    act: VideoAction,
) -> bool {
    match phase {
        VideoPhase::CheckingCache => match ev {
            VideoEvent::CacheRead(c) => if cache_matches(c, att) {
                finishes(next, act, slug)
            } else {
                next == VideoPhase::Resolving && (act matches VideoAction::Resolve { file_token }
                    && file_token@ == att.file_token@)
            },
            _ => unexpected(next, act),
        },
        VideoPhase::Resolving => match ev {
            VideoEvent::Resolved(Ok(u)) => next == VideoPhase::Downloading
                && (act matches VideoAction::Download { url, file_name } && url@ == u@
                && file_name@ == att.name@),
            VideoEvent::Resolved(Err(m)) => fails_with(next, act, m@),
            _ => unexpected(next, act),
        },
        VideoPhase::Downloading => match ev {
            VideoEvent::Downloaded(Ok(())) => next == VideoPhase::Transcoding && act is Transcode,
            VideoEvent::Downloaded(Err(m)) => fails_with(next, act, m@),
            _ => unexpected(next, act),
        },
        VideoPhase::Transcoding => match ev {
            VideoEvent::Transcoded(Ok(())) => next == VideoPhase::WritingCache
                && (act matches VideoAction::WriteCache { record } && record_of(record, att)),
            VideoEvent::Transcoded(Err(m)) => fails_with(next, act, m@),
            _ => unexpected(next, act),
        },
        VideoPhase::WritingCache => match ev {
            VideoEvent::CacheWritten(Ok(())) => finishes(next, act, slug),
            VideoEvent::CacheWritten(Err(m)) => fails_with(next, act, m@),
            _ => unexpected(next, act),
        },
        _ => unexpected(next, act),
    }
}

impl VideoJob {
    pub fn start(attachment: AttachmentInfo, slug: String) -> (r: VideoJob)
        ensures
            r.attachment == attachment,
            r.slug == slug,
            r.phase == VideoPhase::CheckingCache,
    {
        VideoJob { attachment, slug, phase: VideoPhase::CheckingCache }
    }

    fn fail(&mut self, reason: String) -> (act: VideoAction)
        ensures
            fails_with(final(self).phase, act, reason@),
            final(self).attachment == old(self).attachment,
            final(self).slug == old(self).slug,
    {
        self.phase = VideoPhase::Failed;
        VideoAction::Fail { reason }
    }

    /// Takes what came of the last action and says what to do next.
    pub fn advance(&mut self, ev: VideoEvent) -> (act: VideoAction)
        ensures
            video_transition(old(self).attachment, old(self).slug@, old(self).phase, ev, final(self).phase, act),
            final(self).attachment == old(self).attachment,
            final(self).slug == old(self).slug,
    {
        match self.phase {
            VideoPhase::CheckingCache => match ev {
                VideoEvent::CacheRead(c) => {
                    if is_cached(&c, &self.attachment) {
                        self.phase = VideoPhase::Done;
                        VideoAction::Finish { url: playlist_url(self.slug.as_str()) }
                    } else {
                        self.phase = VideoPhase::Resolving;
                        VideoAction::Resolve { file_token: self.attachment.file_token.clone() }
                    }
                },
                _ => self.fail(owned("unexpected event while checking the cache")),
            },
            VideoPhase::Resolving => match ev {
                VideoEvent::Resolved(Ok(url)) => {
                    self.phase = VideoPhase::Downloading;
                    VideoAction::Download { url, file_name: self.attachment.name.clone() }
                },
                VideoEvent::Resolved(Err(m)) => self.fail(m),
                _ => self.fail(owned("unexpected event while resolving")),
            },
            VideoPhase::Downloading => match ev {
                VideoEvent::Downloaded(Ok(())) => {
                    self.phase = VideoPhase::Transcoding;
                    VideoAction::Transcode
                },
                VideoEvent::Downloaded(Err(m)) => self.fail(m),
                _ => self.fail(owned("unexpected event while downloading")),
            },
            VideoPhase::Transcoding => match ev {
                VideoEvent::Transcoded(Ok(())) => {
                    self.phase = VideoPhase::WritingCache;
                    VideoAction::WriteCache { record: cache_record_for(&self.attachment) }
                },
                VideoEvent::Transcoded(Err(m)) => self.fail(m),
                _ => self.fail(owned("unexpected event while transcoding")),
            },
            VideoPhase::WritingCache => match ev {
                VideoEvent::CacheWritten(Ok(())) => {
                    self.phase = VideoPhase::Done;
                    VideoAction::Finish { url: playlist_url(self.slug.as_str()) }
                },
                VideoEvent::CacheWritten(Err(m)) => self.fail(m),
                _ => self.fail(owned("unexpected event while writing the cache")),
            },
            _ => self.fail(owned("the job has already ended")),
        }
    }
}

/// Every finished video is published at the index under its slug.
pub proof fn lemma_finish_address(
    att: AttachmentInfo,
    slug: Seq<char>,
    phase: VideoPhase,
    ev: VideoEvent,
    next: VideoPhase,
    act: VideoAction,
)
    requires
        video_transition(att, slug, phase, ev, next, act),
        act is Finish,
    ensures
        finishes(next, act, slug),
{
}

/// Processing the same content again does no work: once a first run has
/// written its record and finished, a later run for an attachment with the
/// same token and size finishes on reading that record, without resolving,
/// downloading or transcoding, and at the address the first run gave.
pub proof fn lemma_unchanged_content_is_reused(
    first: AttachmentInfo,
    again: AttachmentInfo,
    slug: Seq<char>,
    written: VideoAction,
    stage: VideoPhase,
    first_end: VideoPhase,
    first_finish: VideoAction,
    next: VideoPhase,
    act: VideoAction,
)
    requires
        video_transition(first, slug, VideoPhase::Transcoding, VideoEvent::Transcoded(Ok(())), stage, written),
        video_transition(first, slug, VideoPhase::WritingCache, VideoEvent::CacheWritten(Ok(())), first_end, first_finish),
        again.file_token@ == first.file_token@,
        again.size == first.size,
        written matches VideoAction::WriteCache { record } && video_transition(
            again,
            slug,
            VideoPhase::CheckingCache,
            VideoEvent::CacheRead(Some(record)),
            next,
            act,
        ),
    ensures
        next == VideoPhase::Done,
        first_end == VideoPhase::Done,
        act matches VideoAction::Finish { url } && first_finish matches VideoAction::Finish { url: first_url }
            && url@ == first_url@ && url@ == playlist_path(slug),
{
}

/// A change of size for the same token makes the cached output stale: the
/// next run resolves the token again instead of reusing the output.
pub proof fn lemma_changed_size_is_refetched(
    first: AttachmentInfo,
    again: AttachmentInfo,
    slug: Seq<char>,
    written: VideoAction,
    stage: VideoPhase,
    next: VideoPhase,
    act: VideoAction,
)
    requires
        video_transition(first, slug, VideoPhase::Transcoding, VideoEvent::Transcoded(Ok(())), stage, written),
        again.file_token@ == first.file_token@,
        again.size != first.size,
        written matches VideoAction::WriteCache { record } && video_transition(
            again,
            slug,
            VideoPhase::CheckingCache,
            VideoEvent::CacheRead(Some(record)),
            next,
            act,
        ),
    ensures
        next == VideoPhase::Resolving,
        act matches VideoAction::Resolve { file_token } && file_token@ == again.file_token@,
{
}

/// Past the cache check, a video is done only after it was downloaded,
/// transcoded and its record written: each phase is entered only from the
/// one before it.
pub proof fn lemma_phases_in_order(
    att: AttachmentInfo,
    slug: Seq<char>,
    phase: VideoPhase,
    ev: VideoEvent,
    next: VideoPhase,
    act: VideoAction,
)
    requires
        video_transition(att, slug, phase, ev, next, act),
    ensures
        next == VideoPhase::Done ==> phase == VideoPhase::CheckingCache || phase == VideoPhase::WritingCache,
        next == VideoPhase::WritingCache ==> phase == VideoPhase::Transcoding && act is WriteCache,
        next == VideoPhase::Transcoding ==> phase == VideoPhase::Downloading && act is Transcode,
        next == VideoPhase::Downloading ==> phase == VideoPhase::Resolving && act is Download,
        next == VideoPhase::Resolving ==> phase == VideoPhase::CheckingCache && act is Resolve,
{
}

} // verus!
