//! The media playlist: what each media record needs, and the final order.

use vstd::prelude::*;

use crate::media::{slug_of, slugify, AttachmentInfo, RawMediaItem};
use crate::order::{sort_stable, stably_sorted, SortKey};
use crate::records::{DisplayCategory, MediaItem};
use crate::text::{chars_of, owned, push_char};

verus! {

impl SortKey for MediaItem {
    open spec fn key_spec(&self) -> int {
        self.sort_order as int
    }

    fn sort_key(&self) -> (r: i32) {
        self.sort_order
    }
}

impl SortKey for DisplayCategory {
    open spec fn key_spec(&self) -> int {
        self.sort_order as int
    }

    fn sort_key(&self) -> (r: i32) {
        self.sort_order
    }
}

pub fn copy_opt_text(o: &Option<String>) -> (r: Option<String>)
    ensures
        r == *o,
{
    match o {
        Some(t) => Some(t.clone()),
        None => None,
    }
}

impl MediaItem {
    pub fn copy(&self) -> (r: MediaItem)
        ensures
            r == *self,
    {
        MediaItem {
            media_type: self.media_type.clone(),
            url: self.url.clone(),
            title: copy_opt_text(&self.title),
            duration: self.duration,
            sort_order: self.sort_order,
        }
    }
}

impl DisplayCategory {
    pub fn copy(&self) -> (r: DisplayCategory)
        ensures
            r == *self,
    {
        DisplayCategory {
            id: self.id.clone(),
            name: self.name.clone(),
            icon: copy_opt_text(&self.icon),
            sort_order: self.sort_order,
        }
    }
}

/// What a media record needs before it can be listed.
pub enum MediaPlan {
    /// An uploaded video, to be run through the pipeline under this slug.
    Video { attachment: AttachmentInfo, slug: String },
    /// An entry that is ready as it is.
    Ready(MediaItem),
    /// A video with neither an upload nor a link: left out.
    Skip,
}

/// `.` replaced by `-`.
pub open spec fn dots_to_dashes(s: Seq<char>) -> Seq<char> {
    s.map_values(|c: char| if c == '.' { '-' } else { c })
}

/// What a video's slug is made from: its title, else its file name with
/// dots turned into dashes.
pub open spec fn slug_source(title: Option<String>, file_name: Seq<char>) -> Seq<char> {
    match title {
        Some(t) => t@,
        None => dots_to_dashes(file_name),
    }
}

/// A playlist entry of kind `kind` at `url`, with the record's title,
/// duration and order.
pub open spec fn entry_of(raw: RawMediaItem, kind: Seq<char>, url: Seq<char>, m: MediaItem) -> bool {
    &&& m.media_type@ == kind
    &&& m.url@ == url
    &&& m.title == raw.title
    &&& m.duration == raw.duration
    &&& m.sort_order == raw.sort_order
}

pub open spec fn is_video(raw: RawMediaItem) -> bool {
    raw.media_type@ == "video"@
}

pub open spec fn plan_of(raw: RawMediaItem, p: MediaPlan) -> bool {
    if is_video(raw) {
        match raw.attachment {
            Some(att) => p matches MediaPlan::Video { attachment, slug } && attachment == att
                && slug@ == slug_of(slug_source(raw.title, att.name@)),
            None => match raw.external_url {
                Some(u) => p matches MediaPlan::Ready(m) && entry_of(raw, "video"@, u@, m),
                None => p is Skip,
            },
        }
    } else {
        p matches MediaPlan::Ready(m) && entry_of(
            raw,
            raw.media_type@,
            match raw.external_url {
                Some(u) => u@,
                None => Seq::empty(),
            },
            m,
        )
    }
}

fn replace_dots(s: &str) -> (r: String)
    ensures
        r@ == dots_to_dashes(s@),
{
    let v = chars_of(s);
    let mut r = String::new();
    let mut i: usize = 0;
    while i < v.len()
        invariant
            i <= v@.len(),
            v@ == s@,
            r@ == dots_to_dashes(s@).take(i as int),
        decreases v@.len() - i,
    {
        let c = v[i];
        push_char(&mut r, if c == '.' { '-' } else { c });
        i = i + 1;
        assert(r@ =~= dots_to_dashes(s@).take(i as int));
    }
    assert(dots_to_dashes(s@).take(i as int) =~= dots_to_dashes(s@));
    r
}

fn entry(raw: &RawMediaItem, kind: String, url: String) -> (m: MediaItem)
    ensures
        entry_of(*raw, kind@, url@, m),
{
    MediaItem {
        media_type: kind,
        url,
        title: copy_opt_text(&raw.title),
        duration: raw.duration,
        sort_order: raw.sort_order,
    }
}

/// Decides what a media record needs: uploaded videos go through the
/// pipeline, linked videos and images are listed as they are (an image
/// without a link gets an empty address).
pub fn plan_media_item(raw: &RawMediaItem) -> (r: MediaPlan)
    ensures
        plan_of(*raw, r),
{
    if crate::text::same_text(raw.media_type.as_str(), "video") {
        match &raw.attachment {
            Some(att) => {
                let source = match &raw.title {
                    Some(t) => t.clone(),
                    None => replace_dots(att.name.as_str()),
                };
                MediaPlan::Video { attachment: att.clone_info(), slug: slugify(source.as_str()) }
            },
            None => match &raw.external_url {
                Some(u) => MediaPlan::Ready(entry(raw, owned("video"), u.clone())),
                None => MediaPlan::Skip,
            },
        }
    } else {
        let url = match &raw.external_url {
            Some(u) => u.clone(),
            None => String::new(),
        };
        MediaPlan::Ready(entry(raw, raw.media_type.clone(), url))
    }
}

impl AttachmentInfo {
    pub fn clone_info(&self) -> (r: AttachmentInfo)
        ensures
            r == *self,
    {
        AttachmentInfo { file_token: self.file_token.clone(), name: self.name.clone(), size: self.size }
    }
}

/// The entry of a video whose stream is ready at `url`.
pub fn video_entry(raw: &RawMediaItem, url: String) -> (m: MediaItem)
    ensures
        entry_of(*raw, "video"@, url@, m),
{
    entry(raw, owned("video"), url)
}

/// What a video's job leaves in the playlist: its entry at the stream's
/// address when the job finished, nothing when it failed. A failure drops
/// this video only.
pub fn video_outcome(raw: &RawMediaItem, outcome: Result<String, String>) -> (r: Option<MediaItem>)
    ensures
        match outcome {
            Ok(url) => r matches Some(m) && entry_of(*raw, "video"@, url@, m),
            Err(_) => r is None,
        },
{
    match outcome {
        Ok(url) => Some(video_entry(raw, url)),
        Err(_) => None,
    }
}

/// The entry listed when assets are not processed: an uploaded file shows
/// as `[attachment:<token>]`, anything else with an empty address.
pub fn placeholder_entry(raw: &RawMediaItem) -> (m: MediaItem)
    ensures
        entry_of(
            *raw,
            raw.media_type@,
            match raw.attachment {
                Some(a) => "[attachment:"@ + a.file_token@ + "]"@,
                None => Seq::empty(),
            },
            m,
        ),
{
    let url = match &raw.attachment {
        Some(a) => {
            let mut u = owned("[attachment:");
            u.append(a.file_token.as_str());
            u.append("]");
            u
        },
        None => String::new(),
    };
    entry(raw, raw.media_type.clone(), url)
}

/// The playlist in ascending order, ties kept in the order given.
pub fn order_playlist(items: Vec<MediaItem>) -> (r: Vec<MediaItem>)
    ensures
        exists|from: Seq<int>| stably_sorted(items@, r@, from),
{
    sort_stable(items)
}

/// The categories in ascending order, ties kept in the order given.
pub fn order_categories(cats: &Vec<DisplayCategory>) -> (r: Vec<DisplayCategory>)
    ensures
        exists|from: Seq<int>| stably_sorted(cats@, r@, from),
{
    let mut copies: Vec<DisplayCategory> = Vec::new();
    let mut i: usize = 0;
    while i < cats.len()
        invariant
            i <= cats@.len(),
            copies@ == cats@.take(i as int),
        decreases cats@.len() - i,
    {
        copies.push(cats[i].copy());
        i = i + 1;
        assert(copies@ =~= cats@.take(i as int));
    }
    assert(copies@ =~= cats@);
    sort_stable(copies)
}

} // verus!
