use bitable_sync::cell::{CellValue, Entry};
use bitable_sync::media::{extract_attachment_info, normalize_media_type, parse_raw_media_item, slugify, AttachmentInfo, RawMediaItem};
use bitable_sync::pipeline::{
    cache_record_for, cache_record_location, is_cached, playlist_url, segment_pattern, transcoder_args, VideoAction,
    VideoCacheRecord, VideoEvent, VideoJob, VideoPhase,
};
use bitable_sync::playlist::{order_playlist, placeholder_entry, plan_media_item, video_entry, video_outcome, MediaPlan};
use bitable_sync::records::{MediaItem, ParseError};

fn text(s: &str) -> CellValue {
    CellValue::Text(s.to_string())
}

fn obj(members: Vec<(&str, CellValue)>) -> CellValue {
    CellValue::Object(members.into_iter().map(|(k, v)| Entry { key: k.to_string(), value: v }).collect())
}

fn record(fields: Vec<(&str, CellValue)>) -> Vec<Entry> {
    fields.into_iter().map(|(k, v)| Entry { key: k.to_string(), value: v }).collect()
}

fn att(token: &str, name: &str, size: u64) -> AttachmentInfo {
    AttachmentInfo { file_token: token.to_string(), name: name.to_string(), size }
}

#[test]
fn slug_of_title() {
    assert_eq!(slugify("My Video!!  Clip"), "my-video-clip");
    assert_eq!(slugify("My Video!!  Clip"), slugify("My Video!!  Clip"));
    assert_eq!(slugify("  --Hello_World--  "), "hello-world");
    assert_eq!(slugify("a_b"), "a-b");
    assert_eq!(slugify("绍兴 黄酒.mp4"), "绍兴-黄酒-mp4");
    assert_eq!(slugify("!!!"), "");
    assert_eq!(slugify(""), "");
}

#[test]
fn media_type_names() {
    assert_eq!(normalize_media_type("video"), "video");
    assert_eq!(normalize_media_type("视频"), "video");
    assert_eq!(normalize_media_type("图片"), "image");
    assert_eq!(normalize_media_type("Video"), "image");
}

#[test]
fn attachment_info_needs_all_three() {
    let f = record(vec![
        ("ok", CellValue::Array(vec![obj(vec![("file_token", text("tok")), ("name", text("a.mp4")), ("size", CellValue::Number("1024".to_string()))])])),
        ("text_size", CellValue::Array(vec![obj(vec![("file_token", text("tok")), ("name", text("a.mp4")), ("size", text("1024"))])])),
        ("no_name", CellValue::Array(vec![obj(vec![("file_token", text("tok")), ("size", CellValue::Number("1".to_string()))])])),
        ("neg", CellValue::Array(vec![obj(vec![("file_token", text("tok")), ("name", text("a")), ("size", CellValue::Number("-1".to_string()))])])),
    ]);
    let a = extract_attachment_info(&f, "ok").unwrap();
    assert_eq!((a.file_token.as_str(), a.name.as_str(), a.size), ("tok", "a.mp4", 1024));
    assert!(extract_attachment_info(&f, "text_size").is_none());
    assert!(extract_attachment_info(&f, "no_name").is_none());
    assert!(extract_attachment_info(&f, "neg").is_none());
    assert!(extract_attachment_info(&f, "absent").is_none());
}

#[test]
fn raw_media_item_parsing() {
    let m = parse_raw_media_item(&record(vec![
        ("媒体类型", text("视频")),
        ("文件", CellValue::Array(vec![obj(vec![("file_token", text("tok")), ("name", text("a.mp4")), ("size", CellValue::Number("5".to_string()))])])),
        ("标题", text("Intro")),
    ]))
    .unwrap();
    assert_eq!(m.media_type, "video");
    assert_eq!(m.attachment.unwrap().size, 5);
    assert!(matches!(parse_raw_media_item(&record(vec![("标题", text("x"))])), Err(ParseError::MissingMediaSource)));
}

fn raw(kind: &str, title: Option<&str>, url: Option<&str>, attachment: Option<AttachmentInfo>, order: i32) -> RawMediaItem {
    RawMediaItem {
        media_type: kind.to_string(),
        title: title.map(|t| t.to_string()),
        duration: Some(1000),
        sort_order: order,
        external_url: url.map(|u| u.to_string()),
        attachment,
    }
}

#[test]
fn planning_media_items() {
    match plan_media_item(&raw("video", None, None, Some(att("tok", "promo.v2.mp4", 9)), 1)) {
        MediaPlan::Video { attachment, slug } => {
            assert_eq!(attachment.file_token, "tok");
            assert_eq!(slug, "promo-v2-mp4");
        },
        _ => panic!("expected a video job"),
    }
    match plan_media_item(&raw("video", Some("My Video!!  Clip"), None, Some(att("tok", "x.mp4", 9)), 1)) {
        MediaPlan::Video { slug, .. } => assert_eq!(slug, "my-video-clip"),
        _ => panic!("expected a video job"),
    }
    match plan_media_item(&raw("video", None, Some("https://v"), None, 1)) {
        MediaPlan::Ready(m) => assert_eq!((m.media_type.as_str(), m.url.as_str()), ("video", "https://v")),
        _ => panic!("expected a ready entry"),
    }
    assert!(matches!(plan_media_item(&raw("video", None, None, None, 1)), MediaPlan::Skip));
    match plan_media_item(&raw("image", Some("t"), None, Some(att("tok", "x.jpg", 1)), 4)) {
        MediaPlan::Ready(m) => {
            assert_eq!(m.url, "");
            assert_eq!(m.sort_order, 4);
            assert_eq!(m.title.as_deref(), Some("t"));
        },
        _ => panic!("expected a ready entry"),
    }
    let v = video_entry(&raw("video", Some("t"), None, None, 2), "videos/t/index.m3u8".to_string());
    assert_eq!(v.url, "videos/t/index.m3u8");
    let r = raw("video", Some("t"), None, Some(att("tok", "x", 1)), 3);
    let kept = video_outcome(&r, Ok("videos/t/index.m3u8".to_string())).unwrap();
    assert_eq!((kept.media_type.as_str(), kept.url.as_str(), kept.sort_order), ("video", "videos/t/index.m3u8", 3));
    assert!(video_outcome(&r, Err("download failed".to_string())).is_none());
    let p = placeholder_entry(&raw("video", None, None, Some(att("tok", "x", 1)), 0));
    assert_eq!(p.url, "[attachment:tok]");
    assert_eq!(placeholder_entry(&raw("image", None, Some("u"), None, 0)).url, "");
}

fn item(order: i32, url: &str) -> MediaItem {
    MediaItem { media_type: "image".to_string(), url: url.to_string(), title: None, duration: None, sort_order: order }
}

#[test]
fn playlist_sorted_stably() {
    let out = order_playlist(vec![item(2, "a"), item(1, "b"), item(2, "c"), item(0, "d"), item(1, "e")]);
    let urls: Vec<&str> = out.iter().map(|m| m.url.as_str()).collect();
    assert_eq!(urls, vec!["d", "b", "e", "a", "c"]);
    assert!(order_playlist(Vec::new()).is_empty());
}

#[test]
fn paths_and_transcoder_arguments() {
    assert_eq!(playlist_url("intro"), "videos/intro/index.m3u8");
    assert_eq!(cache_record_location("intro"), "videos/intro/.meta.json");
    assert_eq!(segment_pattern("intro"), "intro_%03d.ts");
    let args = transcoder_args("/tmp/in.mp4", "/p/videos/intro/intro_%03d.ts", "/p/videos/intro/index.m3u8");
    assert_eq!(
        args,
        vec!["-i", "/tmp/in.mp4", "-codec", "copy", "-start_number", "0", "-hls_time", "10", "-hls_list_size", "0",
            "-hls_segment_filename", "/p/videos/intro/intro_%03d.ts", "-y", "/p/videos/intro/index.m3u8"]
    );
}

fn run_fresh(job: &mut VideoJob, cached: Option<VideoCacheRecord>) -> (Vec<&'static str>, Option<VideoCacheRecord>, String) {
    let mut steps = Vec::new();
    let mut written = None;
    let mut act = job.advance(VideoEvent::CacheRead(cached));
    loop {
        match act {
            VideoAction::Resolve { .. } => {
                steps.push("resolve");
                act = job.advance(VideoEvent::Resolved(Ok("https://dl".to_string())));
            },
            VideoAction::Download { url, file_name } => {
                assert_eq!(url, "https://dl");
                assert_eq!(file_name, job.attachment.name);
                steps.push("download");
                act = job.advance(VideoEvent::Downloaded(Ok(())));
            },
            VideoAction::Transcode => {
                steps.push("transcode");
                act = job.advance(VideoEvent::Transcoded(Ok(())));
            },
            VideoAction::WriteCache { record } => {
                steps.push("write");
                written = Some(record);
                act = job.advance(VideoEvent::CacheWritten(Ok(())));
            },
            VideoAction::Finish { url } => return (steps, written, url),
            VideoAction::Fail { reason } => panic!("failed: {}", reason),
        }
    }
}

#[test]
fn second_run_with_same_content_does_no_work() {
    let mut first = VideoJob::start(att("tok", "a.mp4", 100), "intro".to_string());
    let (steps, written, url1) = run_fresh(&mut first, None);
    assert_eq!(steps, vec!["resolve", "download", "transcode", "write"]);
    assert_eq!(first.phase, VideoPhase::Done);
    let mut again = VideoJob::start(att("tok", "a.mp4", 100), "intro".to_string());
    let (steps2, written2, url2) = run_fresh(&mut again, written);
    assert!(steps2.is_empty());
    assert!(written2.is_none());
    assert_eq!(url1, url2);
    assert_eq!(url2, "videos/intro/index.m3u8");
}

#[test]
fn changed_size_forces_new_download() {
    let rec = cache_record_for(&att("tok", "a.mp4", 100));
    assert_eq!((rec.file_token.as_str(), rec.size, rec.source_name.as_str()), ("tok", 100, "a.mp4"));
    assert!(is_cached(&Some(rec.clone()), &att("tok", "a.mp4", 100)));
    assert!(!is_cached(&Some(rec.clone()), &att("tok", "a.mp4", 101)));
    assert!(!is_cached(&Some(rec.clone()), &att("other", "a.mp4", 100)));
    assert!(!is_cached(&None, &att("tok", "a.mp4", 100)));
    let mut job = VideoJob::start(att("tok", "a.mp4", 101), "intro".to_string());
    let (steps, written, _) = run_fresh(&mut job, Some(rec));
    assert_eq!(steps, vec!["resolve", "download", "transcode", "write"]);
    assert_eq!(written.unwrap().size, 101);
}

#[test]
fn failures_end_the_job() {
    let mut job = VideoJob::start(att("tok", "a.mp4", 1), "s".to_string());
    assert!(matches!(job.advance(VideoEvent::CacheRead(None)), VideoAction::Resolve { .. }));
    match job.advance(VideoEvent::Resolved(Err("code 99".to_string()))) {
        VideoAction::Fail { reason } => assert_eq!(reason, "code 99"),
        _ => panic!("expected failure"),
    }
    assert_eq!(job.phase, VideoPhase::Failed);
    let mut job2 = VideoJob::start(att("tok", "a.mp4", 1), "s".to_string());
    assert!(matches!(job2.advance(VideoEvent::Downloaded(Ok(()))), VideoAction::Fail { .. }));
    let mut job3 = VideoJob::start(att("tok", "a.mp4", 1), "s".to_string());
    job3.advance(VideoEvent::CacheRead(None));
    job3.advance(VideoEvent::Resolved(Ok("u".to_string())));
    job3.advance(VideoEvent::Downloaded(Ok(())));
    match job3.advance(VideoEvent::Transcoded(Err("exit 1: bad input".to_string()))) {
        VideoAction::Fail { reason } => assert_eq!(reason, "exit 1: bad input"),
        _ => panic!("expected failure"),
    }
}
