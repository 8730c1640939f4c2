use pkap::capture::{
    capture_step, crop_filter, crop_rect, ffmpeg_args, gif_filter, CaptureAction, CaptureEvent,
    CropRect, FIRST_FRAME_COUNT,
};
use pkap::state::{CaptureRegion, OutputFormat, Quality};
use pkap::text::decimal_string;

fn region(x: i32, y: i32, width: u32, height: u32) -> CaptureRegion {
    CaptureRegion { x, y, width, height }
}

#[test]
fn decimal_renders_digits() {
    assert_eq!(decimal_string(0), "0");
    assert_eq!(decimal_string(7), "7");
    assert_eq!(decimal_string(1920), "1920");
    assert_eq!(decimal_string(u64::MAX), "18446744073709551615");
}

#[test]
fn crop_inside_frame_is_even() {
    let c = crop_rect(&region(11, 21, 501, 301), 1920, 1080).unwrap();
    assert_eq!(c, CropRect { width: 500, height: 300, x: 11, y: 21 });
}

#[test]
fn crop_clamps_negative_origin_and_overhang() {
    let c = crop_rect(&region(-40, 1000, 3000, 500), 1920, 1080).unwrap();
    assert_eq!(c, CropRect { width: 1920, height: 80, x: 0, y: 1000 });
}

#[test]
fn crop_of_whole_frame_is_none() {
    assert_eq!(crop_rect(&region(0, 0, 1920, 1080), 1920, 1080), None);
    assert_eq!(crop_rect(&region(-5, -5, 5000, 5000), 1920, 1080), None);
}

#[test]
fn crop_of_empty_region_is_none() {
    assert_eq!(crop_rect(&region(10, 10, 1, 100), 1920, 1080), None);
    assert_eq!(crop_rect(&region(10, 10, 100, 0), 1920, 1080), None);
    assert_eq!(crop_rect(&region(0, 0, 100, 100), 0, 0), None);
}

#[test]
fn crop_origin_past_frame_leaves_nothing() {
    // the origin moves to the last pixel, which leaves one pixel: rounded to 0
    assert_eq!(crop_rect(&region(5000, 0, 100, 100), 1920, 1080), None);
    assert_eq!(crop_rect(&region(0, 5000, 100, 100), 1920, 1080), None);
}

#[test]
fn crop_filter_text() {
    let c = CropRect { width: 640, height: 480, x: 10, y: 20 };
    assert_eq!(crop_filter(&c), "crop=640:480:10:20");
}

fn strs(v: &[&str]) -> Vec<String> {
    v.iter().map(|s| s.to_string()).collect()
}

#[test]
fn mp4_args_without_crop() {
    let args = ffmpeg_args(OutputFormat::Mp4, Quality::Medium, 30, 1920, 1080, &None, "/tmp/out.mp4");
    assert_eq!(
        args,
        strs(&[
            "-f", "rawvideo", "-pixel_format", "bgra", "-video_size", "1920x1080", "-framerate", "30",
            "-i", "pipe:0", "-c:v", "libx264", "-crf", "28", "-pix_fmt", "yuv420p", "-movflags",
            "+faststart", "-y", "/tmp/out.mp4",
        ])
    );
}

#[test]
fn mp4_args_with_crop() {
    let args = ffmpeg_args(
        OutputFormat::Mp4,
        Quality::High,
        60,
        1920,
        1080,
        &Some(region(100, 50, 801, 601)),
        "o.mp4",
    );
    assert_eq!(
        args,
        strs(&[
            "-f", "rawvideo", "-pixel_format", "bgra", "-video_size", "1920x1080", "-framerate", "60",
            "-i", "pipe:0", "-vf", "crop=800:600:100:50", "-c:v", "libx264", "-crf", "18",
            "-pix_fmt", "yuv420p", "-movflags", "+faststart", "-y", "o.mp4",
        ])
    );
}

#[test]
fn webm_args() {
    let args = ffmpeg_args(OutputFormat::WebM, Quality::Low, 24, 1280, 720, &None, "o.webm");
    assert_eq!(
        args,
        strs(&[
            "-f", "rawvideo", "-pixel_format", "bgra", "-video_size", "1280x720", "-framerate", "24",
            "-i", "pipe:0", "-c:v", "libvpx-vp9", "-crf", "48", "-b:v", "0", "-pix_fmt", "yuv420p",
            "-y", "o.webm",
        ])
    );
    let high = ffmpeg_args(OutputFormat::WebM, Quality::High, 24, 1280, 720, &None, "o.webm");
    assert_eq!(high[13], "20");
    let medium = ffmpeg_args(OutputFormat::WebM, Quality::Medium, 24, 1280, 720, &None, "o.webm");
    assert_eq!(medium[13], "33");
}

#[test]
fn mp4_low_quality_crf() {
    let args = ffmpeg_args(OutputFormat::Mp4, Quality::Low, 30, 10, 10, &None, "x");
    assert_eq!(args[13], "40");
}

#[test]
fn gif_args_cap_fps_and_crop() {
    let args = ffmpeg_args(
        OutputFormat::Gif,
        Quality::Medium,
        60,
        1920,
        1080,
        &Some(region(0, 0, 1000, 1080)),
        "o.gif",
    );
    assert_eq!(
        args,
        strs(&[
            "-f", "rawvideo", "-pixel_format", "bgra", "-video_size", "1920x1080", "-framerate", "60",
            "-i", "pipe:0", "-vf",
            "crop=1000:1080:0:0,fps=20,scale='min(1024,iw)':-2:flags=lanczos,split[s0][s1];[s0]palettegen[p];[s1][p]paletteuse",
            "-loop", "0", "-y", "o.gif",
        ])
    );
}

#[test]
fn gif_filter_without_crop_keeps_low_fps() {
    assert_eq!(
        gif_filter(&None, 10, Quality::High),
        "fps=10,scale='min(1280,iw)':-2:flags=lanczos,split[s0][s1];[s0]palettegen[p];[s1][p]paletteuse"
    );
    assert_eq!(
        gif_filter(&None, 20, Quality::Low),
        "fps=20,scale='min(640,iw)':-2:flags=lanczos,split[s0][s1];[s0]palettegen[p];[s1][p]paletteuse"
    );
}

#[test]
fn capture_step_ticks_every_thirty_frames() {
    let mut count = FIRST_FRAME_COUNT;
    let mut ticks = Vec::new();
    for _ in 0..89 {
        match capture_step(&mut count, CaptureEvent::BgraFrame) {
            CaptureAction::WriteFrame { tick: true } => ticks.push(count),
            CaptureAction::WriteFrame { tick: false } => {}
            other => panic!("unexpected {:?}", other),
        }
    }
    assert_eq!(count, 90);
    assert_eq!(ticks, vec![30, 60, 90]);
}

#[test]
fn capture_step_skips_and_finishes() {
    let mut count = 5;
    assert_eq!(capture_step(&mut count, CaptureEvent::OtherFrame), CaptureAction::Skip);
    assert_eq!(count, 5);
    assert_eq!(capture_step(&mut count, CaptureEvent::StopRequested), CaptureAction::Finish);
    assert_eq!(capture_step(&mut count, CaptureEvent::Failed), CaptureAction::Finish);
    assert_eq!(count, 5);
}
