//! The decisions of the capture thread: which part of the captured frames to
//! keep, the ffmpeg command line that encodes them, and what to do with each
//! event the capturer produces.
use vstd::prelude::*;
use crate::state::{CaptureRegion, OutputFormat, Quality};
use crate::text::{decimal, decimal_string, push_decimal, push_text, texts};

verus! {

/// A crop of the captured frame: its size and its top-left corner, in
/// physical pixels.
#[derive(Debug, Clone, Copy, PartialEq, Eq, Structural)]
pub struct CropRect {
    pub width: u32,
    pub height: u32,
    pub x: u32,
    pub y: u32,
}

/// The smaller of two integers.
pub open spec fn min_int(a: int, b: int) -> int {
    if a <= b { a } else { b }
}

/// A coordinate of the region moved into the frame: negative coordinates
/// become 0, coordinates past the last pixel become the last pixel.
pub open spec fn clamp_origin(v: i32, extent: u32) -> int {
    min_int(if v < 0 { 0 } else { v as int }, if extent == 0 { 0 } else { extent - 1 })
}

/// `n` rounded down to an even number (H.264 and GIF need even sizes).
pub open spec fn even_down(n: int) -> int {
    (n / 2) * 2
}

/// The crop that keeps `region` of a `width` x `height` frame. There is none
/// when the region clipped to the frame is empty, or when it covers the whole
/// frame.
pub open spec fn spec_crop(region: CaptureRegion, width: u32, height: u32) -> Option<CropRect> {
    let cx = clamp_origin(region.x, width);
    let cy = clamp_origin(region.y, height);
    let cw = even_down(min_int(region.width as int, width - cx));
    let ch = even_down(min_int(region.height as int, height - cy));
    if cw == 0 || ch == 0 {
        None
    } else if cx > 0 || cy > 0 || cw < width || ch < height {
        Some(CropRect { width: cw as u32, height: ch as u32, x: cx as u32, y: cy as u32 })
    } else {
        None
    }
}

/// The crop for an optional region: without a region the frame is kept whole.
pub open spec fn spec_crop_for(region: Option<CaptureRegion>, width: u32, height: u32) -> Option<CropRect> {
    match region {
        Some(r) => spec_crop(r, width, height),
        None => None,
    }
}

/// The crop that keeps `region` of a `width` x `height` frame.
pub fn crop_rect(region: &CaptureRegion, width: u32, height: u32) -> (c: Option<CropRect>)
    ensures
        c == spec_crop(*region, width, height),
        c matches Some(r) ==> {
            &&& r.width > 0 && r.height > 0
            &&& r.width % 2 == 0 && r.height % 2 == 0
            &&& r.x + r.width <= width && r.y + r.height <= height
            &&& r.width <= region.width && r.height <= region.height
            &&& (r.x > 0 || r.y > 0 || r.width < width || r.height < height)
        },
{
    let px: u32 = if region.x < 0 { 0 } else { region.x as u32 };
    let py: u32 = if region.y < 0 { 0 } else { region.y as u32 };
    let lx: u32 = width.saturating_sub(1);
    let ly: u32 = height.saturating_sub(1);
    let cx: u32 = if px <= lx { px } else { lx };
    let cy: u32 = if py <= ly { py } else { ly };
    let room_w: u32 = width - cx;
    let room_h: u32 = height - cy;
    let mw: u32 = if region.width <= room_w { region.width } else { room_w };
    let mh: u32 = if region.height <= room_h { region.height } else { room_h };
    let cw: u32 = (mw / 2) * 2;
    let ch: u32 = (mh / 2) * 2;
    if cw == 0 || ch == 0 {
        return None;
    }
    if cx > 0 || cy > 0 || cw < width || ch < height {
        Some(CropRect { width: cw, height: ch, x: cx, y: cy })
    } else {
        None
    }
}

/// The ffmpeg filter that applies a crop: `crop=W:H:X:Y`.
pub open spec fn crop_text(c: CropRect) -> Seq<char> {
    "crop="@ + decimal(c.width as nat) + ":"@ + decimal(c.height as nat) + ":"@ + decimal(c.x as nat)
        + ":"@ + decimal(c.y as nat)
}

/// The ffmpeg crop filter for a crop rectangle.
pub fn crop_filter(c: &CropRect) -> (s: String)
    ensures
        s@ == crop_text(*c),
{
    let mut s = String::from_str("crop=");
    push_decimal(&mut s, c.width as u64);
    s.append(":");
    push_decimal(&mut s, c.height as u64);
    s.append(":");
    push_decimal(&mut s, c.x as u64);
    s.append(":");
    push_decimal(&mut s, c.y as u64);
    s
}

/// Highest frame rate of a GIF, whatever the capture rate.
pub const GIF_MAX_FPS: u32 = 20;

/// libx264 constant rate factor of a quality tier (lower is better).
pub open spec fn crf_mp4(q: Quality) -> Seq<char> {
    match q {
        Quality::High => "18"@,
        Quality::Medium => "28"@,
        Quality::Low => "40"@,
    }
}

/// libvpx-vp9 constant rate factor of a quality tier (lower is better).
pub open spec fn crf_webm(q: Quality) -> Seq<char> {
    match q {
        Quality::High => "20"@,
        Quality::Medium => "33"@,
        Quality::Low => "48"@,
    }
}

/// Largest GIF width of a quality tier, as an ffmpeg expression.
pub open spec fn gif_scale(q: Quality) -> Seq<char> {
    match q {
        Quality::High => "min(1280,iw)"@,
        Quality::Medium => "min(1024,iw)"@,
        Quality::Low => "min(640,iw)"@,
    }
}

/// The frame rate of a GIF recorded at `fps`.
pub open spec fn gif_fps(fps: u32) -> nat {
    if fps <= GIF_MAX_FPS { fps as nat } else { GIF_MAX_FPS as nat }
}

/// The two-pass palette part of the GIF filter graph.
pub open spec fn palette_graph() -> Seq<char> {
    ",split[s0][s1];[s0]palettegen[p];[s1][p]paletteuse"@
}

/// The GIF filter graph: optional crop, frame rate cap, scaling, palette.
pub open spec fn gif_filter_text(crop: Option<CropRect>, fps: u32, q: Quality) -> Seq<char> {
    let gif_vf = "fps="@ + decimal(gif_fps(fps)) + ",scale='"@ + gif_scale(q) + "':-2:flags=lanczos"@;
    match crop {
        Some(c) => crop_text(c) + ","@ + gif_vf + palette_graph(),
        None => gif_vf + palette_graph(),
    }
}

/// The arguments that read raw BGRA frames of the given size from stdin.
pub open spec fn input_args(fps: u32, width: u32, height: u32) -> Seq<Seq<char>> {
    seq![
        "-f"@, "rawvideo"@,
        "-pixel_format"@, "bgra"@,
        "-video_size"@, decimal(width as nat) + "x"@ + decimal(height as nat),
        "-framerate"@, decimal(fps as nat),
        "-i"@, "pipe:0"@,
    ]
}

/// The `-vf` arguments of a crop, if there is one.
pub open spec fn crop_args(crop: Option<CropRect>) -> Seq<Seq<char>> {
    match crop {
        Some(c) => seq!["-vf"@, crop_text(c)],
        None => seq![],
    }
}

/// The complete ffmpeg command line (without the program name) that encodes
/// raw frames of `width` x `height` captured at `fps` into `output`.
pub open spec fn spec_ffmpeg_args(
    format: OutputFormat,
    quality: Quality,
    fps: u32,
    width: u32,
    height: u32,
    region: Option<CaptureRegion>,
    output: Seq<char>,
) -> Seq<Seq<char>> {
    let crop = spec_crop_for(region, width, height);
    input_args(fps, width, height) + match format {
        OutputFormat::Mp4 => crop_args(crop) + seq![
            "-c:v"@, "libx264"@,
            "-crf"@, crf_mp4(quality),
            "-pix_fmt"@, "yuv420p"@,
            "-movflags"@, "+faststart"@,
            "-y"@, output,
        ],
        OutputFormat::WebM => crop_args(crop) + seq![
            "-c:v"@, "libvpx-vp9"@,
            "-crf"@, crf_webm(quality),
            "-b:v"@, "0"@,
            "-pix_fmt"@, "yuv420p"@,
            "-y"@, output,
        ],
        OutputFormat::Gif => seq![
            "-vf"@, gif_filter_text(crop, fps, quality),
            "-loop"@, "0"@,
            "-y"@, output,
        ],
    }
}

fn push_string(args: &mut Vec<String>, s: String)
    ensures
        texts(final(args)@) == texts(old(args)@).push(s@),
{
    let ghost v = s@;
    args.push(s);
    assert(texts(args@) =~= texts(old(args)@).push(v));
}

fn crf_mp4_str(q: Quality) -> (s: &'static str)
    ensures
        s@ == crf_mp4(q),
{
    match q {
        Quality::High => "18",
        Quality::Medium => "28",
        Quality::Low => "40",
    }
}

fn crf_webm_str(q: Quality) -> (s: &'static str)
    ensures
        s@ == crf_webm(q),
{
    match q {
        Quality::High => "20",
        Quality::Medium => "33",
        Quality::Low => "48",
    }
}

fn gif_scale_str(q: Quality) -> (s: &'static str)
    ensures
        s@ == gif_scale(q),
{
    match q {
        Quality::High => "min(1280,iw)",
        Quality::Medium => "min(1024,iw)",
        Quality::Low => "min(640,iw)",
    }
}

/// The GIF filter graph for an optional crop.
pub fn gif_filter(crop: &Option<CropRect>, fps: u32, quality: Quality) -> (s: String)
    ensures
        s@ == gif_filter_text(*crop, fps, quality),
{
    let mut s = String::new();
    match crop {
        Some(c) => {
            s.append(crop_filter(c).as_str());
            s.append(",");
        },
        None => {},
    }
    s.append("fps=");
    let gfps: u32 = if fps <= GIF_MAX_FPS { fps } else { GIF_MAX_FPS };
    push_decimal(&mut s, gfps as u64);
    s.append(",scale='");
    s.append(gif_scale_str(quality));
    s.append("':-2:flags=lanczos");
    s.append(",split[s0][s1];[s0]palettegen[p];[s1][p]paletteuse");
    assert(s@ =~= gif_filter_text(*crop, fps, quality));
    s
}

/// The ffmpeg command line that encodes the captured frames into `output`.
pub fn ffmpeg_args(
    format: OutputFormat,
    quality: Quality,
    fps: u32,
    width: u32,
    height: u32,
    region: &Option<CaptureRegion>,
    output: &str,
) -> (args: Vec<String>)
    ensures
        texts(args@) == spec_ffmpeg_args(format, quality, fps, width, height, *region, output@),
{
    let crop: Option<CropRect> = match region {
        Some(r) => crop_rect(r, width, height),
        None => None,
    };
    let mut args: Vec<String> = Vec::new();
    push_text(&mut args, "-f");
    push_text(&mut args, "rawvideo");
    push_text(&mut args, "-pixel_format");
    push_text(&mut args, "bgra");
    push_text(&mut args, "-video_size");
    let mut size = decimal_string(width as u64);
    size.append("x");
    push_decimal(&mut size, height as u64);
    push_string(&mut args, size);
    push_text(&mut args, "-framerate");
    push_string(&mut args, decimal_string(fps as u64));
    push_text(&mut args, "-i");
    push_text(&mut args, "pipe:0");
    let ghost head = texts(args@);
    assert(head =~= input_args(fps, width, height));
    match format {
        OutputFormat::Mp4 => {
            match &crop {
                Some(c) => {
                    push_text(&mut args, "-vf");
                    push_string(&mut args, crop_filter(c));
                },
                None => {},
            }
            assert(texts(args@) =~= head + crop_args(crop));
            push_text(&mut args, "-c:v");
            push_text(&mut args, "libx264");
            push_text(&mut args, "-crf");
            push_text(&mut args, crf_mp4_str(quality));
            push_text(&mut args, "-pix_fmt");
            push_text(&mut args, "yuv420p");
            push_text(&mut args, "-movflags");
            push_text(&mut args, "+faststart");
            push_text(&mut args, "-y");
            push_text(&mut args, output);
        },
        OutputFormat::WebM => {
            match &crop {
                Some(c) => {
                    push_text(&mut args, "-vf");
                    push_string(&mut args, crop_filter(c));
                },
                None => {},
            }
            assert(texts(args@) =~= head + crop_args(crop));
            push_text(&mut args, "-c:v");
            push_text(&mut args, "libvpx-vp9");
            push_text(&mut args, "-crf");
            push_text(&mut args, crf_webm_str(quality));
            push_text(&mut args, "-b:v");
            push_text(&mut args, "0");
            push_text(&mut args, "-pix_fmt");
            push_text(&mut args, "yuv420p");
            push_text(&mut args, "-y");
            push_text(&mut args, output);
        },
        OutputFormat::Gif => {
            push_text(&mut args, "-vf");
            push_string(&mut args, gif_filter(&crop, fps, quality));
            push_text(&mut args, "-loop");
            push_text(&mut args, "0");
            push_text(&mut args, "-y");
            push_text(&mut args, output);
        },
    }
    assert(texts(args@) =~= spec_ffmpeg_args(format, quality, fps, width, height, *region, output@));
    args
}

/// Every command line ends by overwriting the output file, and starts by
/// reading raw BGRA frames from stdin.
pub proof fn lemma_ffmpeg_args_shape(
    format: OutputFormat,
    quality: Quality,
    fps: u32,
    width: u32,
    height: u32,
    region: Option<CaptureRegion>,
    output: Seq<char>,
)
    ensures
        ({
            let a = spec_ffmpeg_args(format, quality, fps, width, height, region, output);
            &&& a.len() >= 12
            &&& a.last() == output
            &&& a[a.len() - 2] == "-y"@
            &&& a.subrange(0, 10) == input_args(fps, width, height)
        }),
{
    let a = spec_ffmpeg_args(format, quality, fps, width, height, region, output);
    assert(a.subrange(0, 10) =~= input_args(fps, width, height));
}

/// The first ten arguments read raw BGRA frames of the captured size, at the
/// capture frame rate, from stdin; this holds for every format.
pub proof fn lemma_ffmpeg_args_input(
    format: OutputFormat,
    quality: Quality,
    fps: u32,
    width: u32,
    height: u32,
    region: Option<CaptureRegion>,
    output: Seq<char>,
)
    ensures
        ({
            let a = spec_ffmpeg_args(format, quality, fps, width, height, region, output);
            &&& a.len() > 12
            &&& a[0] == "-f"@ && a[1] == "rawvideo"@
            &&& a[2] == "-pixel_format"@ && a[3] == "bgra"@
            &&& a[4] == "-video_size"@ && a[5] == decimal(width as nat) + "x"@ + decimal(height as nat)
            &&& a[6] == "-framerate"@ && a[7] == decimal(fps as nat)
            &&& a[8] == "-i"@ && a[9] == "pipe:0"@
        }),
{
}

/// MP4 and WebM recordings are cropped to the selected region: when the
/// region yields a crop `c`, the input arguments are directly followed by
/// `-vf crop=W:H:X:Y` of `c`; without a crop the encoder choice follows.
pub proof fn lemma_ffmpeg_args_crop(
    format: OutputFormat,
    quality: Quality,
    fps: u32,
    width: u32,
    height: u32,
    region: Option<CaptureRegion>,
    output: Seq<char>,
)
    requires
        format != OutputFormat::Gif,
    ensures
        ({
            let a = spec_ffmpeg_args(format, quality, fps, width, height, region, output);
            match spec_crop_for(region, width, height) {
                Some(c) => {
                    &&& a[10] == "-vf"@
                    &&& a[11] == "crop="@ + decimal(c.width as nat) + ":"@ + decimal(c.height as nat)
                        + ":"@ + decimal(c.x as nat) + ":"@ + decimal(c.y as nat)
                    &&& a[12] == "-c:v"@
                },
                None => a[10] == "-c:v"@,
            }
        }),
{
}

/// The encoder arguments of each format, with the constant rate factor of
/// each quality tier: libx264 at 18/28/40 and libvpx-vp9 at 20/33/48 for
/// high/medium/low, then overwrite of the output file.
pub proof fn lemma_ffmpeg_args_encoder(
    format: OutputFormat,
    quality: Quality,
    fps: u32,
    width: u32,
    height: u32,
    region: Option<CaptureRegion>,
    output: Seq<char>,
)
    requires
        format != OutputFormat::Gif,
    ensures
        ({
            let a = spec_ffmpeg_args(format, quality, fps, width, height, region, output);
            let k: int = if spec_crop_for(region, width, height) is Some { 12 } else { 10 };
            match format {
                OutputFormat::Mp4 => a.subrange(k, a.len() as int) == seq![
                    "-c:v"@, "libx264"@,
                    "-crf"@, match quality {
                        Quality::High => "18"@,
                        Quality::Medium => "28"@,
                        Quality::Low => "40"@,
                    },
                    "-pix_fmt"@, "yuv420p"@,
                    "-movflags"@, "+faststart"@,
                    "-y"@, output,
                ],
                _ => a.subrange(k, a.len() as int) == seq![
                    "-c:v"@, "libvpx-vp9"@,
                    "-crf"@, match quality {
                        Quality::High => "20"@,
                        Quality::Medium => "33"@,
                        Quality::Low => "48"@,
                    },
                    "-b:v"@, "0"@,
                    "-pix_fmt"@, "yuv420p"@,
                    "-y"@, output,
                ],
            }
        }),
{
    let a = spec_ffmpeg_args(format, quality, fps, width, height, region, output);
    let k: int = if spec_crop_for(region, width, height) is Some { 12 } else { 10 };
    match format {
        OutputFormat::Mp4 => {
            assert(a.subrange(k, a.len() as int) =~= seq![
                "-c:v"@, "libx264"@, "-crf"@, crf_mp4(quality), "-pix_fmt"@, "yuv420p"@,
                "-movflags"@, "+faststart"@, "-y"@, output,
            ]);
        },
        _ => {
            assert(a.subrange(k, a.len() as int) =~= seq![
                "-c:v"@, "libvpx-vp9"@, "-crf"@, crf_webm(quality), "-b:v"@, "0"@, "-pix_fmt"@,
                "yuv420p"@, "-y"@, output,
            ]);
        },
    }
}

/// A GIF gets one filter graph: the crop of the region (if any), then the
/// frame rate capped at 20 fps, the width limit of the quality tier
/// (1280/1024/640 pixels for high/medium/low) and a two-pass palette; then it
/// loops forever and overwrites the output file.
pub proof fn lemma_ffmpeg_args_gif(
    quality: Quality,
    fps: u32,
    width: u32,
    height: u32,
    region: Option<CaptureRegion>,
    output: Seq<char>,
)
    ensures
        ({
            let a = spec_ffmpeg_args(OutputFormat::Gif, quality, fps, width, height, region, output);
            let rate: nat = if fps <= 20 { fps as nat } else { 20 };
            let graph = "fps="@ + decimal(rate) + ",scale='"@ + match quality {
                Quality::High => "min(1280,iw)"@,
                Quality::Medium => "min(1024,iw)"@,
                Quality::Low => "min(640,iw)"@,
            } + "':-2:flags=lanczos"@ + ",split[s0][s1];[s0]palettegen[p];[s1][p]paletteuse"@;
            &&& a.subrange(10, a.len() as int) == seq![
                "-vf"@, gif_filter_text(spec_crop_for(region, width, height), fps, quality),
                "-loop"@, "0"@, "-y"@, output,
            ]
            &&& gif_filter_text(None, fps, quality) == graph
            &&& forall|c: CropRect| gif_filter_text(Some(c), fps, quality) == crop_text(c) + ","@ + graph
        }),
{
    let a = spec_ffmpeg_args(OutputFormat::Gif, quality, fps, width, height, region, output);
    assert(a.subrange(10, a.len() as int) =~= seq![
        "-vf"@, gif_filter_text(spec_crop_for(region, width, height), fps, quality),
        "-loop"@, "0"@, "-y"@, output,
    ]);
    let rate: nat = if fps <= 20 { fps as nat } else { 20 };
    let graph = "fps="@ + decimal(rate) + ",scale='"@ + gif_scale(quality) + "':-2:flags=lanczos"@
        + palette_graph();
    assert(gif_filter_text(None, fps, quality) =~= graph);
    assert forall|c: CropRect| gif_filter_text(Some(c), fps, quality) == crop_text(c) + ","@ + graph by {
        assert(gif_filter_text(Some(c), fps, quality) =~= crop_text(c) + ","@ + graph);
    }
}

/// The frame rate of a GIF never exceeds 20 fps and is the capture rate when
/// that is lower.
pub proof fn lemma_gif_fps_capped(fps: u32)
    ensures
        gif_fps(fps) <= 20,
        fps <= 20 ==> gif_fps(fps) == fps,
        fps > 20 ==> gif_fps(fps) == 20,
{
}

/// When the region is cropped: the origin is the region's corner moved into
/// the frame (negative coordinates to 0, coordinates past the frame to its
/// last pixel), and the size is the region's size clipped to the frame and
/// rounded down to even. There is no crop exactly when that clipped size is
/// empty or the crop would be the whole frame.
pub proof fn lemma_crop_exact(region: CaptureRegion, width: u32, height: u32)
    ensures
        ({
            let px: int = if region.x < 0 { 0 } else { region.x as int };
            let py: int = if region.y < 0 { 0 } else { region.y as int };
            let lx: int = if width == 0 { 0 } else { width - 1 };
            let ly: int = if height == 0 { 0 } else { height - 1 };
            let cx: int = if px <= lx { px } else { lx };
            let cy: int = if py <= ly { py } else { ly };
            let mw: int = if region.width <= width - cx { region.width as int } else { width - cx };
            let mh: int = if region.height <= height - cy { region.height as int } else { height - cy };
            let cw: int = mw - mw % 2;
            let ch: int = mh - mh % 2;
            &&& (spec_crop(region, width, height) is None) <==> (cw == 0 || ch == 0 || (cx == 0 && cy == 0
                && cw == width && ch == height))
            &&& spec_crop(region, width, height) matches Some(c) ==> (c.x == cx && c.y == cy && c.width == cw
                && c.height == ch)
        }),
{
}

/// Number of frames between two progress ticks.
pub const TICK_INTERVAL: u64 = 30;

/// Frames written once the first frame (which fixes the frame size) is in.
pub const FIRST_FRAME_COUNT: u64 = 1;

/// What the capture thread observed on one turn of its loop.
#[derive(Debug, Clone, Copy, PartialEq, Eq, Structural)]
pub enum CaptureEvent {
    /// the stop flag was set
    StopRequested,
    /// the capturer handed over a BGRA video frame
    BgraFrame,
    /// the capturer handed over audio or another video format
    OtherFrame,
    /// the capturer reported an error
    Failed,
}

/// What the capture thread does about an event.
#[derive(Debug, Clone, Copy, PartialEq, Eq, Structural)]
pub enum CaptureAction {
    /// pipe the frame to ffmpeg; on a tick, also report the frame count
    WriteFrame { tick: bool },
    /// drop the frame and go on
    Skip,
    /// leave the loop and finish the file
    Finish,
}

/// One turn of the capture loop: counts written frames and reports progress
/// every [`TICK_INTERVAL`] frames.
pub fn capture_step(frame_count: &mut u64, event: CaptureEvent) -> (action: CaptureAction)
    requires
        event == CaptureEvent::BgraFrame ==> *old(frame_count) < u64::MAX,
    ensures
        match event {
            CaptureEvent::StopRequested | CaptureEvent::Failed => {
                action == CaptureAction::Finish && *final(frame_count) == *old(frame_count)
            },
            CaptureEvent::OtherFrame => {
                action == CaptureAction::Skip && *final(frame_count) == *old(frame_count)
            },
            CaptureEvent::BgraFrame => {
                &&& *final(frame_count) == *old(frame_count) + 1
                &&& action == (CaptureAction::WriteFrame {
                    tick: (*old(frame_count) + 1) % 30 == 0,
                })
            },
        },
{
    match event {
        CaptureEvent::StopRequested => CaptureAction::Finish,
        CaptureEvent::Failed => CaptureAction::Finish,
        CaptureEvent::OtherFrame => CaptureAction::Skip,
        CaptureEvent::BgraFrame => {
            *frame_count = *frame_count + 1;
            CaptureAction::WriteFrame { tick: *frame_count % TICK_INTERVAL == 0 }
        },
    }
}

} // verus!
