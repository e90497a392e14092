//! The format selection handed to the downloader: an expression of
//! alternatives, tried from left to right, that asks for a target quality and
//! falls back on a format identifier.

use vstd::prelude::*;
use vstd::string::*;
use crate::text::{decimal, push_decimal, same_text};

verus! {

/// The video part of the first alternative: the best video of exactly this
/// height and container, or the fallback identifier where no height is known.
pub open spec fn video_selector(height: u64, ext: Seq<char>, fallback: Seq<char>) -> Seq<char> {
    if height > 0 {
        "bestvideo[height="@ + decimal(height as nat) + "][ext="@ + ext + "]"@
    } else {
        fallback
    }
}

/// The audio that goes with a container: the codec usually paired with it,
/// then any best audio; for other containers the best audio alone.
pub open spec fn audio_selector(ext: Seq<char>) -> Seq<char> {
    if ext == "mp4"@ {
        "bestaudio[ext=m4a]/bestaudio"@
    } else if ext == "webm"@ {
        "bestaudio[ext=webm]/bestaudio"@
    } else {
        "bestaudio"@
    }
}

/// The whole expression: the video selector with the paired audio, then the
/// fallback identifier with the paired audio, then the fallback identifier
/// with the best audio whatever its container.
pub open spec fn selection_expression(height: u64, ext: Seq<char>, fallback: Seq<char>) -> Seq<
    char,
> {
    video_selector(height, ext, fallback) + "+"@ + audio_selector(ext) + "/"@ + fallback + "+"@
        + audio_selector(ext) + "/"@ + fallback + "+bestaudio"@
}

/// Builds the video part of the first alternative.
pub fn build_video_selector(height: u64, ext: &str, fallback: &str) -> (sel: String)
    ensures
        sel@ == video_selector(height, ext@, fallback@),
{
    let mut out = String::new();
    if height > 0 {
        out.append("bestvideo[height=");
        push_decimal(&mut out, height);
        out.append("][ext=");
        out.append(ext);
        out.append("]");
    } else {
        out.append(fallback);
    }
    assert(out@ =~= video_selector(height, ext@, fallback@));
    out
}

/// Picks the audio that goes with a container.
pub fn build_audio_selector(ext: &str) -> (sel: &'static str)
    ensures
        sel@ == audio_selector(ext@),
{
    if same_text(ext, "mp4") {
        "bestaudio[ext=m4a]/bestaudio"
    } else if same_text(ext, "webm") {
        "bestaudio[ext=webm]/bestaudio"
    } else {
        "bestaudio"
    }
}

/// Builds the selection expression for a target height and container with a
/// fallback format identifier. A height of zero stands for "unknown": the
/// fallback identifier is then the only video selector.
pub fn build_selection(height: u64, ext: &str, fallback: &str) -> (expr: String)
    ensures
        expr@ == selection_expression(height, ext@, fallback@),
{
    let video = build_video_selector(height, ext, fallback);
    let audio = build_audio_selector(ext);
    let mut out = String::new();
    out.append(video.as_str());
    out.append("+");
    out.append(audio);
    out.append("/");
    out.append(fallback);
    out.append("+");
    out.append(audio);
    out.append("/");
    out.append(fallback);
    out.append("+bestaudio");
    assert(out@ =~= selection_expression(height, ext@, fallback@));
    out
}

/// With no known height the expression makes no attempt by height: it opens
/// with the fallback identifier itself.
pub proof fn lemma_unknown_height_opens_with_fallback(ext: Seq<char>, fallback: Seq<char>)
    ensures
        video_selector(0, ext, fallback) == fallback,
        fallback.is_prefix_of(selection_expression(0, ext, fallback)),
{
    let e = selection_expression(0, ext, fallback);
    assert(e.subrange(0, fallback.len() as int) =~= fallback);
}

/// Every expression ends with the fallback identifier joined to the best
/// audio of any container, so the last alternative constrains nothing but the
/// video.
pub proof fn lemma_last_alternative_is_unconditional(
    height: u64,
    ext: Seq<char>,
    fallback: Seq<char>,
)
    ensures
        (fallback + "+bestaudio"@).is_suffix_of(selection_expression(height, ext, fallback)),
{
    let e = selection_expression(height, ext, fallback);
    let tail = fallback + "+bestaudio"@;
    assert(e.subrange(e.len() - tail.len(), e.len() as int) =~= tail);
}

} // verus!
