//! Job dispatch: the downloader invocation built for a recognized command,
//! and the reply text the requesting sender receives for each outcome.
//!
//! A job carries its own copies of the configured format, quality and output
//! directory, snapshotted at dispatch time; jobs share no state. The external
//! downloader process and the reply publication live outside this crate: it
//! receives the argument list built here and reports back the exit outcome
//! and diagnostic text.

use vstd::prelude::*;
use vstd::string::*;

use crate::reconcile::views_of;

verus! {

/// What `str::to_uppercase` returns: a function of the characters alone.
pub uninterp spec fn upper_of(s: Seq<char>) -> Seq<char>;

/// Relies on `str::to_uppercase`: its result depends on the input characters
/// alone, independent of environment or locale.
#[verifier::external_body]
fn to_upper(s: &str) -> (r: String)
    ensures
        r@ == upper_of(s@),
{
    s.to_uppercase()
}

/// The canonical reference URL of an identifier.
pub open spec fn url_spec(id: Seq<char>) -> Seq<char> {
    "https://youtube.com/watch?v="@ + id
}

/// The downloader's output path template under a directory.
pub open spec fn output_template_spec(dir: Seq<char>) -> Seq<char> {
    dir + "/%(title)s.%(ext)s"@
}

/// The argument list of one downloader invocation: extract audio, in the
/// requested format and quality, to the templated path, from the canonical
/// URL.
pub open spec fn ytdlp_args_spec(
    fmt: Seq<char>,
    quality: Seq<char>,
    dir: Seq<char>,
    id: Seq<char>,
) -> Seq<Seq<char>> {
    seq![
        "-x"@,
        "--audio-format"@,
        fmt,
        "--audio-quality"@,
        quality,
        "-o"@,
        output_template_spec(dir),
        url_spec(id),
    ]
}

/// The reply a successful job sends: confirmation with the format name, the
/// canonical URL and the destination directory.
pub open spec fn success_reply_spec(fmt_upper: Seq<char>, id: Seq<char>, dir: Seq<char>) -> Seq<
    char,
> {
    "Successfully downloaded and converted the video to "@ + fmt_upper + "!\n\nYouTube: "@
        + url_spec(id) + "\n\nFile saved to: "@ + dir
}

/// The reply a failed job sends: a failure notice with the canonical URL and
/// a retry suggestion. Diagnostics are no part of it.
pub open spec fn failure_reply_spec(id: Seq<char>) -> Seq<char> {
    "Failed to download and convert the video.\n\nYouTube: "@ + url_spec(id)
        + "\n\nPlease try again later."@
}

/// The reply for an outcome.
pub open spec fn reply_spec(
    success: bool,
    fmt_upper: Seq<char>,
    id: Seq<char>,
    dir: Seq<char>,
) -> Seq<char> {
    if success {
        success_reply_spec(fmt_upper, id, dir)
    } else {
        failure_reply_spec(id)
    }
}

/// One download job: the recognized identifier, the configured output
/// parameters snapshotted at dispatch time, and the requesting sender the
/// reply goes back to (as a hex identifier).
pub struct DownloadJob {
    /// The 11-character identifier extracted from the message.
    pub video_id: String,
    /// Requested audio format.
    pub format: String,
    /// Requested audio quality parameter.
    pub quality: String,
    /// Destination directory for the downloaded file.
    pub output_dir: String,
    /// Hex public identifier of the sender the reply is addressed to.
    pub requester: String,
}

/// The canonical reference URL of an identifier.
pub fn canonical_url(id: &str) -> (r: String)
    ensures
        r@ == url_spec(id@),
{
    let mut s = String::from_str("https://youtube.com/watch?v=");
    s.append(id);
    s
}

/// The argument list handed to the external downloader for this job.
pub fn ytdlp_args(job: &DownloadJob) -> (r: Vec<String>)
    ensures
        views_of(r@) == ytdlp_args_spec(job.format@, job.quality@, job.output_dir@, job.video_id@),
{
    let mut args: Vec<String> = Vec::new();
    args.push(String::from_str("-x"));
    args.push(String::from_str("--audio-format"));
    args.push(job.format.clone());
    args.push(String::from_str("--audio-quality"));
    args.push(job.quality.clone());
    args.push(String::from_str("-o"));
    let mut template = job.output_dir.clone();
    template.append("/%(title)s.%(ext)s");
    args.push(template);
    args.push(canonical_url(job.video_id.as_str()));
    assert(views_of(args@) =~= ytdlp_args_spec(
        job.format@,
        job.quality@,
        job.output_dir@,
        job.video_id@,
    ));
    args
}

/// The reply the requesting sender receives for this job's outcome. The
/// diagnostic text captured from the downloader is taken but deliberately
/// ignored: by the contract, the reply is a function of the outcome and the
/// job alone, so diagnostics never reach the sender.
pub fn reply_for_outcome(job: &DownloadJob, success: bool, _diagnostics: &str) -> (r: String)
    ensures
        r@ == reply_spec(success, upper_of(job.format@), job.video_id@, job.output_dir@),
{
    let url = canonical_url(job.video_id.as_str());
    if success {
        let mut s = String::from_str("Successfully downloaded and converted the video to ");
        let up = to_upper(job.format.as_str());
        s.append(up.as_str());
        s.append("!\n\nYouTube: ");
        s.append(url.as_str());
        s.append("\n\nFile saved to: ");
        s.append(job.output_dir.as_str());
        assert(s@ =~= success_reply_spec(upper_of(job.format@), job.video_id@, job.output_dir@));
        s
    } else {
        let mut s = String::from_str("Failed to download and convert the video.\n\nYouTube: ");
        s.append(url.as_str());
        s.append("\n\nPlease try again later.");
        assert(s@ =~= failure_reply_spec(job.video_id@));
        s
    }
}

/// The fixed notice sent back when an authorized message holds no recognized
/// reference.
pub open spec fn invalid_notice_spec() -> Seq<char> {
    "Sorry, I couldn't find a valid YouTube URL in your message. Please send a valid YouTube link."@
}

/// The fixed "no valid reference found" notice.
pub fn invalid_reference_notice() -> (r: String)
    ensures
        r@ == invalid_notice_spec(),
{
    String::from_str(
        "Sorry, I couldn't find a valid YouTube URL in your message. Please send a valid YouTube link.",
    )
}

/// `needle` occurs in `hay` starting at position `i`.
pub open spec fn needle_at(hay: Seq<char>, needle: Seq<char>, i: int) -> bool {
    0 <= i && i + needle.len() <= hay.len() && hay.subrange(i, i + needle.len() as int) == needle
}

/// `needle` occurs somewhere in `hay`.
pub open spec fn contains_seq(hay: Seq<char>, needle: Seq<char>) -> bool {
    exists|i: int| #[trigger] needle_at(hay, needle, i)
}

/// Law: a success reply names the canonical reference URL and the format it
/// converted to.
pub proof fn lemma_success_reply_contains(fmt_upper: Seq<char>, id: Seq<char>, dir: Seq<char>)
    ensures
        contains_seq(reply_spec(true, fmt_upper, id, dir), url_spec(id)),
        contains_seq(reply_spec(true, fmt_upper, id, dir), fmt_upper),
{
    let pre = "Successfully downloaded and converted the video to "@;
    let mid = "!\n\nYouTube: "@;
    let hay = reply_spec(true, fmt_upper, id, dir);
    let j: int = pre.len() as int;
    assert(hay.subrange(j, j + fmt_upper.len() as int) =~= fmt_upper);
    assert(needle_at(hay, fmt_upper, j));
    let u: int = (pre.len() + fmt_upper.len() + mid.len()) as int;
    assert(hay.subrange(u, u + url_spec(id).len() as int) =~= url_spec(id));
    assert(needle_at(hay, url_spec(id), u));
}

/// Law: a failure reply names the canonical reference URL and suggests a
/// retry; it is built from the identifier alone, so captured diagnostics
/// cannot appear in it.
pub proof fn lemma_failure_reply_contains(fmt_upper: Seq<char>, id: Seq<char>, dir: Seq<char>)
    ensures
        contains_seq(reply_spec(false, fmt_upper, id, dir), url_spec(id)),
        contains_seq(reply_spec(false, fmt_upper, id, dir), "Please try again later."@),
{
    let pre = "Failed to download and convert the video.\n\nYouTube: "@;
    let hay = reply_spec(false, fmt_upper, id, dir);
    let j: int = pre.len() as int;
    assert(hay.subrange(j, j + url_spec(id).len() as int) =~= url_spec(id));
    assert(needle_at(hay, url_spec(id), j));
    let tail = "Please try again later."@;
    reveal_strlit("\n\nPlease try again later.");
    reveal_strlit("\n\n");
    reveal_strlit("Please try again later.");
    let u: int = (pre.len() + url_spec(id).len() + "\n\n"@.len()) as int;
    assert(hay.subrange(u, u + tail.len() as int) =~= tail);
    assert(needle_at(hay, tail, u));
}

} // verus!
