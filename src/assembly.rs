//! The segmented slideshow: one still-image segment per slide, each shown for
//! its own duration, then one stream-copy concatenation of all segments.
//!
//! The assembly is a state machine. Its caller performs the action it asks
//! for (create a directory, check that an image exists, run the encoder,
//! write a file) and reports the outcome, until the assembly is done or
//! has failed. Segments already produced are left in place on failure.
use vstd::prelude::*;

use crate::command::{build_concat_args, build_segment_args, concat_args, segment_args, texts, FfmpegArgs};
use crate::text::{zero_padded, zero_padded_text};

verus! {

/// The directory that holds a path, as `std::path::Path::parent` gives it;
/// `None` for a root, a bare prefix, or the empty path. It depends on the
/// path alone (the separators are fixed when the library is built).
pub uninterp spec fn path_parent(path: Seq<char>) -> Option<Seq<char>>;

/// `name` placed inside `dir`, as `std::path::Path::join` gives it. It
/// depends on the two texts alone (the separator is fixed when the library
/// is built).
pub uninterp spec fn path_joined(dir: Seq<char>, name: Seq<char>) -> Seq<char>;

/// Relies on `std::path::Path::parent`: the directory that holds `path`;
/// `None` for a root, a bare prefix, or the empty path.
#[verifier::external_body]
fn parent_dir(path: &str) -> (r: Option<String>)
    ensures
        r is None <==> path_parent(path@) is None,
        r matches Some(p) ==> p@ == path_parent(path@)->0,
        path@.len() == 0 ==> r is None,
{
    match std::path::Path::new(path).parent() {
        Some(p) => Some(p.to_string_lossy().to_string()),
        None => None,
    }
}

/// Relies on `std::path::Path::join`: `name` placed inside `dir`, with the
/// platform's separator.
#[verifier::external_body]
fn join_path(dir: &str, name: &str) -> (r: String)
    ensures
        r@ == path_joined(dir@, name@),
{
    std::path::Path::new(dir).join(name).to_string_lossy().to_string()
}

/// The file name of the image of slide `index`: five digits, then `.png`.
pub open spec fn slide_image_name(index: nat) -> Seq<char> {
    zero_padded(index, 5) + ".png"@
}

/// The file name of the segment of slide `index`.
pub open spec fn segment_name(index: nat) -> Seq<char> {
    "seg_"@ + zero_padded(index, 5) + ".mp4"@
}

/// Names the image of slide `index`, as in `00007.png`.
pub fn slide_image_file_name(index: u64) -> (r: String)
    ensures
        r@ == slide_image_name(index as nat),
{
    zero_padded_text(index, 5).concat(".png")
}

/// Names the segment of slide `index`, as in `seg_00007.mp4`.
pub fn segment_file_name(index: u64) -> (r: String)
    ensures
        r@ == segment_name(index as nat),
{
    let digits = zero_padded_text(index, 5);
    String::from_str("seg_").concat(digits.as_str()).concat(".mp4")
}

/// The path of the image of slide `index` in `dir`, as in `dir/00007.png`.
pub fn slide_image_path(dir: &str, index: u64) -> (r: String)
    ensures
        r@ == path_joined(dir@, slide_image_name(index as nat)),
{
    let name = slide_image_file_name(index);
    join_path(dir, name.as_str())
}

/// The manifest line of one segment.
pub open spec fn manifest_line(path: Seq<char>) -> Seq<char> {
    "file '"@ + path + "'\n"@
}

/// The concat manifest: one line per segment, in index order.
pub open spec fn manifest_text(paths: Seq<Seq<char>>) -> Seq<char>
    decreases paths.len(),
{
    if paths.len() == 0 {
        Seq::empty()
    } else {
        manifest_text(paths.drop_last()) + manifest_line(paths.last())
    }
}

/// Writes the concat manifest of `paths`.
pub fn build_manifest(paths: &Vec<String>) -> (r: String)
    ensures
        r@ == manifest_text(texts(paths@)),
{
    let mut text = String::new();
    let mut i: usize = 0;
    while i < paths.len()
        invariant
            0 <= i <= paths@.len(),
            text@ == manifest_text(texts(paths@.subrange(0, i as int))),
        decreases paths@.len() - i,
    {
        text.append("file '");
        text.append(paths[i].as_str());
        text.append("'\n");
        proof {
            let next = texts(paths@.subrange(0, i + 1));
            assert(next.drop_last() =~= texts(paths@.subrange(0, i as int)));
        }
        i = i + 1;
    }
    assert(paths@.subrange(0, paths@.len() as int) =~= paths@);
    text
}

/// Why an assembly failed.
#[derive(Debug, Clone, PartialEq, Eq)]
pub enum AssemblyError {
    /// The output path has no parent directory to hold the segments.
    InvalidOutputPath,
    /// The image of slide `index` is not at `path`.
    MissingSlideImage { index: usize, path: String },
    /// The encoder failed on the segment of slide `index`.
    SegmentEncodeFailed { index: usize, status: String },
    /// The encoder failed to concatenate the segments.
    ConcatenationFailed(String),
    /// The encoder could not be started.
    ProcessInvocationFailed(String),
    /// A directory or file could not be created or written.
    Io(String),
}

/// Where an assembly stands.
#[derive(Debug, Clone, PartialEq, Eq)]
pub enum AssemblyStage {
    /// The segments directory is to be created.
    Preparing,
    /// The image of the slide is to be checked.
    Checking(usize),
    /// The segment of the slide is to be encoded.
    Encoding(usize),
    /// The manifest is to be written.
    WritingManifest,
    /// The segments are to be concatenated.
    Concatenating,
    Finished,
    Failed(AssemblyError),
}

/// The outcome of the action last asked for.
#[derive(Debug, Clone, PartialEq, Eq)]
pub enum AssemblyEvent {
    /// The directory or file was written, the image exists, or the encoder
    /// exited successfully.
    Succeeded,
    /// The image does not exist, or the encoder exited unsuccessfully with
    /// this status.
    Refused(String),
    /// The action could not be carried out (the encoder did not start, or
    /// the file system refused), for this cause.
    Unavailable(String),
}

/// What the caller is to do next.
#[derive(Debug, Clone)]
pub enum AssemblyAction {
    CreateDir(String),
    CheckImage(String),
    RunEncoder(FfmpegArgs),
    WriteFile { path: String, text: String },
    Done,
    Fail(AssemblyError),
}

/// A slideshow being assembled: where each image is read, where each
/// segment is written, and how far the work has come.
pub struct SlideshowAssembly {
    /// Where the slide images are read.
    pub frames_dir: String,
    /// How long each slide is shown, in milliseconds.
    pub durations: Vec<u64>,
    pub image_paths: Vec<String>,
    pub segment_paths: Vec<String>,
    /// Sibling of the output, named `segments`.
    pub segments_dir: String,
    /// `concat.txt` inside the segments directory.
    pub manifest_path: String,
    pub output_path: String,
    pub stage: AssemblyStage,
}

impl SlideshowAssembly {
    pub open spec fn wf(&self) -> bool {
        &&& self.durations@.len() <= usize::MAX
        &&& self.image_paths@.len() == self.durations@.len()
        &&& self.segment_paths@.len() == self.durations@.len()
        &&& (self.stage matches AssemblyStage::Checking(i) ==> i < self.durations@.len())
        &&& (self.stage matches AssemblyStage::Encoding(i) ==> i < self.durations@.len())
    }

    /// The paths are laid out from the frames directory and the output path:
    /// image `i` is `frames_dir/{i:05}.png`, the segments directory is
    /// `segments` beside the output, segment `i` is `seg_{i:05}.mp4` in it,
    /// and the manifest is `concat.txt` in it.
    pub open spec fn laid_out(&self) -> bool {
        &&& path_parent(self.output_path@) is Some
        &&& self.segments_dir@ == path_joined(path_parent(self.output_path@)->0, "segments"@)
        &&& forall|i: int|
            0 <= i < self.image_paths@.len() ==> (#[trigger] self.image_paths@[i])@ == path_joined(
                self.frames_dir@,
                slide_image_name(i as nat),
            )
        &&& forall|i: int|
            0 <= i < self.segment_paths@.len() ==> (#[trigger] self.segment_paths@[i])@
                == path_joined(self.segments_dir@, segment_name(i as nat))
        &&& self.manifest_path@ == path_joined(self.segments_dir@, "concat.txt"@)
    }

    /// The stage that follows the current one on `ev`. Any failure ends the
    /// assembly at once; a missing image stops it before that slide is
    /// encoded; the manifest and the concatenation come only after every
    /// segment.
    pub open spec fn next_stage(&self, ev: AssemblyEvent) -> AssemblyStage {
        let n = self.durations@.len();
        match self.stage {
            AssemblyStage::Preparing => match ev {
                AssemblyEvent::Succeeded => if n == 0 {
                    AssemblyStage::WritingManifest
                } else {
                    AssemblyStage::Checking(0)
                },
                AssemblyEvent::Refused(s) => AssemblyStage::Failed(AssemblyError::Io(s)),
                AssemblyEvent::Unavailable(s) => AssemblyStage::Failed(AssemblyError::Io(s)),
            },
            AssemblyStage::Checking(i) => match ev {
                AssemblyEvent::Succeeded => AssemblyStage::Encoding(i),
                AssemblyEvent::Refused(_) => AssemblyStage::Failed(
                    AssemblyError::MissingSlideImage { index: i, path: self.image_paths@[i as int] },
                ),
                AssemblyEvent::Unavailable(s) => AssemblyStage::Failed(AssemblyError::Io(s)),
            },
            AssemblyStage::Encoding(i) => match ev {
                AssemblyEvent::Succeeded => if i + 1 < n {
                    AssemblyStage::Checking((i + 1) as usize)
                } else {
                    AssemblyStage::WritingManifest
                },
                AssemblyEvent::Refused(s) => AssemblyStage::Failed(
                    AssemblyError::SegmentEncodeFailed { index: i, status: s },
                ),
                AssemblyEvent::Unavailable(s) => AssemblyStage::Failed(
                    AssemblyError::ProcessInvocationFailed(s),
                ),
            },
            AssemblyStage::WritingManifest => match ev {
                AssemblyEvent::Succeeded => AssemblyStage::Concatenating,
                AssemblyEvent::Refused(s) => AssemblyStage::Failed(AssemblyError::Io(s)),
                AssemblyEvent::Unavailable(s) => AssemblyStage::Failed(AssemblyError::Io(s)),
            },
            AssemblyStage::Concatenating => match ev {
                AssemblyEvent::Succeeded => AssemblyStage::Finished,
                AssemblyEvent::Refused(s) => AssemblyStage::Failed(
                    AssemblyError::ConcatenationFailed(s),
                ),
                AssemblyEvent::Unavailable(s) => AssemblyStage::Failed(
                    AssemblyError::ProcessInvocationFailed(s),
                ),
            },
            AssemblyStage::Finished => AssemblyStage::Finished,
            AssemblyStage::Failed(e) => AssemblyStage::Failed(e),
        }
    }

    /// The action that the current stage asks for.
    pub open spec fn asks_for(&self, r: AssemblyAction) -> bool {
        match self.stage {
            AssemblyStage::Preparing => r == AssemblyAction::CreateDir(self.segments_dir),
            AssemblyStage::Checking(i) => r == AssemblyAction::CheckImage(self.image_paths@[i as int]),
            AssemblyStage::Encoding(i) => match r {
                AssemblyAction::RunEncoder(a) => a@ == segment_args(
                    self.image_paths@[i as int]@,
                    self.durations@[i as int] as nat,
                    self.segment_paths@[i as int]@,
                ),
                _ => false,
            },
            AssemblyStage::WritingManifest => match r {
                AssemblyAction::WriteFile { path, text } => path == self.manifest_path
                    && text@ == manifest_text(texts(self.segment_paths@)),
                _ => false,
            },
            AssemblyStage::Concatenating => match r {
                AssemblyAction::RunEncoder(a) => a@ == concat_args(self.manifest_path@, self.output_path@),
                _ => false,
            },
            AssemblyStage::Finished => r == AssemblyAction::Done,
            AssemblyStage::Failed(e) => r == AssemblyAction::Fail(e),
        }
    }
}

impl SlideshowAssembly {
    /// Plans the assembly of the images of `frames_dir`, one per duration,
    /// into `output_path`, with the segments in a `segments` directory beside
    /// the output. Fails only when the output path has no parent directory.
    pub fn new(frames_dir: &str, durations: Vec<u64>, output_path: &str) -> (r: Result<Self, AssemblyError>)
        ensures
            r is Ok <==> path_parent(output_path@) is Some,
            output_path@.len() == 0 ==> r is Err,
            r is Err ==> r == Err::<Self, AssemblyError>(AssemblyError::InvalidOutputPath),
            r is Ok ==> {
                let a = r->Ok_0;
                &&& a.wf()
                &&& a.laid_out()
                &&& a.stage == AssemblyStage::Preparing
                &&& a.frames_dir@ == frames_dir@
                &&& a.durations@ == durations@
                &&& a.output_path@ == output_path@
            },
    {
        let parent = match parent_dir(output_path) {
            Some(p) => p,
            None => {
                return Err(AssemblyError::InvalidOutputPath);
            },
        };
        let segments_dir = join_path(parent.as_str(), "segments");
        let mut image_paths: Vec<String> = Vec::new();
        let mut segment_paths: Vec<String> = Vec::new();
        let mut i: usize = 0;
        while i < durations.len()
            invariant
                0 <= i <= durations@.len(),
                image_paths@.len() == i,
                segment_paths@.len() == i,
                forall|j: int|
                    0 <= j < i ==> (#[trigger] image_paths@[j])@ == path_joined(
                        frames_dir@,
                        slide_image_name(j as nat),
                    ),
                forall|j: int|
                    0 <= j < i ==> (#[trigger] segment_paths@[j])@ == path_joined(
                        segments_dir@,
                        segment_name(j as nat),
                    ),
            decreases durations@.len() - i,
        {
            image_paths.push(slide_image_path(frames_dir, i as u64));
            let segment = segment_file_name(i as u64);
            segment_paths.push(join_path(segments_dir.as_str(), segment.as_str()));
            i = i + 1;
        }
        assert(durations@.len() <= usize::MAX);
        let manifest_path = join_path(segments_dir.as_str(), "concat.txt");
        Ok(SlideshowAssembly {
            frames_dir: String::from_str(frames_dir),
            durations,
            image_paths,
            segment_paths,
            segments_dir,
            manifest_path,
            output_path: String::from_str(output_path),
            stage: AssemblyStage::Preparing,
        })
    }

    /// The action that the current stage asks for.
    pub fn action(&self) -> (r: AssemblyAction)
        requires
            self.wf(),
        ensures
            self.asks_for(r),
    {
        match &self.stage {
            AssemblyStage::Preparing => AssemblyAction::CreateDir(self.segments_dir.clone()),
            AssemblyStage::Checking(i) => AssemblyAction::CheckImage(self.image_paths[*i].clone()),
            AssemblyStage::Encoding(i) => AssemblyAction::RunEncoder(
                build_segment_args(
                    self.image_paths[*i].as_str(),
                    self.durations[*i],
                    self.segment_paths[*i].as_str(),
                ),
            ),
            AssemblyStage::WritingManifest => AssemblyAction::WriteFile {
                path: self.manifest_path.clone(),
                text: build_manifest(&self.segment_paths),
            },
            AssemblyStage::Concatenating => AssemblyAction::RunEncoder(
                build_concat_args(self.manifest_path.as_str(), self.output_path.as_str()),
            ),
            AssemblyStage::Finished => AssemblyAction::Done,
            AssemblyStage::Failed(e) => AssemblyAction::Fail(copy_error(e)),
        }
    }

    /// Moves on according to the outcome of the action last asked for.
    pub fn advance(&mut self, ev: AssemblyEvent)
        requires
            old(self).wf(),
        ensures
            final(self).wf(),
            final(self).stage == old(self).next_stage(ev),
            final(self).frames_dir == old(self).frames_dir,
            final(self).durations == old(self).durations,
            final(self).image_paths == old(self).image_paths,
            final(self).segment_paths == old(self).segment_paths,
            final(self).segments_dir == old(self).segments_dir,
            final(self).manifest_path == old(self).manifest_path,
            final(self).output_path == old(self).output_path,
    {
        let n = self.durations.len();
        let next = match &self.stage {
            AssemblyStage::Preparing => match ev {
                AssemblyEvent::Succeeded => if n == 0 {
                    AssemblyStage::WritingManifest
                } else {
                    AssemblyStage::Checking(0)
                },
                AssemblyEvent::Refused(s) => AssemblyStage::Failed(AssemblyError::Io(s)),
                AssemblyEvent::Unavailable(s) => AssemblyStage::Failed(AssemblyError::Io(s)),
            },
            AssemblyStage::Checking(i) => match ev {
                AssemblyEvent::Succeeded => AssemblyStage::Encoding(*i),
                AssemblyEvent::Refused(_) => AssemblyStage::Failed(
                    AssemblyError::MissingSlideImage { index: *i, path: self.image_paths[*i].clone() },
                ),
                AssemblyEvent::Unavailable(s) => AssemblyStage::Failed(AssemblyError::Io(s)),
            },
            AssemblyStage::Encoding(i) => match ev {
                AssemblyEvent::Succeeded => if *i + 1 < n {
                    AssemblyStage::Checking(*i + 1)
                } else {
                    AssemblyStage::WritingManifest
                },
                AssemblyEvent::Refused(s) => AssemblyStage::Failed(
                    AssemblyError::SegmentEncodeFailed { index: *i, status: s },
                ),
                AssemblyEvent::Unavailable(s) => AssemblyStage::Failed(
                    AssemblyError::ProcessInvocationFailed(s),
                ),
            },
            AssemblyStage::WritingManifest => match ev {
                AssemblyEvent::Succeeded => AssemblyStage::Concatenating,
                AssemblyEvent::Refused(s) => AssemblyStage::Failed(AssemblyError::Io(s)),
                AssemblyEvent::Unavailable(s) => AssemblyStage::Failed(AssemblyError::Io(s)),
            },
            AssemblyStage::Concatenating => match ev {
                AssemblyEvent::Succeeded => AssemblyStage::Finished,
                AssemblyEvent::Refused(s) => AssemblyStage::Failed(
                    AssemblyError::ConcatenationFailed(s),
                ),
                AssemblyEvent::Unavailable(s) => AssemblyStage::Failed(
                    AssemblyError::ProcessInvocationFailed(s),
                ),
            },
            AssemblyStage::Finished => AssemblyStage::Finished,
            AssemblyStage::Failed(e) => AssemblyStage::Failed(copy_error(e)),
        };
        self.stage = next;
    }
}

/// The stage an assembly of `n` slides reaches after `k` successful actions:
/// create the directory; check and encode slide 0, then slide 1, and so on;
/// write the manifest; concatenate; done.
pub open spec fn stage_after_successes(n: nat, k: nat) -> AssemblyStage {
    if k == 0 {
        AssemblyStage::Preparing
    } else if k <= 2 * n {
        if k % 2 == 1 {
            AssemblyStage::Checking(((k - 1) / 2) as usize)
        } else {
            AssemblyStage::Encoding(((k - 2) / 2) as usize)
        }
    } else if k == 2 * n + 1 {
        AssemblyStage::WritingManifest
    } else if k == 2 * n + 2 {
        AssemblyStage::Concatenating
    } else {
        AssemblyStage::Finished
    }
}

/// When every action succeeds, the assembly goes through the stages in the
/// order of `stage_after_successes`: each slide is checked, then encoded,
/// in index order, and the manifest and the concatenation follow the last
/// segment, once.
pub proof fn law_successful_order(a: SlideshowAssembly, k: nat)
    requires
        a.wf(),
        a.stage == stage_after_successes(a.durations@.len(), k),
    ensures
        a.next_stage(AssemblyEvent::Succeeded) == stage_after_successes(a.durations@.len(), k + 1),
{
    let n = a.durations@.len();
    if 0 < k <= 2 * n {
        if k % 2 == 1 {
            let c = (k - 1) / 2;
            assert(c < n);
            assert(a.stage == AssemblyStage::Checking(c as usize));
            assert(k + 1 <= 2 * n);
            assert((k + 1) % 2 == 0);
            assert((k + 1 - 2) / 2 == c);
        } else {
            let e = (k - 2) / 2;
            assert(e < n);
            assert(a.stage == AssemblyStage::Encoding(e as usize));
            if e + 1 < n {
                assert(k + 1 <= 2 * n);
                assert((k + 1) % 2 == 1);
                assert((k + 1 - 1) / 2 == e + 1);
                assert(stage_after_successes(n, k + 1) == AssemblyStage::Checking((e + 1) as usize));
                assert(a.next_stage(AssemblyEvent::Succeeded) == AssemblyStage::Checking((e + 1) as usize));
            } else {
                assert(k == 2 * n);
                assert(stage_after_successes(n, k + 1) == AssemblyStage::WritingManifest);
                assert(a.next_stage(AssemblyEvent::Succeeded) == AssemblyStage::WritingManifest);
            }
        }
    }
}

/// A missing slide image ends the assembly before that slide is encoded,
/// naming the slide and the path where its image was looked for.
pub proof fn law_missing_image_stops(a: SlideshowAssembly, i: usize, status: String)
    requires
        a.wf(),
        a.stage == AssemblyStage::Checking(i),
    ensures
        a.next_stage(AssemblyEvent::Refused(status)) == AssemblyStage::Failed(
            AssemblyError::MissingSlideImage { index: i, path: a.image_paths@[i as int] },
        ),
{
}

/// A failed assembly stays failed whatever is reported, and asks for nothing
/// but to report its error: no later segment and no concatenation is
/// attempted.
pub proof fn law_failure_is_final(a: SlideshowAssembly, e: AssemblyError, ev: AssemblyEvent, r: AssemblyAction)
    requires
        a.stage == AssemblyStage::Failed(e),
    ensures
        a.next_stage(ev) == a.stage,
        a.asks_for(r) <==> r == AssemblyAction::Fail(e),
{
}

/// The segment paths of `n` slides in a segments directory, in index order.
pub open spec fn planned_segments(dir: Seq<char>, n: nat) -> Seq<Seq<char>> {
    Seq::new(n, |i: int| path_joined(dir, segment_name(i as nat)))
}

/// In a laid-out assembly every action names the planned paths: slide `k` is
/// checked at `frames_dir/{k:05}.png` and reported missing with that path;
/// its segment reads that image for its duration and writes
/// `segments/seg_{k:05}.mp4`; the manifest `segments/concat.txt` lists every
/// segment in index order; the concatenation reads that manifest and copies
/// into the output path.
pub proof fn law_actions_use_planned_paths(a: SlideshowAssembly, r: AssemblyAction, status: String)
    requires
        a.wf(),
        a.laid_out(),
        a.asks_for(r),
    ensures
        a.stage matches AssemblyStage::Checking(k) ==> {
            &&& r matches AssemblyAction::CheckImage(p) && p@ == path_joined(
                a.frames_dir@,
                slide_image_name(k as nat),
            )
            &&& a.next_stage(AssemblyEvent::Refused(status)) matches AssemblyStage::Failed(
                AssemblyError::MissingSlideImage { index, path },
            ) && index == k && path@ == path_joined(a.frames_dir@, slide_image_name(k as nat))
        },
        a.stage matches AssemblyStage::Encoding(k) ==> (r matches AssemblyAction::RunEncoder(args)
            && args@ == segment_args(
            path_joined(a.frames_dir@, slide_image_name(k as nat)),
            a.durations@[k as int] as nat,
            path_joined(a.segments_dir@, segment_name(k as nat)),
        )),
        a.stage == AssemblyStage::WritingManifest ==> (r matches AssemblyAction::WriteFile {
            path,
            text,
        } && path@ == path_joined(a.segments_dir@, "concat.txt"@) && text@ == manifest_text(
            planned_segments(a.segments_dir@, a.durations@.len()),
        )),
        a.stage == AssemblyStage::Concatenating ==> (r matches AssemblyAction::RunEncoder(args)
            && args@ == concat_args(path_joined(a.segments_dir@, "concat.txt"@), a.output_path@)),
{
    if a.stage == AssemblyStage::WritingManifest {
        assert(texts(a.segment_paths@) =~= planned_segments(a.segments_dir@, a.durations@.len()));
    }
}

fn copy_error(e: &AssemblyError) -> (r: AssemblyError)
    ensures
        r == *e,
{
    match e {
        AssemblyError::InvalidOutputPath => AssemblyError::InvalidOutputPath,
        AssemblyError::MissingSlideImage { index, path } => AssemblyError::MissingSlideImage {
            index: *index,
            path: path.clone(),
        },
        AssemblyError::SegmentEncodeFailed { index, status } => AssemblyError::SegmentEncodeFailed {
            index: *index,
            status: status.clone(),
        },
        AssemblyError::ConcatenationFailed(s) => AssemblyError::ConcatenationFailed(s.clone()),
        AssemblyError::ProcessInvocationFailed(s) => AssemblyError::ProcessInvocationFailed(s.clone()),
        AssemblyError::Io(s) => AssemblyError::Io(s.clone()),
    }
}

} // verus!
