//! What the pipeline asks of the outside world: the files it names and the
//! tools it has run on them.

use crate::plan::Step;
use crate::text::{decimal, decimal_string, join};
use vstd::prelude::*;
use vstd::string::*;

verus! {

/// The file that holds the rendition of the given height.
pub open spec fn rendition_name(video_path: Seq<char>, height: u32) -> Seq<char> {
    video_path + "_"@ + decimal(height as nat) + "p.mp4"@
}

/// The file that holds the copy made for `Flash`. It carries the label
/// `720p` whatever the height of the source.
pub open spec fn flash_copy_name(video_path: Seq<char>) -> Seq<char> {
    video_path + "_720p.mp4"@
}

/// The file that holds the thumbnail.
pub open spec fn thumbnail_name(video_path: Seq<char>) -> Seq<char> {
    video_path + ".jpg"@
}

/// The scale filter for a rendition: the output is `height` pixels high and
/// as wide as the source's aspect ratio asks for, rounded to an even number.
pub open spec fn scale_expression(height: u32) -> Seq<char> {
    "scale=-2:"@ + decimal(height as nat)
}

/// Names the file that holds the rendition of the given height.
pub fn rendition_path(video_path: &str, height: u32) -> (path: String)
    ensures
        path@ == rendition_name(video_path@, height),
{
    let number = decimal_string(height);
    join(video_path, "_").concat(number.as_str()).concat("p.mp4")
}

/// Names the file that holds the copy made for `Flash`.
pub fn flash_copy_path(video_path: &str) -> (path: String)
    ensures
        path@ == flash_copy_name(video_path@),
{
    join(video_path, "_720p.mp4")
}

/// Names the file that holds the thumbnail.
pub fn thumbnail_path(video_path: &str) -> (path: String)
    ensures
        path@ == thumbnail_name(video_path@),
{
    join(video_path, ".jpg")
}

/// Writes the scale filter for a rendition of the given height.
pub fn scale_filter(height: u32) -> (filter: String)
    ensures
        filter@ == scale_expression(height),
{
    let number = decimal_string(height);
    join("scale=-2:", number.as_str())
}

/// The texts that a sequence of strings holds.
pub open spec fn texts(strings: Seq<String>) -> Seq<Seq<char>> {
    Seq::new(strings.len(), |i: int| strings[i]@)
}

/// A tool and its arguments, as mathematical values.
pub struct InvocationView {
    pub program: Seq<char>,
    pub arguments: Seq<Seq<char>>,
}

/// A tool to run and the arguments to run it with.
#[derive(Clone, Debug, PartialEq, Eq)]
pub struct Invocation {
    pub program: String,
    pub arguments: Vec<String>,
}

impl View for Invocation {
    type V = InvocationView;

    open spec fn view(&self) -> InvocationView {
        InvocationView { program: self.program@, arguments: texts(self.arguments@) }
    }
}

/// How the probing tool is run: it is to print the width and height of the
/// first video stream as `width x height` and nothing else.
pub open spec fn probe_invocation(path: Seq<char>) -> InvocationView {
    InvocationView {
        program: "ffprobe"@,
        arguments: seq![
            "-v"@,
            "error"@,
            "-select_streams"@,
            "v:0"@,
            "-show_entries"@,
            "stream=width,height"@,
            "-of"@,
            "csv=s=x:p=0"@,
            path,
        ],
    }
}

/// How the encoding tool is run for one rendition: scaled to `height`, with
/// the same codec, quality and speed for every task, overwriting `output`.
pub open spec fn encode_invocation(
    input: Seq<char>,
    output: Seq<char>,
    height: u32,
) -> InvocationView {
    InvocationView {
        program: "ffmpeg"@,
        arguments: seq![
            "-i"@,
            input,
            "-vf"@,
            scale_expression(height),
            "-vcodec"@,
            "libx264"@,
            "-crf"@,
            "28"@,
            "-preset"@,
            "faster"@,
            "-y"@,
            output,
        ],
    }
}

/// How the encoding tool is run for the thumbnail: one frame, taken one
/// second into the source, overwriting `output`.
pub open spec fn snapshot_invocation(input: Seq<char>, output: Seq<char>) -> InvocationView {
    InvocationView {
        program: "ffmpeg"@,
        arguments: seq![
            "-i"@,
            input,
            "-ss"@,
            "00:00:01"@,
            "-vframes"@,
            "1"@,
            "-q:v"@,
            "2"@,
            "-y"@,
            output,
        ],
    }
}

/// The command line that probes `path`.
pub fn probe_command(path: &str) -> (command: Invocation)
    ensures
        command@ == probe_invocation(path@),
{
    let mut arguments: Vec<String> = Vec::new();
    arguments.push(String::from_str("-v"));
    arguments.push(String::from_str("error"));
    arguments.push(String::from_str("-select_streams"));
    arguments.push(String::from_str("v:0"));
    arguments.push(String::from_str("-show_entries"));
    arguments.push(String::from_str("stream=width,height"));
    arguments.push(String::from_str("-of"));
    arguments.push(String::from_str("csv=s=x:p=0"));
    arguments.push(String::from_str(path));
    assert(texts(arguments@) =~= probe_invocation(path@).arguments);
    Invocation { program: String::from_str("ffprobe"), arguments }
}

/// The command line that encodes `input` into `output` at the given height.
pub fn encode_command(input: &str, output: &str, height: u32) -> (command: Invocation)
    ensures
        command@ == encode_invocation(input@, output@, height),
{
    let mut arguments: Vec<String> = Vec::new();
    arguments.push(String::from_str("-i"));
    arguments.push(String::from_str(input));
    arguments.push(String::from_str("-vf"));
    arguments.push(scale_filter(height));
    arguments.push(String::from_str("-vcodec"));
    arguments.push(String::from_str("libx264"));
    arguments.push(String::from_str("-crf"));
    arguments.push(String::from_str("28"));
    arguments.push(String::from_str("-preset"));
    arguments.push(String::from_str("faster"));
    arguments.push(String::from_str("-y"));
    arguments.push(String::from_str(output));
    assert(texts(arguments@) =~= encode_invocation(input@, output@, height).arguments);
    Invocation { program: String::from_str("ffmpeg"), arguments }
}

/// The command line that takes the thumbnail of `input` into `output`.
pub fn snapshot_command(input: &str, output: &str) -> (command: Invocation)
    ensures
        command@ == snapshot_invocation(input@, output@),
{
    let mut arguments: Vec<String> = Vec::new();
    arguments.push(String::from_str("-i"));
    arguments.push(String::from_str(input));
    arguments.push(String::from_str("-ss"));
    arguments.push(String::from_str("00:00:01"));
    arguments.push(String::from_str("-vframes"));
    arguments.push(String::from_str("1"));
    arguments.push(String::from_str("-q:v"));
    arguments.push(String::from_str("2"));
    arguments.push(String::from_str("-y"));
    arguments.push(String::from_str(output));
    assert(texts(arguments@) =~= snapshot_invocation(input@, output@).arguments);
    Invocation { program: String::from_str("ffmpeg"), arguments }
}

/// How an action went, as mathematical values.
pub struct ToolOutcomeView {
    pub success: bool,
    pub output: Seq<char>,
    pub detail: Seq<char>,
}

/// How an action went: whether it succeeded, what the tool printed, and
/// what it or the system said went wrong.
#[derive(Clone, Debug, PartialEq, Eq)]
pub struct ToolOutcome {
    pub success: bool,
    pub output: String,
    pub detail: String,
}

impl View for ToolOutcome {
    type V = ToolOutcomeView;

    open spec fn view(&self) -> ToolOutcomeView {
        ToolOutcomeView { success: self.success, output: self.output@, detail: self.detail@ }
    }
}

impl ToolOutcome {
    /// The outcome of an action that succeeded and printed `output`.
    pub fn succeeded(output: String) -> (outcome: ToolOutcome)
        ensures
            outcome@ == (ToolOutcomeView { success: true, output: output@, detail: Seq::empty() }),
    {
        ToolOutcome { success: true, output, detail: String::new() }
    }

    /// The outcome of an action that failed for the reason in `detail`.
    pub fn failed(detail: String) -> (outcome: ToolOutcome)
        ensures
            outcome@ == (ToolOutcomeView { success: false, output: Seq::empty(), detail: detail@ }),
    {
        ToolOutcome { success: false, output: String::new(), detail }
    }
}

/// What the coordinator asks its caller to do next, as mathematical values.
pub enum ActionView {
    Probe { path: Seq<char> },
    Encode { input: Seq<char>, output: Seq<char>, height: u32 },
    Copy { from: Seq<char>, to: Seq<char> },
    Snapshot { input: Seq<char>, output: Seq<char> },
    Done,
}

impl ActionView {
    /// The command line that carries the action out, for the actions that
    /// are carried out by a tool.
    pub open spec fn invocation(self) -> Option<InvocationView> {
        match self {
            ActionView::Probe { path } => Some(probe_invocation(path)),
            ActionView::Encode { input, output, height } => Some(
                encode_invocation(input, output, height),
            ),
            ActionView::Snapshot { input, output } => Some(snapshot_invocation(input, output)),
            ActionView::Copy { .. } => None,
            ActionView::Done => None,
        }
    }

    /// The file that the action writes, if it writes one.
    pub open spec fn output(self) -> Option<Seq<char>> {
        match self {
            ActionView::Encode { output, .. } => Some(output),
            ActionView::Copy { to, .. } => Some(to),
            ActionView::Snapshot { output, .. } => Some(output),
            ActionView::Probe { .. } => None,
            ActionView::Done => None,
        }
    }
}

/// What the coordinator asks its caller to do next.
#[derive(Clone, Debug, PartialEq, Eq)]
pub enum Action {
    /// Run the probing tool on `path` and report what it printed.
    Probe { path: String },
    /// Run the encoding tool to write the rendition of `height` to `output`.
    Encode { input: String, output: String, height: u32 },
    /// Copy the file `from` to `to`.
    Copy { from: String, to: String },
    /// Run the encoding tool to write the thumbnail to `output`.
    Snapshot { input: String, output: String },
    /// Nothing: the task has ended.
    Done,
}

impl View for Action {
    type V = ActionView;

    open spec fn view(&self) -> ActionView {
        match self {
            Action::Probe { path } => ActionView::Probe { path: path@ },
            Action::Encode { input, output, height } => ActionView::Encode {
                input: input@,
                output: output@,
                height: *height,
            },
            Action::Copy { from, to } => ActionView::Copy { from: from@, to: to@ },
            Action::Snapshot { input, output } => ActionView::Snapshot {
                input: input@,
                output: output@,
            },
            Action::Done => ActionView::Done,
        }
    }
}

impl Action {
    /// The command line that carries the action out. A copy is not the work
    /// of a tool and `Done` is no work at all: for them the result is `None`.
    pub fn invocation(&self) -> (command: Option<Invocation>)
        ensures
            match command {
                Some(c) => self@.invocation() == Some(c@),
                None => self@.invocation() is None,
            },
    {
        match self {
            Action::Probe { path } => Some(probe_command(path.as_str())),
            Action::Encode { input, output, height } => Some(
                encode_command(input.as_str(), output.as_str(), *height),
            ),
            Action::Snapshot { input, output } => Some(
                snapshot_command(input.as_str(), output.as_str()),
            ),
            Action::Copy { .. } => None,
            Action::Done => None,
        }
    }
}

/// The action that carries out `step` on the source at `video_path`.
pub open spec fn step_action(video_path: Seq<char>, step: Step) -> ActionView {
    match step {
        Step::Encode(height) => ActionView::Encode {
            input: video_path,
            output: rendition_name(video_path, height),
            height,
        },
        Step::Copy => ActionView::Copy { from: video_path, to: flash_copy_name(video_path) },
        Step::Thumbnail => ActionView::Snapshot {
            input: video_path,
            output: thumbnail_name(video_path),
        },
    }
}

/// Builds the action that carries out `step` on the source at `video_path`.
pub fn action_for(video_path: &str, step: Step) -> (action: Action)
    ensures
        action@ == step_action(video_path@, step),
{
    match step {
        Step::Encode(height) => Action::Encode {
            input: String::from_str(video_path),
            output: rendition_path(video_path, height),
            height,
        },
        Step::Copy => Action::Copy {
            from: String::from_str(video_path),
            to: flash_copy_path(video_path),
        },
        Step::Thumbnail => Action::Snapshot {
            input: String::from_str(video_path),
            output: thumbnail_path(video_path),
        },
    }
}

} // verus!
