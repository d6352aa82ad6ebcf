use vstd::prelude::*;

use crate::action::Action;
use crate::text::join;

verus! {

/// The external operations that can be launched on a selection.
#[derive(Debug, Clone, Copy, PartialEq, Eq, Structural)]
pub enum OperationKind {
    /// Fetch a playlist into a new folder.
    Download,
    /// Bring an existing playlist folder up to date.
    Sync,
    /// Pack a playlist folder into an archive, removing the folder.
    Zip,
    /// Unpack an archive, removing the archive.
    Unzip,
}

/// A command to run: the program, its arguments and its working directory.
#[derive(Debug, Clone)]
pub struct CommandPlan {
    pub program: String,
    pub args: Vec<String>,
    pub dir: String,
}

/// An external operation: the command whose output is streamed, and a
/// command to run once that output has ended.
#[derive(Debug, Clone)]
pub struct Operation {
    pub kind: OperationKind,
    pub command: CommandPlan,
    pub cleanup: Option<CommandPlan>,
}

/// The contents of a list of strings.
pub open spec fn texts(v: Seq<String>) -> Seq<Seq<char>> {
    v.map_values(|s: String| s@)
}

/// `op` fetches the playlist at `url` into the folder `target`.
pub open spec fn is_download_op(op: Operation, url: Seq<char>, target: Seq<char>) -> bool {
    &&& op.kind == OperationKind::Download
    &&& op.command.program@ == "spotdl"@
    &&& texts(op.command.args@) == seq!["sync"@, url, "--save-file"@, "save.spotdl"@, "--simple-tui"@]
    &&& op.command.dir@ == target
    &&& op.cleanup is None
}

/// `op` brings the playlist folder `target` up to date.
pub open spec fn is_sync_op(op: Operation, target: Seq<char>) -> bool {
    &&& op.kind == OperationKind::Sync
    &&& op.command.program@ == "spotdl"@
    &&& texts(op.command.args@) == seq!["sync"@, "save.spotdl"@]
    &&& op.command.dir@ == target
    &&& op.cleanup is None
}

/// `op` packs the folder `name` of `dir` into `name.zip`, removing the folder.
pub open spec fn is_zip_op(op: Operation, dir: Seq<char>, name: Seq<char>) -> bool {
    &&& op.kind == OperationKind::Zip
    &&& op.command.program@ == "zip"@
    &&& texts(op.command.args@) == seq!["-rm"@, name + ".zip"@, name]
    &&& op.command.dir@ == dir
    &&& op.cleanup is None
}

/// `op` unpacks the archive `name` of `dir`, then removes the archive.
pub open spec fn is_unzip_op(op: Operation, dir: Seq<char>, name: Seq<char>) -> bool {
    &&& op.kind == OperationKind::Unzip
    &&& op.command.program@ == "unzip"@
    &&& texts(op.command.args@) == seq![name]
    &&& op.command.dir@ == dir
    &&& op.cleanup matches Some(c) && c.program@ == "rm"@ && texts(c.args@) == seq![name]
        && c.dir@ == dir
}

/// The line shown when an operation starts.
pub open spec fn start_message(kind: OperationKind) -> Seq<char> {
    match kind {
        OperationKind::Download => "Download started..."@,
        OperationKind::Sync => "Syncing playlist..."@,
        OperationKind::Zip => "Zipping playlist"@,
        OperationKind::Unzip => "Unzipping playlist"@,
    }
}

/// The line shown when an operation's output has ended.
pub open spec fn finish_message(kind: OperationKind) -> Seq<char> {
    match kind {
        OperationKind::Download => "Download finished!"@,
        OperationKind::Sync => "Syncing finished!"@,
        OperationKind::Zip => "Zipping finished! Press Enter to go back to the menu"@,
        OperationKind::Unzip => "Unzipping finished! Press Enter to go back to the menu"@,
    }
}

/// What precedes the reason when an operation cannot be started.
pub open spec fn failure_prefix(kind: OperationKind) -> Seq<char> {
    match kind {
        OperationKind::Download => "Error downloading playlist: "@,
        OperationKind::Sync => "Error downloading playlist: "@,
        OperationKind::Zip => "Failed to zip playlist: "@,
        OperationKind::Unzip => "Failed to unzip playlist: "@,
    }
}

/// `a` is an output line holding `text`.
pub open spec fn is_output(a: Action, text: Seq<char>) -> bool {
    match a {
        Action::Downloading(s) => s@ == text,
        _ => false,
    }
}

/// The text of a string literal, as an owned string.
fn owned(s: &str) -> (r: String)
    ensures
        r@ == s@,
{
    s.to_owned()
}

/// The line shown when an operation of `kind` starts.
pub fn start_line(kind: OperationKind) -> (r: String)
    ensures
        r@ == start_message(kind),
{
    match kind {
        OperationKind::Download => owned("Download started..."),
        OperationKind::Sync => owned("Syncing playlist..."),
        OperationKind::Zip => owned("Zipping playlist"),
        OperationKind::Unzip => owned("Unzipping playlist"),
    }
}

/// The line shown when the output of an operation of `kind` has ended.
pub fn finish_line(kind: OperationKind) -> (r: String)
    ensures
        r@ == finish_message(kind),
{
    match kind {
        OperationKind::Download => owned("Download finished!"),
        OperationKind::Sync => owned("Syncing finished!"),
        OperationKind::Zip => owned("Zipping finished! Press Enter to go back to the menu"),
        OperationKind::Unzip => owned("Unzipping finished! Press Enter to go back to the menu"),
    }
}

/// What is sent when an operation of `kind` could not be started for
/// `reason`: the failure as a visible output line, then as an error. The
/// active screen stays as it is.
pub fn spawn_failed(kind: OperationKind, reason: &str) -> (r: Vec<Action>)
    ensures
        r@.len() == 2,
        is_output(r@[0], failure_prefix(kind) + reason@),
        r@[1] matches Action::Error(m) && m@ == failure_prefix(kind) + reason@,
{
    let prefix = match kind {
        OperationKind::Download => owned("Error downloading playlist: "),
        OperationKind::Sync => owned("Error downloading playlist: "),
        OperationKind::Zip => owned("Failed to zip playlist: "),
        OperationKind::Unzip => owned("Failed to unzip playlist: "),
    };
    let message = join(prefix.as_str(), reason);
    let mut r: Vec<Action> = Vec::new();
    r.push(Action::Downloading(message.clone()));
    r.push(Action::Error(message));
    r
}

/// The command that fetches the playlist at `url` into `target`.
pub fn download_plan(url: &str, target: &str) -> (r: Operation)
    ensures
        is_download_op(r, url@, target@),
{
    let mut args: Vec<String> = Vec::new();
    args.push(owned("sync"));
    args.push(owned(url));
    args.push(owned("--save-file"));
    args.push(owned("save.spotdl"));
    args.push(owned("--simple-tui"));
    assert(texts(args@) =~= seq!["sync"@, url@, "--save-file"@, "save.spotdl"@, "--simple-tui"@]);
    Operation {
        kind: OperationKind::Download,
        command: CommandPlan { program: owned("spotdl"), args, dir: owned(target) },
        cleanup: None,
    }
}

/// The command that brings the playlist folder `target` up to date.
pub fn sync_plan(target: &str) -> (r: Operation)
    ensures
        is_sync_op(r, target@),
{
    let mut args: Vec<String> = Vec::new();
    args.push(owned("sync"));
    args.push(owned("save.spotdl"));
    assert(texts(args@) =~= seq!["sync"@, "save.spotdl"@]);
    Operation {
        kind: OperationKind::Sync,
        command: CommandPlan { program: owned("spotdl"), args, dir: owned(target) },
        cleanup: None,
    }
}

/// The command that packs the folder `name` of `dir` into `name.zip`,
/// removing the folder.
pub fn zip_plan(dir: &str, name: &str) -> (r: Operation)
    ensures
        is_zip_op(r, dir@, name@),
{
    let mut args: Vec<String> = Vec::new();
    args.push(owned("-rm"));
    args.push(join(name, ".zip"));
    args.push(owned(name));
    assert(texts(args@) =~= seq!["-rm"@, name@ + ".zip"@, name@]);
    Operation {
        kind: OperationKind::Zip,
        command: CommandPlan { program: owned("zip"), args, dir: owned(dir) },
        cleanup: None,
    }
}

/// The command that unpacks the archive `name` of `dir`, then removes it.
pub fn unzip_plan(dir: &str, name: &str) -> (r: Operation)
    ensures
        is_unzip_op(r, dir@, name@),
{
    let mut args: Vec<String> = Vec::new();
    args.push(owned(name));
    assert(texts(args@) =~= seq![name@]);
    let mut rm_args: Vec<String> = Vec::new();
    rm_args.push(owned(name));
    assert(texts(rm_args@) =~= seq![name@]);
    Operation {
        kind: OperationKind::Unzip,
        command: CommandPlan { program: owned("unzip"), args, dir: owned(dir) },
        cleanup: Some(CommandPlan { program: owned("rm"), args: rm_args, dir: owned(dir) }),
    }
}

/// What the reader of a running command observes.
#[derive(Debug, Clone)]
pub enum StreamEvent {
    /// One line of standard output.
    Line(String),
    /// Reading failed; the output is taken to have ended.
    ReadError,
    /// Standard output was closed.
    Closed,
}

/// Turns the output of one running operation into actions: a start line,
/// each output line in the order read, then a finish line and exactly one
/// `DownloadFinished` when the output ends, however it ends.
pub struct OutputStream {
    pub kind: OperationKind,
    pub finished: bool,
}

impl OutputStream {
    /// A stream for an operation of `kind` whose output has not ended.
    pub fn new(kind: OperationKind) -> (r: OutputStream)
        ensures
            r.kind == kind,
            !r.finished,
    {
        OutputStream { kind, finished: false }
    }

    /// The line that announces the operation.
    pub fn start(&self) -> (r: Action)
        ensures
            is_output(r, start_message(self.kind)),
    {
        Action::Downloading(start_line(self.kind))
    }

    /// How one event moves a stream, and what it emits: a line is passed
    /// on; the end of the output brings the finish line and
    /// `DownloadFinished`; after the end nothing is emitted.
    pub open spec fn stepped(pre: OutputStream, event: StreamEvent, post: OutputStream, out: Seq<Action>) -> bool {
        &&& post.kind == pre.kind
        &&& if pre.finished {
            out.len() == 0 && post.finished
        } else {
            match event {
                StreamEvent::Line(l) => out == seq![Action::Downloading(l)] && !post.finished,
                _ => {
                    &&& out.len() == 2
                    &&& is_output(out[0], finish_message(pre.kind))
                    &&& out[1] == Action::DownloadFinished
                    &&& post.finished
                },
            }
        }
    }

    /// The actions that `event` gives rise to. Nothing follows the end.
    pub fn step(&mut self, event: StreamEvent) -> (r: Vec<Action>)
        ensures
            OutputStream::stepped(*old(self), event, *final(self), r@),
    {
        let mut r: Vec<Action> = Vec::new();
        if self.finished {
            return r;
        }
        match event {
            StreamEvent::Line(l) => {
                r.push(Action::Downloading(l));
            },
            _ => {
                r.push(Action::Downloading(finish_line(self.kind)));
                r.push(Action::DownloadFinished);
                self.finished = true;
            },
        }
        r
    }
}

/// The number of `DownloadFinished` actions among `s`.
pub open spec fn finish_count(s: Seq<Action>) -> nat
    decreases s.len(),
{
    if s.len() == 0 {
        0
    } else {
        finish_count(s.drop_last()) + if s.last() == Action::DownloadFinished {
            1nat
        } else {
            0nat
        }
    }
}

/// Some event of `events` ends the output.
pub open spec fn output_ends(events: Seq<StreamEvent>) -> bool {
    exists|i: int| 0 <= i < events.len() && !(#[trigger] events[i] is Line)
}

proof fn lemma_finish_count_add(a: Seq<Action>, b: Seq<Action>)
    ensures
        finish_count(a + b) == finish_count(a) + finish_count(b),
    decreases b.len(),
{
    if b.len() == 0 {
        assert(a + b =~= a);
    } else {
        assert((a + b).drop_last() =~= a + b.drop_last());
        lemma_finish_count_add(a, b.drop_last());
    }
}

/// Feeding a new stream any run of events, one after the other, emits
/// exactly one `DownloadFinished` if some event ends the output, and none
/// otherwise; the stream has ended exactly when such an event came.
pub proof fn one_finish_per_run(
    states: Seq<OutputStream>,
    events: Seq<StreamEvent>,
    outs: Seq<Seq<Action>>,
)
    requires
        states.len() == events.len() + 1,
        outs.len() == events.len(),
        !states[0].finished,
        forall|i: int|
            0 <= i < events.len() ==> OutputStream::stepped(
                #[trigger] states[i],
                events[i],
                states[i + 1],
                outs[i],
            ),
    ensures
        finish_count(outs.flatten_alt()) == if output_ends(events) {
            1nat
        } else {
            0nat
        },
        states.last().finished == output_ends(events),
    decreases events.len(),
{
    reveal_with_fuel(finish_count, 3);
    if events.len() > 0 {
        let n = events.len() - 1;
        let pre_states = states.drop_last();
        let pre_events = events.drop_last();
        let pre_outs = outs.drop_last();
        assert forall|i: int| 0 <= i < pre_events.len() implies OutputStream::stepped(
            #[trigger] pre_states[i],
            pre_events[i],
            pre_states[i + 1],
            pre_outs[i],
        ) by {
            assert(OutputStream::stepped(states[i], events[i], states[i + 1], outs[i]));
        }
        one_finish_per_run(pre_states, pre_events, pre_outs);
        lemma_finish_count_add(pre_outs.flatten_alt(), outs[n]);
        assert(OutputStream::stepped(states[n], events[n], states[n + 1], outs[n]));
        assert(pre_states.last() == states[n]);
        if output_ends(pre_events) {
            let i = choose|i: int| 0 <= i < pre_events.len() && !(#[trigger] pre_events[i] is Line);
            assert(events[i] == pre_events[i]);
        }
        if !(events[n] is Line) {
            assert(output_ends(events));
        }
        if output_ends(events) && events[n] is Line {
            let i = choose|i: int| 0 <= i < events.len() && !(#[trigger] events[i] is Line);
            assert(pre_events[i] == events[i]);
        }
        let out = outs[n];
        if states[n].finished {
            assert(out =~= Seq::<Action>::empty());
        } else if events[n] is Line {
            assert(out.drop_last() =~= Seq::<Action>::empty());
        } else {
            assert(out.drop_last().drop_last() =~= Seq::<Action>::empty());
        }
    } else {
        assert(!output_ends(events));
    }
}

} // verus!
