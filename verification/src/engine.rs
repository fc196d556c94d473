//! The execution engine: which process to start next, and what the run of a
//! command list amounts to.  The engine starts no process itself: the caller
//! does, and hands back what became of each.

use crate::text::{contains_text, copy_texts, occurs_at, split_whitespace, split_words};
use vstd::prelude::*;

verus! {

/// What became of one command.
#[derive(Debug, Clone, PartialEq, Eq)]
pub enum StepOutcome {
    /// The process ran to its end.
    Completed { stdout: String, stderr: String, success: bool },
    /// The process could not be started.
    SpawnFailed { reason: String },
}

/// The mathematical value of a [`StepOutcome`].
pub enum StepView {
    Completed { stdout: Seq<char>, stderr: Seq<char>, success: bool },
    SpawnFailed { reason: Seq<char> },
}

impl View for StepOutcome {
    type V = StepView;

    open spec fn view(&self) -> StepView {
        match self {
            StepOutcome::Completed { stdout, stderr, success } => StepView::Completed {
                stdout: stdout@,
                stderr: stderr@,
                success: *success,
            },
            StepOutcome::SpawnFailed { reason } => StepView::SpawnFailed { reason: reason@ },
        }
    }
}

/// A step succeeded when its process ran and reported success.
pub open spec fn step_succeeded(outcome: StepView) -> bool {
    outcome matches StepView::Completed { success, .. } && success
}

/// The lines that one step adds to the transcript.  A process that ran gives
/// its command, then its output and its errors where there are any.  One that
/// did not start gives one line that says so.
pub open spec fn step_block(command: Seq<char>, outcome: StepView) -> Seq<char> {
    match outcome {
        StepView::Completed { stdout, stderr, .. } => {
            "Command: "@ + command + "\n"@ + (if stdout.len() > 0 {
                "Output: "@ + stdout + "\n"@
            } else {
                Seq::empty()
            }) + (if stderr.len() > 0 {
                "Error: "@ + stderr + "\n"@
            } else {
                Seq::empty()
            })
        },
        StepView::SpawnFailed { reason } => {
            "Failed to execute command '"@ + command + "': "@ + reason + "\n"@
        },
    }
}

/// Whether a command names a program: whether it has a word at all.
pub open spec fn names_program(command: Seq<char>) -> bool {
    split_words(command).len() > 0
}

/// The commands that are started, in order: those that name a program.
pub open spec fn spawned(commands: Seq<Seq<char>>) -> Seq<Seq<char>>
    decreases commands.len(),
{
    if commands.len() == 0 {
        Seq::empty()
    } else if names_program(commands.last()) {
        spawned(commands.drop_last()).push(commands.last())
    } else {
        spawned(commands.drop_last())
    }
}

/// The transcript after the outcomes of the first started commands.
pub open spec fn transcript_of(started: Seq<Seq<char>>, outcomes: Seq<StepView>) -> Seq<char>
    decreases outcomes.len(),
{
    if outcomes.len() == 0 {
        Seq::empty()
    } else {
        transcript_of(started, outcomes.drop_last()) + step_block(
            started[outcomes.len() - 1],
            outcomes.last(),
        )
    }
}

/// Whether every step succeeded.
pub open spec fn all_succeeded(outcomes: Seq<StepView>) -> bool {
    forall|i: int| 0 <= i < outcomes.len() ==> step_succeeded(#[trigger] outcomes[i])
}

/// What is started for a prefix of the commands is a prefix of what is
/// started for all of them.
pub proof fn lemma_spawned_prefix(commands: Seq<Seq<char>>, k: int)
    requires
        0 <= k <= commands.len(),
    ensures
        spawned(commands.take(k)).len() <= spawned(commands).len(),
        spawned(commands.take(k)) == spawned(commands).take(spawned(commands.take(k)).len() as int),
    decreases commands.len(),
{
    if k == commands.len() {
        assert(commands.take(k) =~= commands);
        assert(spawned(commands) =~= spawned(commands).take(spawned(commands).len() as int));
    } else {
        let head = commands.drop_last();
        lemma_spawned_prefix(head, k);
        assert(head.take(k) =~= commands.take(k));
        let n = spawned(commands.take(k)).len() as int;
        assert(spawned(head).take(n) =~= spawned(commands).take(n));
    }
}

/// One more command extends what is started by itself where it names a
/// program, and by nothing where it does not.
pub proof fn lemma_spawned_step(commands: Seq<Seq<char>>, k: int)
    requires
        0 <= k < commands.len(),
    ensures
        spawned(commands.take(k + 1)) == if names_program(commands[k]) {
            spawned(commands.take(k)).push(commands[k])
        } else {
            spawned(commands.take(k))
        },
{
    assert(commands.take(k + 1).drop_last() =~= commands.take(k));
    assert(commands.take(k + 1).last() == commands[k]);
}

/// The transcript holds the lines of every step, whatever became of the steps
/// before and after it: the lines of step `i` stand in it as one piece.
pub proof fn lemma_transcript_holds_every_step(
    started: Seq<Seq<char>>,
    outcomes: Seq<StepView>,
    i: int,
)
    requires
        0 <= i < outcomes.len(),
    ensures
        contains_text(transcript_of(started, outcomes), step_block(started[i], outcomes[i])),
    decreases outcomes.len(),
{
    let head = transcript_of(started, outcomes.drop_last());
    let tail = step_block(started[outcomes.len() - 1], outcomes.last());
    let block = step_block(started[i], outcomes[i]);
    if i == outcomes.len() - 1 {
        assert((head + tail).subrange(head.len() as int, (head.len() + block.len()) as int) =~= block);
        assert(occurs_at(head + tail, block, head.len() as int));
    } else {
        lemma_transcript_holds_every_step(started, outcomes.drop_last(), i);
        let at = choose|at: int| occurs_at(head, block, at);
        assert((head + tail).subrange(at, at + block.len()) =~= head.subrange(
            at,
            at + block.len(),
        ));
        assert(occurs_at(head + tail, block, at));
    }
}

/// One failed step makes the whole run fail, wherever it stands.
pub proof fn lemma_one_failure_fails_the_run(outcomes: Seq<StepView>, i: int)
    requires
        0 <= i < outcomes.len(),
        !step_succeeded(outcomes[i]),
    ensures
        !all_succeeded(outcomes),
{
}

/// What a run amounts to depends on its own commands and on the outcomes of
/// its own steps, and on nothing else: two runs of the same commands that
/// took the same outcomes have the same status and the same transcript,
/// whatever else ran beside them.
pub proof fn lemma_runs_are_independent(one: Run, other: Run)
    requires
        one.well_formed(),
        other.well_formed(),
        one.commands() == other.commands(),
        one.recorded() == other.recorded(),
    ensures
        one.success() == other.success(),
        one.transcript() == other.transcript(),
{
    one.lemma_recorded_in_bounds();
    other.lemma_recorded_in_bounds();
}

/// The program and the arguments that a command stands for: its first word
/// and the words after it.
#[derive(Debug, Clone, PartialEq, Eq)]
pub struct Invocation {
    pub command: String,
    pub program: String,
    pub args: Vec<String>,
}

impl Invocation {
    /// The invocation is the one that `command` stands for.
    pub open spec fn stands_for(&self, command: Seq<char>) -> bool {
        &&& names_program(command)
        &&& self.command@ == command
        &&& self.program@ == split_words(command)[0]
        &&& self.args.deep_view() == split_words(command).skip(1)
    }
}

/// Reads a command as a program and its arguments, split on white space and
/// on nothing else; `None` where the command holds no word.
pub fn parse_command(command: &str) -> (r: Option<Invocation>)
    ensures
        r is Some <==> names_program(command@),
        r matches Some(invocation) ==> invocation.stands_for(command@),
{
    let mut words = split_whitespace(command);
    if words.len() == 0 {
        return None;
    }
    let ghost all = words.deep_view();
    let program = words.remove(0);
    assert(words.deep_view() =~= all.skip(1));
    Some(Invocation { command: String::from_str(command), program, args: words })
}

/// Writes the lines of one step.
pub fn render_step(command: &str, outcome: &StepOutcome) -> (block: String)
    ensures
        block@ == step_block(command@, outcome@),
{
    match outcome {
        StepOutcome::Completed { stdout, stderr, success: _ } => {
            let mut block = String::from_str("Command: ");
            block.append(command);
            block.append("\n");
            if stdout.as_str().unicode_len() > 0 {
                block.append("Output: ");
                block.append(stdout.as_str());
                block.append("\n");
            }
            if stderr.as_str().unicode_len() > 0 {
                block.append("Error: ");
                block.append(stderr.as_str());
                block.append("\n");
            }
            assert(block@ =~= step_block(command@, outcome@));
            block
        },
        StepOutcome::SpawnFailed { reason } => {
            let mut block = String::from_str("Failed to execute command '");
            block.append(command);
            block.append("': ");
            block.append(reason.as_str());
            block.append("\n");
            assert(block@ =~= step_block(command@, outcome@));
            block
        },
    }
}

/// Tells whether a step succeeded.
pub fn outcome_succeeded(outcome: &StepOutcome) -> (r: bool)
    ensures
        r == step_succeeded(outcome@),
{
    match outcome {
        StepOutcome::Completed { success, .. } => *success,
        StepOutcome::SpawnFailed { .. } => false,
    }
}

/// The run of one command list.  It hands out the commands that name a
/// program one after the other, takes the outcome of each, and goes on
/// whatever the outcome was.
pub struct Run {
    commands: Vec<String>,
    cursor: usize,
    success: bool,
    transcript: String,
    outcomes: Ghost<Seq<StepView>>,
}

impl Run {
    /// The command list.
    pub closed spec fn commands(&self) -> Seq<Seq<char>> {
        self.commands.deep_view()
    }

    /// The outcomes taken so far.
    pub closed spec fn recorded(&self) -> Seq<StepView> {
        self.outcomes@
    }

    /// The transcript so far.
    pub closed spec fn transcript(&self) -> Seq<char> {
        self.transcript@
    }

    /// Whether every step so far succeeded.
    pub closed spec fn success(&self) -> bool {
        self.success
    }

    /// The run has taken one outcome for each command that it handed out, in
    /// order, and its transcript and status are those of the outcomes taken.
    pub closed spec fn well_formed(&self) -> bool {
        &&& self.cursor <= self.commands.len()
        &&& spawned(self.commands().take(self.cursor as int)).len() == self.recorded().len()
        &&& self.cursor < self.commands.len() ==> names_program(self.commands()[self.cursor as int])
        &&& self.transcript@ == transcript_of(spawned(self.commands()), self.recorded())
        &&& self.success == all_succeeded(self.recorded())
    }

    /// A well-formed run never holds more outcomes than commands to start.
    pub proof fn lemma_recorded_in_bounds(&self)
        requires
            self.well_formed(),
        ensures
            self.recorded().len() <= spawned(self.commands()).len(),
            self.transcript() == transcript_of(spawned(self.commands()), self.recorded()),
            self.success() == all_succeeded(self.recorded()),
    {
        lemma_spawned_prefix(self.commands(), self.cursor as int);
    }

    proof fn lemma_pending_command(&self)
        requires
            self.well_formed(),
        ensures
            self.cursor < self.commands.len() ==> self.recorded().len() < spawned(
                self.commands(),
            ).len() && spawned(self.commands())[self.recorded().len() as int]
                == self.commands()[self.cursor as int],
            self.cursor >= self.commands.len() ==> self.recorded().len() == spawned(
                self.commands(),
            ).len(),
    {
        let commands = self.commands();
        let k = self.cursor as int;
        let n = self.recorded().len() as int;
        lemma_spawned_prefix(commands, k);
        if self.cursor < self.commands.len() {
            lemma_spawned_step(commands, k);
            lemma_spawned_prefix(commands, k + 1);
            assert(spawned(commands.take(k + 1))[n] == commands[k]);
            assert(spawned(commands).take(n + 1)[n] == spawned(commands)[n]);
        } else {
            assert(commands.take(k) =~= commands);
        }
    }

    fn skip_unnamed(&mut self)
        requires
            old(self).cursor <= old(self).commands.len(),
            spawned(old(self).commands().take(old(self).cursor as int)).len() == old(
                self,
            ).recorded().len(),
            old(self).transcript@ == transcript_of(
                spawned(old(self).commands()),
                old(self).recorded(),
            ),
            old(self).success == all_succeeded(old(self).recorded()),
        ensures
            final(self).well_formed(),
            final(self).commands() == old(self).commands(),
            final(self).recorded() == old(self).recorded(),
            final(self).transcript() == old(self).transcript(),
            final(self).success() == old(self).success(),
    {
        while self.cursor < self.commands.len()
            invariant
                self.cursor <= self.commands.len(),
                self.commands == old(self).commands,
                self.outcomes == old(self).outcomes,
                self.transcript == old(self).transcript,
                self.success == old(self).success,
                spawned(self.commands().take(self.cursor as int)).len() == self.recorded().len(),
            ensures
                self.cursor < self.commands.len() ==> names_program(
                    self.commands()[self.cursor as int],
                ),
            decreases self.commands.len() - self.cursor,
        {
            let words = split_whitespace(self.commands[self.cursor].as_str());
            assert(self.commands()[self.cursor as int] == self.commands[self.cursor as int]@);
            if words.len() > 0 {
                break;
            }
            proof {
                lemma_spawned_step(self.commands(), self.cursor as int);
            }
            self.cursor = self.cursor + 1;
        }
    }

    /// A run of `commands` that has started nothing yet.
    pub fn new(commands: &Vec<String>) -> (run: Run)
        ensures
            run.well_formed(),
            run.commands() == commands.deep_view(),
            run.recorded() == Seq::<StepView>::empty(),
            run.transcript() == Seq::<char>::empty(),
            run.success(),
    {
        let mut run = Run {
            commands: copy_texts(commands),
            cursor: 0,
            success: true,
            transcript: String::new(),
            outcomes: Ghost(Seq::empty()),
        };
        assert(run.commands().take(0) =~= Seq::<Seq<char>>::empty());
        run.skip_unnamed();
        run
    }

    /// Tells whether every command that names a program has had its outcome.
    pub fn is_done(&self) -> (r: bool)
        requires
            self.well_formed(),
        ensures
            r == (self.recorded().len() == spawned(self.commands()).len()),
    {
        proof {
            self.lemma_pending_command();
        }
        self.cursor >= self.commands.len()
    }

    /// The process to start now: the next command that names a program, or
    /// `None` once each of them has had its outcome.
    pub fn pending(&self) -> (r: Option<Invocation>)
        requires
            self.well_formed(),
        ensures
            r is Some <==> self.recorded().len() < spawned(self.commands()).len(),
            r matches Some(invocation) ==> invocation.stands_for(
                spawned(self.commands())[self.recorded().len() as int],
            ),
    {
        proof {
            self.lemma_pending_command();
        }
        if self.cursor < self.commands.len() {
            assert(self.commands()[self.cursor as int] == self.commands[self.cursor as int]@);
            parse_command(self.commands[self.cursor].as_str())
        } else {
            None
        }
    }

    /// Takes the outcome of the pending process: its lines go to the
    /// transcript, a failure clears the status, and the run moves on to the
    /// next command whatever the outcome was.  Without a pending process the
    /// outcome is dropped and the answer is `false`.
    pub fn record(&mut self, outcome: StepOutcome) -> (taken: bool)
        requires
            old(self).well_formed(),
        ensures
            final(self).well_formed(),
            final(self).commands() == old(self).commands(),
            taken == (old(self).recorded().len() < spawned(old(self).commands()).len()),
            taken ==> final(self).recorded() == old(self).recorded().push(outcome@),
            taken ==> final(self).transcript() == old(self).transcript() + step_block(
                spawned(old(self).commands())[old(self).recorded().len() as int],
                outcome@,
            ),
            taken ==> final(self).success() == (old(self).success() && step_succeeded(outcome@)),
            !taken ==> *final(self) == *old(self),
    {
        proof {
            self.lemma_pending_command();
        }
        if self.cursor >= self.commands.len() {
            return false;
        }
        let ghost before = self.recorded();
        let ghost after = before.push(outcome@);
        let ghost started = spawned(self.commands());
        let ghost command = self.commands()[self.cursor as int];
        assert(started[before.len() as int] == command);
        assert(self.commands()[self.cursor as int] == self.commands[self.cursor as int]@);
        let block = render_step(self.commands[self.cursor].as_str(), &outcome);
        self.transcript.append(block.as_str());
        if !outcome_succeeded(&outcome) {
            self.success = false;
        }
        self.outcomes = Ghost(after);
        self.cursor = self.cursor + 1;
        proof {
            assert(after.drop_last() =~= before);
            assert(after.last() == outcome@);
            assert(transcript_of(started, after) == transcript_of(started, before) + step_block(
                command,
                outcome@,
            ));
            lemma_spawned_step(self.commands(), self.cursor - 1);
            assert(all_succeeded(after) == (all_succeeded(before) && step_succeeded(outcome@))) by {
                if all_succeeded(after) {
                    assert forall|i: int| 0 <= i < before.len() implies step_succeeded(
                        #[trigger] before[i],
                    ) by {
                        assert(before[i] == after[i]);
                    }
                    assert(after[before.len() as int] == outcome@);
                }
            }
        }
        self.skip_unnamed();
        true
    }

    /// Ends the run once every command that names a program has had its
    /// outcome, and gives its status and its transcript: the status is good
    /// when every step succeeded.
    pub fn finish(self) -> (r: (bool, String))
        requires
            self.well_formed(),
            self.recorded().len() == spawned(self.commands()).len(),
        ensures
            r.0 == all_succeeded(self.recorded()),
            r.1@ == transcript_of(spawned(self.commands()), self.recorded()),
    {
        (self.success, self.transcript)
    }
}

} // verus!
