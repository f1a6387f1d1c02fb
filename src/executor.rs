//! The command executor: a state machine over the script. Each step takes
//! the event that answers the previous directive and returns the next
//! directive, an engine operation for the driver to perform, an outcome to
//! record, or the end of the run.
use vstd::prelude::*;

use crate::codec::{decoded, encoded, same_text, Literal, RuntimeValue, SafeSV};
use crate::compare::{equal, floats_of_same_width, matches_value, same_float_width};
use crate::engine::{LoadOptions, ModuleHandle, SafeR};
use crate::error::HarnessError;
use crate::registry::{registered, resolved, ModuleRegistry, RegistryView};
use crate::script::{command_well_formed, invocation, Command, Invocation};

verus! {

/// Revision of the table of known divergences.
pub const KNOWN_DIVERGENCES_REVISION: u32 = 1;

/// What to do with an assertion that expects more than one result, which
/// the single-value return protocol cannot check.
#[derive(Debug, Clone, Copy, PartialEq, Eq, Structural)]
pub enum MultiValuePolicy {
    Skip,
    Fail,
}

/// How float results are judged. `Strict` applies the comparator alone;
/// `Tolerant` also passes two floats of one width whose numeric difference
/// the driver finds within its tolerance.
#[derive(Debug, Clone, Copy, PartialEq, Eq, Structural)]
pub enum FloatPolicy {
    Strict,
    Tolerant,
}

/// A known divergence: an engine fault on the export `field` at script line
/// `line`, in the named test set or in any when `testset` is `None`, is
/// recorded as skipped instead of stopping the run.
#[derive(Debug, PartialEq, Eq)]
pub struct KnownDivergence {
    pub testset: Option<String>,
    pub field: String,
    pub line: u64,
}

/// The policies of a run.
#[derive(Debug)]
pub struct RunConfig {
    pub load_options: LoadOptions,
    pub multi_value: MultiValuePolicy,
    pub floats: FloatPolicy,
    pub exceptions: Vec<KnownDivergence>,
}

/// The answer to the previous directive.
#[derive(Debug)]
pub enum Event {
    /// Starts the run, and answers `Push` and `Note`.
    Continue,
    /// Answers `Load`: the handle, or `None` where the engine gave none.
    Loaded(Option<ModuleHandle>),
    /// Answers `Lookup`: the export's index, negative where it is missing.
    ExportIndex(i64),
    /// Answers `Invoke` with the engine's result.
    Invoked(SafeR),
    /// Answers `Pop` with the value taken off the top of the stack.
    Popped(RuntimeValue),
    /// Answers `CheckTolerance`.
    ToleranceChecked(bool),
}

/// Why an assertion was skipped.
#[derive(Debug, Clone, Copy, PartialEq, Eq, Structural)]
pub enum SkipReason {
    MultipleResults,
    KnownDivergence,
}

/// How a command ended, when it did not stop the run.
#[derive(Debug, PartialEq, Eq)]
pub enum Outcome {
    ModuleLoaded { module: ModuleHandle },
    Passed { field: String, line: u64 },
    PassedWithinTolerance { field: String, line: u64 },
    /// The export ran and there was no result to compare.
    Unchecked { field: String, line: u64 },
    Skipped { field: String, line: u64, reason: SkipReason },
    /// A command that this harness recognizes and does not carry out.
    Ignored,
}

/// What the driver is to do next.
#[derive(Debug, PartialEq, Eq)]
pub enum Directive {
    /// Load the module file and answer `Loaded`.
    Load { filename: String, options: LoadOptions },
    /// Push the value onto the module's value stack and answer `Continue`.
    Push { module: ModuleHandle, value: RuntimeValue },
    /// Look the export up and answer `ExportIndex`.
    Lookup { module: ModuleHandle, field: String },
    /// Invoke the export and answer `Invoked`.
    Invoke { module: ModuleHandle, index: u64 },
    /// Pop the top of the module's value stack and answer `Popped`.
    Pop { module: ModuleHandle },
    /// Weigh the two floats against the tolerance and answer `ToleranceChecked`.
    CheckTolerance { observed: SafeSV, expected: SafeSV },
    /// Record the outcome and answer `Continue`.
    Note(Outcome),
    /// The script is done.
    Finish,
    /// The run stops on this fault.
    Abort(HarnessError),
}

/// Where the executor stands.
#[derive(Debug, Clone, Copy, PartialEq, Eq, Structural)]
pub enum Phase {
    /// Between commands.
    Ready,
    /// Waiting for the module of the current command to load.
    Loading,
    /// Pushing arguments; `pushed` of them are on the stack.
    Pushing { module: ModuleHandle, pushed: usize },
    /// Waiting for the export's index.
    Resolving { module: ModuleHandle },
    /// Waiting for the engine's result.
    Invoking { module: ModuleHandle },
    /// Waiting for the result value.
    Popping { module: ModuleHandle },
    /// Waiting for the tolerance verdict on a float mismatch.
    Weighing { observed: RuntimeValue, expected: RuntimeValue },
    /// The script is done.
    Finished,
    /// The run stopped on a fault.
    Halted,
}

/// The state of an executor.
pub struct ExecutorView {
    pub testset: Seq<char>,
    pub config: RunConfig,
    pub commands: Seq<Command>,
    pub next: int,
    pub registry: RegistryView,
    pub phase: Phase,
}

pub open spec fn divergence_applies(d: KnownDivergence, testset: Seq<char>, field: Seq<char>, line: u64) -> bool {
    &&& d.testset matches Some(t) ==> t@ == testset
    &&& d.field@ == field
    &&& d.line == line
}

/// The table lists the fault of `field` at `line` in `testset`.
pub open spec fn divergence_listed(
    table: Seq<KnownDivergence>,
    testset: Seq<char>,
    field: Seq<char>,
    line: u64,
) -> bool {
    exists|i: int| 0 <= i < table.len() && divergence_applies(#[trigger] table[i], testset, field, line)
}

/// The invocation of the current command.
pub open spec fn current(v: ExecutorView) -> Invocation {
    invocation(v.commands[v.next])->0
}

pub open spec fn pending_invocation(v: ExecutorView) -> bool {
    0 <= v.next < v.commands.len() && invocation(v.commands[v.next]) is Some
}

/// The invariant of an executor's state.
pub open spec fn view_wf(v: ExecutorView) -> bool {
    &&& 0 <= v.next <= v.commands.len()
    &&& forall|i: int| 0 <= i < v.commands.len() ==> command_well_formed(#[trigger] v.commands[i])
    &&& match v.phase {
        Phase::Loading => v.next < v.commands.len() && v.commands[v.next] is Module,
        Phase::Pushing { pushed, .. } => pending_invocation(v) && 1 <= pushed <= current(v).args.len(),
        Phase::Resolving { .. } | Phase::Invoking { .. } | Phase::Weighing { .. } => pending_invocation(v),
        Phase::Popping { .. } => pending_invocation(v) && current(v).asserts && current(v).expected.len() == 1,
        _ => true,
    }
}

/// The run stops with `err`.
pub open spec fn halt(v: ExecutorView, err: HarnessError) -> (ExecutorView, Directive) {
    (ExecutorView { phase: Phase::Halted, ..v }, Directive::Abort(err))
}

/// The current command ends with `outcome`.
pub open spec fn complete(v: ExecutorView, outcome: Outcome) -> (ExecutorView, Directive) {
    (ExecutorView { next: v.next + 1, phase: Phase::Ready, ..v }, Directive::Note(outcome))
}

/// Push argument `k` of the current call, or look the export up once all
/// are pushed.
pub open spec fn push_or_lookup(v: ExecutorView, m: ModuleHandle, k: int) -> (ExecutorView, Directive) {
    let inv = current(v);
    if k < inv.args.len() {
        (
            ExecutorView { phase: Phase::Pushing { module: m, pushed: (k + 1) as usize }, ..v },
            Directive::Push { module: m, value: encoded(inv.args[k])->0 },
        )
    } else {
        (ExecutorView { phase: Phase::Resolving { module: m }, ..v }, Directive::Lookup { module: m, field: inv.field })
    }
}

/// Start the current command, which invokes an export.
pub open spec fn begin_invocation(v: ExecutorView) -> (ExecutorView, Directive) {
    let inv = current(v);
    if !inv.asserts && inv.expected.len() > 0 {
        halt(v, HarnessError::ActionWithExpected { line: inv.line })
    } else if inv.expected.len() > 1 {
        match v.config.multi_value {
            MultiValuePolicy::Skip => complete(
                v,
                Outcome::Skipped { field: inv.field, line: inv.line, reason: SkipReason::MultipleResults },
            ),
            MultiValuePolicy::Fail => halt(
                v,
                HarnessError::MultipleResults { field: inv.field, line: inv.line },
            ),
        }
    } else {
        match resolved(v.registry, inv.module) {
            Err(e) => halt(v, e),
            Ok(m) => push_or_lookup(v, m, 0),
        }
    }
}

/// Start the next command, or finish.
pub open spec fn begin(v: ExecutorView) -> (ExecutorView, Directive) {
    if v.next >= v.commands.len() {
        (ExecutorView { phase: Phase::Finished, ..v }, Directive::Finish)
    } else {
        match v.commands[v.next] {
            Command::Module { filename, .. } => (
                ExecutorView { phase: Phase::Loading, ..v },
                Directive::Load { filename, options: v.config.load_options },
            ),
            c => if invocation(c) is Some {
                begin_invocation(v)
            } else {
                complete(v, Outcome::Ignored)
            },
        }
    }
}

/// The step from state `v` on event `e`: the next state and directive.
pub open spec fn transition(v: ExecutorView, e: Event) -> (ExecutorView, Directive) {
    match v.phase {
        Phase::Ready => match e {
            Event::Continue => begin(v),
            _ => halt(v, HarnessError::UnexpectedEvent),
        },
        Phase::Loading => match e {
            Event::Loaded(Some(h)) => match v.commands[v.next] {
                Command::Module { name, .. } => complete(
                    ExecutorView { registry: registered(v.registry, name, h), ..v },
                    Outcome::ModuleLoaded { module: h },
                ),
                _ => halt(v, HarnessError::UnexpectedEvent),
            },
            Event::Loaded(None) => match v.commands[v.next] {
                Command::Module { filename, .. } => halt(v, HarnessError::LoadFailed { filename }),
                _ => halt(v, HarnessError::UnexpectedEvent),
            },
            _ => halt(v, HarnessError::UnexpectedEvent),
        },
        Phase::Pushing { module, pushed } => match e {
            Event::Continue => push_or_lookup(v, module, pushed as int),
            _ => halt(v, HarnessError::UnexpectedEvent),
        },
        Phase::Resolving { module } => match e {
            Event::ExportIndex(i) => if i < 0 {
                halt(v, HarnessError::LookupError { field: current(v).field, line: current(v).line })
            } else {
                (
                    ExecutorView { phase: Phase::Invoking { module }, ..v },
                    Directive::Invoke { module, index: i as u64 },
                )
            },
            _ => halt(v, HarnessError::UnexpectedEvent),
        },
        Phase::Invoking { module } => match e {
            Event::Invoked(r) => {
                let inv = current(v);
                if r is Success {
                    if inv.asserts && inv.expected.len() == 1 {
                        (ExecutorView { phase: Phase::Popping { module }, ..v }, Directive::Pop { module })
                    } else {
                        complete(v, Outcome::Unchecked { field: inv.field, line: inv.line })
                    }
                } else if divergence_listed(v.config.exceptions@, v.testset, inv.field@, inv.line) {
                    complete(
                        v,
                        Outcome::Skipped { field: inv.field, line: inv.line, reason: SkipReason::KnownDivergence },
                    )
                } else {
                    halt(v, HarnessError::EngineFault { field: inv.field, line: inv.line, result: r })
                }
            },
            _ => halt(v, HarnessError::UnexpectedEvent),
        },
        Phase::Popping { .. } => match e {
            Event::Popped(observed) => {
                let inv = current(v);
                let expected = encoded(inv.expected[0])->0;
                if matches_value(decoded(observed), decoded(expected)) {
                    complete(v, Outcome::Passed { field: inv.field, line: inv.line })
                } else if v.config.floats == FloatPolicy::Tolerant && same_float_width(
                    decoded(observed),
                    decoded(expected),
                ) {
                    (
                        ExecutorView { phase: Phase::Weighing { observed, expected }, ..v },
                        Directive::CheckTolerance { observed: decoded(observed), expected: decoded(expected) },
                    )
                } else {
                    halt(
                        v,
                        HarnessError::AssertionMismatch { field: inv.field, line: inv.line, observed, expected },
                    )
                }
            },
            _ => halt(v, HarnessError::UnexpectedEvent),
        },
        Phase::Weighing { observed, expected } => match e {
            Event::ToleranceChecked(within) => {
                let inv = current(v);
                if within {
                    complete(v, Outcome::PassedWithinTolerance { field: inv.field, line: inv.line })
                } else {
                    halt(
                        v,
                        HarnessError::AssertionMismatch { field: inv.field, line: inv.line, observed, expected },
                    )
                }
            },
            _ => halt(v, HarnessError::UnexpectedEvent),
        },
        Phase::Finished => (v, Directive::Finish),
        Phase::Halted => (v, Directive::Abort(HarnessError::Stopped)),
    }
}

/// The state of a new executor over `commands`.
pub open spec fn initial(testset: Seq<char>, config: RunConfig, commands: Seq<Command>) -> ExecutorView {
    ExecutorView {
        testset,
        config,
        commands,
        next: 0,
        registry: RegistryView { named: Map::empty(), current: None },
        phase: Phase::Ready,
    }
}

/// An assertion that expects more than one result is, under the skipping
/// policy, recorded as skipped: no engine operation is directed, the run
/// goes on with the next command, and nothing else changes.
pub proof fn lemma_multiple_results_skipped(v: ExecutorView)
    requires
        view_wf(v),
        v.phase == Phase::Ready,
        pending_invocation(v),
        current(v).asserts,
        current(v).expected.len() > 1,
        v.config.multi_value == MultiValuePolicy::Skip,
    ensures
        transition(v, Event::Continue) == (
            ExecutorView { next: v.next + 1, phase: Phase::Ready, ..v },
            Directive::Note(
                Outcome::Skipped {
                    field: current(v).field,
                    line: current(v).line,
                    reason: SkipReason::MultipleResults,
                },
            ),
        ),
{
}

/// A lookup that finds no export stops the run with `LookupError`, naming
/// the export and the script line; the call is never skipped.
pub proof fn lemma_missing_export_stops_run(v: ExecutorView, module: ModuleHandle, index: i64)
    requires
        view_wf(v),
        v.phase == (Phase::Resolving { module }),
        index < 0,
    ensures
        transition(v, Event::ExportIndex(index)) == (
            ExecutorView { phase: Phase::Halted, ..v },
            Directive::Abort(HarnessError::LookupError { field: current(v).field, line: current(v).line }),
        ),
{
}

/// A run that stopped stays stopped: every later step changes nothing and
/// directs no engine operation.
pub proof fn lemma_halted_run_stays_halted(v: ExecutorView, e: Event)
    requires
        v.phase == Phase::Halted,
    ensures
        transition(v, e) == (v, Directive::Abort(HarnessError::Stopped)),
{
}

/// Whether the table lists the fault of `field` at `line` in `testset`.
pub fn is_known_divergence(table: &Vec<KnownDivergence>, testset: &str, field: &str, line: u64) -> (r:
    bool)
    ensures
        r == divergence_listed(table@, testset@, field@, line),
{
    let mut i: usize = 0;
    while i < table.len()
        invariant
            i <= table@.len(),
            forall|j: int| 0 <= j < i ==> !divergence_applies(#[trigger] table@[j], testset@, field@, line),
        decreases table@.len() - i,
    {
        let d = &table[i];
        let set_matches = match &d.testset {
            Some(t) => same_text(t.as_str(), testset),
            None => true,
        };
        if set_matches && d.line == line && same_text(d.field.as_str(), field) {
            assert(divergence_applies(table@[i as int], testset@, field@, line));
            return true;
        }
        i = i + 1;
    }
    false
}

/// The table of known divergences: faults of the engine under test that
/// are recorded as skipped. Each entry holds for the test set it names, or
/// for every test set.
pub fn known_divergences() -> (r: Vec<KnownDivergence>)
    ensures
        r@.len() == 1,
        r@[0].testset is None,
        r@[0].field@ == "write"@,
        r@[0].line == 137,
{
    let mut table: Vec<KnownDivergence> = Vec::new();
    table.push(KnownDivergence { testset: None, field: String::from_str("write"), line: 137 });
    table
}

impl RunConfig {
    /// The policies of a conformance run: standard load options, assertions
    /// that expect several results skipped, float results judged with the
    /// driver's tolerance, and the table of known divergences.
    pub fn conformance() -> (r: RunConfig)
        ensures
            r.load_options == LoadOptions::spec_standard(),
            r.multi_value == MultiValuePolicy::Skip,
            r.floats == FloatPolicy::Tolerant,
            r.exceptions@.len() == 1,
            r.exceptions@[0].testset is None,
            r.exceptions@[0].field@ == "write"@,
            r.exceptions@[0].line == 137,
    {
        RunConfig {
            load_options: LoadOptions::standard(),
            multi_value: MultiValuePolicy::Skip,
            floats: FloatPolicy::Tolerant,
            exceptions: known_divergences(),
        }
    }

    /// Strict policies: standard load options, assertions that expect
    /// several results skipped, floats judged by the comparator alone, and
    /// no divergence excused.
    pub fn strict() -> (r: RunConfig)
        ensures
            r.load_options == LoadOptions::spec_standard(),
            r.multi_value == MultiValuePolicy::Skip,
            r.floats == FloatPolicy::Strict,
            r.exceptions@.len() == 0,
    {
        RunConfig {
            load_options: LoadOptions::standard(),
            multi_value: MultiValuePolicy::Skip,
            floats: FloatPolicy::Strict,
            exceptions: Vec::new(),
        }
    }
}

fn copy_name(name: &Option<String>) -> (r: Option<String>)
    ensures
        r == *name,
{
    match name {
        Some(n) => Some(n.clone()),
        None => None,
    }
}

/// The command executor.
pub struct Executor {
    testset: String,
    config: RunConfig,
    commands: Vec<Command>,
    next: usize,
    registry: ModuleRegistry,
    phase: Phase,
}

impl View for Executor {
    type V = ExecutorView;

    closed spec fn view(&self) -> ExecutorView {
        ExecutorView {
            testset: self.testset@,
            config: self.config,
            commands: self.commands@,
            next: self.next as int,
            registry: self.registry@,
            phase: self.phase,
        }
    }
}

impl Executor {
    pub closed spec fn wf(&self) -> bool {
        self.registry.wf() && view_wf(self@)
    }

    /// An executor over the script of the test set `testset`. Every literal
    /// of the script is checked first: the first command that holds a
    /// malformed one fails the run before anything executes.
    pub fn new(testset: String, commands: Vec<Command>, config: RunConfig) -> (r: Result<
        Executor,
        HarnessError,
    >)
        ensures
            r is Ok <==> forall|i: int|
                0 <= i < commands@.len() ==> command_well_formed(#[trigger] commands@[i]),
            r matches Ok(ex) ==> ex.wf() && ex@ == initial(testset@, config, commands@),
            r matches Err(e) ==> e matches HarnessError::ParseError { command } && command
                < commands@.len() && !command_well_formed(commands@[command as int]) && forall|
                j: int,
            | 0 <= j < command ==> command_well_formed(#[trigger] commands@[j]),
    {
        let mut i: usize = 0;
        while i < commands.len()
            invariant
                i <= commands@.len(),
                forall|j: int| 0 <= j < i ==> command_well_formed(#[trigger] commands@[j]),
            decreases commands@.len() - i,
        {
            if !commands[i].is_well_formed() {
                return Err(HarnessError::ParseError { command: i });
            }
            i = i + 1;
        }
        let ex = Executor {
            testset,
            config,
            commands,
            next: 0,
            registry: ModuleRegistry::new(),
            phase: Phase::Ready,
        };
        assert(ex@.registry == RegistryView { named: Map::empty(), current: None });
        Ok(ex)
    }

    /// Where the executor stands.
    pub fn phase(&self) -> (r: Phase)
        ensures
            r == self@.phase,
    {
        self.phase
    }

    /// The position in the script of the command under way, or of the next
    /// one between commands.
    pub fn position(&self) -> (r: usize)
        ensures
            r == self@.next,
    {
        self.next
    }

    fn stop(&mut self, err: HarnessError) -> (d: Directive)
        requires
            old(self).wf(),
        ensures
            final(self).wf(),
            (final(self)@, d) == halt(old(self)@, err),
    {
        self.phase = Phase::Halted;
        Directive::Abort(err)
    }

    fn conclude(&mut self, outcome: Outcome) -> (d: Directive)
        requires
            old(self).wf(),
            old(self).next < old(self).commands@.len(),
        ensures
            final(self).wf(),
            (final(self)@, d) == complete(old(self)@, outcome),
    {
        let n = self.commands.len();
        assert(self.next < n);
        self.next = self.next + 1;
        self.phase = Phase::Ready;
        Directive::Note(outcome)
    }

    fn push_or_lookup(&mut self, module: ModuleHandle, k: usize) -> (d: Directive)
        requires
            old(self).wf(),
            pending_invocation(old(self)@),
            k <= current(old(self)@).args.len(),
        ensures
            final(self).wf(),
            (final(self)@, d) == push_or_lookup(old(self)@, module, k as int),
    {
        let (field, args, _, _, _, _) = self.commands[self.next].invocation_parts().unwrap();
        if k < args.len() {
            assert(command_well_formed(self.commands@[self.next as int]));
            let value = match args[k].encode() {
                Ok(v) => v,
                Err(_) => {
                    return Directive::Finish;
                },
            };
            self.phase = Phase::Pushing { module, pushed: k + 1 };
            Directive::Push { module, value }
        } else {
            let field = field.clone();
            self.phase = Phase::Resolving { module };
            Directive::Lookup { module, field }
        }
    }

    fn begin_invocation(&mut self) -> (d: Directive)
        requires
            old(self).wf(),
            pending_invocation(old(self)@),
        ensures
            final(self).wf(),
            (final(self)@, d) == begin_invocation(old(self)@),
    {
        let (field, _, module, expected, line, asserts) =
            self.commands[self.next].invocation_parts().unwrap();
        let field = field.clone();
        let n_expected = expected.len();
        if !asserts && n_expected > 0 {
            self.stop(HarnessError::ActionWithExpected { line })
        } else if n_expected > 1 {
            match self.config.multi_value {
                MultiValuePolicy::Skip => self.conclude(
                    Outcome::Skipped { field, line, reason: SkipReason::MultipleResults },
                ),
                MultiValuePolicy::Fail => self.stop(HarnessError::MultipleResults { field, line }),
            }
        } else {
            match self.registry.resolve(module) {
                Err(e) => self.stop(e),
                Ok(m) => self.push_or_lookup(m, 0),
            }
        }
    }

    fn begin(&mut self) -> (d: Directive)
        requires
            old(self).wf(),
        ensures
            final(self).wf(),
            (final(self)@, d) == begin(old(self)@),
    {
        if self.next >= self.commands.len() {
            self.phase = Phase::Finished;
            return Directive::Finish;
        }
        let filename: Option<String> = match &self.commands[self.next] {
            Command::Module { filename, .. } => Some(filename.clone()),
            _ => None,
        };
        match filename {
            Some(filename) => {
                self.phase = Phase::Loading;
                Directive::Load { filename, options: self.config.load_options }
            },
            None => {
                if self.commands[self.next].invocation_parts().is_some() {
                    self.begin_invocation()
                } else {
                    self.conclude(Outcome::Ignored)
                }
            },
        }
    }

    fn on_loaded(&mut self, handle: Option<ModuleHandle>) -> (d: Directive)
        requires
            old(self).wf(),
            old(self).phase is Loading,
        ensures
            final(self).wf(),
            (final(self)@, d) == transition(old(self)@, Event::Loaded(handle)),
    {
        let (name, filename) = match &self.commands[self.next] {
            Command::Module { name, filename } => (copy_name(name), filename.clone()),
            _ => {
                return Directive::Finish;
            },
        };
        match handle {
            Some(h) => {
                self.registry.register(&name, h);
                self.conclude(Outcome::ModuleLoaded { module: h })
            },
            None => self.stop(HarnessError::LoadFailed { filename }),
        }
    }

    fn on_export_index(&mut self, module: ModuleHandle, index: i64) -> (d: Directive)
        requires
            old(self).wf(),
            old(self).phase == (Phase::Resolving { module }),
        ensures
            final(self).wf(),
            (final(self)@, d) == transition(old(self)@, Event::ExportIndex(index)),
    {
        if index < 0 {
            let (field, _, _, _, line, _) = self.commands[self.next].invocation_parts().unwrap();
            let field = field.clone();
            self.stop(HarnessError::LookupError { field, line })
        } else {
            self.phase = Phase::Invoking { module };
            Directive::Invoke { module, index: index as u64 }
        }
    }

    fn on_invoked(&mut self, module: ModuleHandle, result: SafeR) -> (d: Directive)
        requires
            old(self).wf(),
            old(self).phase == (Phase::Invoking { module }),
        ensures
            final(self).wf(),
            (final(self)@, d) == transition(old(self)@, Event::Invoked(result)),
    {
        let (field, _, _, expected, line, asserts) =
            self.commands[self.next].invocation_parts().unwrap();
        let field = field.clone();
        let n_expected = expected.len();
        if result.is_ok() {
            if asserts && n_expected == 1 {
                self.phase = Phase::Popping { module };
                Directive::Pop { module }
            } else {
                self.conclude(Outcome::Unchecked { field, line })
            }
        } else if is_known_divergence(
            &self.config.exceptions,
            self.testset.as_str(),
            field.as_str(),
            line,
        ) {
            self.conclude(Outcome::Skipped { field, line, reason: SkipReason::KnownDivergence })
        } else {
            self.stop(HarnessError::EngineFault { field, line, result })
        }
    }

    fn on_popped(&mut self, observed: RuntimeValue) -> (d: Directive)
        requires
            old(self).wf(),
            old(self).phase is Popping,
        ensures
            final(self).wf(),
            (final(self)@, d) == transition(old(self)@, Event::Popped(observed)),
    {
        let (field, _, _, expected, line, _) = self.commands[self.next].invocation_parts().unwrap();
        assert(command_well_formed(self.commands@[self.next as int]));
        let expected = match expected[0].encode() {
            Ok(v) => v,
            Err(_) => {
                return Directive::Finish;
            },
        };
        let field = field.clone();
        let o = observed.decode();
        let x = expected.decode();
        if equal(&o, &x) {
            self.conclude(Outcome::Passed { field, line })
        } else if self.config.floats == FloatPolicy::Tolerant && floats_of_same_width(&o, &x) {
            self.phase = Phase::Weighing { observed, expected };
            Directive::CheckTolerance { observed: o, expected: x }
        } else {
            self.stop(HarnessError::AssertionMismatch { field, line, observed, expected })
        }
    }

    fn on_tolerance(&mut self, observed: RuntimeValue, expected: RuntimeValue, within: bool) -> (d:
        Directive)
        requires
            old(self).wf(),
            old(self).phase == (Phase::Weighing { observed, expected }),
        ensures
            final(self).wf(),
            (final(self)@, d) == transition(old(self)@, Event::ToleranceChecked(within)),
    {
        let (field, _, _, _, line, _) = self.commands[self.next].invocation_parts().unwrap();
        let field = field.clone();
        if within {
            self.conclude(Outcome::PassedWithinTolerance { field, line })
        } else {
            self.stop(HarnessError::AssertionMismatch { field, line, observed, expected })
        }
    }

    /// Takes the answer to the previous directive (`Continue` to start) and
    /// returns the next directive.
    pub fn step(&mut self, event: Event) -> (d: Directive)
        requires
            old(self).wf(),
        ensures
            final(self).wf(),
            (final(self)@, d) == transition(old(self)@, event),
    {
        match self.phase {
            Phase::Ready => match event {
                Event::Continue => self.begin(),
                _ => self.stop(HarnessError::UnexpectedEvent),
            },
            Phase::Loading => match event {
                Event::Loaded(handle) => self.on_loaded(handle),
                _ => self.stop(HarnessError::UnexpectedEvent),
            },
            Phase::Pushing { module, pushed } => match event {
                Event::Continue => self.push_or_lookup(module, pushed),
                _ => self.stop(HarnessError::UnexpectedEvent),
            },
            Phase::Resolving { module } => match event {
                Event::ExportIndex(index) => self.on_export_index(module, index),
                _ => self.stop(HarnessError::UnexpectedEvent),
            },
            Phase::Invoking { module } => match event {
                Event::Invoked(result) => self.on_invoked(module, result),
                _ => self.stop(HarnessError::UnexpectedEvent),
            },
            Phase::Popping { .. } => match event {
                Event::Popped(observed) => self.on_popped(observed),
                _ => self.stop(HarnessError::UnexpectedEvent),
            },
            Phase::Weighing { observed, expected } => match event {
                Event::ToleranceChecked(within) => self.on_tolerance(observed, expected, within),
                _ => self.stop(HarnessError::UnexpectedEvent),
            },
            Phase::Finished => Directive::Finish,
            Phase::Halted => Directive::Abort(HarnessError::Stopped),
        }
    }
}

} // verus!
