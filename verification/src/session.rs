//! A run as a session without I/O. The session says what to print and what to ask of
//! the registry next; its driver prints, sends the request and hands back what came of
//! it. One package is handled at a time, one request is outstanding at a time, and the
//! first failure ends the run.

use crate::endpoint::{version_address, version_url, versions_address, versions_url};
use crate::error::AppError;
use crate::packages::{views, Package, PackageView};
use crate::report::{
    condensed_line, condensed_text, deletion_line, deletion_text, heading, heading_text,
    raw_record, raw_text, COLLECTING_NOTICE, LISTING_NOTICE, MISSING_TAG_WARNING,
};
use crate::retention::{candidates, deletion_candidates, kept, skip_count};
use vstd::pervasive::unreached;
use vstd::prelude::*;
use vstd::string::StringExecFns;

verus! {

/// What a run does with the version list of each package.
#[derive(Debug, Clone, Copy, PartialEq, Eq)]
pub enum Commands {
    /// Print the versions: each record in full where `raw` is set, else its condensed
    /// line; the response body first where `debug` is set.
    List { raw: bool, debug: bool },
    /// Delete every version but the first `skip`, or the default number of them.
    GC { skip: Option<usize> },
}

/// Something for the driver to print.
#[derive(Debug)]
pub enum Output {
    /// A line for the standard output.
    Line(String),
    /// A line for the standard error.
    Warning(String),
}

/// What the driver is to do once it has printed a step's output.
#[derive(Debug)]
pub enum Request {
    /// GET the address, decode the body as a version list, and report both.
    Fetch { url: String },
    /// DELETE the address and report that it is done.
    Delete { url: String },
    /// End the run: nothing is left to do.
    Finish,
    /// End the run with the failure.
    Abort { failure: AppError },
}

/// What a session hands its driver at a time.
#[derive(Debug)]
pub struct Step {
    /// What to print first, in this order.
    pub output: Vec<Output>,
    /// What to do then.
    pub request: Request,
}

/// What came of the request of the last step.
#[derive(Debug)]
pub enum Event {
    /// The version list arrived: the response body and the records decoded from it.
    Fetched { body: String, packages: Vec<Package> },
    /// The version is deleted.
    Deleted,
    /// The request failed, or its answer could not be decoded.
    Failed { failure: AppError },
}

/// Where a session stands with its current package.
#[derive(Debug)]
enum Phase {
    Fetching,
    Deleting { queue: Vec<Package>, next: usize },
    Over,
}

/// A run in progress: the packages to handle, the command to apply to each, and how far
/// the run has come.
#[derive(Debug)]
pub struct Session {
    package_type: String,
    package_names: Vec<String>,
    command: Option<Commands>,
    position: usize,
    phase: Phase,
}

/// Output as a mathematical value.
pub enum OutputView {
    Line(Seq<char>),
    Warning(Seq<char>),
}

/// A request as a mathematical value.
pub enum RequestView {
    Fetch { url: Seq<char> },
    Delete { url: Seq<char> },
    Finish,
    Abort { failure: AppError },
}

/// A step as a mathematical value.
pub struct StepView {
    pub output: Seq<OutputView>,
    pub request: RequestView,
}

/// An event as a mathematical value.
pub enum EventView {
    Fetched { body: Seq<char>, packages: Seq<PackageView> },
    Deleted,
    Failed { failure: AppError },
}

/// Where a session stands with its current package.
pub enum PhaseView {
    /// The version list of the package has been asked for.
    Fetching,
    /// A collection pass is under way over the candidates in `queue`: the deletion of
    /// `queue[next]` has been asked for, and the records after it are still to go.
    Deleting { queue: Seq<PackageView>, next: nat },
    /// The run has ended.
    Over,
}

/// A session as a mathematical value.
pub struct SessionView {
    pub package_type: Seq<char>,
    pub package_names: Seq<Seq<char>>,
    pub command: Option<Commands>,
    /// The index of the current package among the names.
    pub position: nat,
    pub phase: PhaseView,
}

impl View for Output {
    type V = OutputView;

    open spec fn view(&self) -> OutputView {
        match self {
            Output::Line(text) => OutputView::Line(text@),
            Output::Warning(text) => OutputView::Warning(text@),
        }
    }
}

impl View for Request {
    type V = RequestView;

    open spec fn view(&self) -> RequestView {
        match self {
            Request::Fetch { url } => RequestView::Fetch { url: url@ },
            Request::Delete { url } => RequestView::Delete { url: url@ },
            Request::Finish => RequestView::Finish,
            Request::Abort { failure } => RequestView::Abort { failure: *failure },
        }
    }
}

/// Texts as mathematical values, in their order.
pub open spec fn texts(names: Seq<String>) -> Seq<Seq<char>> {
    names.map_values(|name: String| name@)
}

impl View for Session {
    type V = SessionView;

    closed spec fn view(&self) -> SessionView {
        SessionView {
            package_type: self.package_type@,
            package_names: texts(self.package_names@),
            command: self.command,
            position: self.position as nat,
            phase: match self.phase {
                Phase::Fetching => PhaseView::Fetching,
                Phase::Deleting { queue, next } => PhaseView::Deleting {
                    queue: views(queue@),
                    next: next as nat,
                },
                Phase::Over => PhaseView::Over,
            },
        }
    }
}

/// Outputs as mathematical values, in their order.
pub open spec fn output_views(output: Seq<Output>) -> Seq<OutputView> {
    output.map_values(|item: Output| item@)
}

impl View for Step {
    type V = StepView;

    open spec fn view(&self) -> StepView {
        StepView { output: output_views(self.output@), request: self.request@ }
    }
}

impl View for Event {
    type V = EventView;

    open spec fn view(&self) -> EventView {
        match self {
            Event::Fetched { body, packages } => EventView::Fetched {
                body: body@,
                packages: views(packages@),
            },
            Event::Deleted => EventView::Deleted,
            Event::Failed { failure } => EventView::Failed { failure: *failure },
        }
    }
}

/// What a listing prints for one record: the record in full, or its condensed line,
/// after a warning where the record has no tag.
pub open spec fn record_output(package: PackageView, raw: bool) -> Seq<OutputView> {
    if raw {
        seq![OutputView::Line(raw_text(package))]
    } else if package.tagged() {
        seq![OutputView::Line(condensed_text(package))]
    } else {
        seq![OutputView::Warning(MISSING_TAG_WARNING@), OutputView::Line(condensed_text(package))]
    }
}

/// What a listing prints for the records of a version list, in the list's order.
pub open spec fn listing(packages: Seq<PackageView>, raw: bool) -> Seq<OutputView>
    decreases packages.len(),
{
    if packages.len() == 0 {
        Seq::empty()
    } else {
        listing(packages.drop_last(), raw) + record_output(packages.last(), raw)
    }
}

/// What a collection pass prints before it asks for the deletion of a record: the line
/// that announces the deletion, after a warning where the record has no tag.
pub open spec fn announcement(package: PackageView) -> Seq<OutputView> {
    if package.tagged() {
        seq![OutputView::Line(deletion_text(package))]
    } else {
        seq![OutputView::Warning(MISSING_TAG_WARNING@), OutputView::Line(deletion_text(package))]
    }
}

impl StepView {
    /// The step with more output before its own.
    pub open spec fn after(self, output: Seq<OutputView>) -> StepView {
        StepView { output: output + self.output, request: self.request }
    }
}

impl SessionView {
    /// The session of a new run, and the step that opens it: the first package's
    /// heading and the request for its version list, or the end of the run where no
    /// package is named.
    pub open spec fn start(
        package_type: Seq<char>,
        package_names: Seq<Seq<char>>,
        command: Option<Commands>,
    ) -> (SessionView, StepView) {
        SessionView { package_type, package_names, command, position: 0, phase: PhaseView::Over }.turn_to(
            0,
        )
    }

    /// The name of the current package.
    pub open spec fn package_name(self) -> Seq<char> {
        self.package_names[self.position as int]
    }

    /// What holds of every session: while it runs, its current package is one of the
    /// names, and a collection pass waits for the deletion of one of its records.
    pub open spec fn wf(self) -> bool {
        match self.phase {
            PhaseView::Fetching => self.position < self.package_names.len(),
            PhaseView::Deleting { queue, next } => self.position < self.package_names.len() && next
                < queue.len(),
            PhaseView::Over => true,
        }
    }

    /// The request that the session is waiting on, or the end of the run where it waits
    /// on none.
    pub open spec fn pending(self) -> RequestView {
        match self.phase {
            PhaseView::Fetching => RequestView::Fetch {
                url: versions_address(self.package_type, self.package_name()),
            },
            PhaseView::Deleting { queue, next } => RequestView::Delete {
                url: version_address(
                    self.package_type,
                    self.package_name(),
                    queue[next as int].id,
                ),
            },
            PhaseView::Over => RequestView::Finish,
        }
    }

    /// Whether the event answers the request that the session is waiting on.
    pub open spec fn accepts(self, event: EventView) -> bool {
        match self.phase {
            PhaseView::Fetching => event is Fetched || event is Failed,
            PhaseView::Deleting { .. } => event is Deleted || event is Failed,
            PhaseView::Over => false,
        }
    }

    /// The session as it turns to the package at `position`: it prints the package's
    /// heading and asks for its version list, or ends the run where the names are
    /// exhausted.
    pub open spec fn turn_to(self, position: nat) -> (SessionView, StepView) {
        if position < self.package_names.len() {
            (
                SessionView { position, phase: PhaseView::Fetching, ..self },
                StepView {
                    output: seq![OutputView::Line(heading_text(self.package_names[position as int]))],
                    request: RequestView::Fetch {
                        url: versions_address(self.package_type, self.package_names[position as int]),
                    },
                },
            )
        } else {
            (
                SessionView { position, phase: PhaseView::Over, ..self },
                StepView { output: Seq::empty(), request: RequestView::Finish },
            )
        }
    }

    /// The session as its collection pass reaches `queue[next]`: it announces the
    /// deletion and asks for it, or turns to the next package where the queue is
    /// exhausted.
    pub open spec fn collect_from(self, queue: Seq<PackageView>, next: nat) -> (
        SessionView,
        StepView,
    ) {
        if next < queue.len() {
            (
                SessionView { phase: PhaseView::Deleting { queue, next }, ..self },
                StepView {
                    output: announcement(queue[next as int]),
                    request: RequestView::Delete {
                        url: version_address(
                            self.package_type,
                            self.package_name(),
                            queue[next as int].id,
                        ),
                    },
                },
            )
        } else {
            self.turn_to(self.position + 1)
        }
    }

    /// The session as it ends the run with a failure: nothing is printed, nothing more
    /// is asked.
    pub open spec fn abort(self, failure: AppError) -> (SessionView, StepView) {
        (
            SessionView { phase: PhaseView::Over, ..self },
            StepView { output: Seq::empty(), request: RequestView::Abort { failure } },
        )
    }

    /// The session as it takes in a version list: it does what the command says with
    /// the records, and goes on.
    pub open spec fn dispatch(self, body: Seq<char>, packages: Seq<PackageView>) -> (
        SessionView,
        StepView,
    ) {
        match self.command {
            None => self.turn_to(self.position + 1),
            Some(Commands::List { raw, debug }) => {
                let onward = self.turn_to(self.position + 1);
                let dump = if debug {
                    seq![OutputView::Line(body)]
                } else {
                    Seq::empty()
                };
                (
                    onward.0,
                    onward.1.after(
                        seq![OutputView::Line(LISTING_NOTICE@)] + dump + listing(packages, raw),
                    ),
                )
            },
            Some(Commands::GC { skip }) => {
                let onward = self.collect_from(candidates(packages, kept(skip)), 0);
                (onward.0, onward.1.after(seq![OutputView::Line(COLLECTING_NOTICE@)]))
            },
        }
    }

    /// The session after an event, and the step that it hands out. Of an event that
    /// does not answer its request the session takes no notice: it stays as it is,
    /// prints nothing and asks again for what it is waiting on.
    pub open spec fn step(self, event: EventView) -> (SessionView, StepView) {
        match (self.phase, event) {
            (PhaseView::Fetching, EventView::Fetched { body, packages }) => self.dispatch(
                body,
                packages,
            ),
            (PhaseView::Deleting { queue, next }, EventView::Deleted) => self.collect_from(
                queue,
                next + 1,
            ),
            (PhaseView::Fetching, EventView::Failed { failure }) => self.abort(failure),
            (PhaseView::Deleting { .. }, EventView::Failed { failure }) => self.abort(failure),
            _ => (self, StepView { output: Seq::empty(), request: self.pending() }),
        }
    }
}

/// Appends what a listing prints for one record.
fn push_record(output: &mut Vec<Output>, package: &Package, raw: bool)
    ensures
        output_views(final(output)@) == output_views(old(output)@) + record_output(package@, raw),
{
    if raw {
        output.push(Output::Line(raw_record(package)));
    } else {
        if package.first_tag().is_none() {
            output.push(Output::Warning(String::from_str(MISSING_TAG_WARNING)));
        }
        output.push(Output::Line(condensed_line(package)));
    }
}

/// Appends what a listing prints for the records of a version list.
fn push_listing(output: &mut Vec<Output>, packages: &Vec<Package>, raw: bool)
    ensures
        output_views(final(output)@) == output_views(old(output)@) + listing(views(packages@), raw),
{
    let mut i: usize = 0;
    while i < packages.len()
        invariant
            i <= packages.len(),
            output_views(output@) == output_views(old(output)@) + listing(
                views(packages@).take(i as int),
                raw,
            ),
        decreases packages.len() - i,
    {
        proof {
            let shown = views(packages@).take(i + 1);
            assert(shown.drop_last() =~= views(packages@).take(i as int));
        }
        push_record(output, &packages[i], raw);
        i += 1;
    }
    assert(views(packages@).take(i as int) =~= views(packages@));
}

/// Appends what a collection pass prints before it asks for the deletion of a record.
fn push_announcement(output: &mut Vec<Output>, package: &Package)
    ensures
        output_views(final(output)@) == output_views(old(output)@) + announcement(package@),
{
    if package.first_tag().is_none() {
        output.push(Output::Warning(String::from_str(MISSING_TAG_WARNING)));
    }
    output.push(Output::Line(deletion_line(package)));
}

impl Session {
    /// What holds of every session.
    #[verifier::type_invariant]
    closed spec fn well_formed(self) -> bool {
        self@.wf()
    }

    /// A session on the parts of an earlier one, as it turns to the package at
    /// `position`, with `output` before the step's own.
    fn turn_to(
        package_type: String,
        package_names: Vec<String>,
        command: Option<Commands>,
        position: usize,
        output: Vec<Output>,
    ) -> (turned: (Session, Step))
        ensures
            ({
                let model = SessionView {
                    package_type: package_type@,
                    package_names: texts(package_names@),
                    command,
                    position: 0,
                    phase: PhaseView::Over,
                }.turn_to(position as nat);
                &&& turned.0@ == model.0
                &&& turned.1@ == model.1.after(output_views(output@))
            }),
    {
        let ghost before = output_views(output@);
        let mut output = output;
        if position < package_names.len() {
            output.push(Output::Line(heading(package_names[position].as_str())));
            let url = versions_url(package_type.as_str(), package_names[position].as_str());
            let step = Step { output, request: Request::Fetch { url } };
            assert(step@.output =~= before + seq![
                OutputView::Line(heading_text(package_names@[position as int]@)),
            ]);
            (
                Session { package_type, package_names, command, position, phase: Phase::Fetching },
                step,
            )
        } else {
            (
                Session { package_type, package_names, command, position, phase: Phase::Over },
                Step { output, request: Request::Finish },
            )
        }
    }

    /// A session on the parts of an earlier one, as its collection pass reaches
    /// `queue[next]`, with `output` before the step's own.
    fn collect_from(
        package_type: String,
        package_names: Vec<String>,
        command: Option<Commands>,
        position: usize,
        queue: Vec<Package>,
        next: usize,
        output: Vec<Output>,
    ) -> (reached: (Session, Step))
        requires
            position < package_names.len(),
        ensures
            ({
                let model = SessionView {
                    package_type: package_type@,
                    package_names: texts(package_names@),
                    command,
                    position: position as nat,
                    phase: PhaseView::Over,
                }.collect_from(views(queue@), next as nat);
                &&& reached.0@ == model.0
                &&& reached.1@ == model.1.after(output_views(output@))
            }),
    {
        if next < queue.len() {
            let mut output = output;
            push_announcement(&mut output, &queue[next]);
            let url = version_url(
                package_type.as_str(),
                package_names[position].as_str(),
                queue[next].id,
            );
            (
                Session {
                    package_type,
                    package_names,
                    command,
                    position,
                    phase: Phase::Deleting { queue, next },
                },
                Step { output, request: Request::Delete { url } },
            )
        } else {
            Session::turn_to(package_type, package_names, command, position + 1, output)
        }
    }

    /// Begins a run over the named packages of one type. The first step prints the first
    /// package's heading and asks for its version list; with no package named it ends
    /// the run.
    pub fn start(
        package_type: String,
        package_names: Vec<String>,
        command: Option<Commands>,
    ) -> (begun: (Session, Step))
        ensures
            begun.0@ == SessionView::start(package_type@, texts(package_names@), command).0,
            begun.1@ == SessionView::start(package_type@, texts(package_names@), command).1,
            begun.0@.wf(),
    {
        Session::turn_to(package_type, package_names, command, 0, Vec::new())
    }

    /// Whether the run has ended.
    pub fn is_over(&self) -> (over: bool)
        ensures
            over == (self@.phase is Over),
    {
        match self.phase {
            Phase::Over => true,
            _ => false,
        }
    }

    /// Whether the event answers the request that the session is waiting on.
    pub fn accepts(&self, event: &Event) -> (accepted: bool)
        ensures
            accepted == self@.accepts(event@),
    {
        match self.phase {
            Phase::Fetching => match event {
                Event::Deleted => false,
                _ => true,
            },
            Phase::Deleting { .. } => match event {
                Event::Fetched { .. } => false,
                _ => true,
            },
            Phase::Over => false,
        }
    }

    /// The request that the session is waiting on, or the end of the run where it waits
    /// on none.
    pub fn pending(&self) -> (request: Request)
        ensures
            request@ == self@.pending(),
    {
        proof {
            use_type_invariant(self);
        }
        match &self.phase {
            Phase::Fetching => Request::Fetch {
                url: versions_url(
                    self.package_type.as_str(),
                    self.package_names[self.position].as_str(),
                ),
            },
            Phase::Deleting { queue, next } => Request::Delete {
                url: version_url(
                    self.package_type.as_str(),
                    self.package_names[self.position].as_str(),
                    queue[*next].id,
                ),
            },
            Phase::Over => Request::Finish,
        }
    }

    /// Takes in what came of the last request and says what to print and to ask next.
    ///
    /// After a version list: nothing more for a run without a command; the listing for
    /// `List`; for `GC` the notice and the first deletion. After a deletion: the next
    /// one. When a package is done, the next package's heading and the request for its
    /// version list, or the end of the run. After a failure: the end of the run with
    /// that failure, whatever was still to do. An event that does not answer the
    /// session's request changes nothing: the step prints nothing and repeats the
    /// request.
    pub fn step(self, event: Event) -> (next: (Session, Step))
        ensures
            next.0@ == self@.step(event@).0,
            next.1@ == self@.step(event@).1,
            next.0@.wf(),
    {
        proof {
            use_type_invariant(&self);
        }
        let ghost model = self@;
        if !self.accepts(&event) {
            let step = Step { output: Vec::new(), request: self.pending() };
            assert(step@.output =~= Seq::<OutputView>::empty());
            return (self, step);
        }
        assert(self.position < self.package_names.len());
        let Session { package_type, package_names, command, position, phase } = self;
        match event {
            Event::Failed { failure } => {
                let step = Step { output: Vec::new(), request: Request::Abort { failure } };
                assert(step@.output =~= Seq::<OutputView>::empty());
                (
                    Session { package_type, package_names, command, position, phase: Phase::Over },
                    step,
                )
            },
            Event::Deleted => match phase {
                Phase::Deleting { queue, next } => {
                    assert(next < queue.len());
                    Session::collect_from(
                        package_type,
                        package_names,
                        command,
                        position,
                        queue,
                        next + 1,
                        Vec::new(),
                    )
                },
                _ => unreached(),
            },
            Event::Fetched { body, packages } => match command {
                None => Session::turn_to(
                    package_type,
                    package_names,
                    command,
                    position + 1,
                    Vec::new(),
                ),
                Some(Commands::List { raw, debug }) => {
                    let mut output: Vec<Output> = Vec::new();
                    output.push(Output::Line(String::from_str(LISTING_NOTICE)));
                    if debug {
                        output.push(Output::Line(body));
                    }
                    push_listing(&mut output, &packages, raw);
                    let turned = Session::turn_to(
                        package_type,
                        package_names,
                        command,
                        position + 1,
                        output,
                    );
                    assert(turned.1@.output =~= model.step(event@).1.output);
                    turned
                },
                Some(Commands::GC { skip }) => {
                    let mut output: Vec<Output> = Vec::new();
                    output.push(Output::Line(String::from_str(COLLECTING_NOTICE)));
                    let queue = deletion_candidates(packages, skip_count(skip));
                    assert(views(queue@) =~= candidates(views(packages@), kept(skip)));
                    let reached = Session::collect_from(
                        package_type,
                        package_names,
                        command,
                        position,
                        queue,
                        0,
                        output,
                    );
                    assert(reached.1@.output =~= model.step(event@).1.output);
                    reached
                },
            },
        }
    }
}

} // verus!
