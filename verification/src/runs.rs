//! What holds of a session over more than one step: a listing as a whole, a collection
//! pass as a whole, and the end of a run.

use crate::endpoint::{version_address, versions_address};
use crate::packages::PackageView;
use crate::report::{condensed_text, raw_text, COLLECTING_NOTICE};
use crate::retention::{candidates, kept, lemma_candidates};
use crate::session::{
    announcement, listing, record_output, Commands, EventView, OutputView, PhaseView, RequestView,
    SessionView, StepView,
};
use vstd::prelude::*;

verus! {

/// The lines for the standard output among some output, in their order.
pub open spec fn printed_lines(output: Seq<OutputView>) -> Seq<Seq<char>>
    decreases output.len(),
{
    if output.len() == 0 {
        Seq::empty()
    } else {
        match output.last() {
            OutputView::Line(text) => printed_lines(output.drop_last()).push(text),
            OutputView::Warning(_) => printed_lines(output.drop_last()),
        }
    }
}

/// The line that a listing prints for a record.
pub open spec fn listed_text(package: PackageView, raw: bool) -> Seq<char> {
    if raw {
        raw_text(package)
    } else {
        condensed_text(package)
    }
}

/// The session and the step that a pass has reached when `count` more deletions have
/// been confirmed.
pub open spec fn after_deletions(state: (SessionView, StepView), count: nat) -> (
    SessionView,
    StepView,
)
    decreases count,
{
    if count == 0 {
        state
    } else {
        after_deletions(state, (count - 1) as nat).0.step(EventView::Deleted)
    }
}

/// The lines of two outputs in a row are the lines of the first, then those of the
/// second.
pub proof fn lemma_printed_lines_of_both(first: Seq<OutputView>, second: Seq<OutputView>)
    ensures
        printed_lines(first + second) == printed_lines(first) + printed_lines(second),
    decreases second.len(),
{
    if second.len() > 0 {
        assert((first + second).drop_last() =~= first + second.drop_last());
        lemma_printed_lines_of_both(first, second.drop_last());
    }
}

/// A listing prints one line for each record of the list, in the list's order: the
/// record in full where `raw` is set, and otherwise the condensed line, which holds
/// nothing but the record's timestamp and its first tag or the placeholder.
pub proof fn lemma_listing_lines(packages: Seq<PackageView>, raw: bool)
    ensures
        printed_lines(listing(packages, raw)).len() == packages.len(),
        forall|i: int|
            0 <= i < packages.len() ==> #[trigger] printed_lines(listing(packages, raw))[i]
                == listed_text(packages[i], raw),
    decreases packages.len(),
{
    if packages.len() > 0 {
        let earlier = packages.drop_last();
        let last = record_output(packages.last(), raw);
        lemma_listing_lines(earlier, raw);
        lemma_printed_lines_of_both(listing(earlier, raw), last);
        assert(printed_lines(last) =~= seq![listed_text(packages.last(), raw)]) by {
            reveal_with_fuel(printed_lines, 3);
        }
    }
}

/// Two records with the same timestamp and the same tags have the same condensed line,
/// whatever else they hold.
pub proof fn lemma_condensed_reads_timestamp_and_tags(one: PackageView, other: PackageView)
    requires
        one.created_at == other.created_at,
        one.tags() == other.tags(),
    ensures
        condensed_text(one) == condensed_text(other),
{
}

/// A session is still well formed after an event.
pub proof fn lemma_step_keeps_session_well_formed(session: SessionView, event: EventView)
    requires
        session.wf(),
    ensures
        session.step(event).0.wf(),
{
}

/// One request is outstanding at a time: what a step asks for is what the session then
/// waits on, unless the step ends the run with a failure.
pub proof fn lemma_step_asks_what_session_awaits(session: SessionView, event: EventView)
    requires
        session.wf(),
    ensures
        ({
            let next = session.step(event);
            if session.accepts(event) && event is Failed {
                next.1.request == (RequestView::Abort { failure: event->failure })
                    && next.0.pending() == RequestView::Finish
            } else {
                next.1.request == next.0.pending()
            }
        }),
{
}

/// An event that does not answer the session's request changes nothing: the session
/// stays as it is, and the step prints nothing and repeats the request.
pub proof fn lemma_stray_event_changes_nothing(session: SessionView, event: EventView)
    requires
        !session.accepts(event),
    ensures
        session.step(event).0 == session,
        session.step(event).1 == (StepView { output: Seq::empty(), request: session.pending() }),
{
}

/// The packages are handled one after another, in the order of their names, and the
/// version list of each is asked for once: after an event that is no failure the
/// session either stays with its package, in a collection pass, or has turned to the
/// next one, whose version list the step asks for, or has ended the run where that was
/// the last.
pub proof fn lemma_one_package_after_another(session: SessionView, event: EventView)
    requires
        session.wf(),
        session.accepts(event),
        !(event is Failed),
    ensures
        ({
            let next = session.step(event);
            let onward = session.turn_to(session.position + 1);
            ||| next.0.position == session.position && next.0.phase is Deleting
                && next.1.request is Delete
            ||| next.0 == onward.0 && next.1.request == onward.1.request
        }),
        session.turn_to(session.position + 1).1.request == (if session.position + 1
            < session.package_names.len() {
            RequestView::Fetch {
                url: versions_address(
                    session.package_type,
                    session.package_names[(session.position + 1) as int],
                ),
            }
        } else {
            RequestView::Finish
        }),
{
}

/// A failure ends the run at once: nothing is printed, the failure is handed back, and
/// the session accepts no further event.
pub proof fn lemma_failure_ends_run(session: SessionView, failure: crate::error::AppError, later: EventView)
    requires
        session.accepts(EventView::Failed { failure }),
    ensures
        session.step(EventView::Failed { failure }).1 == (StepView {
            output: Seq::empty(),
            request: RequestView::Abort { failure },
        }),
        !session.step(EventView::Failed { failure }).0.accepts(later),
{
}

/// A collection pass over a list of `L` records that keeps `N` of them asks for no
/// deletion where `L <= N`, and otherwise for exactly `L - N`, one at a time: once
/// `count` deletions are confirmed it announces and asks for the deletion of the record
/// at position `N + count` of the list, and when that position is past the end it turns
/// to the next package.
pub proof fn lemma_collection_pass(
    session: SessionView,
    body: Seq<char>,
    packages: Seq<PackageView>,
    skip: Option<usize>,
    count: nat,
)
    requires
        session.wf(),
        session.phase is Fetching,
        session.command == Some(Commands::GC { skip }),
        kept(skip) + count <= packages.len() || count == 0,
    ensures
        ({
            let reached = after_deletions(
                session.step(EventView::Fetched { body, packages }),
                count,
            );
            let index = kept(skip) + count;
            let notice = if count == 0 {
                seq![OutputView::Line(COLLECTING_NOTICE@)]
            } else {
                Seq::empty()
            };
            if index < packages.len() {
                &&& reached.0 == SessionView {
                    phase: PhaseView::Deleting {
                        queue: candidates(packages, kept(skip)),
                        next: count,
                    },
                    ..session
                }
                &&& reached.1.output == notice + announcement(packages[index as int])
                &&& reached.1.request == RequestView::Delete {
                    url: version_address(
                        session.package_type,
                        session.package_name(),
                        packages[index as int].id,
                    ),
                }
            } else {
                &&& reached.0 == session.turn_to(session.position + 1).0
                &&& reached.1 == session.turn_to(session.position + 1).1.after(notice)
            }
        }),
    decreases count,
{
    lemma_candidates(packages, kept(skip));
    if count > 0 {
        lemma_collection_pass(session, body, packages, skip, (count - 1) as nat);
    }
}

} // verus!
