//! What holds of the receiver over a whole sequence of events.

use vstd::prelude::*;
use vstd::multiset::Multiset;
use crate::dir_entry::DirEntry;
use crate::exit_codes::ExitCode;
use crate::order::{
    distinct_paths, lemma_sort_by_path, lemma_sort_is_canonical, sort_by_path, sorted_by_path,
};
use crate::walk::{Event, ReceiverMode, ReceiverState, WorkerResult, MAX_BUFFER_LENGTH};

verus! {

/// The entries among `events`, in the order of their arrival.
pub open spec fn received(events: Seq<Event>) -> Seq<DirEntry>
    decreases events.len(),
{
    if events.len() == 0 {
        Seq::empty()
    } else {
        match events.last() {
            Event::Message(WorkerResult::Entry(entry)) => received(events.drop_last()).push(entry),
            _ => received(events.drop_last()),
        }
    }
}

/// The state that `events` lead to from `start`.
pub open spec fn run(start: ReceiverState, events: Seq<Event>) -> ReceiverState
    decreases events.len(),
{
    if events.len() == 0 {
        start
    } else {
        run(start, events.drop_last()).next(events.last())
    }
}

/// Everything handed out for printing while `events` are taken from `start`.
pub open spec fn printed(start: ReceiverState, events: Seq<Event>) -> Seq<DirEntry>
    decreases events.len(),
{
    if events.len() == 0 {
        Seq::empty()
    } else {
        printed(start, events.drop_last()) + run(start, events.drop_last()).step(
            events.last(),
        ).print
    }
}

/// Every event is a message from a worker.
pub open spec fn only_messages(events: Seq<Event>) -> bool {
    forall|i: int| 0 <= i < events.len() ==> #[trigger] events[i] is Message
}

/// The invariant of the receiver holds after any sequence of events.
pub proof fn lemma_run_keeps_invariant(deadline: u64, events: Seq<Event>)
    ensures
        run(ReceiverState::initial(deadline), events).inv(),
        run(ReceiverState::initial(deadline), events).deadline == deadline,
    decreases events.len(),
{
    if events.len() > 0 {
        lemma_run_keeps_invariant(deadline, events.drop_last());
    }
}

/// Streaming never turns back into buffering, and a stopped receiver stays
/// stopped with the same classification.
pub proof fn lemma_mode_is_monotonic(start: ReceiverState, events: Seq<Event>)
    ensures
        start.mode == ReceiverMode::Streaming ==> run(start, events).mode
            == ReceiverMode::Streaming,
        start.stopped.is_some() ==> run(start, events) == start && printed(start, events)
            == Seq::<DirEntry>::empty(),
    decreases events.len(),
{
    if events.len() > 0 {
        lemma_mode_is_monotonic(start, events.drop_last());
    }
}

/// While messages arrive and no more entries than the threshold have come,
/// the receiver holds them all back in arrival order and prints nothing.
pub proof fn lemma_buffering_holds_back(deadline: u64, messages: Seq<Event>)
    requires
        only_messages(messages),
        received(messages).len() <= MAX_BUFFER_LENGTH,
    ensures
        run(ReceiverState::initial(deadline), messages) == (ReceiverState {
            mode: ReceiverMode::Buffering,
            deadline,
            buffer: received(messages),
            num_results: received(messages).len() as usize,
            stopped: None,
        }),
        printed(ReceiverState::initial(deadline), messages) == Seq::<DirEntry>::empty(),
    decreases messages.len(),
{
    if messages.len() > 0 {
        let before = messages.drop_last();
        assert(only_messages(before));
        lemma_buffering_holds_back(deadline, before);
    }
}

/// A scan whose entries fit the threshold and whose workers finish before
/// any timeout prints all its entries, each once, sorted by path, and is
/// classified by whether there were any.
pub proof fn lemma_fast_scan_prints_sorted(deadline: u64, messages: Seq<Event>)
    requires
        only_messages(messages),
        received(messages).len() <= MAX_BUFFER_LENGTH,
    ensures
        ({
            let start = ReceiverState::initial(deadline);
            let events = messages.push(Event::Disconnected);
            &&& printed(start, events) == sort_by_path(received(messages))
            &&& sorted_by_path(printed(start, events))
            &&& printed(start, events).to_multiset() == received(messages).to_multiset()
            &&& run(start, events).stopped == Some(
                ExitCode::HasResults(received(messages).len() > 0),
            )
        }),
{
    let start = ReceiverState::initial(deadline);
    let events = messages.push(Event::Disconnected);
    lemma_buffering_holds_back(deadline, messages);
    lemma_sort_by_path(received(messages));
    assert(events.drop_last() =~= messages);
    assert(Seq::<DirEntry>::empty() + sort_by_path(received(messages)) =~= sort_by_path(
        received(messages),
    ));
}

/// Two fast scans that receive the same entries, each with a path of its
/// own, print the same sequence, in whatever order the entries arrived.
pub proof fn lemma_fast_scans_print_alike(
    deadline: u64,
    other_deadline: u64,
    messages: Seq<Event>,
    other_messages: Seq<Event>,
)
    requires
        only_messages(messages),
        only_messages(other_messages),
        received(messages).len() <= MAX_BUFFER_LENGTH,
        received(messages).to_multiset() == received(other_messages).to_multiset(),
        distinct_paths(received(messages)),
    ensures
        printed(ReceiverState::initial(deadline), messages.push(Event::Disconnected)) == printed(
            ReceiverState::initial(other_deadline),
            other_messages.push(Event::Disconnected),
        ),
{
    broadcast use vstd::seq_lib::group_to_multiset_ensures;
    vstd::seq_lib::to_multiset_len(received(messages));
    vstd::seq_lib::to_multiset_len(received(other_messages));
    lemma_fast_scan_prints_sorted(deadline, messages);
    lemma_fast_scan_prints_sorted(other_deadline, other_messages);
    lemma_sort_is_canonical(received(messages), received(other_messages));
}

/// Nothing is printed more often than it arrived: what was printed, together
/// with what is still held back, is contained in what arrived, and is
/// exactly what arrived as long as the receiver has not stopped. Until then
/// the result counter is positive exactly if an entry has arrived.
pub proof fn lemma_printed_at_most_once(deadline: u64, events: Seq<Event>)
    ensures
        ({
            let start = ReceiverState::initial(deadline);
            let end = run(start, events);
            let shown = printed(start, events).to_multiset().add(end.buffer.to_multiset());
            &&& shown.subset_of(received(events).to_multiset())
            &&& end.stopped.is_none() ==> shown == received(events).to_multiset()
            &&& end.stopped.is_none() ==> (end.num_results > 0) == (received(events).len() > 0)
        }),
    decreases events.len(),
{
    broadcast use vstd::seq_lib::group_to_multiset_ensures;
    let start = ReceiverState::initial(deadline);
    if events.len() == 0 {
        assert(printed(start, events).to_multiset() =~= Multiset::empty());
        assert(start.buffer.to_multiset() =~= Multiset::empty());
        assert(received(events).to_multiset() =~= Multiset::empty());
        assert(printed(start, events).to_multiset().add(start.buffer.to_multiset())
            =~= received(events).to_multiset());
    } else {
        let before = events.drop_last();
        let event = events.last();
        let mid = run(start, before);
        let end = run(start, events);
        let out = mid.step(event).print;
        lemma_printed_at_most_once(deadline, before);
        lemma_run_keeps_invariant(deadline, before);
        lemma_sort_by_path(mid.buffer);
        vstd::seq_lib::lemma_multiset_commutative(printed(start, before), out);
        let shown_before = printed(start, before).to_multiset().add(mid.buffer.to_multiset());
        let shown = printed(start, events).to_multiset().add(end.buffer.to_multiset());
        if mid.stopped.is_some() {
            assert(out =~= Seq::empty());
            assert(out.to_multiset() =~= Multiset::empty());
            assert(shown =~= shown_before);
            lemma_received_grows(events);
        } else {
            match event {
                Event::Message(WorkerResult::Entry(entry)) => {
                    let held = mid.buffer.push(entry);
                    lemma_sort_by_path(held);
                    assert(received(events) == received(before).push(entry));
                    assert(seq![entry].to_multiset() =~= Multiset::empty().insert(entry)) by {
                        assert(seq![entry] =~= Seq::<DirEntry>::empty().push(entry));
                    }
                    assert(Seq::<DirEntry>::empty().to_multiset() =~= Multiset::empty());
                    assert(shown =~= shown_before.insert(entry));
                    assert(shown =~= received(events).to_multiset());
                },
                _ => {
                    assert(received(events) == received(before));
                    assert(Seq::<DirEntry>::empty().to_multiset() =~= Multiset::empty());
                    assert(shown =~= shown_before);
                },
            }
        }
    }
}

/// What arrived up to some point is contained in what arrived after one
/// more event.
proof fn lemma_received_grows(events: Seq<Event>)
    requires
        events.len() > 0,
    ensures
        received(events.drop_last()).to_multiset().subset_of(received(events).to_multiset()),
{
    broadcast use vstd::seq_lib::group_to_multiset_ensures;
}

/// A scan that runs until every worker has finished, without a failure of
/// the output, has printed exactly what arrived, each entry once, and is
/// classified by whether anything arrived.
pub proof fn lemma_complete_scan_prints_each_once(deadline: u64, body: Seq<Event>)
    requires
        run(ReceiverState::initial(deadline), body).stopped.is_none(),
    ensures
        ({
            let start = ReceiverState::initial(deadline);
            let events = body.push(Event::Disconnected);
            &&& printed(start, events).to_multiset() == received(body).to_multiset()
            &&& received(events) == received(body)
            &&& run(start, events).stopped == Some(ExitCode::HasResults(received(body).len() > 0))
        }),
{
    broadcast use vstd::seq_lib::group_to_multiset_ensures;
    let start = ReceiverState::initial(deadline);
    let events = body.push(Event::Disconnected);
    assert(events.drop_last() =~= body);
    lemma_printed_at_most_once(deadline, events);
    lemma_printed_at_most_once(deadline, body);
    let mid = run(start, body);
    lemma_sort_by_path(mid.buffer);
    vstd::seq_lib::lemma_multiset_commutative(printed(start, body), sort_by_path(mid.buffer));
    assert(run(start, events).buffer.to_multiset() =~= Multiset::empty());
    assert(printed(start, events).to_multiset() =~= received(body).to_multiset());
}

/// Two scans that run to their end and receive the same entries print the
/// same entries, each as often as it arrived, whatever the order and the
/// timing of the events.
pub proof fn lemma_complete_scans_print_same_entries(
    deadline: u64,
    other_deadline: u64,
    body: Seq<Event>,
    other_body: Seq<Event>,
)
    requires
        run(ReceiverState::initial(deadline), body).stopped.is_none(),
        run(ReceiverState::initial(other_deadline), other_body).stopped.is_none(),
        received(body).to_multiset() == received(other_body).to_multiset(),
    ensures
        printed(
            ReceiverState::initial(deadline),
            body.push(Event::Disconnected),
        ).to_multiset() == printed(
            ReceiverState::initial(other_deadline),
            other_body.push(Event::Disconnected),
        ).to_multiset(),
{
    lemma_complete_scan_prints_each_once(deadline, body);
    lemma_complete_scan_prints_each_once(other_deadline, other_body);
}

} // verus!
