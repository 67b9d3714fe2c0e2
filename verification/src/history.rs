//! What holds of an output over any run of events.

use crate::laws::{
    law_drain_discards_late_backlog, law_drain_keeps_order, law_outputs_stay_valid,
    law_oversized_push_keeps_its_end, law_push_drops_only_the_oldest,
    law_second_stage_keeps_its_target, line, within_target,
};
use crate::model::{count, RingView};
use crate::output::OutputView;
use crate::sizes::{drain_target, latency_limit, ring_capacity};
use vstd::prelude::*;

verus! {

/// What can happen to an open output.
pub enum Event {
    /// Decoded samples arrive.
    Arrive(Seq<i16>),
    /// The drain thread takes a turn.
    Drain,
    /// The device asks for samples.
    Callback(nat),
    /// The volume is set.
    Volume(u32),
}

/// The output after an event.
pub open spec fn step(output: OutputView, event: Event) -> OutputView {
    match event {
        Event::Arrive(samples) => output.push(samples),
        Event::Drain => output.drain(),
        Event::Callback(len) => output.render(len),
        Event::Volume(volume128) => output.set_volume(volume128),
    }
}

/// The samples that are taken in at an event. At volume 0 none are.
pub open spec fn arrived(output: OutputView, event: Event) -> Seq<i16> {
    match event {
        Event::Arrive(samples) => if output.volume128 == 0 {
            Seq::empty()
        } else {
            samples
        },
        _ => Seq::empty(),
    }
}

/// The queued samples that are played at an event, before the volume.
pub open spec fn played(output: OutputView, event: Event) -> Seq<i16> {
    match event {
        Event::Callback(len) => output.device.queue.take(output.device.playable(len) as int),
        _ => Seq::empty(),
    }
}

/// The output after a run of events.
pub open spec fn after_all(output: OutputView, events: Seq<Event>) -> OutputView
    decreases events.len(),
{
    if events.len() == 0 {
        output
    } else {
        step(after_all(output, events.drop_last()), events.last())
    }
}

/// All that is taken in during a run of events, in order.
pub open spec fn all_arrived(output: OutputView, events: Seq<Event>) -> Seq<i16>
    decreases events.len(),
{
    if events.len() == 0 {
        Seq::empty()
    } else {
        all_arrived(output, events.drop_last()) + arrived(
            after_all(output, events.drop_last()),
            events.last(),
        )
    }
}

/// All that is played during a run of events, in order, before the volume.
pub open spec fn all_played(output: OutputView, events: Seq<Event>) -> Seq<i16>
    decreases events.len(),
{
    if events.len() == 0 {
        Seq::empty()
    } else {
        all_played(output, events.drop_last()) + played(
            after_all(output, events.drop_last()),
            events.last(),
        )
    }
}

/// Whenever samples are taken in, the first stage has room for them.
pub open spec fn always_room(output: OutputView, events: Seq<Event>) -> bool
    decreases events.len(),
{
    events.len() == 0 || {
        let mid = after_all(output, events.drop_last());
        &&& always_room(output, events.drop_last())
        &&& mid.decode.queue.len() + arrived(mid, events.last()).len() <= mid.decode.capacity
    }
}

/// No more samples are ever taken in at once than the first stage can hold.
pub open spec fn never_oversized(output: OutputView, events: Seq<Event>) -> bool
    decreases events.len(),
{
    events.len() == 0 || {
        let mid = after_all(output, events.drop_last());
        &&& never_oversized(output, events.drop_last())
        &&& arrived(mid, events.last()).len() <= mid.decode.capacity
    }
}

/// The second stage is within the latency limit.
pub open spec fn in_time(output: OutputView) -> bool {
    output.device.queue.len() <= latency_limit(output.buffer_samples)
}

/// Both stages are as they are when an output is opened.
pub open spec fn is_new(output: OutputView) -> bool {
    &&& output.decode == RingView::fresh(ring_capacity(output.buffer_samples), 0)
    &&& output.device == RingView::fresh(
        ring_capacity(output.buffer_samples),
        drain_target(output.buffer_samples),
    )
}

/// An output stays valid whatever happens to it, and its second stage stays
/// within its target and within the latency limit once it is.
pub proof fn law_histories_stay_valid(output: OutputView, events: Seq<Event>)
    requires
        output.valid(),
    ensures
        after_all(output, events).valid(),
        after_all(output, events).buffer_samples == output.buffer_samples,
        within_target(output) ==> within_target(after_all(output, events)),
        in_time(output) ==> in_time(after_all(output, events)),
    decreases events.len(),
{
    if events.len() > 0 {
        law_histories_stay_valid(output, events.drop_last());
        lemma_step_stays_valid(after_all(output, events.drop_last()), events.last());
    }
}

proof fn lemma_step_stays_valid(output: OutputView, event: Event)
    requires
        output.valid(),
    ensures
        step(output, event).valid(),
        step(output, event).buffer_samples == output.buffer_samples,
        within_target(output) ==> within_target(step(output, event)),
        in_time(output) ==> in_time(step(output, event)),
{
    match event {
        Event::Arrive(samples) => {
            law_outputs_stay_valid(output, samples, 0, 0);
        },
        Event::Drain => {
            law_outputs_stay_valid(output, Seq::empty(), 0, 0);
            if within_target(output) {
                law_second_stage_keeps_its_target(output, Seq::empty(), 0, 0);
            }
        },
        Event::Callback(len) => {
            law_outputs_stay_valid(output, Seq::empty(), len, 0);
        },
        Event::Volume(volume128) => {
            law_outputs_stay_valid(output, Seq::empty(), 0, volume128);
        },
    }
}

/// The listener hears what was taken in, in the order in which it arrived,
/// however arrivals, drains, callbacks and changes of the volume interleave: as
/// long as the first stage does not overflow, what was played and what still
/// waits make up what waited at first and all that was taken in since.
pub proof fn law_two_stages_preserve_order(output: OutputView, events: Seq<Event>)
    requires
        output.valid(),
        in_time(output),
        always_room(output, events),
    ensures
        all_played(output, events) + line(after_all(output, events)) == line(output) + all_arrived(
            output,
            events,
        ),
    decreases events.len(),
{
    if events.len() == 0 {
        assert(all_played(output, events) + line(output) =~= line(output) + all_arrived(
            output,
            events,
        ));
    } else {
        let before = events.drop_last();
        let event = events.last();
        let mid = after_all(output, before);
        law_two_stages_preserve_order(output, before);
        law_histories_stay_valid(output, before);
        lemma_step_preserves_order(mid, event);
        lemma_regroup(
            all_played(output, before),
            line(mid),
            line(output),
            all_arrived(output, before),
            played(mid, event),
            line(step(mid, event)),
            arrived(mid, event),
        );
    }
}

/// Both ends of a run of events, put together from what held before the last
/// event and what that event does.
proof fn lemma_regroup(
    heard: Seq<i16>,
    waiting: Seq<i16>,
    at_first: Seq<i16>,
    came: Seq<i16>,
    heard_now: Seq<i16>,
    waiting_now: Seq<i16>,
    came_now: Seq<i16>,
)
    requires
        heard + waiting == at_first + came,
        heard_now + waiting_now == waiting + came_now,
    ensures
        (heard + heard_now) + waiting_now == at_first + (came + came_now),
{
    assert((heard + heard_now) + waiting_now =~= heard + (heard_now + waiting_now));
    assert(heard + (waiting + came_now) =~= (heard + waiting) + came_now);
    assert((at_first + came) + came_now =~= at_first + (came + came_now));
}

proof fn lemma_step_preserves_order(output: OutputView, event: Event)
    requires
        output.valid(),
        in_time(output),
        output.decode.queue.len() + arrived(output, event).len() <= output.decode.capacity,
    ensures
        played(output, event) + line(step(output, event)) == line(output) + arrived(output, event),
{
    match event {
        Event::Arrive(samples) => {
            if output.volume128 > 0 {
                assert(output.push(samples).decode.queue =~= output.decode.queue + samples);
            }
        },
        Event::Drain => {
            law_drain_keeps_order(output);
        },
        _ => {},
    }
    assert(played(output, event) + line(step(output, event)) =~= line(output) + arrived(
        output,
        event,
    ));
}

/// The volume is the one that was set last, however much happened since, or the
/// one at first where none was set.
pub proof fn law_volume_is_the_last_one_set(output: OutputView, events: Seq<Event>, last: int)
    requires
        -1 <= last < events.len(),
        last >= 0 ==> events[last] is Volume,
        forall|i: int| last < i < events.len() ==> !(#[trigger] events[i] is Volume),
    ensures
        last < 0 ==> after_all(output, events).volume128 == output.volume128,
        last >= 0 ==> (events[last] matches Event::Volume(v) && after_all(output, events).volume128
            == (if v <= 128 {
            v
        } else {
            128
        })),
    decreases events.len(),
{
    if events.len() > 0 && last < events.len() - 1 {
        let before = events.drop_last();
        assert(!(events[events.len() - 1] is Volume));
        assert forall|i: int| last < i < before.len() implies !(#[trigger] before[i] is Volume) by {
            assert(before[i] == events[i]);
        }
        law_volume_is_the_last_one_set(output, before, last);
    }
}

/// `part` is `whole` with some samples left out: `places` says where each of its
/// samples stands there.
pub open spec fn picked_at(part: Seq<i16>, whole: Seq<i16>, places: Seq<int>) -> bool {
    &&& places.len() == part.len()
    &&& forall|i: int|
        0 <= i < part.len() ==> 0 <= #[trigger] places[i] < whole.len() && part[i]
            == whole[places[i]]
    &&& forall|i: int, j: int|
        0 <= i < j < part.len() ==> #[trigger] places[i] < #[trigger] places[j]
}

/// `part` is `whole` with some samples left out and the rest in order.
pub open spec fn in_order(part: Seq<i16>, whole: Seq<i16>) -> bool {
    exists|places: Seq<int>| picked_at(part, whole, places)
}

/// Leaving out the samples from `from` to `to` keeps the rest in order.
proof fn lemma_in_order_cut(part: Seq<i16>, whole: Seq<i16>, from: int, to: int)
    requires
        in_order(part, whole),
        0 <= from <= to <= part.len(),
    ensures
        in_order(part.take(from) + part.skip(to), whole),
{
    let places = choose|places: Seq<int>| picked_at(part, whole, places);
    let left = places.take(from) + places.skip(to);
    assert(picked_at(part.take(from) + part.skip(to), whole, left));
}

/// The same samples behind both keep them in order.
proof fn lemma_in_order_append(part: Seq<i16>, whole: Seq<i16>, more: Seq<i16>)
    requires
        in_order(part, whole),
    ensures
        in_order(part + more, whole + more),
{
    let places = choose|places: Seq<int>| picked_at(part, whole, places);
    let all = places + Seq::new(more.len(), |i: int| whole.len() + i);
    assert(picked_at(part + more, whole + more, all));
}

/// Nothing is ever heard out of order, twice, or without having arrived, even
/// where stages overflow or are cleared: what was played and what still waits is
/// what waited at first and all that was taken in since, with nothing but gaps.
pub proof fn law_nothing_is_heard_out_of_order(output: OutputView, events: Seq<Event>)
    requires
        output.valid(),
    ensures
        in_order(
            all_played(output, events) + line(after_all(output, events)),
            line(output) + all_arrived(output, events),
        ),
    decreases events.len(),
{
    if events.len() == 0 {
        let all = line(output);
        assert(all_played(output, events) + all =~= all);
        assert(all + all_arrived(output, events) =~= all);
        assert(picked_at(all, all, Seq::new(all.len(), |i: int| i)));
    } else {
        let before = events.drop_last();
        let event = events.last();
        let mid = after_all(output, before);
        law_nothing_is_heard_out_of_order(output, before);
        law_histories_stay_valid(output, before);
        let gap = lemma_step_leaves_a_gap(mid, event);
        lemma_in_order_regroup(
            all_played(output, before),
            line(mid),
            line(output),
            all_arrived(output, before),
            played(mid, event),
            line(step(mid, event)),
            arrived(mid, event),
            gap,
        );
    }
}

/// Both ends of a run of events, put together from what held before the last
/// event and the gap that this event leaves.
proof fn lemma_in_order_regroup(
    heard: Seq<i16>,
    waiting: Seq<i16>,
    at_first: Seq<i16>,
    came: Seq<i16>,
    heard_now: Seq<i16>,
    waiting_now: Seq<i16>,
    came_now: Seq<i16>,
    gap: (int, int),
)
    requires
        in_order(heard + waiting, at_first + came),
        0 <= gap.0 <= gap.1 <= (waiting + came_now).len(),
        heard_now + waiting_now == (waiting + came_now).take(gap.0) + (waiting + came_now).skip(
            gap.1,
        ),
    ensures
        in_order((heard + heard_now) + waiting_now, at_first + (came + came_now)),
{
    let rest = waiting + came_now;
    lemma_in_order_append(heard + waiting, at_first + came, came_now);
    assert((heard + waiting) + came_now =~= heard + rest);
    assert((at_first + came) + came_now =~= at_first + (came + came_now));
    lemma_in_order_cut(
        heard + rest,
        at_first + (came + came_now),
        heard.len() + gap.0,
        heard.len() + gap.1,
    );
    lemma_gap_behind(heard, rest, heard_now, waiting_now, gap.0, gap.1);
}

/// A gap further back is a gap of the whole.
proof fn lemma_gap_behind(
    heard: Seq<i16>,
    rest: Seq<i16>,
    heard_now: Seq<i16>,
    waiting_now: Seq<i16>,
    from: int,
    to: int,
)
    requires
        0 <= from <= to <= rest.len(),
        heard_now + waiting_now == rest.take(from) + rest.skip(to),
    ensures
        (heard + heard_now) + waiting_now == (heard + rest).take(heard.len() + from) + (heard
            + rest).skip(heard.len() + to),
{
    assert((heard + heard_now) + waiting_now =~= heard + (heard_now + waiting_now));
    assert((heard + rest).take(heard.len() + from) =~= heard + rest.take(from));
    assert((heard + rest).skip(heard.len() + to) =~= rest.skip(to));
    assert(heard + (rest.take(from) + rest.skip(to)) =~= (heard + rest.take(from)) + rest.skip(to));
}

/// What one event plays and leaves waiting is what waited and what was taken in,
/// but for one gap.
proof fn lemma_step_leaves_a_gap(output: OutputView, event: Event) -> (gap: (int, int))
    requires
        output.valid(),
    ensures
        0 <= gap.0 <= gap.1 <= (line(output) + arrived(output, event)).len(),
        played(output, event) + line(step(output, event)) == (line(output) + arrived(
            output,
            event,
        )).take(gap.0) + (line(output) + arrived(output, event)).skip(gap.1),
{
    let device = output.device.queue;
    let joined = line(output) + arrived(output, event);
    match event {
        Event::Arrive(_) => {
            let excess = lemma_arrival_cuts_the_first_stage(output, event);
            let first = output.decode.queue + arrived(output, event);
            assert(joined =~= device + first);
            lemma_gap_behind(device, first, Seq::empty(), first.skip(excess), 0, excess);
            assert(first.take(0) + first.skip(excess) =~= Seq::empty() + first.skip(excess));
            assert(device + Seq::empty() =~= device);
            assert(played(output, event) + line(step(output, event)) =~= device + first.skip(
                excess,
            ));
            (device.len() as int, device.len() + excess)
        },
        Event::Drain => {
            let now = line(output.drain());
            assert(joined =~= line(output));
            assert(played(output, event) + now =~= now);
            if in_time(output) {
                law_drain_keeps_order(output);
                assert(now =~= joined.take(0) + joined.skip(0));
                (0, 0)
            } else {
                law_drain_discards_late_backlog(output);
                assert(now =~= output.decode.queue);
                assert(now =~= joined.take(0) + joined.skip(device.len() as int));
                (0, device.len() as int)
            }
        },
        _ => {
            lemma_step_keeps_all(output, event);
            assert(joined =~= joined.take(0) + joined.skip(0));
            (0, 0)
        },
    }
}

/// An arrival leaves the second stage alone and the first with the newest of
/// what it held and what was taken in.
proof fn lemma_arrival_cuts_the_first_stage(output: OutputView, event: Event) -> (excess: int)
    requires
        output.valid(),
        event is Arrive,
    ensures
        0 <= excess <= (output.decode.queue + arrived(output, event)).len(),
        step(output, event).decode.queue == (output.decode.queue + arrived(output, event)).skip(
            excess,
        ),
        step(output, event).device == output.device,
{
    let first = output.decode.queue + arrived(output, event);
    let over: int = first.len() - output.decode.capacity;
    let excess: int = if over > 0 {
        over
    } else {
        0
    };
    assert(step(output, event).decode.queue =~= first.skip(excess));
    excess
}

/// A callback or a change of the volume loses nothing.
proof fn lemma_step_keeps_all(output: OutputView, event: Event)
    requires
        output.valid(),
        event is Callback || event is Volume,
    ensures
        played(output, event) + line(step(output, event)) == line(output) + arrived(output, event),
{
    assert(played(output, event) + line(step(output, event)) =~= line(output) + arrived(
        output,
        event,
    ));
}

/// What the totals and the queues account for: samples played, dropped or still
/// waiting.
pub open spec fn accounted(output: OutputView) -> int {
    output.device.pulled + output.decode.dropped + output.device.dropped + line(output).len()
}

/// The totals balance over any history of an output: until the first wraps, they
/// count exactly what was taken in and what was played; no more is played,
/// dropped and still waiting than was taken in, and no less either as long as no
/// more is taken in at once than the first stage can hold.
pub proof fn law_totals_balance(output: OutputView, events: Seq<Event>)
    requires
        output.valid(),
        is_new(output),
        all_arrived(output, events).len() <= u64::MAX,
    ensures
        after_all(output, events).decode.pushed == all_arrived(output, events).len(),
        after_all(output, events).device.pulled == all_played(output, events).len(),
        accounted(after_all(output, events)) <= after_all(output, events).decode.pushed,
        never_oversized(output, events) ==> accounted(after_all(output, events)) == after_all(
            output,
            events,
        ).decode.pushed,
    decreases events.len(),
{
    if events.len() > 0 {
        let before = events.drop_last();
        law_totals_balance(output, before);
        law_histories_stay_valid(output, before);
        lemma_step_balances(after_all(output, before), events.last());
    }
}

proof fn lemma_step_balances(output: OutputView, event: Event)
    requires
        output.valid(),
        accounted(output) <= output.decode.pushed,
        output.decode.pushed + arrived(output, event).len() <= u64::MAX,
    ensures
        step(output, event).decode.pushed == output.decode.pushed + arrived(output, event).len(),
        step(output, event).device.pulled == output.device.pulled + played(output, event).len(),
        accounted(step(output, event)) <= accounted(output) + arrived(output, event).len(),
        arrived(output, event).len() <= output.decode.capacity ==> accounted(step(output, event))
            == accounted(output) + arrived(output, event).len(),
{
    let now = step(output, event);
    match event {
        Event::Arrive(samples) => {
            if output.volume128 > 0 && samples.len() > 0 {
                let lost = output.decode.lost(samples.len(), u64::MAX);
                lemma_counts(output.decode.pushed, samples.len());
                lemma_counts(output.decode.dropped, lost);
                if samples.len() <= output.decode.capacity {
                    law_push_drops_only_the_oldest(output.decode, samples, u64::MAX);
                } else if output.decode.capacity > 0 {
                    law_oversized_push_keeps_its_end(output.decode, samples, u64::MAX);
                }
            }
        },
        Event::Drain => {
            lemma_counts(output.device.dropped, output.device.queue.len());
            if in_time(output) {
                law_drain_keeps_order(output);
            } else {
                law_drain_discards_late_backlog(output);
            }
        },
        Event::Callback(len) => {
            lemma_counts(output.device.pulled, output.device.playable(len));
            lemma_step_keeps_all(output, event);
            assert((played(output, event) + line(now)).len() == line(output).len());
        },
        Event::Volume(_) => {},
    }
}

/// A total that does not wrap counts exactly.
proof fn lemma_counts(total: u64, n: nat)
    ensures
        total + n <= u64::MAX ==> count(total, n) == total + n,
{
}

/// What the totals leave unaccounted for. Totals wrap, so this is a number modulo
/// their range.
pub open spec fn unaccounted(output: OutputView) -> int {
    (output.decode.pushed - accounted(output)) % 0x1_0000_0000_0000_0000
}

/// The totals balance from any state on and also where they wrap: what they leave
/// unaccounted for never changes, as long as no more is taken in at once than the
/// first stage can hold.
pub proof fn law_wrapped_totals_balance(output: OutputView, events: Seq<Event>)
    requires
        output.valid(),
        never_oversized(output, events),
    ensures
        unaccounted(after_all(output, events)) == unaccounted(output),
    decreases events.len(),
{
    if events.len() > 0 {
        law_wrapped_totals_balance(output, events.drop_last());
        law_histories_stay_valid(output, events.drop_last());
        lemma_step_balances_wrapped(after_all(output, events.drop_last()), events.last());
    }
}

proof fn lemma_step_balances_wrapped(output: OutputView, event: Event)
    requires
        output.valid(),
        arrived(output, event).len() <= output.decode.capacity,
    ensures
        unaccounted(step(output, event)) == unaccounted(output),
{
    let now = step(output, event);
    let range: int = 0x1_0000_0000_0000_0000;
    let left: int = output.decode.pushed - accounted(output);
    let left_now: int = now.decode.pushed - accounted(now);
    match event {
        Event::Arrive(samples) => {
            if samples.len() > 0 && output.volume128 > 0 {
                let lost = output.decode.lost(samples.len(), u64::MAX);
                law_push_drops_only_the_oldest(output.decode, samples, u64::MAX);
                lemma_wraps(
                    (output.decode.pushed + samples.len()) / range - (output.decode.dropped + lost)
                        / range,
                    left_now,
                    left,
                );
            }
        },
        Event::Drain => {
            if in_time(output) {
                law_drain_keeps_order(output);
            } else {
                law_drain_discards_late_backlog(output);
                lemma_wraps(
                    -((output.device.dropped + output.device.queue.len()) / range),
                    left_now,
                    left,
                );
            }
        },
        Event::Callback(len) => {
            let n = output.device.playable(len);
            lemma_step_keeps_all(output, event);
            assert((played(output, event) + line(now)).len() == line(output).len());
            lemma_wraps(-((output.device.pulled + n) / range), left_now, left);
        },
        Event::Volume(_) => {},
    }
}

/// Numbers that lie whole ranges apart are the same total.
proof fn lemma_wraps(rounds: int, now: int, before: int)
    ensures
        now == before - 0x1_0000_0000_0000_0000 * rounds ==> now % 0x1_0000_0000_0000_0000
            == before % 0x1_0000_0000_0000_0000,
{
}

} // verus!
