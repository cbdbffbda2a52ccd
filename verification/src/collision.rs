//! Reading what the solver reports: which contacts score and which kill.
//!
//! Each tick the solver hands over the contacts of its last step, already
//! sorted into three classes. Only the beginning of an overlap with a sensor
//! scores, so that one crossing scores once; any hard contact kills.

use vstd::prelude::*;
use vstd::seq_lib::to_multiset_build;
use crate::bird::{kill_bird_on_collision, killed, Bird};
use crate::score::Score;

verus! {

/// A contact that the solver reported in its last step.
#[derive(Clone, Copy, Debug, PartialEq, Eq, Structural)]
pub enum ContactEvent {
    /// A body has begun to overlap a scoring sensor.
    SensorBegin,
    /// A body has ceased to overlap a scoring sensor.
    SensorEnd,
    /// The flyer has struck something solid.
    HardContact,
}

/// The number of sensor crossings that begin among the events.
pub open spec fn count_sensor_begins(events: Seq<ContactEvent>) -> nat {
    events.to_multiset().count(ContactEvent::SensorBegin)
}

/// Whether there is a hard contact among the events.
pub open spec fn has_hard_contact(events: Seq<ContactEvent>) -> bool {
    events.contains(ContactEvent::HardContact)
}

/// The flyer after the events have been read: killed if there was a hard
/// contact, untouched otherwise.
pub open spec fn bird_after_contacts(bird: Bird, events: Seq<ContactEvent>) -> Bird {
    if has_hard_contact(events) {
        killed(bird)
    } else {
        bird
    }
}

/// Score and flyer once the crossings among the events have been scored.
pub open spec fn after_scoring(standing: (nat, Bird), events: Seq<ContactEvent>) -> (nat, Bird) {
    (standing.0 + count_sensor_begins(events), standing.1)
}

/// Score and flyer once the hard contacts among the events have struck.
pub open spec fn after_striking(standing: (nat, Bird), events: Seq<ContactEvent>) -> (nat, Bird) {
    (standing.0, bird_after_contacts(standing.1, events))
}

/// Counts the sensor crossings that begin among the events.
pub fn sensor_begins(events: &Vec<ContactEvent>) -> (begins: usize)
    ensures
        begins == count_sensor_begins(events@),
        begins <= events@.len(),
{
    let mut begins: usize = 0;
    let mut i: usize = 0;
    proof {
        assert(events@.take(0) =~= Seq::<ContactEvent>::empty());
        broadcast use vstd::seq_lib::group_to_multiset_ensures;
    }
    while i < events.len()
        invariant
            0 <= i <= events.len(),
            begins == count_sensor_begins(events@.take(i as int)),
            begins <= i,
        decreases events.len() - i,
    {
        proof {
            let seen = events@.take(i as int);
            assert(events@.take(i as int + 1) =~= seen.push(events@[i as int]));
            to_multiset_build(seen, events@[i as int]);
        }
        match events[i] {
            ContactEvent::SensorBegin => {
                begins = begins + 1;
            },
            _ => {},
        }
        i = i + 1;
    }
    proof {
        assert(events@.take(i as int) =~= events@);
    }
    begins
}

/// Whether there is a hard contact among the events.
pub fn hard_contact(events: &Vec<ContactEvent>) -> (hard: bool)
    ensures
        hard == has_hard_contact(events@),
{
    let mut i: usize = 0;
    while i < events.len()
        invariant
            0 <= i <= events.len(),
            forall|k: int| 0 <= k < i ==> events@[k] != ContactEvent::HardContact,
        decreases events.len() - i,
    {
        match events[i] {
            ContactEvent::HardContact => {
                assert(events@[i as int] == ContactEvent::HardContact);
                return true;
            },
            _ => {},
        }
        i = i + 1;
    }
    false
}

/// Adds one point for each sensor crossing that begins among the events.
/// Crossings that end, and hard contacts, score nothing.
pub fn increment_score(events: &Vec<ContactEvent>, score: &mut Score)
    requires
        old(score).0 + count_sensor_begins(events@) <= u32::MAX,
    ensures
        final(score).0 == old(score).0 + count_sensor_begins(events@),
{
    let begins: usize = sensor_begins(events);
    score.0 = score.0 + begins as u32;
}

/// Reads the events of one tick: scores the crossings and, if there was a
/// hard contact, kills the flyer. Returns whether the score has changed.
pub fn interpret_contacts(
    events: &Vec<ContactEvent>,
    score: &mut Score,
    bird: &mut Bird,
) -> (changed: bool)
    requires
        old(score).0 + count_sensor_begins(events@) <= u32::MAX,
    ensures
        final(score).0 == old(score).0 + count_sensor_begins(events@),
        *final(bird) == bird_after_contacts(*old(bird), events@),
        changed == (count_sensor_begins(events@) > 0),
{
    let before: u32 = score.0;
    increment_score(events, score);
    if hard_contact(events) {
        kill_bird_on_collision(bird);
    }
    score.0 != before
}

/// The score counts each beginning of a crossing once: reading one more
/// event adds exactly one point if it is the beginning of a crossing and
/// none otherwise, so the points added in a tick never exceed the number of
/// its events and the score never falls.
pub proof fn law_score_counts_each_begin_once(events: Seq<ContactEvent>, event: ContactEvent)
    ensures
        count_sensor_begins(Seq::<ContactEvent>::empty()) == 0,
        count_sensor_begins(events.push(event)) == count_sensor_begins(events) + if event
            == ContactEvent::SensorBegin {
            1nat
        } else {
            0nat
        },
        count_sensor_begins(events) <= events.len(),
{
    broadcast use vstd::seq_lib::group_to_multiset_ensures;
    to_multiset_build(events, event);
    lemma_begins_bounded(events);
}

/// There are no more beginnings of crossings than events.
proof fn lemma_begins_bounded(events: Seq<ContactEvent>)
    ensures
        count_sensor_begins(events) <= events.len(),
    decreases events.len(),
{
    broadcast use vstd::seq_lib::group_to_multiset_ensures;
    if events.len() > 0 {
        lemma_begins_bounded(events.drop_last());
        assert(events.drop_last().push(events.last()) =~= events);
        to_multiset_build(events.drop_last(), events.last());
    }
}

/// The order of the events of a tick does not matter: two lists that hold the
/// same events, in whatever order, score the same points and kill or spare
/// the flyer alike.
pub proof fn law_contacts_order_insensitive(
    first: Seq<ContactEvent>,
    second: Seq<ContactEvent>,
    bird: Bird,
)
    requires
        first.to_multiset() == second.to_multiset(),
    ensures
        count_sensor_begins(first) == count_sensor_begins(second),
        has_hard_contact(first) == has_hard_contact(second),
        bird_after_contacts(bird, first) == bird_after_contacts(bird, second),
{
    first.to_multiset_ensures();
    second.to_multiset_ensures();
    assert(has_hard_contact(first) == (first.to_multiset().count(ContactEvent::HardContact) > 0));
    assert(has_hard_contact(second) == (second.to_multiset().count(ContactEvent::HardContact)
        > 0));
}

/// Lethal contacts coalesce: however many hard contacts a tick holds, the
/// flyer is killed once, and reading the same events again changes nothing
/// about it.
pub proof fn law_lethal_contacts_coalesce(bird: Bird, events: Seq<ContactEvent>)
    ensures
        has_hard_contact(events) ==> bird_after_contacts(bird, events) == killed(bird),
        !has_hard_contact(events) ==> bird_after_contacts(bird, events) == bird,
        bird_after_contacts(bird_after_contacts(bird, events), events) == bird_after_contacts(
            bird,
            events,
        ),
        bird_after_contacts(bird, events).alive ==> bird.alive,
{
}

/// Scoring and death do not interfere. Scoring leaves the flyer as it is and
/// death leaves the score as it is, so the two may be carried out in either
/// order: the points are scored and the flyer is killed or spared alike.
pub proof fn law_score_and_death_commute(score: nat, bird: Bird, events: Seq<ContactEvent>)
    ensures
        after_scoring(after_striking((score, bird), events), events) == after_striking(
            after_scoring((score, bird), events),
            events,
        ),
        after_scoring(after_striking((score, bird), events), events) == (
            score + count_sensor_begins(events),
            bird_after_contacts(bird, events),
        ),
{
}

} // verus!
