//! The running count of the events that extend the subathon: subscriptions
//! (weighted by tier), cheered bits and redeemed bonus-minute rewards.
//! Donations, which are amounts of money, are added up by the caller.

use vstd::prelude::*;

verus! {

/// The counts of the events received so far.
#[derive(Clone, Copy, Debug)]
pub struct EventTally {
    /// Subscriptions, each weighted by its tier (see [`sub_weight`]).
    pub subs: u64,
    /// Bits cheered.
    pub bits: u64,
    /// Bonus-minute rewards redeemed.
    pub channel_point_rewards: u64,
}

/// An event that changes the counts.
#[derive(Clone, Copy, Debug)]
pub enum TallyEvent {
    AddBits(u64),
    /// A subscription of the given tier (1000, 2000 or 3000).
    AddSub(u64),
    AddChannelPointReward,
}

/// The counts as mathematical integers.
pub struct TallyView {
    pub subs: nat,
    pub bits: nat,
    pub channel_point_rewards: nat,
}

impl View for EventTally {
    type V = TallyView;

    open spec fn view(&self) -> TallyView {
        TallyView {
            subs: self.subs as nat,
            bits: self.bits as nat,
            channel_point_rewards: self.channel_point_rewards as nat,
        }
    }
}

/// How many subscriptions a subscription of tier `tier` counts for: a
/// tier-2 sub counts twice, a tier-3 sub five times, any other once.
pub open spec fn spec_sub_weight(tier: u64) -> nat {
    if tier == 2000 {
        2
    } else if tier == 3000 {
        5
    } else {
        1
    }
}

/// The counts after `e`.
pub open spec fn apply_event(t: TallyView, e: TallyEvent) -> TallyView {
    match e {
        TallyEvent::AddBits(b) => TallyView { bits: t.bits + b as nat, ..t },
        TallyEvent::AddSub(tier) => TallyView { subs: t.subs + spec_sub_weight(tier), ..t },
        TallyEvent::AddChannelPointReward => TallyView {
            channel_point_rewards: t.channel_point_rewards + 1,
            ..t
        },
    }
}

/// Whether the counts after `e` still fit their 64-bit fields.
pub open spec fn event_fits(t: TallyView, e: TallyEvent) -> bool {
    let n = apply_event(t, e);
    n.subs <= u64::MAX && n.bits <= u64::MAX && n.channel_point_rewards <= u64::MAX
}

/// How many subscriptions a subscription of tier `tier` counts for.
pub fn sub_weight(tier: u64) -> (w: u64)
    ensures
        w == spec_sub_weight(tier),
{
    match tier {
        2000 => 2,
        3000 => 5,
        _ => 1,
    }
}

impl EventTally {
    /// No events yet.
    pub fn new() -> (t: Self)
        ensures
            t@ == (TallyView { subs: 0, bits: 0, channel_point_rewards: 0 }),
    {
        EventTally { subs: 0, bits: 0, channel_point_rewards: 0 }
    }

    /// Whether `e` can be counted without a count overflowing.
    pub fn can_record(&self, e: TallyEvent) -> (b: bool)
        ensures
            b == event_fits(self@, e),
    {
        match e {
            TallyEvent::AddBits(b) => b <= u64::MAX - self.bits,
            TallyEvent::AddSub(tier) => sub_weight(tier) <= u64::MAX - self.subs,
            TallyEvent::AddChannelPointReward => self.channel_point_rewards < u64::MAX,
        }
    }

    /// Counts `e`.
    pub fn record(&mut self, e: TallyEvent)
        requires
            event_fits(old(self)@, e),
        ensures
            final(self)@ == apply_event(old(self)@, e),
    {
        match e {
            TallyEvent::AddBits(b) => self.bits = self.bits + b,
            TallyEvent::AddSub(tier) => self.subs = self.subs + sub_weight(tier),
            TallyEvent::AddChannelPointReward => {
                self.channel_point_rewards = self.channel_point_rewards + 1
            },
        }
    }
}

/// What each event does to the counts: a tier-2000 subscription adds 2 to
/// the subscriptions, a tier-3000 one adds 5, one of any other tier adds 1;
/// cheered bits add their number to the bits; a bonus-minute reward adds 1
/// to the rewards.  Every other count stays as it was.
pub proof fn lemma_event_effects(t: TallyView, tier: u64, bits: u64)
    ensures
        apply_event(t, TallyEvent::AddSub(tier)).bits == t.bits,
        apply_event(t, TallyEvent::AddSub(tier)).channel_point_rewards == t.channel_point_rewards,
        tier == 2000 ==> apply_event(t, TallyEvent::AddSub(tier)).subs == t.subs + 2,
        tier == 3000 ==> apply_event(t, TallyEvent::AddSub(tier)).subs == t.subs + 5,
        tier != 2000 && tier != 3000 ==> apply_event(t, TallyEvent::AddSub(tier)).subs == t.subs + 1,
        apply_event(t, TallyEvent::AddBits(bits)) == (TallyView { bits: t.bits + bits as nat, ..t }),
        apply_event(t, TallyEvent::AddChannelPointReward) == (TallyView {
            channel_point_rewards: t.channel_point_rewards + 1,
            ..t
        }),
{
}

/// The counts do not depend on the order in which two events arrive.
pub proof fn lemma_events_commute(t: TallyView, e1: TallyEvent, e2: TallyEvent)
    ensures
        apply_event(apply_event(t, e1), e2) == apply_event(apply_event(t, e2), e1),
{
}

/// Counting an event never lowers a count, and raises exactly the count it is about.
pub proof fn lemma_counts_grow(t: TallyView, e: TallyEvent)
    ensures
        apply_event(t, e).subs >= t.subs,
        apply_event(t, e).bits >= t.bits,
        apply_event(t, e).channel_point_rewards >= t.channel_point_rewards,
        apply_event(t, e) != t <==> !(e matches TallyEvent::AddBits(0)),
{
}

} // verus!
