//! Dropping some audio packets on purpose, to test how playback copes. Samples
//! are given by the bit patterns of their floating-point numbers.
use vstd::prelude::*;

verus! {

/// The bit pattern of the smallest magnitude that counts as sound, 0.01.
pub const ACTIVE_SAMPLE_THRESHOLD_BITS: u32 = 0x3c23_d70a;

/// The bit pattern of infinity; above it there are only patterns that are no
/// numbers.
pub const INFINITY_BITS: u32 = 0x7f80_0000;

/// The weight of the sign bit.
pub const SIGN_BIT: u32 = 0x8000_0000;

pub const ACTIVE_PACKETS_PER_PERIOD: usize = 100;

pub const DROP_START_PACKET: usize = 50;

pub const DROP_PACKET_COUNT: usize = 5;

/// The sample is a number whose magnitude reaches the threshold.
pub open spec fn audible(sample: u32) -> bool {
    ACTIVE_SAMPLE_THRESHOLD_BITS <= sample % SIGN_BIT <= INFINITY_BITS
}

/// Some sample of a packet is audible.
pub open spec fn active(samples: Seq<u32>) -> bool {
    exists|i: int| 0 <= i < samples.len() && #[trigger] audible(samples[i])
}

/// The packet with that number among the active ones is dropped: five in a row in
/// the middle of each period.
pub open spec fn drops(index: int) -> bool {
    let position = index % (ACTIVE_PACKETS_PER_PERIOD as int);
    DROP_START_PACKET <= position < DROP_START_PACKET + DROP_PACKET_COUNT
}

/// The schedule by which packets are dropped.
#[derive(Clone, Copy, Debug, PartialEq, Eq, Structural)]
pub struct AudioFaultInjection {
    pub enabled: bool,
    pub active_packet_index: usize,
}

impl AudioFaultInjection {
    /// A schedule at its start.
    pub fn new(enabled: bool) -> (r: Self)
        ensures
            r == (AudioFaultInjection { enabled, active_packet_index: 0 }),
    {
        AudioFaultInjection { enabled, active_packet_index: 0 }
    }

    fn is_active(samples: &[u32]) -> (r: bool)
        ensures
            r == active(samples@),
    {
        let mut i: usize = 0;
        while i < samples.len()
            invariant
                i <= samples.len(),
                forall|k: int| 0 <= k < i ==> !#[trigger] audible(samples@[k]),
            decreases samples.len() - i,
        {
            let magnitude: u32 = samples[i] % SIGN_BIT;
            if ACTIVE_SAMPLE_THRESHOLD_BITS <= magnitude && magnitude <= INFINITY_BITS {
                assert(audible(samples@[i as int]));
                return true;
            }
            i = i + 1;
        }
        false
    }

    /// Whether to drop a packet. Only active packets count, and only while the
    /// schedule is enabled.
    pub fn should_drop(&mut self, samples: &[u32]) -> (r: bool)
        ensures
            old(self).enabled && active(samples@) ==> {
                &&& r == drops(old(self).active_packet_index as int)
                &&& *final(self) == (AudioFaultInjection {
                    enabled: true,
                    active_packet_index: (if old(self).active_packet_index == usize::MAX {
                        0
                    } else {
                        (old(self).active_packet_index + 1) as usize
                    }),
                })
            },
            !(old(self).enabled && active(samples@)) ==> !r && *final(self) == *old(self),
    {
        if !self.enabled || !Self::is_active(samples) {
            return false;
        }
        let period_index: usize = self.active_packet_index % ACTIVE_PACKETS_PER_PERIOD;
        self.active_packet_index = self.active_packet_index.wrapping_add(1);
        DROP_START_PACKET <= period_index && period_index < DROP_START_PACKET + DROP_PACKET_COUNT
    }
}

/// The schedule repeats with each period, and a period drops exactly the five
/// packets after its first half.
pub proof fn law_each_period_drops_five(period: nat, position: nat)
    requires
        position < ACTIVE_PACKETS_PER_PERIOD,
    ensures
        drops((period * 100 + position) as int) <==> 50 <= position < 55,
{
    assert((period * 100 + position) % 100 == position) by (nonlinear_arith)
        requires
            0 <= position < 100,
            0 <= period,
    ;
}

/// A sample is heard or not by its magnitude alone: the sign makes no difference, what
/// is louder than an audible number is audible, and what is no number is not.
pub proof fn law_loud_samples_are_audible(sample: u32, louder: u32)
    requires
        sample < 0x8000_0000,
    ensures
        audible(sample) == audible((sample + 0x8000_0000) as u32),
        audible(sample) && sample <= louder <= 0x7f80_0000 ==> audible(louder),
        audible(sample) <==> 0x3c23_d70a <= sample <= 0x7f80_0000,
{
}

/// A packet is active exactly where one of its parts is, and an empty one is not.
pub proof fn law_packets_are_active_by_their_parts(a: Seq<u32>, b: Seq<u32>)
    ensures
        active(a + b) <==> active(a) || active(b),
        a.len() == 0 ==> !active(a),
        a.len() == 1 ==> active(a) == audible(a[0]),
{
    let whole = a + b;
    if active(whole) {
        let i = choose|i: int| 0 <= i < whole.len() && #[trigger] audible(whole[i]);
        if i < a.len() {
            assert(audible(a[i]));
        } else {
            assert(audible(b[i - a.len()]));
        }
    }
    if active(a) {
        let i = choose|i: int| 0 <= i < a.len() && #[trigger] audible(a[i]);
        assert(audible(whole[i]));
    }
    if active(b) {
        let i = choose|i: int| 0 <= i < b.len() && #[trigger] audible(b[i]);
        assert(audible(whole[a.len() + i]));
    }
    if a.len() == 1 {
        assert(audible(a[0]) ==> active(a));
    }
}

} // verus!
