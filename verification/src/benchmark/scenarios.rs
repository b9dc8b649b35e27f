//! The traffic plans the benchmarks run.
use vstd::prelude::*;

use super::harness::{spec_sum_bytes, TrafficBurst, TrafficPlan};

verus! {

pub const KERNEL_STREAM_FRAME_SIZE: usize = 1024 * 1024;

pub const KERNEL_STREAM_FRAMES: usize = 64;

pub const SESSION_BULK_FRAME_SIZE: usize = 512 * 1024;

pub const SESSION_BULK_FRAMES: usize = 32;

pub const RELAY_STREAM_FRAME_SIZE: usize = 256 * 1024;

pub const RELAY_STREAM_FRAMES: usize = 16;

pub const RELAY_WARM_CONTROL_SIZE: usize = 16 * 1024;

pub const RELAY_WARM_CONTROL_PACKETS: usize = 8;

/// The byte at `index` of a pattern payload with `seed`.
pub open spec fn spec_pattern_byte(seed: u8, index: int) -> u8 {
    ((seed + index % 251) % 256) as u8
}

/// `size` bytes that cycle through 251 values starting at `seed`.
pub fn pattern_payload(size: usize, seed: u8) -> (payload: Vec<u8>)
    ensures
        payload@.len() == size,
        forall|i: int| 0 <= i < size ==> payload@[i] == spec_pattern_byte(seed, i),
{
    let mut payload: Vec<u8> = Vec::new();
    let mut index: usize = 0;
    while index < size
        invariant
            index <= size,
            payload@.len() == index,
            forall|i: int| 0 <= i < index ==> payload@[i] == spec_pattern_byte(seed, i),
        decreases size - index,
    {
        let offset = (index % 251) as u8;
        payload.push(seed.wrapping_add(offset));
        index = index + 1;
    }
    payload
}

proof fn lemma_burst_total(b: TrafficBurst, len: nat, repeat: nat)
    requires
        b.spec_payload().len() == len,
        b.spec_repeat() == repeat,
    ensures
        b.spec_total_bytes() == len * repeat,
{
}

/// One megabyte frames, 64 of them.
pub fn kernel_stream_plan() -> (plan: TrafficPlan)
    ensures
        plan.spec_label() == "kernel_bulk_stream"@,
        plan.spec_bursts().len() == 1,
        plan.spec_bursts()[0].spec_repeat() == KERNEL_STREAM_FRAMES,
        plan.spec_bursts()[0].spec_payload().len() == KERNEL_STREAM_FRAME_SIZE,
        forall|i: int| 0 <= i < KERNEL_STREAM_FRAME_SIZE ==> plan.spec_bursts()[0].spec_payload()[i]
            == spec_pattern_byte(0x57, i),
        spec_sum_bytes(plan.spec_bursts()) == KERNEL_STREAM_FRAME_SIZE * KERNEL_STREAM_FRAMES,
{
    let burst = TrafficBurst::new(
        pattern_payload(KERNEL_STREAM_FRAME_SIZE, 0x57),
        KERNEL_STREAM_FRAMES,
    );
    assert(burst.spec_total_bytes() == KERNEL_STREAM_FRAME_SIZE * KERNEL_STREAM_FRAMES) by {
        lemma_burst_total(burst, KERNEL_STREAM_FRAME_SIZE as nat, KERNEL_STREAM_FRAMES as nat);
    }
    let bursts = vec![burst];
    assert(spec_sum_bytes(bursts@) == KERNEL_STREAM_FRAME_SIZE * KERNEL_STREAM_FRAMES) by {
        assert(bursts@.len() == 1 && bursts@[0] == bursts@.last());
        assert(bursts@.drop_last() =~= Seq::<TrafficBurst>::empty());
        assert(spec_sum_bytes(bursts@.drop_last()) == 0);
    }
    TrafficPlan::new("kernel_bulk_stream", bursts)
}

/// Half-megabyte frames, 32 of them.
pub fn player_session_plan() -> (plan: TrafficPlan)
    ensures
        plan.spec_label() == "session_bulk_stream"@,
        plan.spec_bursts().len() == 1,
        plan.spec_bursts()[0].spec_repeat() == SESSION_BULK_FRAMES,
        plan.spec_bursts()[0].spec_payload().len() == SESSION_BULK_FRAME_SIZE,
        forall|i: int| 0 <= i < SESSION_BULK_FRAME_SIZE ==> plan.spec_bursts()[0].spec_payload()[i]
            == spec_pattern_byte(0x63, i),
        spec_sum_bytes(plan.spec_bursts()) == SESSION_BULK_FRAME_SIZE * SESSION_BULK_FRAMES,
{
    let burst = TrafficBurst::new(
        pattern_payload(SESSION_BULK_FRAME_SIZE, 0x63),
        SESSION_BULK_FRAMES,
    );
    assert(burst.spec_total_bytes() == SESSION_BULK_FRAME_SIZE * SESSION_BULK_FRAMES) by {
        lemma_burst_total(burst, SESSION_BULK_FRAME_SIZE as nat, SESSION_BULK_FRAMES as nat);
    }
    let bursts = vec![burst];
    assert(spec_sum_bytes(bursts@) == SESSION_BULK_FRAME_SIZE * SESSION_BULK_FRAMES) by {
        assert(bursts@.len() == 1 && bursts@[0] == bursts@.last());
        assert(bursts@.drop_last() =~= Seq::<TrafficBurst>::empty());
        assert(spec_sum_bytes(bursts@.drop_last()) == 0);
    }
    TrafficPlan::new("session_bulk_stream", bursts)
}

/// Eight small control packets, then sixteen quarter-megabyte frames.
pub fn relay_benchmark_plan() -> (plan: TrafficPlan)
    ensures
        plan.spec_label() == "relay_bulk_stream"@,
        plan.spec_bursts().len() == 2,
        plan.spec_bursts()[0].spec_repeat() == RELAY_WARM_CONTROL_PACKETS,
        plan.spec_bursts()[0].spec_payload().len() == RELAY_WARM_CONTROL_SIZE,
        forall|i: int| 0 <= i < RELAY_WARM_CONTROL_SIZE ==> plan.spec_bursts()[0].spec_payload()[i]
            == spec_pattern_byte(0x18, i),
        plan.spec_bursts()[1].spec_repeat() == RELAY_STREAM_FRAMES,
        plan.spec_bursts()[1].spec_payload().len() == RELAY_STREAM_FRAME_SIZE,
        forall|i: int| 0 <= i < RELAY_STREAM_FRAME_SIZE ==> plan.spec_bursts()[1].spec_payload()[i]
            == spec_pattern_byte(0x91, i),
        spec_sum_bytes(plan.spec_bursts()) == RELAY_WARM_CONTROL_SIZE * RELAY_WARM_CONTROL_PACKETS
            + RELAY_STREAM_FRAME_SIZE * RELAY_STREAM_FRAMES,
{
    let control = TrafficBurst::new(
        pattern_payload(RELAY_WARM_CONTROL_SIZE, 0x18),
        RELAY_WARM_CONTROL_PACKETS,
    );
    let stream = TrafficBurst::new(
        pattern_payload(RELAY_STREAM_FRAME_SIZE, 0x91),
        RELAY_STREAM_FRAMES,
    );
    assert(control.spec_total_bytes() == RELAY_WARM_CONTROL_SIZE * RELAY_WARM_CONTROL_PACKETS) by {
        lemma_burst_total(control, RELAY_WARM_CONTROL_SIZE as nat, RELAY_WARM_CONTROL_PACKETS as nat);
    }
    assert(stream.spec_total_bytes() == RELAY_STREAM_FRAME_SIZE * RELAY_STREAM_FRAMES) by {
        lemma_burst_total(stream, RELAY_STREAM_FRAME_SIZE as nat, RELAY_STREAM_FRAMES as nat);
    }
    let bursts = vec![control, stream];
    assert(spec_sum_bytes(bursts@) == RELAY_WARM_CONTROL_SIZE * RELAY_WARM_CONTROL_PACKETS
        + RELAY_STREAM_FRAME_SIZE * RELAY_STREAM_FRAMES) by {
        assert(bursts@.len() == 2);
        assert(bursts@.last() == stream);
        assert(bursts@.drop_last().drop_last() =~= Seq::<TrafficBurst>::empty());
        assert(bursts@.drop_last().last() == control);
        assert(spec_sum_bytes(bursts@.drop_last().drop_last()) == 0);
        assert(spec_sum_bytes(bursts@.drop_last()) == control.spec_total_bytes());
    }
    TrafficPlan::new("relay_bulk_stream", bursts)
}

} // verus!
