//! Execution across several devices: splitting the layers of a model over the
//! devices in proportion to their memory (pipeline parallelism).

use vstd::prelude::*;
use crate::device::GpuDevice;
use crate::error::Error;

verus! {

/// Which layers a device holds: `layer_start..layer_end`.
#[derive(Debug, Clone, Copy, PartialEq, Eq, Structural)]
pub struct DevicePartition {
    pub device_id: usize,
    pub layer_start: usize,
    /// Exclusive.
    pub layer_end: usize,
}

/// The memory that each device reports.
pub open spec fn mems_of(devs: Seq<Box<dyn GpuDevice>>) -> Seq<u64> {
    Seq::new(devs.len(), |i: int| devs[i].spec_info().total_memory)
}

/// The memory of the first `k` devices together.
pub open spec fn mem_prefix(mems: Seq<u64>, k: int) -> int
    decreases k,
{
    if k <= 0 {
        0
    } else {
        mem_prefix(mems, k - 1) + mems[k - 1]
    }
}

/// The number of layers that device `i` is owed before rounding at the end:
/// its share of the memory, or an equal share when no device reports memory.
pub open spec fn layer_share(l: int, mems: Seq<u64>, i: int) -> int {
    let t = mem_prefix(mems, mems.len() as int);
    if t == 0 {
        l / (mems.len() as int)
    } else {
        l * mems[i] / t
    }
}

/// Where the layers of device `i` end: the last device takes what is left.
pub open spec fn layer_end(l: int, mems: Seq<u64>, i: int) -> int
    decreases i,
{
    let start = if i <= 0 {
        0
    } else {
        layer_end(l, mems, i - 1)
    };
    if i == mems.len() - 1 {
        l
    } else if start + layer_share(l, mems, i) < l {
        start + layer_share(l, mems, i)
    } else {
        l
    }
}

/// Where the layers of device `i` start.
pub open spec fn layer_start(l: int, mems: Seq<u64>, i: int) -> int {
    if i <= 0 {
        0
    } else {
        layer_end(l, mems, i - 1)
    }
}

proof fn lemma_prefix_bounds(mems: Seq<u64>, k: int)
    requires
        0 <= k <= mems.len(),
    ensures
        0 <= mem_prefix(mems, k) <= mem_prefix(mems, mems.len() as int),
        mem_prefix(mems, k) <= k * u64::MAX,
    decreases mems.len() - k,
{
    lemma_prefix_monotone(mems, k);
    if k < mems.len() {
        lemma_prefix_bounds(mems, k + 1);
    }
}

proof fn lemma_prefix_monotone(mems: Seq<u64>, k: int)
    requires
        0 <= k <= mems.len(),
    ensures
        0 <= mem_prefix(mems, k) <= k * u64::MAX,
    decreases k,
{
    if k > 0 {
        lemma_prefix_monotone(mems, k - 1);
    }
}

proof fn lemma_floor_sum(a: int, b: int, t: int)
    requires
        a >= 0,
        b >= 0,
        t > 0,
    ensures
        a / t + b / t <= (a + b) / t,
{
    vstd::arithmetic::div_mod::lemma_fundamental_div_mod(a, t);
    vstd::arithmetic::div_mod::lemma_fundamental_div_mod(b, t);
    vstd::arithmetic::div_mod::lemma_fundamental_div_mod(a + b, t);
    let qa = a / t;
    let qb = b / t;
    let q = (a + b) / t;
    assert(q >= qa + qb) by (nonlinear_arith)
        requires
            a == t * qa + a % t,
            b == t * qb + b % t,
            a + b == t * q + (a + b) % t,
            0 <= a % t < t,
            0 <= b % t < t,
            0 <= (a + b) % t < t,
            t > 0,
    ;
}

proof fn lemma_scaled_le(l: int, s: int, t: int)
    requires
        l >= 0,
        0 <= s <= t,
        t > 0,
    ensures
        0 <= l * s / t <= l,
{
    assert(0 <= l * s / t <= l) by (nonlinear_arith)
        requires
            l >= 0,
            0 <= s <= t,
            t > 0,
    {
        vstd::arithmetic::div_mod::lemma_div_is_ordered(l * s, l * t, t);
        vstd::arithmetic::div_mod::lemma_div_multiples_vanish(l, t);
        vstd::arithmetic::div_mod::lemma_div_pos_is_pos(l * s, t);
    }
}

/// Split `total_layers` layers over `devices` in proportion to the memory each
/// reports (in equal parts when none reports any), the last device taking what
/// rounding left over.
pub fn partition_layers(devices: &[Box<dyn GpuDevice>], total_layers: usize) -> (r: Result<
    Vec<DevicePartition>,
    Error,
>)
    ensures
        devices@.len() == 0 ==> r == Err::<Vec<DevicePartition>, Error>(Error::NoDevicesToPartition),
        devices@.len() > 0 ==> (r matches Ok(parts) && parts@.len() == devices@.len() && forall|i: int|
            0 <= i < parts@.len() ==> (#[trigger] parts@[i]).device_id == i
                && parts@[i].layer_start == layer_start(total_layers as int, mems_of(devices@), i)
                && parts@[i].layer_end == layer_end(total_layers as int, mems_of(devices@), i)),
{
    let n = devices.len();
    if n == 0 {
        return Err(Error::NoDevicesToPartition);
    }
    let ghost mems = mems_of(devices@);
    let ghost l = total_layers as int;
    let mut total: u128 = 0;
    let mut k: usize = 0;
    while k < n
        invariant
            n == devices@.len(),
            mems == mems_of(devices@),
            k <= n,
            total == mem_prefix(mems, k as int),
        decreases n - k,
    {
        proof {
            lemma_prefix_monotone(mems, k as int);
            assert(k as int * u64::MAX + u64::MAX <= u128::MAX) by (nonlinear_arith)
                requires k <= usize::MAX, usize::MAX <= u64::MAX;
        }
        total = total + devices[k].info().total_memory as u128;
        k = k + 1;
    }
    let ghost t = total as int;
    proof {
        lemma_prefix_bounds(mems, 0);
    }
    let mut parts: Vec<DevicePartition> = Vec::new();
    let mut offset: usize = 0;
    let mut i: usize = 0;
    while i < n
        invariant
            n == devices@.len(),
            n > 0,
            mems == mems_of(devices@),
            l == total_layers as int,
            t == mem_prefix(mems, n as int),
            total == t,
            i <= n,
            offset <= total_layers,
            offset == layer_start(l, mems, i as int),
            t == 0 && i < n ==> offset == i * (l / n as int),
            t > 0 && i < n ==> offset <= l * mem_prefix(mems, i as int) / t,
            parts@.len() == i,
            forall|j: int|
                0 <= j < i ==> (#[trigger] parts@[j]).device_id == j && parts@[j].layer_start
                    == layer_start(l, mems, j) && parts@[j].layer_end == layer_end(l, mems, j),
        decreases n - i,
    {
        let ratio = devices[i].info().total_memory;
        let share: usize;
        if i + 1 == n {
            share = total_layers - offset;
        } else if total == 0 {
            share = total_layers / n;
            proof {
                assert(offset + share <= l) by (nonlinear_arith)
                    requires
                        offset == i * (l / n as int),
                        share == l / n as int,
                        i + 1 < n,
                        l >= 0,
                        n > 0,
                {
                    vstd::arithmetic::div_mod::lemma_fundamental_div_mod(l, n as int);
                }
            }
        } else {
            proof {
                lemma_prefix_bounds(mems, i as int);
                lemma_prefix_bounds(mems, i as int + 1);
                assert(ratio as int <= t);
                lemma_scaled_le(l, ratio as int, t);
                assert(total_layers as int * ratio as int <= u128::MAX) by (nonlinear_arith)
                    requires total_layers <= usize::MAX, usize::MAX <= u64::MAX, ratio <= u64::MAX;
            }
            let prod: u128 = total_layers as u128 * ratio as u128;
            share = (prod / total) as usize;
            proof {
                assert(share == l * mems[i as int] / t);
                lemma_floor_sum(l * mem_prefix(mems, i as int), l * mems[i as int], t);
                assert(l * mem_prefix(mems, i as int) + l * mems[i as int] == l * mem_prefix(
                    mems,
                    i as int + 1,
                )) by (nonlinear_arith)
                    requires
                        mem_prefix(mems, i as int + 1) == mem_prefix(mems, i as int) + mems[i as int],
                ;
                lemma_scaled_le(l, mem_prefix(mems, i as int + 1), t);
            }
        }
        let end = if offset + share < total_layers {
            offset + share
        } else {
            total_layers
        };
        parts.push(DevicePartition { device_id: i, layer_start: offset, layer_end: end });
        proof {
            assert(end == layer_end(l, mems, i as int));
            if t == 0 && i + 1 < n {
                assert(end == (i + 1) * (l / n as int)) by (nonlinear_arith)
                    requires
                        end == offset + share,
                        offset == i * (l / n as int),
                        share == l / n as int,
                ;
            }
            if t > 0 && i + 1 < n {
                assert(end <= l * mem_prefix(mems, i as int + 1) / t);
            }
        }
        offset = end;
        i = i + 1;
    }
    Ok(parts)
}

/// The partition covers every layer exactly once: the first device starts at
/// layer 0, each device starts where the one before it ended, no device holds
/// a negative range, and the last device ends at the last layer.
pub proof fn law_partition_covers(l: int, mems: Seq<u64>)
    requires
        l >= 0,
        mems.len() > 0,
    ensures
        layer_start(l, mems, 0) == 0,
        layer_end(l, mems, mems.len() - 1) == l,
        forall|i: int| 0 < i < mems.len() ==> #[trigger] layer_start(l, mems, i) == layer_end(l, mems, i - 1),
        forall|i: int| 0 <= i < mems.len() ==> 0 <= #[trigger] layer_start(l, mems, i) <= layer_end(l, mems, i) <= l,
{
    assert forall|i: int| 0 <= i < mems.len() implies 0 <= #[trigger] layer_start(l, mems, i) <= layer_end(l, mems, i) <= l by {
        lemma_ends_in_range(l, mems, i);
        if i > 0 {
            lemma_ends_in_range(l, mems, i - 1);
        }
    }
}

proof fn lemma_ends_in_range(l: int, mems: Seq<u64>, i: int)
    requires
        l >= 0,
        0 <= i < mems.len(),
    ensures
        0 <= layer_start(l, mems, i) <= layer_end(l, mems, i) <= l,
    decreases i,
{
    if i > 0 {
        lemma_ends_in_range(l, mems, i - 1);
    }
    let t = mem_prefix(mems, mems.len() as int);
    lemma_prefix_bounds(mems, 0);
    if t == 0 {
        vstd::arithmetic::div_mod::lemma_div_pos_is_pos(l, mems.len() as int);
    } else {
        assert(l * mems[i] >= 0) by (nonlinear_arith)
            requires l >= 0, mems[i] >= 0;
        vstd::arithmetic::div_mod::lemma_div_pos_is_pos(l * mems[i], t);
    }
}

/// Moving data between two devices (staging through host memory) is not
/// implemented yet.
pub fn transfer_between_devices(src: &Box<dyn GpuDevice>, dst: &Box<dyn GpuDevice>) -> (r: Result<
    (),
    Error,
>)
    ensures
        r == Err::<(), Error>(Error::NotImplemented("transfer_between_devices: not yet implemented (Phase 3)")),
{
    Err(Error::NotImplemented("transfer_between_devices: not yet implemented (Phase 3)"))
}

} // verus!
