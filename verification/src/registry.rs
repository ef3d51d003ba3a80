//! Registration, lookup and selection of devices. Each backend registers the
//! devices it found; the registry depends on no backend.

use vstd::prelude::*;
use crate::device::{GpuDevice, GpuVendor};
use crate::error::GpuError;

verus! {

/// The devices available to a program, in registration order.
pub struct DeviceRegistry {
    devices: Vec<Box<dyn GpuDevice>>,
}

/// The memory that device `i` of `devs` reports.
pub open spec fn memory_of(devs: Seq<Box<dyn GpuDevice>>, i: int) -> u64 {
    devs[i].spec_info().total_memory
}

/// `i` is the last index of a device with the most memory.
pub open spec fn is_best_index(devs: Seq<Box<dyn GpuDevice>>, i: int) -> bool {
    &&& 0 <= i < devs.len()
    &&& forall|j: int| 0 <= j < devs.len() ==> memory_of(devs, j) <= memory_of(devs, i)
    &&& forall|j: int| i < j < devs.len() ==> memory_of(devs, j) < memory_of(devs, i)
}

/// `sel` lists, in order, the devices of `devs` at the indices `idx`, and those
/// are the devices for which `pred` answered true; for the others it answered
/// false.
pub open spec fn is_vendor_selection<P: Fn(&GpuVendor) -> bool>(
    devs: Seq<Box<dyn GpuDevice>>,
    sel: Seq<&Box<dyn GpuDevice>>,
    idx: Seq<int>,
    pred: P,
) -> bool {
    &&& idx.len() == sel.len()
    &&& forall|k: int| 0 <= k < idx.len() ==> 0 <= #[trigger] idx[k] < devs.len()
    &&& forall|k: int, l: int| 0 <= k < l < idx.len() ==> idx[k] < idx[l]
    &&& forall|k: int| 0 <= k < idx.len() ==> sel[k] == &devs[#[trigger] idx[k]]
    &&& forall|j: int|
        0 <= j < devs.len() ==> (idx.contains(j) ==> call_ensures(
            pred,
            (&(#[trigger] devs[j]).spec_info().vendor,),
            true,
        )) && (!idx.contains(j) ==> call_ensures(pred, (&devs[j].spec_info().vendor,), false))
}

impl DeviceRegistry {
    /// The registered devices, in registration order.
    pub closed spec fn spec_devices(&self) -> Seq<Box<dyn GpuDevice>> {
        self.devices@
    }

    pub fn new() -> (r: Self)
        ensures
            r.spec_devices() == Seq::<Box<dyn GpuDevice>>::empty(),
    {
        DeviceRegistry { devices: Vec::new() }
    }

    /// Register a device that a backend found.
    pub fn register(&mut self, device: Box<dyn GpuDevice>)
        ensures
            final(self).spec_devices() == old(self).spec_devices().push(device),
    {
        self.devices.push(device);
    }

    pub fn len(&self) -> (r: usize)
        ensures
            r == self.spec_devices().len(),
    {
        self.devices.len()
    }

    pub fn is_empty(&self) -> (r: bool)
        ensures
            r == (self.spec_devices().len() == 0),
    {
        self.devices.len() == 0
    }

    /// The device at index `id`.
    pub fn get(&self, id: usize) -> (r: Result<&Box<dyn GpuDevice>, GpuError>)
        ensures
            id < self.spec_devices().len() ==> r == Ok::<&Box<dyn GpuDevice>, GpuError>(
                &self.spec_devices()[id as int],
            ),
            id >= self.spec_devices().len() ==> r == Err::<&Box<dyn GpuDevice>, GpuError>(
                GpuError::DeviceOutOfRange { requested: id, available: self.spec_devices().len() as usize },
            ),
    {
        if id < self.devices.len() {
            Ok(&self.devices[id])
        } else {
            Err(GpuError::DeviceOutOfRange { requested: id, available: self.devices.len() })
        }
    }

    /// All registered devices.
    pub fn all(&self) -> (r: &[Box<dyn GpuDevice>])
        ensures
            r@ == self.spec_devices(),
    {
        self.devices.as_slice()
    }

    /// The device to run inference on: the one with the most memory (the last
    /// of them on a tie).
    pub fn best_for_inference(&self) -> (r: Result<&Box<dyn GpuDevice>, GpuError>)
        ensures
            self.spec_devices().len() == 0 ==> r == Err::<&Box<dyn GpuDevice>, GpuError>(
                GpuError::NoDevice,
            ),
            self.spec_devices().len() > 0 ==> exists|i: int|
                is_best_index(self.spec_devices(), i) && r == Ok::<
                    &Box<dyn GpuDevice>,
                    GpuError,
                >(&self.spec_devices()[i]),
    {
        if self.devices.len() == 0 {
            return Err(GpuError::NoDevice);
        }
        let mut best: usize = 0;
        let mut best_mem: u64 = self.devices[0].info().total_memory;
        let mut i: usize = 1;
        while i < self.devices.len()
            invariant
                1 <= i <= self.devices@.len(),
                best < i,
                best_mem == memory_of(self.devices@, best as int),
                forall|j: int| 0 <= j < i ==> memory_of(self.devices@, j) <= best_mem,
                forall|j: int| best < j < i ==> memory_of(self.devices@, j) < best_mem,
            decreases self.devices@.len() - i,
        {
            let m = self.devices[i].info().total_memory;
            if m >= best_mem {
                best = i;
                best_mem = m;
            }
            i = i + 1;
        }
        assert(is_best_index(self.devices@, best as int));
        Ok(&self.devices[best])
    }

    /// The devices whose vendor satisfies `pred`, in registration order.
    pub fn by_vendor<P: Fn(&GpuVendor) -> bool>(&self, pred: P) -> (r: Vec<&Box<dyn GpuDevice>>)
        requires
            forall|v: &GpuVendor| call_requires(pred, (v,)),
        ensures
            exists|idx: Seq<int>| #[trigger] is_vendor_selection(self.spec_devices(), r@, idx, pred),
    {
        let mut out: Vec<&Box<dyn GpuDevice>> = Vec::new();
        let ghost mut idx: Seq<int> = Seq::empty();
        let mut i: usize = 0;
        while i < self.devices.len()
            invariant
                i <= self.devices@.len(),
                forall|v: &GpuVendor| call_requires(pred, (v,)),
                idx.len() == out@.len(),
                forall|k: int| 0 <= k < idx.len() ==> 0 <= #[trigger] idx[k] < i,
                forall|k: int, l: int| 0 <= k < l < idx.len() ==> idx[k] < idx[l],
                forall|k: int| 0 <= k < idx.len() ==> out@[k] == &self.devices@[#[trigger] idx[k]],
                forall|j: int|
                    0 <= j < i ==> (idx.contains(j) ==> call_ensures(
                        pred,
                        (&self.devices@[j].spec_info().vendor,),
                        true,
                    )) && (!idx.contains(j) ==> call_ensures(
                        pred,
                        (&self.devices@[j].spec_info().vendor,),
                        false,
                    )),
            decreases self.devices@.len() - i,
        {
            let ghost prev = idx;
            let d = &self.devices[i];
            let keep = pred(&d.info().vendor);
            if keep {
                out.push(d);
                proof {
                    idx = idx.push(i as int);
                }
            }
            proof {
                assert forall|j: int| 0 <= j < i implies (idx.contains(j) == prev.contains(j))
                    by {
                    if idx.contains(j) && !prev.contains(j) {
                        let k = choose|k: int| 0 <= k < idx.len() && idx[k] == j;
                        assert(k == idx.len() - 1);
                    }
                    if prev.contains(j) {
                        let k = choose|k: int| 0 <= k < prev.len() && prev[k] == j;
                        assert(idx[k] == j);
                    }
                }
                if !keep {
                    assert(!idx.contains(i as int));
                } else {
                    assert(idx[idx.len() - 1] == i);
                }
            }
            i = i + 1;
        }
        assert(is_vendor_selection(self.devices@, out@, idx, pred));
        assert(is_vendor_selection(self.spec_devices(), out@, idx, pred));
        out
    }
}

} // verus!
