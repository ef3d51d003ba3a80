//! The `vector_add` simulation shared by the Vulkan and DirectX simulators.
//!
//! `c[i] = a[i] + b[i]` over 32-bit floats. The buffers hold little-endian
//! 32-bit words; the floating-point addition itself is the caller's `plus`,
//! applied to the two words and giving the word of the sum.

use vstd::prelude::*;
use crate::error::Error;
use crate::kernel::KernelArg;
use crate::memory::{spec_read_words, spec_write_words, AllocTable, DevicePtr};

verus! {

/// The argument contract of `vector_add`: pointers `a`, `b`, `c`, then the
/// element count `n`.
pub open spec fn spec_vector_add_args(args: Seq<KernelArg>) -> Result<
    (DevicePtr, DevicePtr, DevicePtr, usize),
    Error,
> {
    if args.len() != 4 {
        Err(Error::Argument("vector_add expects 4 args: a, b, c, n"))
    } else if !(args[0] is Ptr) {
        Err(Error::Argument("arg0 must be pointer"))
    } else if !(args[1] is Ptr) {
        Err(Error::Argument("arg1 must be pointer"))
    } else if !(args[2] is Ptr) {
        Err(Error::Argument("arg2 must be pointer"))
    } else {
        match args[3] {
            KernelArg::Usize(n) => Ok((args[0]->Ptr_0, args[1]->Ptr_0, args[2]->Ptr_0, n)),
            KernelArg::U32(n) => Ok((args[0]->Ptr_0, args[1]->Ptr_0, args[2]->Ptr_0, n as usize)),
            _ => Err(Error::Argument("arg3 must be usize")),
        }
    }
}

/// What a `vector_add` run does to memory `mem` (giving `mem2` and result `r`):
/// the arguments are checked, `n` words of `a` and of `b` are read, and `c`
/// receives, word by word, what `plus` returned for the two words.
pub open spec fn vector_add_done<F: Fn(u32, u32) -> u32>(
    plus: F,
    id: usize,
    mem: Map<u64, Seq<u8>>,
    args: Seq<KernelArg>,
    mem2: Map<u64, Seq<u8>>,
    r: Result<(), Error>,
) -> bool {
    match spec_vector_add_args(args) {
        Err(e) => r == Err::<(), Error>(e) && mem2 == mem,
        Ok((a, b, c, n)) => match spec_read_words(id, mem, a, n) {
            Err(e) => r == Err::<(), Error>(e) && mem2 == mem,
            Ok(av) => match spec_read_words(id, mem, b, n) {
                Err(e) => r == Err::<(), Error>(e) && mem2 == mem,
                Ok(bv) => exists|out: Seq<u32>|
                    {
                        &&& out.len() == n
                        &&& forall|i: int| 0 <= i < n ==> call_ensures(plus, (av[i], bv[i]), #[trigger] out[i])
                        &&& (mem2, r) == spec_write_words(id, mem, c, out)
                    },
            },
        },
    }
}

/// Run `vector_add` on the allocations of device `id`.
pub fn run_vector_add_simulation<F: Fn(u32, u32) -> u32>(
    mem: &mut AllocTable,
    id: usize,
    plus: &F,
    args: &[KernelArg],
) -> (r: Result<(), Error>)
    requires
        forall|x: u32, y: u32| call_requires(*plus, (x, y)),
    ensures
        final(mem).next_handle() == old(mem).next_handle(),
        vector_add_done(*plus, id, old(mem).memory(), args@, final(mem).memory(), r),
{
    if args.len() != 4 {
        return Err(Error::Argument("vector_add expects 4 args: a, b, c, n"));
    }
    let a = match args[0].as_ptr() {
        Some(p) => p,
        None => return Err(Error::Argument("arg0 must be pointer")),
    };
    let b = match args[1].as_ptr() {
        Some(p) => p,
        None => return Err(Error::Argument("arg1 must be pointer")),
    };
    let c = match args[2].as_ptr() {
        Some(p) => p,
        None => return Err(Error::Argument("arg2 must be pointer")),
    };
    let n = match args[3].as_usize() {
        Some(n) => n,
        None => return Err(Error::Argument("arg3 must be usize")),
    };
    let av = mem.read_f32_vec(id, a, n)?;
    let bv = mem.read_f32_vec(id, b, n)?;
    let mut cv: Vec<u32> = Vec::new();
    let mut i: usize = 0;
    while i < n
        invariant
            av@.len() == n,
            bv@.len() == n,
            i <= n,
            cv@.len() == i,
            forall|x: u32, y: u32| call_requires(*plus, (x, y)),
            forall|j: int| 0 <= j < i ==> call_ensures(*plus, (av@[j], bv@[j]), #[trigger] cv@[j]),
        decreases n - i,
    {
        let s = plus(av[i], bv[i]);
        cv.push(s);
        i = i + 1;
    }
    let ghost out = cv@;
    let r = mem.write_f32_vec(id, c, cv.as_slice());
    assert(out.len() == n && forall|j: int| 0 <= j < n ==> call_ensures(*plus, (av@[j], bv@[j]), #[trigger] out[j]));
    r
}

} // verus!
