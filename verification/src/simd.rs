//! CPU features for the host fallback path, and the int8 dot product of
//! quantised inference.

use vstd::prelude::*;

verus! {

/// The CPU features found at run time.
#[derive(Debug, Clone, Copy, PartialEq, Eq, Default, Structural)]
pub struct CpuFeatures {
    pub sse2: bool,
    pub avx2: bool,
    /// FMA3, used together with AVX2.
    pub fma: bool,
    pub avx512f: bool,
    /// AVX-512 VNNI (int8 dot products).
    pub avx512vnni: bool,
    /// AVX-VNNI (256-bit VNNI).
    pub avxvnni: bool,
}

/// The names of the features that are present, widest first.
pub open spec fn feature_names(f: CpuFeatures) -> Seq<Seq<char>> {
    let s0: Seq<Seq<char>> = Seq::empty();
    let s1 = if f.avx512f { s0.push("avx512f"@) } else { s0 };
    let s2 = if f.avx512vnni { s1.push("avx512vnni"@) } else { s1 };
    let s3 = if f.avxvnni { s2.push("avxvnni"@) } else { s2 };
    let s4 = if f.avx2 { s3.push("avx2"@) } else { s3 };
    let s5 = if f.fma { s4.push("fma3"@) } else { s4 };
    if f.sse2 { s5.push("sse2"@) } else { s5 }
}

/// The names joined by `+`.
pub open spec fn join_plus(names: Seq<Seq<char>>) -> Seq<char>
    decreases names.len(),
{
    if names.len() == 0 {
        Seq::empty()
    } else if names.len() == 1 {
        names[0]
    } else {
        join_plus(names.drop_last()) + "+"@ + names.last()
    }
}

/// The short description: the present features joined by `+`, or `scalar`.
pub open spec fn spec_describe(f: CpuFeatures) -> Seq<char> {
    if feature_names(f).len() == 0 {
        "scalar"@
    } else {
        join_plus(feature_names(f))
    }
}

fn push_name(s: &mut String, count: &mut usize, name: &str, Ghost(names): Ghost<Seq<Seq<char>>>)
    requires
        old(s)@ == join_plus(names),
        *old(count) == names.len(),
        names.len() < 8,
    ensures
        final(s)@ == join_plus(names.push(name@)),
        *final(count) == names.len() + 1,
{
    let ghost new_names = names.push(name@);
    assert(new_names.drop_last() =~= names);
    if *count > 0 {
        s.append("+");
    } else {
        assert(join_plus(names) =~= Seq::<char>::empty());
        assert(Seq::<char>::empty() + name@ =~= name@);
    }
    s.append(name);
    *count = *count + 1;
}

impl CpuFeatures {
    /// A short description for logs: the present features joined by `+`
    /// (widest first), or `scalar` when there are none.
    pub fn describe(&self) -> (r: String)
        ensures
            r@ == spec_describe(*self),
    {
        let mut s = String::new();
        let mut count: usize = 0;
        let ghost mut names: Seq<Seq<char>> = Seq::empty();
        if self.avx512f {
            push_name(&mut s, &mut count, "avx512f", Ghost(names));
            proof { names = names.push("avx512f"@); }
        }
        if self.avx512vnni {
            push_name(&mut s, &mut count, "avx512vnni", Ghost(names));
            proof { names = names.push("avx512vnni"@); }
        }
        if self.avxvnni {
            push_name(&mut s, &mut count, "avxvnni", Ghost(names));
            proof { names = names.push("avxvnni"@); }
        }
        if self.avx2 {
            push_name(&mut s, &mut count, "avx2", Ghost(names));
            proof { names = names.push("avx2"@); }
        }
        if self.fma {
            push_name(&mut s, &mut count, "fma3", Ghost(names));
            proof { names = names.push("fma3"@); }
        }
        if self.sse2 {
            push_name(&mut s, &mut count, "sse2", Ghost(names));
            proof { names = names.push("sse2"@); }
        }
        assert(names == feature_names(*self));
        if count == 0 {
            return "scalar".to_owned();
        }
        s
    }
}

/// The dot product of the first `k` elements.
pub open spec fn dot_prefix(a: Seq<u8>, b: Seq<i8>, k: int) -> int
    decreases k,
{
    if k <= 0 {
        0
    } else {
        dot_prefix(a, b, k - 1) + a[k - 1] as int * b[k - 1] as int
    }
}

/// Every partial sum of the first `n` products fits in an `i32`.
pub open spec fn dot_fits_i32(a: Seq<u8>, b: Seq<i8>, n: int) -> bool {
    forall|k: int| 0 <= k <= n ==> i32::MIN <= #[trigger] dot_prefix(a, b, k) <= i32::MAX
}

/// The dot product of the common prefix of `a` and `b`, one product at a time.
pub fn dot_i8_scalar(a: &[u8], b: &[i8]) -> (r: i32)
    requires
        dot_fits_i32(a@, b@, if a@.len() < b@.len() { a@.len() as int } else { b@.len() as int }),
    ensures
        r == dot_prefix(a@, b@, if a@.len() < b@.len() { a@.len() as int } else { b@.len() as int }),
{
    let n = if a.len() < b.len() { a.len() } else { b.len() };
    let mut acc: i32 = 0;
    let mut i: usize = 0;
    while i < n
        invariant
            n <= a@.len(),
            n <= b@.len(),
            i <= n,
            dot_fits_i32(a@, b@, n as int),
            acc == dot_prefix(a@, b@, i as int),
        decreases n - i,
    {
        assert(i32::MIN <= dot_prefix(a@, b@, i + 1) <= i32::MAX);
        let x = a[i] as i32;
        let y = b[i] as i32;
        assert(-32768 <= x * y <= 32640) by (nonlinear_arith)
            requires 0 <= x <= 255, -128 <= y <= 127;
        assert(dot_prefix(a@, b@, i + 1) == acc + x * y);
        acc = acc + (a[i] as i32) * (b[i] as i32);
        i = i + 1;
    }
    acc
}

/// The int8 dot product of quantised inference (u8 activations times i8
/// weights, accumulated in i32) over the common prefix of `a` and `b`.
pub fn dot_i8(a: &[u8], b: &[i8]) -> (r: i32)
    requires
        dot_fits_i32(a@, b@, if a@.len() < b@.len() { a@.len() as int } else { b@.len() as int }),
    ensures
        r == dot_prefix(a@, b@, if a@.len() < b@.len() { a@.len() as int } else { b@.len() as int }),
{
    dot_i8_scalar(a, b)
}

} // verus!
