//! Choosing where GEMM runs: the per-vendor path of a device, the offload
//! policy read from the environment, and the problem shapes that a
//! measurement probes.

use vstd::prelude::*;
use vstd::string::StrSliceExecFns;
use crate::device::{GpuDevice, GpuVendor};
use crate::error::Error;

verus! {

/// Whether to offload GEMM to the GPU.
#[derive(Debug, Clone, Copy, PartialEq, Eq, Structural)]
pub enum OffloadPolicy {
    /// Measure and take the faster one (the default).
    Auto,
    /// Use the GPU whatever the measurement says.
    ForceGpu,
    /// Stay on the CPU without measuring.
    ForceCpu,
}

/// The characters that `char::is_whitespace` accepts (the Unicode
/// `White_Space` property).
pub open spec fn is_white_space(c: char) -> bool {
    ('\u{9}' <= c <= '\u{d}') || c == ' ' || c == '\u{85}' || c == '\u{a0}' || c == '\u{1680}'
        || ('\u{2000}' <= c <= '\u{200a}') || c == '\u{2028}' || c == '\u{2029}' || c
        == '\u{202f}' || c == '\u{205f}' || c == '\u{3000}'
}

/// `s` without leading white space.
pub open spec fn trim_start(s: Seq<char>) -> Seq<char>
    decreases s.len(),
{
    if s.len() > 0 && is_white_space(s[0]) {
        trim_start(s.drop_first())
    } else {
        s
    }
}

/// `s` without trailing white space.
pub open spec fn trim_end(s: Seq<char>) -> Seq<char>
    decreases s.len(),
{
    if s.len() > 0 && is_white_space(s.last()) {
        trim_end(s.drop_last())
    } else {
        s
    }
}

/// ASCII upper-case letters lowered; every other character kept.
pub open spec fn ascii_lower(c: char) -> char {
    if 'A' <= c <= 'Z' {
        ((c as u32) + 32) as char
    } else {
        c
    }
}

/// The value of the policy variable as it is compared: trimmed, and in ASCII
/// lower case.
pub open spec fn normalized(s: Seq<char>) -> Seq<char> {
    trim_end(trim_start(s)).map_values(|c: char| ascii_lower(c))
}

/// The policy that a value of the variable selects (`None`: not set).
pub open spec fn spec_policy(value: Option<Seq<char>>) -> OffloadPolicy {
    match value {
        None => OffloadPolicy::Auto,
        Some(s) => {
            let n = normalized(s);
            if n == "gpu"@ || n == "force"@ || n == "1"@ {
                OffloadPolicy::ForceGpu
            } else if n == "cpu"@ || n == "off"@ || n == "0"@ {
                OffloadPolicy::ForceCpu
            } else {
                OffloadPolicy::Auto
            }
        },
    }
}

fn is_white_space_char(c: char) -> (r: bool)
    ensures
        r == is_white_space(c),
{
    ('\u{9}' <= c && c <= '\u{d}') || c == ' ' || c == '\u{85}' || c == '\u{a0}' || c
        == '\u{1680}' || ('\u{2000}' <= c && c <= '\u{200a}') || c == '\u{2028}' || c
        == '\u{2029}' || c == '\u{202f}' || c == '\u{205f}' || c == '\u{3000}'
}

fn lower_char(c: char) -> (r: char)
    ensures
        r == ascii_lower(c),
{
    if 'A' <= c && c <= 'Z' {
        let b = c as u8;
        assert(b == c as u32);
        ((b + 32) as char)
    } else {
        c
    }
}

proof fn lemma_trim_start_skip(s: Seq<char>, i: int)
    requires
        0 <= i < s.len(),
        is_white_space(s[i]),
    ensures
        trim_start(s.skip(i)) == trim_start(s.skip(i + 1)),
{
    assert(s.skip(i).drop_first() =~= s.skip(i + 1));
}

proof fn lemma_trim_end_take(s: Seq<char>, j: int)
    requires
        0 < j <= s.len(),
        is_white_space(s[j - 1]),
    ensures
        trim_end(s.take(j)) == trim_end(s.take(j - 1)),
{
    assert(s.take(j).drop_last() =~= s.take(j - 1));
}

/// The characters of `value`, trimmed and lowered as `normalized` says.
fn normalize(value: &str) -> (r: Vec<char>)
    ensures
        r@ == normalized(value@),
{
    let len = value.unicode_len();
    let mut lo: usize = 0;
    assert(value@.skip(0) =~= value@);
    while lo < len && is_white_space_char(value.get_char(lo))
        invariant
            len == value@.len(),
            lo <= len,
            trim_start(value@) == trim_start(value@.skip(lo as int)),
        decreases len - lo,
    {
        proof {
            lemma_trim_start_skip(value@, lo as int);
        }
        lo = lo + 1;
    }
    let ghost t = value@.skip(lo as int);
    assert(trim_start(value@) == t) by {
        if lo < len {
            assert(t[0] == value@[lo as int]);
        } else {
            assert(t.len() == 0);
        }
    }
    let mut hi: usize = len;
    assert(t.take(t.len() as int) =~= t);
    while hi > lo && is_white_space_char(value.get_char(hi - 1))
        invariant
            len == value@.len(),
            lo <= hi <= len,
            t == value@.skip(lo as int),
            trim_end(t) == trim_end(t.take(hi - lo)),
        decreases hi - lo,
    {
        proof {
            assert(t[hi - lo - 1] == value@[hi - 1]);
            lemma_trim_end_take(t, hi - lo);
        }
        hi = hi - 1;
    }
    let ghost u = t.take(hi - lo);
    assert(trim_end(t) == u) by {
        if hi > lo {
            assert(u.last() == value@[hi - 1]);
        }
    }
    let mut out: Vec<char> = Vec::new();
    let mut k: usize = lo;
    while k < hi
        invariant
            len == value@.len(),
            lo <= k <= hi <= len,
            u == value@.skip(lo as int).take(hi - lo),
            out@ == u.take(k - lo).map_values(|c: char| ascii_lower(c)),
        decreases hi - k,
    {
        let c = lower_char(value.get_char(k));
        out.push(c);
        k = k + 1;
        assert(out@ =~= u.take(k - lo).map_values(|c: char| ascii_lower(c)));
    }
    assert(u.take(hi - lo) =~= u);
    out
}

/// Whether the characters `v` spell the string `lit`.
fn chars_are(v: &Vec<char>, lit: &str) -> (r: bool)
    ensures
        r == (v@ == lit@),
{
    let n = lit.unicode_len();
    if v.len() != n {
        return false;
    }
    let mut i: usize = 0;
    while i < n
        invariant
            n == lit@.len(),
            v@.len() == n,
            i <= n,
            forall|j: int| 0 <= j < i ==> v@[j] == lit@[j],
        decreases n - i,
    {
        if v[i] != lit.get_char(i) {
            return false;
        }
        i = i + 1;
    }
    assert(v@ =~= lit@);
    true
}

/// The offload policy that a value of `OPEN_CUDA_GEMM_OFFLOAD` selects:
/// `gpu`, `force` or `1` force the GPU, `cpu`, `off` or `0` keep the CPU, and
/// anything else (unset, empty, `auto`, unknown) measures. Surrounding white
/// space and ASCII case do not matter.
pub fn policy_from_value(value: Option<&str>) -> (r: OffloadPolicy)
    ensures
        r == spec_policy(
            match value {
                Some(s) => Some(s@),
                None => None,
            },
        ),
{
    match value {
        None => OffloadPolicy::Auto,
        Some(s) => {
            let n = normalize(s);
            if chars_are(&n, "gpu") || chars_are(&n, "force") || chars_are(&n, "1") {
                OffloadPolicy::ForceGpu
            } else if chars_are(&n, "cpu") || chars_are(&n, "off") || chars_are(&n, "0") {
                OffloadPolicy::ForceCpu
            } else {
                OffloadPolicy::Auto
            }
        },
    }
}

/// The GEMM back end chosen for a device.
#[derive(Debug, Clone, Copy, PartialEq, Eq, Structural)]
pub enum GemmPath {
    /// NVIDIA cuBLAS (not implemented).
    CuBlas,
    /// AMD rocBLAS (not implemented).
    RocBlas,
    /// Intel oneMKL (not implemented).
    OneMkl,
    /// The generic Vulkan compute path.
    VulkanGeneric,
    /// The CPU path.
    CpuNaive,
    /// The generic DirectX 12 compute path (DXIL kernels).
    DirectXGeneric,
}

/// The name of a GEMM path, as its variant is written.
pub open spec fn spec_gemm_path_name(p: GemmPath) -> Seq<char> {
    match p {
        GemmPath::CuBlas => "CuBlas"@,
        GemmPath::RocBlas => "RocBlas"@,
        GemmPath::OneMkl => "OneMkl"@,
        GemmPath::VulkanGeneric => "VulkanGeneric"@,
        GemmPath::CpuNaive => "CpuNaive"@,
        GemmPath::DirectXGeneric => "DirectXGeneric"@,
    }
}

/// The name of a GEMM path (see `spec_gemm_path_name`).
pub fn gemm_path_name(p: GemmPath) -> (r: &'static str)
    ensures
        r@ == spec_gemm_path_name(p),
{
    match p {
        GemmPath::CuBlas => "CuBlas",
        GemmPath::RocBlas => "RocBlas",
        GemmPath::OneMkl => "OneMkl",
        GemmPath::VulkanGeneric => "VulkanGeneric",
        GemmPath::CpuNaive => "CpuNaive",
        GemmPath::DirectXGeneric => "DirectXGeneric",
    }
}

/// The vendor library path of each vendor.
pub open spec fn vendor_path(v: GpuVendor) -> GemmPath {
    match v {
        GpuVendor::Nvidia { .. } => GemmPath::CuBlas,
        GpuVendor::Amd { .. } => GemmPath::RocBlas,
        GpuVendor::Intel { .. } => GemmPath::OneMkl,
        GpuVendor::Cpu => GemmPath::CpuNaive,
        GpuVendor::Qualcomm { .. } | GpuVendor::Arm { .. } | GpuVendor::ImaginationPowerVr {
            ..
        } => GemmPath::VulkanGeneric,
        GpuVendor::Unknown => GemmPath::VulkanGeneric,
    }
}

/// The vendor library paths that are not implemented yet.
pub open spec fn is_stub_path(p: GemmPath) -> bool {
    p == GemmPath::CuBlas || p == GemmPath::RocBlas || p == GemmPath::OneMkl
}

/// The path for a vendor and what kernels the device runs: a stub vendor path
/// gives way to the Vulkan path on a device that runs SPIR-V; on a device that
/// runs DXIL but not SPIR-V, a stub or Vulkan path gives way to the DirectX
/// path.
pub open spec fn spec_gemm_path(v: GpuVendor, spirv: bool, dxil: bool) -> GemmPath {
    let p = vendor_path(v);
    if is_stub_path(p) && spirv {
        GemmPath::VulkanGeneric
    } else if (is_stub_path(p) || p == GemmPath::VulkanGeneric) && dxil && !spirv {
        GemmPath::DirectXGeneric
    } else {
        p
    }
}

/// The GEMM path for a vendor and what kernels the device runs (see
/// `spec_gemm_path`).
pub fn gemm_path_for(vendor: &GpuVendor, spirv: bool, dxil: bool) -> (r: GemmPath)
    ensures
        r == spec_gemm_path(*vendor, spirv, dxil),
        spirv ==> !is_stub_path(r),
        dxil && !spirv ==> !is_stub_path(r) && r != GemmPath::VulkanGeneric,
{
    let vendor_path = match vendor {
        GpuVendor::Nvidia { .. } => GemmPath::CuBlas,
        GpuVendor::Amd { .. } => GemmPath::RocBlas,
        GpuVendor::Intel { .. } => GemmPath::OneMkl,
        GpuVendor::Cpu => GemmPath::CpuNaive,
        GpuVendor::Qualcomm { .. } | GpuVendor::Arm { .. } | GpuVendor::ImaginationPowerVr {
            ..
        } => GemmPath::VulkanGeneric,
        GpuVendor::Unknown => GemmPath::VulkanGeneric,
    };
    let stub = match vendor_path {
        GemmPath::CuBlas | GemmPath::RocBlas | GemmPath::OneMkl => true,
        _ => false,
    };
    let generic = match vendor_path {
        GemmPath::VulkanGeneric => true,
        _ => false,
    };
    if stub && spirv {
        GemmPath::VulkanGeneric
    } else if (stub || generic) && !spirv && dxil {
        GemmPath::DirectXGeneric
    } else {
        vendor_path
    }
}

/// Pick the GEMM path of a device: its vendor's library, except that the
/// vendor libraries that are still stubs give way to a generic path the device
/// runs (Vulkan first, then DirectX), and a device that runs DXIL but not
/// SPIR-V is not sent to the Vulkan path.
pub fn select_gemm_path<D: GpuDevice + ?Sized>(device: &D) -> (r: GemmPath)
    ensures
        r == spec_gemm_path(
            device.spec_info().vendor,
            device.spec_supports_spirv(),
            device.spec_supports_dxil(),
        ),
        device.spec_supports_spirv() ==> !is_stub_path(r),
        device.spec_supports_dxil() && !device.spec_supports_spirv() ==> !is_stub_path(r) && r
            != GemmPath::VulkanGeneric,
{
    let spirv = device.supports_spirv();
    let dxil = device.supports_dxil();
    gemm_path_for(&device.info().vendor, spirv, dxil)
}

/// The policy words: `cpu`, `off` and `0` keep GEMM on the CPU, `gpu`,
/// `force` and `1` force the GPU, and any other value, or none, measures;
/// the value is compared trimmed and in ASCII lower case.
pub proof fn law_policy_words(s: Seq<char>)
    ensures
        normalized(s) == "cpu"@ ==> spec_policy(Some(s)) == OffloadPolicy::ForceCpu,
        normalized(s) == "off"@ ==> spec_policy(Some(s)) == OffloadPolicy::ForceCpu,
        normalized(s) == "0"@ ==> spec_policy(Some(s)) == OffloadPolicy::ForceCpu,
        normalized(s) == "gpu"@ ==> spec_policy(Some(s)) == OffloadPolicy::ForceGpu,
        normalized(s) == "force"@ ==> spec_policy(Some(s)) == OffloadPolicy::ForceGpu,
        normalized(s) == "1"@ ==> spec_policy(Some(s)) == OffloadPolicy::ForceGpu,
        normalized(s) != "cpu"@ && normalized(s) != "off"@ && normalized(s) != "0"@ && normalized(s)
            != "gpu"@ && normalized(s) != "force"@ && normalized(s) != "1"@ ==> spec_policy(Some(s))
            == OffloadPolicy::Auto,
        spec_policy(None) == OffloadPolicy::Auto,
{
    reveal_strlit("cpu");
    reveal_strlit("off");
    reveal_strlit("0");
    reveal_strlit("gpu");
    reveal_strlit("force");
    reveal_strlit("1");
    assert("cpu"@[0] != "gpu"@[0]);
    assert("cpu"@.len() != "force"@.len() && "cpu"@.len() != "1"@.len());
    assert("off"@[0] != "gpu"@[0]);
    assert("off"@.len() != "force"@.len() && "off"@.len() != "1"@.len());
    assert("0"@[0] != "1"@[0]);
    assert("0"@.len() != "gpu"@.len() && "0"@.len() != "force"@.len());
}

/// The GEMM path of each vendor. NVIDIA, AMD and Intel have vendor libraries
/// that are still stubs, so a device of theirs that runs SPIR-V takes the
/// Vulkan path, one that runs only DXIL the DirectX path, and any other the
/// stub. Qualcomm, ARM, Imagination and unknown vendors take the Vulkan path,
/// except a device that runs DXIL but not SPIR-V, which takes the DirectX
/// path. The CPU takes the CPU path.
pub proof fn law_gemm_paths(v: GpuVendor, spirv: bool, dxil: bool)
    ensures
        v is Nvidia ==> spec_gemm_path(v, spirv, dxil) == if spirv {
            GemmPath::VulkanGeneric
        } else if dxil {
            GemmPath::DirectXGeneric
        } else {
            GemmPath::CuBlas
        },
        v is Amd ==> spec_gemm_path(v, spirv, dxil) == if spirv {
            GemmPath::VulkanGeneric
        } else if dxil {
            GemmPath::DirectXGeneric
        } else {
            GemmPath::RocBlas
        },
        v is Intel ==> spec_gemm_path(v, spirv, dxil) == if spirv {
            GemmPath::VulkanGeneric
        } else if dxil {
            GemmPath::DirectXGeneric
        } else {
            GemmPath::OneMkl
        },
        v is Qualcomm || v is Arm || v is ImaginationPowerVr || v is Unknown ==> spec_gemm_path(
            v,
            spirv,
            dxil,
        ) == if dxil && !spirv {
            GemmPath::DirectXGeneric
        } else {
            GemmPath::VulkanGeneric
        },
        v is Cpu ==> spec_gemm_path(v, spirv, dxil) == GemmPath::CpuNaive,
{
}

/// The shapes `(m, k, n)` probed when the caller names none: GPT-2 124M
/// (hidden 768, vocabulary 50257).
pub open spec fn spec_default_probe_shapes() -> Seq<(usize, usize, usize)> {
    seq![(1usize, 768usize, 2304usize), (1usize, 768usize, 3072usize), (1usize, 768usize, 50257usize)]
}

pub fn default_probe_shapes() -> (r: Vec<(usize, usize, usize)>)
    ensures
        r@ == spec_default_probe_shapes(),
{
    let v = vec![(1usize, 768usize, 2304usize), (1usize, 768usize, 3072usize), (1usize, 768usize, 50257usize)];
    assert(v@ =~= spec_default_probe_shapes());
    v
}

/// The shapes to probe: the caller's, or the defaults when there are none.
pub fn probe_shapes(shapes: &[(usize, usize, usize)]) -> (r: Vec<(usize, usize, usize)>)
    ensures
        shapes@.len() == 0 ==> r@ == spec_default_probe_shapes(),
        shapes@.len() > 0 ==> r@ == shapes@,
{
    if shapes.len() == 0 {
        return default_probe_shapes();
    }
    let mut out: Vec<(usize, usize, usize)> = Vec::new();
    let mut i: usize = 0;
    while i < shapes.len()
        invariant
            i <= shapes@.len(),
            out@ == shapes@.take(i as int),
        decreases shapes@.len() - i,
    {
        out.push(shapes[i]);
        i = i + 1;
        assert(out@ =~= shapes@.take(i as int));
    }
    assert(shapes@.take(i as int) =~= shapes@);
    out
}

/// The cost by which shapes are compared: `m*k + k*n` (the input sizes).
pub open spec fn shape_cost(s: (usize, usize, usize)) -> int {
    s.0 as int * s.1 as int + s.1 as int * s.2 as int
}

/// The cheapest shape, the first of them on a tie (where the numerical check
/// is made).
pub fn smallest_probe_shape(shapes: &[(usize, usize, usize)]) -> (r: Option<(usize, usize, usize)>)
    requires
        forall|i: int| 0 <= i < shapes@.len() ==> #[trigger] shape_cost(shapes@[i]) <= usize::MAX,
    ensures
        shapes@.len() == 0 ==> r is None,
        shapes@.len() > 0 ==> exists|i: int|
            0 <= i < shapes@.len() && r == Some(#[trigger] shapes@[i]) && (forall|j: int|
                0 <= j < shapes@.len() ==> shape_cost(shapes@[i]) <= #[trigger] shape_cost(
                    shapes@[j],
                )) && (forall|j: int| 0 <= j < i ==> shape_cost(shapes@[i]) < #[trigger] shape_cost(
                shapes@[j],
            )),
{
    if shapes.len() == 0 {
        return None;
    }
    let mut best: usize = 0;
    let (m0, k0, n0) = shapes[0];
    proof {
        assert(shape_cost(shapes@[0]) <= usize::MAX);
        assert(m0 as int * k0 as int >= 0 && k0 as int * n0 as int >= 0) by (nonlinear_arith);
    }
    let mut best_cost: usize = m0 * k0 + k0 * n0;
    let mut i: usize = 1;
    while i < shapes.len()
        invariant
            1 <= i <= shapes@.len(),
            best < i,
            best_cost == shape_cost(shapes@[best as int]),
            forall|i: int| 0 <= i < shapes@.len() ==> #[trigger] shape_cost(shapes@[i]) <= usize::MAX,
            forall|j: int| 0 <= j < i ==> best_cost <= #[trigger] shape_cost(shapes@[j]),
            forall|j: int| 0 <= j < best ==> best_cost < #[trigger] shape_cost(shapes@[j]),
        decreases shapes@.len() - i,
    {
        let (m, k, n) = shapes[i];
        proof {
            assert(shape_cost(shapes@[i as int]) <= usize::MAX);
            assert(m as int * k as int >= 0 && k as int * n as int >= 0) by (nonlinear_arith);
        }
        let cost = m * k + k * n;
        if cost < best_cost {
            best = i;
            best_cost = cost;
        }
        i = i + 1;
    }
    Some(shapes[best])
}

/// Whether to measure before deciding an offload: a policy that keeps GEMM on
/// the CPU measures nothing (`Ok(false)`); otherwise the device must run DXIL
/// kernels (`Ok(true)`: measure), or the decision is refused before any
/// measurement, the refusal naming the device.
pub fn offload_plan(policy: OffloadPolicy, supports_dxil: bool, device_name: &str) -> (r: Result<bool, Error>)
    ensures
        policy == OffloadPolicy::ForceCpu ==> r == Ok::<bool, Error>(false),
        policy != OffloadPolicy::ForceCpu ==> (r is Ok <==> supports_dxil),
        policy != OffloadPolicy::ForceCpu && supports_dxil ==> r == Ok::<bool, Error>(true),
        policy != OffloadPolicy::ForceCpu && !supports_dxil ==> (r matches Err(Error::DxilNotSupported(n))
            && n@ == device_name@),
{
    match policy {
        OffloadPolicy::ForceCpu => Ok(false),
        _ => {
            if supports_dxil {
                Ok(true)
            } else {
                Err(Error::DxilNotSupported(device_name.to_owned()))
            }
        },
    }
}

/// Why an offload decision came out as it did.
#[derive(Debug, Clone, Copy, PartialEq, Eq, Structural)]
pub enum OffloadReason {
    /// The policy keeps GEMM on the CPU; nothing is measured.
    ForcedCpu,
    /// The device's result differs from the CPU reference: stay on the CPU,
    /// whatever the policy or the timings say.
    NumericsMismatch,
    /// The policy sends GEMM to the GPU; the timings are ignored.
    ForcedGpu,
    /// The device was faster over the probe shapes.
    Faster,
    /// The device was not faster over the probe shapes.
    Slower,
}

/// The verdict of an offload measurement: `numerics_ok` says whether the
/// device matched the CPU reference on the cheapest shape, `gpu_faster`
/// whether its total time over the probes was below the CPU's.
pub open spec fn spec_offload_reason(policy: OffloadPolicy, numerics_ok: bool, gpu_faster: bool) -> OffloadReason {
    if policy == OffloadPolicy::ForceCpu {
        OffloadReason::ForcedCpu
    } else if !numerics_ok {
        OffloadReason::NumericsMismatch
    } else if policy == OffloadPolicy::ForceGpu {
        OffloadReason::ForcedGpu
    } else if gpu_faster {
        OffloadReason::Faster
    } else {
        OffloadReason::Slower
    }
}

/// Decide an offload from the policy and what the measurement found.
pub fn offload_reason(policy: OffloadPolicy, numerics_ok: bool, gpu_faster: bool) -> (r: OffloadReason)
    ensures
        r == spec_offload_reason(policy, numerics_ok, gpu_faster),
{
    match policy {
        OffloadPolicy::ForceCpu => OffloadReason::ForcedCpu,
        _ => {
            if !numerics_ok {
                OffloadReason::NumericsMismatch
            } else {
                match policy {
                    OffloadPolicy::ForceGpu => OffloadReason::ForcedGpu,
                    _ => {
                        if gpu_faster {
                            OffloadReason::Faster
                        } else {
                            OffloadReason::Slower
                        }
                    },
                }
            }
        },
    }
}

impl OffloadReason {
    /// The reason as text, for the three verdicts whose text is fixed; the
    /// measured verdicts state a speed ratio, which is written elsewhere.
    pub fn fixed_text(&self) -> (r: Option<&'static str>)
        ensures
            *self == OffloadReason::ForcedCpu ==> r == Some(
                "OPEN_CUDA_GEMM_OFFLOAD=cpu (measurement skipped)",
            ),
            *self == OffloadReason::NumericsMismatch ==> r == Some(
                "GPU result did not match the CPU reference within 1e-3; staying on CPU",
            ),
            *self == OffloadReason::ForcedGpu ==> r == Some(
                "OPEN_CUDA_GEMM_OFFLOAD=gpu (measurement ignored)",
            ),
            *self == OffloadReason::Faster || *self == OffloadReason::Slower ==> r is None,
    {
        match self {
            OffloadReason::ForcedCpu => Some("OPEN_CUDA_GEMM_OFFLOAD=cpu (measurement skipped)"),
            OffloadReason::NumericsMismatch => Some(
                "GPU result did not match the CPU reference within 1e-3; staying on CPU",
            ),
            OffloadReason::ForcedGpu => Some("OPEN_CUDA_GEMM_OFFLOAD=gpu (measurement ignored)"),
            _ => None,
        }
    }

    /// Whether the decision sends GEMM to the GPU.
    pub fn use_gpu(&self) -> (r: bool)
        ensures
            r == (*self == OffloadReason::ForcedGpu || *self == OffloadReason::Faster),
    {
        match self {
            OffloadReason::ForcedGpu | OffloadReason::Faster => true,
            _ => false,
        }
    }
}

/// A device whose result differs from the CPU reference is never chosen,
/// whatever the policy and the timings.
pub proof fn law_mismatch_stays_on_cpu(policy: OffloadPolicy, gpu_faster: bool)
    ensures
        spec_offload_reason(policy, false, gpu_faster) != OffloadReason::ForcedGpu,
        spec_offload_reason(policy, false, gpu_faster) != OffloadReason::Faster,
{
}

} // verus!
