//! GPU vendors, APIs and the choice of a GPU to run on.

use vstd::prelude::*;
use crate::error::ErrorCode;
use crate::text::{contains_str, decimal, has_substring, u64_to_decimal};

verus! {

/// GPU vendors known by PCI vendor id.
#[derive(Debug, Clone, Copy, PartialEq, Eq, Hash, Structural)]
pub enum GpuVendor {
    Amd,
    Nvidia,
    Intel,
    Apple,
    Unknown(u32),
}

/// PCI vendor id of AMD.
pub const AMD_VENDOR_ID: u32 = 0x1002;
/// PCI vendor id of NVIDIA.
pub const NVIDIA_VENDOR_ID: u32 = 0x10DE;
/// PCI vendor id of Intel.
pub const INTEL_VENDOR_ID: u32 = 0x8086;
/// PCI vendor id of Apple.
pub const APPLE_VENDOR_ID: u32 = 0x106B;

impl GpuVendor {
    pub open spec fn from_id_spec(id: u32) -> GpuVendor {
        if id == AMD_VENDOR_ID { GpuVendor::Amd }
        else if id == NVIDIA_VENDOR_ID { GpuVendor::Nvidia }
        else if id == INTEL_VENDOR_ID { GpuVendor::Intel }
        else if id == APPLE_VENDOR_ID { GpuVendor::Apple }
        else { GpuVendor::Unknown(id) }
    }

    pub open spec fn id_spec(self) -> u32 {
        match self {
            GpuVendor::Amd => AMD_VENDOR_ID,
            GpuVendor::Nvidia => NVIDIA_VENDOR_ID,
            GpuVendor::Intel => INTEL_VENDOR_ID,
            GpuVendor::Apple => APPLE_VENDOR_ID,
            GpuVendor::Unknown(id) => id,
        }
    }

    /// The vendor with this PCI id.
    pub fn from_vendor_id(id: u32) -> (r: Self)
        ensures
            r == GpuVendor::from_id_spec(id),
            r.id_spec() == id,
    {
        if id == AMD_VENDOR_ID { GpuVendor::Amd }
        else if id == NVIDIA_VENDOR_ID { GpuVendor::Nvidia }
        else if id == INTEL_VENDOR_ID { GpuVendor::Intel }
        else if id == APPLE_VENDOR_ID { GpuVendor::Apple }
        else { GpuVendor::Unknown(id) }
    }

    /// The PCI id of the vendor.
    pub fn vendor_id(&self) -> (r: u32)
        ensures
            r == self.id_spec(),
    {
        match self {
            GpuVendor::Amd => AMD_VENDOR_ID,
            GpuVendor::Nvidia => NVIDIA_VENDOR_ID,
            GpuVendor::Intel => INTEL_VENDOR_ID,
            GpuVendor::Apple => APPLE_VENDOR_ID,
            GpuVendor::Unknown(id) => *id,
        }
    }

    pub open spec fn name_spec(self) -> Seq<char> {
        match self {
            GpuVendor::Amd => "AMD"@,
            GpuVendor::Nvidia => "NVIDIA"@,
            GpuVendor::Intel => "Intel"@,
            GpuVendor::Apple => "Apple"@,
            GpuVendor::Unknown(_) => "Unknown"@,
        }
    }

    /// The vendor's display name.
    pub fn name(&self) -> (r: &'static str)
        ensures
            r@ == self.name_spec(),
    {
        match self {
            GpuVendor::Amd => "AMD",
            GpuVendor::Nvidia => "NVIDIA",
            GpuVendor::Intel => "Intel",
            GpuVendor::Apple => "Apple",
            GpuVendor::Unknown(_) => "Unknown",
        }
    }

    pub open spec fn priority_spec(self) -> u32 {
        match self {
            GpuVendor::Amd => 100,
            GpuVendor::Nvidia => 90,
            GpuVendor::Apple => 80,
            GpuVendor::Intel => 50,
            GpuVendor::Unknown(_) => 10,
        }
    }

    /// Preference score of the vendor; higher is preferred.
    pub fn priority(&self) -> (r: u32)
        ensures
            r == self.priority_spec(),
    {
        match self {
            GpuVendor::Amd => 100,
            GpuVendor::Nvidia => 90,
            GpuVendor::Apple => 80,
            GpuVendor::Intel => 50,
            GpuVendor::Unknown(_) => 10,
        }
    }

    /// Whether the vendor is one of the known ones.
    pub fn is_known(&self) -> (r: bool)
        ensures
            r == !(*self is Unknown),
    {
        !matches!(self, GpuVendor::Unknown(_))
    }
}

/// Graphics and compute APIs.
#[derive(Debug, Clone, Copy, PartialEq, Eq, Hash, Structural)]
pub enum GpuApi {
    Vulkan,
    Cuda,
    Rocm,
    Metal,
    DirectX12,
    OpenCl,
}

impl GpuApi {
    pub open spec fn name_spec(self) -> Seq<char> {
        match self {
            GpuApi::Vulkan => "Vulkan"@,
            GpuApi::Cuda => "CUDA"@,
            GpuApi::Rocm => "ROCm"@,
            GpuApi::Metal => "Metal"@,
            GpuApi::DirectX12 => "DirectX 12"@,
            GpuApi::OpenCl => "OpenCL"@,
        }
    }

    /// The API's display name.
    pub fn name(&self) -> (r: &'static str)
        ensures
            r@ == self.name_spec(),
    {
        match self {
            GpuApi::Vulkan => "Vulkan",
            GpuApi::Cuda => "CUDA",
            GpuApi::Rocm => "ROCm",
            GpuApi::Metal => "Metal",
            GpuApi::DirectX12 => "DirectX 12",
            GpuApi::OpenCl => "OpenCL",
        }
    }

    pub open spec fn available_spec(self, vendor: GpuVendor) -> bool {
        match self {
            GpuApi::Vulkan => vendor is Amd || vendor is Nvidia || vendor is Intel,
            GpuApi::Cuda => vendor is Nvidia,
            GpuApi::Rocm => vendor is Amd,
            GpuApi::Metal => vendor is Apple || vendor is Amd || vendor is Intel,
            GpuApi::DirectX12 => vendor is Amd || vendor is Nvidia || vendor is Intel,
            GpuApi::OpenCl => true,
        }
    }

    /// Whether the API is usually available on GPUs of `vendor`.
    pub fn is_available_for_vendor(&self, vendor: GpuVendor) -> (r: bool)
        ensures
            r == self.available_spec(vendor),
    {
        match self {
            GpuApi::Vulkan => matches!(vendor, GpuVendor::Amd | GpuVendor::Nvidia | GpuVendor::Intel),
            GpuApi::Cuda => matches!(vendor, GpuVendor::Nvidia),
            GpuApi::Rocm => matches!(vendor, GpuVendor::Amd),
            GpuApi::Metal => matches!(vendor, GpuVendor::Apple | GpuVendor::Amd | GpuVendor::Intel),
            GpuApi::DirectX12 => matches!(vendor, GpuVendor::Amd | GpuVendor::Nvidia | GpuVendor::Intel),
            GpuApi::OpenCl => true,
        }
    }
}

/// A detected GPU.
#[derive(Debug, Clone)]
pub struct GpuInfo {
    pub id: u32,
    pub name: String,
    pub vendor: GpuVendor,
    pub vendor_id: u32,
    pub device_id: u32,
    pub total_memory_mb: u64,
    pub driver_version: String,
    pub api_support: Vec<GpuApi>,
    pub vulkan_version: Option<String>,
    pub is_discrete: bool,
    pub compute_capable: bool,
}

/// Base throughput, tokens per second, of a GPU with this much memory.
pub open spec fn base_rate(mem_mb: u64) -> u64 {
    if mem_mb < 4096 { 30 }
    else if mem_mb < 8192 { 60 }
    else if mem_mb < 16384 { 120 }
    else if mem_mb < 24576 { 180 }
    else { 250 }
}

/// Quantization adjustment, in tenths.
pub open spec fn quant_tenths(q: Seq<char>) -> u64 {
    if has_substring(q, "Q4"@) { 12 }
    else if has_substring(q, "Q5"@) { 10 }
    else if has_substring(q, "Q8"@) { 8 }
    else if has_substring(q, "F16"@) { 5 }
    else { 10 }
}

/// Vendor adjustment, in tenths.
pub open spec fn vendor_tenths(v: GpuVendor) -> u64 {
    match v {
        GpuVendor::Nvidia => 11,
        GpuVendor::Amd => 10,
        GpuVendor::Apple => 9,
        GpuVendor::Intel => 6,
        GpuVendor::Unknown(_) => 5,
    }
}

/// Selection score: vendor preference, memory in whole GB, and a bonus for
/// a discrete card.
pub open spec fn gpu_score(g: GpuInfo) -> u64 {
    (g.vendor.priority_spec() as u64 + g.total_memory_mb / 1024 + if g.is_discrete { 20u64 } else { 0u64 }) as u64
}

/// Text of the API list, names separated by `, `.
pub open spec fn api_list(apis: Seq<GpuApi>) -> Seq<char>
    decreases apis.len(),
{
    if apis.len() == 0 {
        Seq::empty()
    } else if apis.len() == 1 {
        apis[0].name_spec()
    } else {
        api_list(apis.drop_last()) + ", "@ + apis.last().name_spec()
    }
}

impl GpuInfo {
    /// Whether the GPU supports `api`.
    pub fn supports_api(&self, api: GpuApi) -> (r: bool)
        ensures
            r == self.api_support@.contains(api),
    {
        let mut i: usize = 0;
        while i < self.api_support.len()
            invariant
                i <= self.api_support@.len(),
                forall|k: int| 0 <= k < i ==> self.api_support@[k] != api,
            decreases self.api_support@.len() - i,
        {
            if self.api_support[i] == api {
                return true;
            }
            i += 1;
        }
        false
    }

    /// Rough inference throughput for a quantization, in whole tokens per
    /// second: the memory class's base rate scaled by the quantization and
    /// vendor adjustments.
    pub fn estimated_tokens_per_sec(&self, quantization: &str) -> (r: u32)
        ensures
            r == base_rate(self.total_memory_mb) * quant_tenths(quantization@) * vendor_tenths(self.vendor) / 100,
    {
        let m = self.total_memory_mb;
        let base: u64 = if m < 4096 { 30 } else if m < 8192 { 60 } else if m < 16384 { 120 } else if m < 24576 { 180 } else { 250 };
        let q: u64 = if contains_str(quantization, "Q4") { 12 }
            else if contains_str(quantization, "Q5") { 10 }
            else if contains_str(quantization, "Q8") { 8 }
            else if contains_str(quantization, "F16") { 5 }
            else { 10 };
        let v: u64 = match self.vendor {
            GpuVendor::Nvidia => 11,
            GpuVendor::Amd => 10,
            GpuVendor::Apple => 9,
            GpuVendor::Intel => 6,
            GpuVendor::Unknown(_) => 5,
        };
        assert(base * q * v <= 250 * 12 * 11) by (nonlinear_arith)
            requires base <= 250, q <= 12, v <= 11;
        (base * q * v / 100) as u32
    }

    pub open spec fn summary_spec(&self) -> Seq<char> {
        self.vendor.name_spec() + " "@ + self.name@ + " ("@ + decimal(self.total_memory_mb as nat) + "MB) - "@
            + api_list(self.api_support@)
    }

    /// One line describing the GPU: vendor, name, memory and APIs.
    pub fn summary(&self) -> (r: String)
        ensures
            r@ == self.summary_spec(),
    {
        let mut s = self.vendor.name().to_owned();
        s.append(" ");
        s.append(self.name.as_str());
        s.append(" (");
        s.append(u64_to_decimal(self.total_memory_mb).as_str());
        s.append("MB) - ");
        let ghost head = s@;
        let mut i: usize = 0;
        while i < self.api_support.len()
            invariant
                i <= self.api_support@.len(),
                s@ == head + api_list(self.api_support@.subrange(0, i as int)),
            decreases self.api_support@.len() - i,
        {
            let ghost pre = self.api_support@.subrange(0, i as int);
            assert(self.api_support@.subrange(0, i as int + 1).drop_last() =~= pre);
            if i > 0 {
                s.append(", ");
            }
            s.append(self.api_support[i].name());
            assert(s@ =~= head + api_list(self.api_support@.subrange(0, i as int + 1)));
            i += 1;
        }
        assert(self.api_support@.subrange(0, i as int) =~= self.api_support@);
        assert(s@ =~= self.summary_spec());
        s
    }
}

/// Position of the best compute-capable GPU by score; ties go to the later
/// one.
fn best_index(gpus: &[GpuInfo]) -> (r: Option<usize>)
    ensures
        match r {
            Some(b) => b < gpus@.len() && gpus@[b as int].compute_capable
                && forall|k: int| 0 <= k < gpus@.len() && (#[trigger] gpus@[k]).compute_capable
                    ==> gpu_score(gpus@[k]) <= gpu_score(gpus@[b as int])
                && forall|k: int| b < k < gpus@.len() && (#[trigger] gpus@[k]).compute_capable
                    ==> gpu_score(gpus@[k]) < gpu_score(gpus@[b as int]),
            None => forall|k: int| 0 <= k < gpus@.len() ==> !(#[trigger] gpus@[k]).compute_capable,
        },
{
    let mut best: Option<usize> = None;
    let mut best_score: u64 = 0;
    let mut i: usize = 0;
    while i < gpus.len()
        invariant
            i <= gpus@.len(),
            match best {
                Some(b) => b < i && gpus@[b as int].compute_capable && best_score == gpu_score(gpus@[b as int])
                    && forall|k: int| 0 <= k < i && (#[trigger] gpus@[k]).compute_capable
                        ==> gpu_score(gpus@[k]) <= best_score
                    && forall|k: int| b < k < i && (#[trigger] gpus@[k]).compute_capable
                        ==> gpu_score(gpus@[k]) < best_score,
                None => forall|k: int| 0 <= k < i ==> !(#[trigger] gpus@[k]).compute_capable,
            },
        decreases gpus@.len() - i,
    {
        let g = &gpus[i];
        if g.compute_capable {
            let score: u64 = g.vendor.priority() as u64 + g.total_memory_mb / 1024 + if g.is_discrete { 20 } else { 0 };
            match best {
                Some(_) => {
                    if score >= best_score {
                        best = Some(i);
                        best_score = score;
                    }
                },
                None => {
                    best = Some(i);
                    best_score = score;
                },
            }
        }
        i += 1;
    }
    best
}

/// The choice `select_best_gpu` makes: the last compute-capable GPU of
/// highest score.
pub open spec fn select_best_gpu_spec(gpus: Seq<GpuInfo>) -> Option<GpuInfo> {
    if exists|b: int| is_best_at(gpus, b) {
        Some(gpus[choose|b: int| is_best_at(gpus, b)])
    } else {
        None
    }
}

/// GPU `b` is compute capable, scores at least as high as every other one,
/// and higher than every later one.
pub open spec fn is_best_at(gpus: Seq<GpuInfo>, b: int) -> bool {
    &&& 0 <= b < gpus.len()
    &&& gpus[b].compute_capable
    &&& forall|k: int| 0 <= k < gpus.len() && (#[trigger] gpus[k]).compute_capable ==> gpu_score(gpus[k]) <= gpu_score(gpus[b])
    &&& forall|k: int| b < k < gpus.len() && (#[trigger] gpus[k]).compute_capable ==> gpu_score(gpus[k]) < gpu_score(gpus[b])
}

proof fn lemma_best_unique(gpus: Seq<GpuInfo>, b: int)
    requires
        is_best_at(gpus, b),
    ensures
        select_best_gpu_spec(gpus) == Some(gpus[b]),
{
    let c = choose|c: int| is_best_at(gpus, c);
    if c < b {
        assert(gpu_score(gpus[b]) < gpu_score(gpus[c]));
    } else if c > b {
        assert(gpu_score(gpus[c]) < gpu_score(gpus[b]));
    }
}

/// The compute-capable GPU with the highest score: vendor preference plus
/// memory in GB plus a discrete-card bonus. Among equal scores the last
/// one wins.
pub fn select_best_gpu(gpus: &[GpuInfo]) -> (r: Option<&GpuInfo>)
    ensures
        match r {
            Some(g) => select_best_gpu_spec(gpus@) == Some(*g),
            None => select_best_gpu_spec(gpus@) is None,
        },
        match r {
            Some(g) => gpus@.contains(*g) && g.compute_capable
                && forall|k: int| 0 <= k < gpus@.len() && (#[trigger] gpus@[k]).compute_capable
                    ==> gpu_score(gpus@[k]) <= gpu_score(*g),
            None => forall|k: int| 0 <= k < gpus@.len() ==> !(#[trigger] gpus@[k]).compute_capable,
        },
{
    match best_index(gpus) {
        Some(b) => {
            assert(gpus@.contains(gpus@[b as int]));
            proof { lemma_best_unique(gpus@, b as int); }
            Some(&gpus[b])
        },
        None => {
            assert(!exists|b: int| is_best_at(gpus@, b));
            None
        },
    }
}

/// Position of the compute-capable GPU of `vendor` with the most memory;
/// ties go to the later one.
fn best_of_vendor(gpus: &[GpuInfo], vendor: GpuVendor) -> (r: Option<usize>)
    ensures
        match r {
            Some(b) => b < gpus@.len() && gpus@[b as int].compute_capable && gpus@[b as int].vendor == vendor
                && forall|k: int| 0 <= k < gpus@.len() && (#[trigger] gpus@[k]).compute_capable && gpus@[k].vendor == vendor
                    ==> gpus@[k].total_memory_mb <= gpus@[b as int].total_memory_mb,
            None => forall|k: int| 0 <= k < gpus@.len() ==> !((#[trigger] gpus@[k]).compute_capable && gpus@[k].vendor == vendor),
        },
{
    let mut best: Option<usize> = None;
    let mut i: usize = 0;
    while i < gpus.len()
        invariant
            i <= gpus@.len(),
            match best {
                Some(b) => b < i && gpus@[b as int].compute_capable && gpus@[b as int].vendor == vendor
                    && forall|k: int| 0 <= k < i && (#[trigger] gpus@[k]).compute_capable && gpus@[k].vendor == vendor
                        ==> gpus@[k].total_memory_mb <= gpus@[b as int].total_memory_mb,
                None => forall|k: int| 0 <= k < i ==> !((#[trigger] gpus@[k]).compute_capable && gpus@[k].vendor == vendor),
            },
        decreases gpus@.len() - i,
    {
        let g = &gpus[i];
        if g.compute_capable && g.vendor == vendor {
            match best {
                Some(b) => {
                    if g.total_memory_mb >= gpus[b].total_memory_mb {
                        best = Some(i);
                    }
                },
                None => {
                    best = Some(i);
                },
            }
        }
        i += 1;
    }
    best
}

/// Whether some compute-capable GPU of `v` is in the list.
pub open spec fn vendor_present(gpus: Seq<GpuInfo>, v: GpuVendor) -> bool {
    exists|k: int| 0 <= k < gpus.len() && (#[trigger] gpus[k]).compute_capable && gpus[k].vendor == v
}

/// Position in `priorities` of the first vendor present, if any.
pub open spec fn first_present(gpus: Seq<GpuInfo>, priorities: Seq<GpuVendor>, j: int) -> bool {
    &&& 0 <= j < priorities.len()
    &&& vendor_present(gpus, priorities[j])
    &&& forall|m: int| 0 <= m < j ==> !vendor_present(gpus, #[trigger] priorities[m])
}

/// The GPU of the first vendor in `priorities` that has a compute-capable
/// one (the one with most memory); with none of them, the best GPU overall.
pub fn select_by_vendor_priority<'a>(gpus: &'a [GpuInfo], priorities: &[GpuVendor]) -> (r: Option<&'a GpuInfo>)
    ensures
        match r {
            Some(g) => gpus@.contains(*g) && g.compute_capable,
            None => forall|k: int| 0 <= k < gpus@.len() ==> !(#[trigger] gpus@[k]).compute_capable,
        },
        forall|j: int| #[trigger] first_present(gpus@, priorities@, j)
            ==> r is Some && r.unwrap().vendor == priorities@[j]
                && forall|k: int| 0 <= k < gpus@.len() && (#[trigger] gpus@[k]).compute_capable && gpus@[k].vendor == priorities@[j]
                    ==> gpus@[k].total_memory_mb <= r.unwrap().total_memory_mb,
        (forall|j: int| 0 <= j < priorities@.len() ==> !vendor_present(gpus@, #[trigger] priorities@[j]))
            ==> match r {
                Some(g) => select_best_gpu_spec(gpus@) == Some(*g),
                None => select_best_gpu_spec(gpus@) is None,
            },
{
    let mut j: usize = 0;
    while j < priorities.len()
        invariant
            j <= priorities@.len(),
            forall|m: int| 0 <= m < j ==> !vendor_present(gpus@, #[trigger] priorities@[m]),
        decreases priorities@.len() - j,
    {
        match best_of_vendor(gpus, priorities[j]) {
            Some(b) => {
                assert(gpus@.contains(gpus@[b as int]));
                assert(vendor_present(gpus@, priorities@[j as int]));
                assert forall|jj: int| #[trigger] first_present(gpus@, priorities@, jj) implies jj == j by {
                    if jj > j {
                        assert(!vendor_present(gpus@, priorities@[j as int]));
                    }
                }
                return Some(&gpus[b]);
            },
            None => {},
        }
        j += 1;
    }
    select_best_gpu(gpus)
}

/// Probes the machine's GPUs. This build carries no GPU probe, so the list
/// is empty.
pub fn detect_gpus() -> (r: Result<Vec<GpuInfo>, ErrorCode>)
    ensures
        r is Ok && r.unwrap()@.len() == 0,
{
    Ok(Vec::new())
}

/// Whether a Vulkan loader can be used. This build carries no Vulkan
/// loader, so never.
pub fn is_vulkan_available() -> (r: bool)
    ensures
        !r,
{
    false
}

/// A one-line GPU report for a build without a GPU probe.
pub fn quick_gpu_check() -> (r: &'static str)
    ensures
        r@ == "GPU detection not compiled (use --features gpu)"@,
{
    "GPU detection not compiled (use --features gpu)"
}

} // verus!
