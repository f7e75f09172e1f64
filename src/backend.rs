//! Backend kinds, their advertised capabilities, and the registry that
//! picks a backend for a task kind by a fixed priority order.

use vstd::prelude::*;
use crate::text::{lower_of, lowercase, str_eq};
use crate::protocol::WorkerCapabilities;
use crate::types::{all_task_types, TaskType};

verus! {

/// The kinds of inference backend.
#[derive(Debug, Clone, Copy, PartialEq, Eq, Hash, Structural)]
pub enum BackendType {
    Cpu,
    Cuda,
    Rocm,
    Vulkan,
    OpenAi,
    Mock,
    Crawler,
}

/// Every backend kind, in declaration order.
pub open spec fn all_backend_types() -> Seq<BackendType> {
    seq![
        BackendType::Cpu,
        BackendType::Cuda,
        BackendType::Rocm,
        BackendType::Vulkan,
        BackendType::OpenAi,
        BackendType::Mock,
        BackendType::Crawler,
    ]
}

/// Selection order: native GPU, cross-vendor GPU, HTTP API, CPU, special
/// purpose, mock.
pub open spec fn selection_order() -> Seq<BackendType> {
    seq![
        BackendType::Cuda,
        BackendType::Rocm,
        BackendType::Vulkan,
        BackendType::OpenAi,
        BackendType::Cpu,
        BackendType::Crawler,
        BackendType::Mock,
    ]
}

/// The kind that a lower-case name denotes.
pub open spec fn backend_of_name(s: Seq<char>) -> Option<BackendType> {
    if s == "cpu"@ { Some(BackendType::Cpu) }
    else if s == "cuda"@ { Some(BackendType::Cuda) }
    else if s == "rocm"@ { Some(BackendType::Rocm) }
    else if s == "vulkan"@ { Some(BackendType::Vulkan) }
    else if s == "openai"@ { Some(BackendType::OpenAi) }
    else if s == "mock"@ { Some(BackendType::Mock) }
    else if s == "crawler"@ { Some(BackendType::Crawler) }
    else { None }
}

impl BackendType {
    /// Slot of the kind in declaration order.
    pub open spec fn index(self) -> int {
        match self {
            BackendType::Cpu => 0,
            BackendType::Cuda => 1,
            BackendType::Rocm => 2,
            BackendType::Vulkan => 3,
            BackendType::OpenAi => 4,
            BackendType::Mock => 5,
            BackendType::Crawler => 6,
        }
    }

    fn slot(&self) -> (r: usize)
        ensures
            r == self.index(),
    {
        match self {
            BackendType::Cpu => 0,
            BackendType::Cuda => 1,
            BackendType::Rocm => 2,
            BackendType::Vulkan => 3,
            BackendType::OpenAi => 4,
            BackendType::Mock => 5,
            BackendType::Crawler => 6,
        }
    }

    /// All kinds, in declaration order.
    pub fn all() -> (r: Vec<BackendType>)
        ensures
            r@ == all_backend_types(),
    {
        let r = vec![
            BackendType::Cpu,
            BackendType::Cuda,
            BackendType::Rocm,
            BackendType::Vulkan,
            BackendType::OpenAi,
            BackendType::Mock,
            BackendType::Crawler,
        ];
        assert(r@ =~= all_backend_types());
        r
    }

    pub open spec fn name_spec(self) -> Seq<char> {
        match self {
            BackendType::Cpu => "cpu"@,
            BackendType::Cuda => "cuda"@,
            BackendType::Rocm => "rocm"@,
            BackendType::Vulkan => "vulkan"@,
            BackendType::OpenAi => "openai"@,
            BackendType::Mock => "mock"@,
            BackendType::Crawler => "crawler"@,
        }
    }

    /// The lower-case name of the kind.
    pub fn name(&self) -> (r: &'static str)
        ensures
            r@ == self.name_spec(),
    {
        match self {
            BackendType::Cpu => "cpu",
            BackendType::Cuda => "cuda",
            BackendType::Rocm => "rocm",
            BackendType::Vulkan => "vulkan",
            BackendType::OpenAi => "openai",
            BackendType::Mock => "mock",
            BackendType::Crawler => "crawler",
        }
    }

    /// Built into this worker: the GPU-native kinds are not.
    pub open spec fn available_spec(self) -> bool {
        match self {
            BackendType::Cuda | BackendType::Rocm | BackendType::Vulkan => false,
            _ => true,
        }
    }

    /// Whether this kind is built into this worker.
    pub fn is_available(&self) -> (r: bool)
        ensures
            r == self.available_spec(),
    {
        match self {
            BackendType::Cuda | BackendType::Rocm | BackendType::Vulkan => false,
            _ => true,
        }
    }

    /// The kind named by a lower-case string.
    pub fn from_lower_name(s: &str) -> (r: Option<Self>)
        ensures
            r == backend_of_name(s@),
    {
        if str_eq(s, "cpu") { Some(BackendType::Cpu) }
        else if str_eq(s, "cuda") { Some(BackendType::Cuda) }
        else if str_eq(s, "rocm") { Some(BackendType::Rocm) }
        else if str_eq(s, "vulkan") { Some(BackendType::Vulkan) }
        else if str_eq(s, "openai") { Some(BackendType::OpenAi) }
        else if str_eq(s, "mock") { Some(BackendType::Mock) }
        else if str_eq(s, "crawler") { Some(BackendType::Crawler) }
        else { None }
    }

    /// The kind named by a string in any case.
    pub fn from_str(s: &str) -> (r: Option<Self>)
        ensures
            r == backend_of_name(lower_of(s@)),
    {
        let l = lowercase(s);
        BackendType::from_lower_name(l.as_str())
    }
}

/// Helpers that choose among the backend kinds.
pub struct BackendFactory;

/// The kinds of `s` that are available, in order.
pub open spec fn available_of(s: Seq<BackendType>) -> Seq<BackendType>
    decreases s.len(),
{
    if s.len() == 0 {
        Seq::empty()
    } else if s.last().available_spec() {
        available_of(s.drop_last()).push(s.last())
    } else {
        available_of(s.drop_last())
    }
}

impl BackendFactory {
    /// The available kinds, in declaration order.
    pub fn available_backends() -> (r: Vec<BackendType>)
        ensures
            r@ == available_of(all_backend_types()),
    {
        let all = BackendType::all();
        let mut out: Vec<BackendType> = Vec::new();
        let mut i: usize = 0;
        while i < all.len()
            invariant
                all@ == all_backend_types(),
                i <= all@.len(),
                out@ == available_of(all@.subrange(0, i as int)),
            decreases all@.len() - i,
        {
            proof {
                assert(all@.subrange(0, i as int + 1).drop_last() =~= all@.subrange(0, i as int));
            }
            if all[i].is_available() {
                out.push(all[i]);
            }
            i += 1;
        }
        assert(all@.subrange(0, i as int) =~= all@);
        out
    }

    /// The kind to start with: the CPU backend, which every build has.
    pub fn detect_best_backend() -> (r: BackendType)
        ensures
            r == BackendType::Cpu,
    {
        BackendType::Cpu
    }
}

/// Health report of a backend.
#[derive(Debug, Clone)]
pub struct BackendHealth {
    pub operational: bool,
    pub model_loaded: bool,
    pub memory_used_mb: u64,
    pub gpu_memory_used_mb: Option<u64>,
    pub error: Option<String>,
}

impl Default for BackendHealth {
    fn default() -> (r: Self)
        ensures
            r.operational,
            !r.model_loaded,
            r.memory_used_mb == 0,
            r.gpu_memory_used_mb.is_none(),
            r.error.is_none(),
    {
        BackendHealth { operational: true, model_loaded: false, memory_used_mb: 0, gpu_memory_used_mb: None, error: None }
    }
}

/// What a backend can do.
#[derive(Debug, Clone)]
pub struct BackendCapabilities {
    pub name: String,
    pub supported_tasks: Vec<TaskType>,
    pub supports_training: bool,
    pub supports_streaming: bool,
    pub max_context_length: u32,
    pub max_batch_size: u32,
    pub gpu_available: bool,
    pub gpu_device: Option<String>,
}

impl BackendCapabilities {
    /// Whether the backend executes tasks of kind `t`.
    pub open spec fn supports_spec(&self, t: TaskType) -> bool {
        self.supported_tasks@.contains(t)
    }

    /// Whether the backend executes tasks of kind `t`.
    pub fn supports_task(&self, t: TaskType) -> (r: bool)
        ensures
            r == self.supports_spec(t),
    {
        let mut i: usize = 0;
        while i < self.supported_tasks.len()
            invariant
                i <= self.supported_tasks@.len(),
                forall|k: int| 0 <= k < i ==> self.supported_tasks@[k] != t,
            decreases self.supported_tasks@.len() - i,
        {
            if self.supported_tasks[i] == t {
                return true;
            }
            i += 1;
        }
        false
    }
}

impl Default for BackendCapabilities {
    fn default() -> (r: Self)
        ensures
            r.name@ == "unknown"@,
            r.supported_tasks@ == seq![TaskType::TextCompletion],
            !r.supports_training,
            !r.supports_streaming,
            r.max_context_length == 4096,
            r.max_batch_size == 1,
            !r.gpu_available,
            r.gpu_device.is_none(),
    {
        let tasks = vec![TaskType::TextCompletion];
        assert(tasks@ =~= seq![TaskType::TextCompletion]);
        BackendCapabilities {
            name: "unknown".to_owned(),
            supported_tasks: tasks,
            supports_training: false,
            supports_streaming: false,
            max_context_length: 4096,
            max_batch_size: 1,
            gpu_available: false,
            gpu_device: None,
        }
    }
}

/// Settings of an HTTP backend speaking the OpenAI-compatible API.
#[derive(Debug, Clone)]
pub struct OpenAiConfig {
    pub base_url: String,
    pub api_key: String,
    pub default_model: String,
    pub timeout_secs: u64,
    pub max_retries: u32,
}

impl Default for OpenAiConfig {
    fn default() -> (r: Self)
        ensures
            r.base_url@ == "http://localhost:11434/v1"@,
            r.api_key@.len() == 0,
            r.default_model@ == "llama3"@,
            r.timeout_secs == 120,
            r.max_retries == 2,
    {
        OpenAiConfig {
            base_url: "http://localhost:11434/v1".to_owned(),
            api_key: String::new(),
            default_model: "llama3".to_owned(),
            timeout_secs: 120,
            max_retries: 2,
        }
    }
}

/// Settings shared by all backends.
#[derive(Debug, Clone)]
pub struct BackendConfig {
    /// Inference threads; `None` picks automatically.
    pub num_threads: Option<u32>,
    pub context_size: u32,
    pub batch_size: u32,
    pub gpu_layers: u32,
    pub use_mmap: bool,
    pub use_mlock: bool,
    pub seed: Option<u64>,
    pub openai: Option<OpenAiConfig>,
}

impl Default for BackendConfig {
    fn default() -> (r: Self)
        ensures
            r.num_threads.is_none(),
            r.context_size == 4096,
            r.batch_size == 512,
            r.gpu_layers == 0,
            r.use_mmap,
            !r.use_mlock,
            r.seed.is_none(),
            r.openai.is_none(),
    {
        BackendConfig {
            num_threads: None,
            context_size: 4096,
            batch_size: 512,
            gpu_layers: 0,
            use_mmap: true,
            use_mlock: false,
            seed: None,
            openai: None,
        }
    }
}

/// Settings of the CPU backend.
#[derive(Debug, Clone, Copy, PartialEq, Eq, Structural)]
pub struct CpuBackendConfig {
    /// Inference threads; zero picks automatically.
    pub num_threads: u32,
    pub context_size: u32,
    pub batch_size: u32,
    pub use_mmap: bool,
    pub use_mlock: bool,
    pub seed: Option<u64>,
}

impl Default for CpuBackendConfig {
    fn default() -> (r: Self)
        ensures
            r == (CpuBackendConfig { num_threads: 0, context_size: 4096, batch_size: 512, use_mmap: true, use_mlock: false, seed: None }),
    {
        CpuBackendConfig { num_threads: 0, context_size: 4096, batch_size: 512, use_mmap: true, use_mlock: false, seed: None }
    }
}

impl CpuBackendConfig {
    /// The CPU settings of a general backend configuration.
    pub open spec fn from_spec(c: BackendConfig) -> CpuBackendConfig {
        CpuBackendConfig {
            num_threads: match c.num_threads { Some(n) => n, None => 0 },
            context_size: c.context_size,
            batch_size: c.batch_size,
            use_mmap: c.use_mmap,
            use_mlock: c.use_mlock,
            seed: c.seed,
        }
    }
}

impl From<BackendConfig> for CpuBackendConfig {
    fn from(c: BackendConfig) -> (r: Self)
        ensures
            r == CpuBackendConfig::from_spec(c),
    {
        CpuBackendConfig {
            num_threads: match c.num_threads { Some(n) => n, None => 0 },
            context_size: c.context_size,
            batch_size: c.batch_size,
            use_mmap: c.use_mmap,
            use_mlock: c.use_mlock,
            seed: c.seed,
        }
    }
}

impl vstd::std_specs::convert::FromSpecImpl<BackendConfig> for CpuBackendConfig {
    open spec fn obeys_from_spec() -> bool {
        true
    }

    open spec fn from_spec(c: BackendConfig) -> CpuBackendConfig {
        CpuBackendConfig::from_spec(c)
    }
}

/// Settings of the mock backend.
#[derive(Debug, Clone)]
pub struct MockConfig {
    pub token_latency_ms: u64,
    pub fail_load_model: bool,
    pub fail_text_completion: bool,
    pub fail_embeddings: bool,
    pub fixed_response: Option<String>,
    pub embedding_dims: usize,
}

impl Default for MockConfig {
    fn default() -> (r: Self)
        ensures
            r.token_latency_ms == 10,
            !r.fail_load_model,
            !r.fail_text_completion,
            !r.fail_embeddings,
            r.fixed_response.is_none(),
            r.embedding_dims == 384,
    {
        MockConfig {
            token_latency_ms: 10,
            fail_load_model: false,
            fail_text_completion: false,
            fail_embeddings: false,
            fixed_response: None,
            embedding_dims: 384,
        }
    }
}

/// Settings of the Vulkan backend.
#[derive(Debug, Clone)]
pub struct VulkanBackendConfig {
    pub base: BackendConfig,
    pub device_id: u32,
    /// Layers to offload; `None` picks from model and VRAM.
    pub n_gpu_layers: Option<u32>,
    pub context_size: u32,
    pub batch_size: u32,
}

impl Default for VulkanBackendConfig {
    fn default() -> (r: Self)
        ensures
            r.base.context_size == 4096,
            r.device_id == 0,
            r.n_gpu_layers.is_none(),
            r.context_size == 4096,
            r.batch_size == 512,
    {
        VulkanBackendConfig {
            base: BackendConfig::default(),
            device_id: 0,
            n_gpu_layers: None,
            context_size: 4096,
            batch_size: 512,
        }
    }
}

/// The first kind of `order` that is registered and supports `t`.
pub open spec fn pick_backend(order: Seq<BackendType>, slots: Seq<Option<BackendCapabilities>>, t: TaskType) -> Option<BackendType>
    decreases order.len(),
{
    if order.len() == 0 {
        None
    } else {
        let k = order[0];
        if 0 <= k.index() < slots.len() && slots[k.index()] is Some && slots[k.index()].unwrap().supports_spec(t) {
            Some(k)
        } else {
            pick_backend(order.drop_first(), slots, t)
        }
    }
}

/// The first registered kind of `order`.
pub open spec fn first_registered(order: Seq<BackendType>, slots: Seq<Option<BackendCapabilities>>) -> Option<BackendType>
    decreases order.len(),
{
    if order.len() == 0 {
        None
    } else if 0 <= order[0].index() < slots.len() && slots[order[0].index()] is Some {
        Some(order[0])
    } else {
        first_registered(order.drop_first(), slots)
    }
}

/// Registered backends, each kind at most once, with a default kind.
///
/// The instances themselves live with the caller; the registry holds what
/// selection reads: each kind's advertised capabilities.
pub struct BackendRegistry {
    slots: Vec<Option<BackendCapabilities>>,
    default_backend: Option<BackendType>,
}

impl BackendRegistry {
    /// Capabilities registered per kind, indexed by `BackendType::index`.
    pub closed spec fn slots_spec(&self) -> Seq<Option<BackendCapabilities>> {
        self.slots@
    }

    /// The default kind.
    pub closed spec fn default_spec(&self) -> Option<BackendType> {
        self.default_backend
    }

    /// Capabilities registered under `k`.
    pub open spec fn caps_of(&self, k: BackendType) -> Option<BackendCapabilities> {
        self.slots_spec()[k.index()]
    }

    /// One slot per kind; a default, when set, is registered.
    pub open spec fn wf(&self) -> bool {
        &&& self.slots_spec().len() == 7
        &&& (self.default_spec() is Some ==> self.caps_of(self.default_spec().unwrap()) is Some)
    }

    /// An empty registry.
    pub fn new() -> (r: Self)
        ensures
            r.wf(),
            forall|k: BackendType| r.caps_of(k) is None,
            r.default_spec() is None,
    {
        let mut slots: Vec<Option<BackendCapabilities>> = Vec::new();
        let mut i: usize = 0;
        while i < 7
            invariant
                i <= 7,
                slots@.len() == i,
                forall|k: int| 0 <= k < i ==> slots@[k] is None,
            decreases 7 - i,
        {
            slots.push(None);
            i += 1;
        }
        BackendRegistry { slots, default_backend: None }
    }

    /// Inserts or replaces the backend of kind `k`. The first registration
    /// sets the default; later ones keep it.
    pub fn register(&mut self, k: BackendType, caps: BackendCapabilities)
        requires
            old(self).wf(),
        ensures
            final(self).wf(),
            final(self).caps_of(k) == Some(caps),
            forall|o: BackendType| o != k ==> final(self).caps_of(o) == old(self).caps_of(o),
            final(self).default_spec() == match old(self).default_spec() {
                Some(d) => Some(d),
                None => Some(k),
            },
    {
        let i = k.slot();
        self.slots.set(i, Some(caps));
        if self.default_backend.is_none() {
            self.default_backend = Some(k);
        }
        assert forall|o: BackendType| o != k implies self.caps_of(o) == old(self).caps_of(o) by {
            assert(o.index() != k.index());
        }
    }

    /// Removes the backend of kind `k`. A default of that kind passes to the
    /// first registered kind in declaration order, if any.
    pub fn unregister(&mut self, k: BackendType)
        requires
            old(self).wf(),
        ensures
            final(self).wf(),
            final(self).caps_of(k) is None,
            forall|o: BackendType| o != k ==> final(self).caps_of(o) == old(self).caps_of(o),
            old(self).default_spec() == Some(k) ==> final(self).default_spec()
                == first_registered(all_backend_types(), final(self).slots_spec()),
            old(self).default_spec() != Some(k) ==> final(self).default_spec() == old(self).default_spec(),
    {
        let i = k.slot();
        self.slots.set(i, None);
        assert forall|o: BackendType| o != k implies self.caps_of(o) == old(self).caps_of(o) by {
            assert(o.index() != k.index());
        }
        if self.default_backend == Some(k) {
            self.default_backend = self.first_of(&BackendType::all());
        }
    }

    /// First kind of `order` with a registered backend.
    fn first_of(&self, order: &Vec<BackendType>) -> (r: Option<BackendType>)
        requires
            self.slots_spec().len() == 7,
        ensures
            r == first_registered(order@, self.slots_spec()),
            r is Some ==> self.caps_of(r.unwrap()) is Some,
    {
        let mut i: usize = 0;
        assert(order@.subrange(0, order@.len() as int) =~= order@);
        while i < order.len()
            invariant
                self.slots_spec().len() == 7,
                i <= order@.len(),
                first_registered(order@, self.slots_spec()) == first_registered(order@.subrange(i as int, order@.len() as int), self.slots_spec()),
            decreases order@.len() - i,
        {
            let ghost rest = order@.subrange(i as int, order@.len() as int);
            assert(rest.drop_first() =~= order@.subrange(i as int + 1, order@.len() as int));
            assert(rest[0] == order@[i as int]);
            let s = order[i].slot();
            if self.slots[s].is_some() {
                return Some(order[i]);
            }
            i += 1;
        }
        None
    }

    /// Makes `k` the default kind; it must be registered.
    pub fn set_default(&mut self, k: BackendType)
        requires
            old(self).wf(),
            old(self).caps_of(k) is Some,
        ensures
            final(self).wf(),
            final(self).slots_spec() == old(self).slots_spec(),
            final(self).default_spec() == Some(k),
    {
        self.default_backend = Some(k);
    }

    /// The default kind, if any.
    pub fn default_backend(&self) -> (r: Option<BackendType>)
        ensures
            r == self.default_spec(),
    {
        self.default_backend
    }

    /// Capabilities of the backend of kind `k`, if registered.
    pub fn get(&self, k: BackendType) -> (r: Option<&BackendCapabilities>)
        requires
            self.wf(),
        ensures
            match r {
                Some(c) => self.caps_of(k) == Some(*c),
                None => self.caps_of(k) is None,
            },
    {
        let i = k.slot();
        match &self.slots[i] {
            Some(c) => Some(c),
            None => None,
        }
    }

    /// The registered kinds, in declaration order.
    pub fn registered_backends(&self) -> (r: Vec<BackendType>)
        requires
            self.wf(),
        ensures
            forall|k: BackendType| r@.contains(k) <==> self.caps_of(k) is Some,
            r@.no_duplicates(),
    {
        let all = BackendType::all();
        let mut out: Vec<BackendType> = Vec::new();
        let mut i: usize = 0;
        while i < all.len()
            invariant
                self.wf(),
                all@ == all_backend_types(),
                i <= 7,
                out@.no_duplicates(),
                forall|k: BackendType| out@.contains(k) <==> (self.caps_of(k) is Some && k.index() < i),
            decreases 7 - i,
        {
            let k = all[i];
            assert(k.index() == i);
            if self.slots[k.slot()].is_some() {
                let ghost before = out@;
                out.push(k);
                assert(!before.contains(k));
                assert forall|x: BackendType| out@.contains(x) <==> (self.caps_of(x) is Some && x.index() < i + 1) by {
                    if x != k {
                        if out@.contains(x) {
                            let j = choose|j: int| 0 <= j < out@.len() && out@[j] == x;
                            assert(before[j] == x);
                        }
                        if before.contains(x) {
                            let j = choose|j: int| 0 <= j < before.len() && before[j] == x;
                            assert(out@[j] == x);
                        }
                    } else {
                        assert(out@[before.len() as int] == k);
                    }
                }
            } else {
                assert forall|x: BackendType| out@.contains(x) <==> (self.caps_of(x) is Some && x.index() < i + 1) by {
                    if x.index() == i {
                        assert(x == k);
                    }
                }
            }
            i += 1;
        }
        out
    }

    /// The backend for tasks of kind `t`: the first kind in selection order
    /// whose backend is registered and supports `t`.
    pub fn best_backend_for_task(&self, t: TaskType) -> (r: Option<BackendType>)
        requires
            self.wf(),
        ensures
            r == pick_backend(selection_order(), self.slots_spec(), t),
            r is Some ==> self.caps_of(r.unwrap()) is Some && self.caps_of(r.unwrap()).unwrap().supports_spec(t),
    {
        let order = vec![
            BackendType::Cuda,
            BackendType::Rocm,
            BackendType::Vulkan,
            BackendType::OpenAi,
            BackendType::Cpu,
            BackendType::Crawler,
            BackendType::Mock,
        ];
        assert(order@ =~= selection_order());
        let mut i: usize = 0;
        assert(order@.subrange(0, order@.len() as int) =~= order@);
        while i < order.len()
            invariant
                self.wf(),
                order@ == selection_order(),
                i <= order@.len(),
                pick_backend(order@, self.slots_spec(), t) == pick_backend(order@.subrange(i as int, order@.len() as int), self.slots_spec(), t),
            decreases order@.len() - i,
        {
            let ghost rest = order@.subrange(i as int, order@.len() as int);
            assert(rest.drop_first() =~= order@.subrange(i as int + 1, order@.len() as int));
            let k = order[i];
            assert(rest[0] == k);
            match &self.slots[k.slot()] {
                Some(c) => {
                    assert(self.slots_spec()[k.index()] == Some(*c));
                    if c.supports_task(t) {
                        return Some(k);
                    }
                },
                None => {},
            }
            i += 1;
        }
        None
    }
}

/// Some registered backend executes tasks of kind `t`.
pub open spec fn any_supports(slots: Seq<Option<BackendCapabilities>>, t: TaskType) -> bool {
    exists|i: int| 0 <= i < slots.len() && (#[trigger] slots[i]) is Some && slots[i].unwrap().supports_spec(t)
}

/// Task kinds some registered backend executes.
pub open spec fn supported_by(slots: Seq<Option<BackendCapabilities>>) -> spec_fn(TaskType) -> bool {
    |t: TaskType| any_supports(slots, t)
}

/// Some registered backend has a GPU.
pub open spec fn any_gpu(slots: Seq<Option<BackendCapabilities>>) -> bool {
    exists|i: int| 0 <= i < slots.len() && (#[trigger] slots[i]) is Some && slots[i].unwrap().gpu_available
}

/// The first GPU device named among the slots from `i` on.
pub open spec fn first_device(slots: Seq<Option<BackendCapabilities>>, i: int) -> Option<String>
    decreases slots.len() - i,
{
    if i < 0 || i >= slots.len() {
        None
    } else if slots[i] is Some && slots[i].unwrap().gpu_device is Some {
        slots[i].unwrap().gpu_device
    } else {
        first_device(slots, i + 1)
    }
}

/// The largest context length among the first `n` slots, if any is registered.
pub open spec fn max_context(slots: Seq<Option<BackendCapabilities>>, n: int) -> Option<u32>
    decreases n,
{
    if n <= 0 || n > slots.len() {
        None
    } else {
        let rest = max_context(slots, n - 1);
        match slots[n - 1] {
            Some(c) => match rest {
                Some(m) => Some(if c.max_context_length > m { c.max_context_length } else { m }),
                None => Some(c.max_context_length),
            },
            None => rest,
        }
    }
}

impl BackendRegistry {
    /// What the worker advertises, aggregated over its backends: every task
    /// kind some backend executes (in kind order), whether any has a GPU,
    /// the first GPU device named (in kind order), and the largest context
    /// length (4096 with no backend).
    pub fn worker_capabilities(&self, max_concurrent_tasks: u32, available_memory_mb: u64, worker_version: String) -> (r: WorkerCapabilities)
        requires
            self.wf(),
        ensures
            r.supported_tasks@ == all_task_types().filter(supported_by(self.slots_spec())),
            r.gpu_available == any_gpu(self.slots_spec()),
            r.gpu_device == first_device(self.slots_spec(), 0),
            r.max_context_length == match max_context(self.slots_spec(), 7) { Some(m) => m, None => 4096u32 },
            r.max_concurrent_tasks == max_concurrent_tasks,
            r.available_memory_mb == available_memory_mb,
            r.gpu_memory_mb is None,
            r.worker_version == worker_version,
    {
        let kinds = TaskType::all();
        let mut tasks: Vec<TaskType> = Vec::new();
        let mut i: usize = 0;
        while i < kinds.len()
            invariant
                self.wf(),
                kinds@ == all_task_types(),
                i <= kinds@.len(),
                tasks@ == kinds@.subrange(0, i as int).filter(supported_by(self.slots_spec())),
            decreases kinds@.len() - i,
        {
            proof { crate::peer::lemma_filter_step(kinds@, i as int, supported_by(self.slots_spec())); }
            let t = kinds[i];
            let mut found = false;
            let mut k: usize = 0;
            while k < self.slots.len()
                invariant
                    self.wf(),
                    k <= self.slots@.len(),
                    found == exists|j: int| 0 <= j < k && (#[trigger] self.slots@[j]) is Some && self.slots@[j].unwrap().supports_spec(t),
                decreases self.slots@.len() - k,
            {
                match &self.slots[k] {
                    Some(c) => {
                        if c.supports_task(t) {
                            found = true;
                        }
                    },
                    None => {},
                }
                k += 1;
            }
            assert(found == supported_by(self.slots_spec())(kinds@[i as int]));
            if found {
                tasks.push(t);
            }
            i += 1;
        }
        assert(kinds@.subrange(0, i as int) =~= kinds@);
        let mut gpu = false;
        let mut device: Option<String> = None;
        let mut max: Option<u32> = None;
        let mut k: usize = 0;
        while k < self.slots.len()
            invariant
                self.wf(),
                k <= 7,
                gpu == exists|j: int| 0 <= j < k && (#[trigger] self.slots@[j]) is Some && self.slots@[j].unwrap().gpu_available,
                device is Some ==> device == first_device(self.slots@, 0),
                device is None ==> first_device(self.slots@, 0) == first_device(self.slots@, k as int),
                max == max_context(self.slots@, k as int),
            decreases 7 - k,
        {
            match &self.slots[k] {
                Some(c) => {
                    if c.gpu_available {
                        gpu = true;
                    }
                    if device.is_none() {
                        match &c.gpu_device {
                            Some(d) => {
                                device = Some(d.clone());
                            },
                            None => {},
                        }
                    }
                    max = match max {
                        Some(m) => Some(if c.max_context_length > m { c.max_context_length } else { m }),
                        None => Some(c.max_context_length),
                    };
                },
                None => {},
            }
            k += 1;
        }
        WorkerCapabilities {
            supported_tasks: tasks,
            max_concurrent_tasks,
            available_memory_mb,
            gpu_available: gpu,
            gpu_device: device,
            gpu_memory_mb: None,
            max_context_length: match max { Some(m) => m, None => 4096 },
            worker_version,
        }
    }
}

impl Default for BackendRegistry {
    fn default() -> (r: Self)
        ensures
            r.wf(),
            forall|k: BackendType| r.caps_of(k) is None,
            r.default_spec() is None,
    {
        BackendRegistry::new()
    }
}

} // verus!
