//! Downloadable GPU backend plugins and the registry of known ones.

use vstd::prelude::*;
use crate::gpu::{GpuInfo, GpuVendor};
use crate::text::{replace_all, replaced, str_eq};

verus! {

/// Operating systems that plugins are built for.
#[derive(Debug, Clone, Copy, PartialEq, Eq, Structural)]
pub enum TargetOs {
    Windows,
    Linux,
    Macos,
    Other,
}

/// Processor architectures that plugins are built for.
#[derive(Debug, Clone, Copy, PartialEq, Eq, Structural)]
pub enum TargetArch {
    X86_64,
    Aarch64,
    Other,
}

impl TargetOs {
    pub open spec fn name_spec(self) -> Seq<char> {
        match self {
            TargetOs::Windows => "windows"@,
            TargetOs::Linux => "linux"@,
            TargetOs::Macos => "macos"@,
            TargetOs::Other => "unknown"@,
        }
    }

    /// The platform name used in download URLs.
    pub fn name(&self) -> (r: &'static str)
        ensures
            r@ == self.name_spec(),
    {
        match self {
            TargetOs::Windows => "windows",
            TargetOs::Linux => "linux",
            TargetOs::Macos => "macos",
            TargetOs::Other => "unknown",
        }
    }

    /// Shared-library extension, without the dot.
    pub open spec fn lib_ext_spec(self) -> Seq<char> {
        match self {
            TargetOs::Windows => "dll"@,
            TargetOs::Macos => "dylib"@,
            _ => "so"@,
        }
    }

    fn lib_ext(&self) -> (r: &'static str)
        ensures
            r@ == self.lib_ext_spec(),
    {
        match self {
            TargetOs::Windows => "dll",
            TargetOs::Macos => "dylib",
            _ => "so",
        }
    }
}

impl TargetArch {
    pub open spec fn name_spec(self) -> Seq<char> {
        match self {
            TargetArch::X86_64 => "x86_64"@,
            TargetArch::Aarch64 => "aarch64"@,
            TargetArch::Other => "unknown"@,
        }
    }

    /// The architecture name used in download URLs.
    pub fn name(&self) -> (r: &'static str)
        ensures
            r@ == self.name_spec(),
    {
        match self {
            TargetArch::X86_64 => "x86_64",
            TargetArch::Aarch64 => "aarch64",
            TargetArch::Other => "unknown",
        }
    }
}

/// A downloadable plugin.
#[derive(Debug, Clone)]
pub struct PluginInfo {
    pub name: String,
    pub version: String,
    pub description: String,
    pub supported_vendors: Vec<GpuVendor>,
    /// URL template with `{version}`, `{platform}`, `{arch}` and `{ext}`.
    pub download_url: String,
    /// Expected SHA-256 checksum, hex encoded.
    pub checksum: String,
    /// File name without the platform's extension.
    pub file_name: String,
    pub min_worker_version: String,
    pub api_version: u32,
}

impl PluginInfo {
    pub open spec fn extension_spec(os: TargetOs) -> Seq<char> {
        seq!['.'] + os.lib_ext_spec()
    }

    /// The shared-library extension of `os`, with its dot.
    pub fn platform_extension(os: TargetOs) -> (r: &'static str)
        ensures
            r@ == PluginInfo::extension_spec(os),
    {
        proof {
            reveal_strlit(".dll");
            reveal_strlit(".dylib");
            reveal_strlit(".so");
            reveal_strlit("dll");
            reveal_strlit("dylib");
            reveal_strlit("so");
        }
        let r = match os {
            TargetOs::Windows => ".dll",
            TargetOs::Macos => ".dylib",
            _ => ".so",
        };
        assert(r@ =~= PluginInfo::extension_spec(os));
        r
    }

    /// The file name with the extension of `os`.
    pub fn full_file_name(&self, os: TargetOs) -> (r: String)
        ensures
            r@ == self.file_name@ + PluginInfo::extension_spec(os),
    {
        let mut s = self.file_name.clone();
        s.append(PluginInfo::platform_extension(os));
        s
    }

    pub open spec fn download_url_spec(&self, os: TargetOs, arch: TargetArch) -> Seq<char> {
        replaced(
            replaced(
                replaced(replaced(self.download_url@, "{version}"@, self.version@), "{platform}"@, os.name_spec()),
                "{arch}"@,
                arch.name_spec(),
            ),
            "{ext}"@,
            os.lib_ext_spec(),
        )
    }

    /// The download URL for `os` and `arch`: the template with version,
    /// platform, architecture and extension filled in.
    pub fn get_download_url(&self, os: TargetOs, arch: TargetArch) -> (r: String)
        ensures
            r@ == self.download_url_spec(os, arch),
    {
        let a = replace_all(self.download_url.as_str(), "{version}", self.version.as_str());
        let b = replace_all(a.as_str(), "{platform}", os.name());
        let c = replace_all(b.as_str(), "{arch}", arch.name());
        replace_all(c.as_str(), "{ext}", os.lib_ext())
    }

    /// Whether the plugin supports GPUs of `vendor`.
    pub fn supports_vendor(&self, vendor: GpuVendor) -> (r: bool)
        ensures
            r == self.supported_vendors@.contains(vendor),
    {
        let mut i: usize = 0;
        while i < self.supported_vendors.len()
            invariant
                i <= self.supported_vendors@.len(),
                forall|k: int| 0 <= k < i ==> self.supported_vendors@[k] != vendor,
            decreases self.supported_vendors@.len() - i,
        {
            if self.supported_vendors[i] == vendor {
                return true;
            }
            i += 1;
        }
        false
    }
}

/// State of a loaded plugin.
#[derive(Debug, Clone, Copy, PartialEq, Eq, Structural)]
pub enum PluginState {
    Ready,
    Failed,
    Active,
    Unloaded,
}

/// What a plugin reports about itself: NUL-terminated name and version,
/// and its API version.
#[derive(Debug, Clone)]
pub struct PluginMetadata {
    pub name: [u8; 64],
    pub version: [u8; 32],
    pub api_version: u32,
}

/// The plugin API version this worker speaks.
pub const PLUGIN_API_VERSION: u32 = 1;

/// `k` is the first position of a plugin named `n` that satisfies `ok`.
pub open spec fn is_first_match(s: Seq<PluginInfo>, k: int, n: Seq<char>, v: Option<GpuVendor>) -> bool {
    &&& 0 <= k < s.len()
    &&& plugin_fits(s[k], n, v)
    &&& forall|j: int| 0 <= j < k ==> !plugin_fits(#[trigger] s[j], n, v)
}

/// Named `n` and, when a vendor is given, supporting it.
pub open spec fn plugin_fits(p: PluginInfo, n: Seq<char>, v: Option<GpuVendor>) -> bool {
    p.name@ == n && match v {
        Some(vendor) => p.supported_vendors@.contains(vendor),
        None => true,
    }
}

/// The first plugin named `n` (supporting `v`, when given).
pub open spec fn first_match(s: Seq<PluginInfo>, n: Seq<char>, v: Option<GpuVendor>) -> Option<PluginInfo> {
    if exists|k: int| is_first_match(s, k, n, v) {
        Some(s[choose|k: int| is_first_match(s, k, n, v)])
    } else {
        None
    }
}

proof fn lemma_first_match_at(s: Seq<PluginInfo>, k: int, n: Seq<char>, v: Option<GpuVendor>)
    requires
        is_first_match(s, k, n, v),
    ensures
        first_match(s, n, v) == Some(s[k]),
{
    let c = choose|c: int| is_first_match(s, c, n, v);
    if c < k {
        assert(!plugin_fits(s[c], n, v));
    } else if c > k {
        assert(!plugin_fits(s[k], n, v));
    }
}

/// The plugin to use for a GPU of `vendor`: the vendor's own backend
/// first (ROCm for AMD, CUDA for NVIDIA), then Vulkan.
pub open spec fn best_plugin(s: Seq<PluginInfo>, vendor: GpuVendor) -> Option<PluginInfo> {
    match vendor {
        GpuVendor::Amd => if first_match(s, "rocm-backend"@, Some(vendor)) is Some {
            first_match(s, "rocm-backend"@, Some(vendor))
        } else {
            first_match(s, "vulkan-backend"@, Some(vendor))
        },
        GpuVendor::Nvidia => if first_match(s, "cuda-backend"@, Some(vendor)) is Some {
            first_match(s, "cuda-backend"@, Some(vendor))
        } else {
            first_match(s, "vulkan-backend"@, Some(vendor))
        },
        _ => first_match(s, "vulkan-backend"@, Some(vendor)),
    }
}

/// `ps` with the checksum of the first plugin named `n` set to `ck`.
pub open spec fn with_checksum(ps: Seq<PluginInfo>, n: Seq<char>, ck: String) -> Seq<PluginInfo> {
    if exists|k: int| is_first_match(ps, k, n, None) {
        let k = choose|k: int| is_first_match(ps, k, n, None);
        ps.update(k, PluginInfo { checksum: ck, ..ps[k] })
    } else {
        ps
    }
}

/// `ps` after the pairs of `cks` were applied in order.
pub open spec fn with_checksums(ps: Seq<PluginInfo>, cks: Seq<(String, String)>) -> Seq<PluginInfo>
    decreases cks.len(),
{
    if cks.len() == 0 {
        ps
    } else {
        with_checksum(with_checksums(ps, cks.drop_last()), cks.last().0@, cks.last().1)
    }
}

/// The known plugins and the base URL they download from.
pub struct PluginRegistry {
    plugins: Vec<PluginInfo>,
    base_url: String,
}

/// Search for the first plugin named `name`, supporting `vendor` when given.
fn find_first(s: &Vec<PluginInfo>, name: &str, vendor: Option<GpuVendor>) -> (r: Option<usize>)
    ensures
        match r {
            Some(k) => is_first_match(s@, k as int, name@, vendor),
            None => forall|j: int| 0 <= j < s@.len() ==> !plugin_fits(#[trigger] s@[j], name@, vendor),
        },
{
    let mut i: usize = 0;
    while i < s.len()
        invariant
            i <= s@.len(),
            forall|j: int| 0 <= j < i ==> !plugin_fits(#[trigger] s@[j], name@, vendor),
        decreases s@.len() - i,
    {
        if str_eq(s[i].name.as_str(), name) {
            let fits = match vendor {
                Some(v) => s[i].supports_vendor(v),
                None => true,
            };
            if fits {
                return Some(i);
            }
        }
        i += 1;
    }
    None
}

impl PluginRegistry {
    pub closed spec fn plugins_spec(&self) -> Seq<PluginInfo> {
        self.plugins@
    }

    pub closed spec fn base_url_spec(&self) -> Seq<char> {
        self.base_url@
    }

    /// The registry of official plugins.
    pub fn new() -> (r: Self)
        ensures
            r.base_url_spec() == "https://plugins.ai4all.network"@,
            r.plugins_spec().len() == 3,
            r.plugins_spec()[0].name@ == "vulkan-backend"@,
            r.plugins_spec()[1].name@ == "cuda-backend"@,
            r.plugins_spec()[2].name@ == "rocm-backend"@,
    {
        PluginRegistry::with_base_url("https://plugins.ai4all.network")
    }

    /// The official plugins, downloading from `base_url`.
    pub fn with_base_url(base_url: &str) -> (r: Self)
        ensures
            r.base_url_spec() == base_url@,
            r.plugins_spec().len() == 3,
            r.plugins_spec()[0].name@ == "vulkan-backend"@,
            r.plugins_spec()[0].supported_vendors@ == seq![GpuVendor::Amd, GpuVendor::Nvidia, GpuVendor::Intel],
            r.plugins_spec()[0].download_url@ == base_url@ + "/v{version}/vulkan-backend-{platform}-{arch}.{ext}"@,
            r.plugins_spec()[1].name@ == "cuda-backend"@,
            r.plugins_spec()[1].supported_vendors@ == seq![GpuVendor::Nvidia],
            r.plugins_spec()[1].download_url@ == base_url@ + "/v{version}/cuda-backend-{platform}-{arch}.{ext}"@,
            r.plugins_spec()[2].name@ == "rocm-backend"@,
            r.plugins_spec()[2].supported_vendors@ == seq![GpuVendor::Amd],
            r.plugins_spec()[2].download_url@ == base_url@ + "/v{version}/rocm-backend-{platform}-{arch}.{ext}"@,
            forall|i: int| 0 <= i < 3 ==> (#[trigger] r.plugins_spec()[i]).version@ == "0.1.0"@
                && r.plugins_spec()[i].checksum@.len() == 0
                && r.plugins_spec()[i].api_version == 1,
    {
        let v0 = vec![GpuVendor::Amd, GpuVendor::Nvidia, GpuVendor::Intel];
        let v1 = vec![GpuVendor::Nvidia];
        let v2 = vec![GpuVendor::Amd];
        assert(v0@ =~= seq![GpuVendor::Amd, GpuVendor::Nvidia, GpuVendor::Intel]);
        assert(v1@ =~= seq![GpuVendor::Nvidia]);
        assert(v2@ =~= seq![GpuVendor::Amd]);
        let mut u0 = base_url.to_owned();
        u0.append("/v{version}/vulkan-backend-{platform}-{arch}.{ext}");
        let mut u1 = base_url.to_owned();
        u1.append("/v{version}/cuda-backend-{platform}-{arch}.{ext}");
        let mut u2 = base_url.to_owned();
        u2.append("/v{version}/rocm-backend-{platform}-{arch}.{ext}");
        let plugins = vec![
            PluginInfo {
                name: "vulkan-backend".to_owned(),
                version: "0.1.0".to_owned(),
                description: "Vulkan-based GPU inference backend".to_owned(),
                supported_vendors: v0,
                download_url: u0,
                checksum: String::new(),
                file_name: "vulkan_backend".to_owned(),
                min_worker_version: "0.1.0".to_owned(),
                api_version: 1,
            },
            PluginInfo {
                name: "cuda-backend".to_owned(),
                version: "0.1.0".to_owned(),
                description: "CUDA-based GPU inference backend (NVIDIA)".to_owned(),
                supported_vendors: v1,
                download_url: u1,
                checksum: String::new(),
                file_name: "cuda_backend".to_owned(),
                min_worker_version: "0.1.0".to_owned(),
                api_version: 1,
            },
            PluginInfo {
                name: "rocm-backend".to_owned(),
                version: "0.1.0".to_owned(),
                description: "ROCm-based GPU inference backend (AMD)".to_owned(),
                supported_vendors: v2,
                download_url: u2,
                checksum: String::new(),
                file_name: "rocm_backend".to_owned(),
                min_worker_version: "0.1.0".to_owned(),
                api_version: 1,
            },
        ];
        PluginRegistry { plugins, base_url: base_url.to_owned() }
    }

    /// All known plugins.
    pub fn plugins(&self) -> (r: &[PluginInfo])
        ensures
            r@ == self.plugins_spec(),
    {
        self.plugins.as_slice()
    }

    /// The first plugin named `name`.
    pub fn find_by_name(&self, name: &str) -> (r: Option<&PluginInfo>)
        ensures
            match r {
                Some(p) => first_match(self.plugins_spec(), name@, None) == Some(*p),
                None => first_match(self.plugins_spec(), name@, None) is None,
            },
    {
        match find_first(&self.plugins, name, None) {
            Some(k) => {
                proof { lemma_first_match_at(self.plugins@, k as int, name@, None); }
                Some(&self.plugins[k])
            },
            None => None,
        }
    }

    /// The first plugin named `name` that supports `vendor`.
    fn find_for_vendor_named(&self, name: &str, vendor: GpuVendor) -> (r: Option<&PluginInfo>)
        ensures
            match r {
                Some(p) => first_match(self.plugins_spec(), name@, Some(vendor)) == Some(*p),
                None => first_match(self.plugins_spec(), name@, Some(vendor)) is None,
            },
    {
        match find_first(&self.plugins, name, Some(vendor)) {
            Some(k) => {
                proof { lemma_first_match_at(self.plugins@, k as int, name@, Some(vendor)); }
                Some(&self.plugins[k])
            },
            None => None,
        }
    }

    /// Plugins that support `vendor`, in order.
    pub fn find_for_vendor(&self, vendor: GpuVendor) -> (r: Vec<&PluginInfo>)
        ensures
            r@.map_values(|p: &PluginInfo| *p) == self.plugins_spec().filter(supports(vendor)),
    {
        let mut out: Vec<&PluginInfo> = Vec::new();
        let mut i: usize = 0;
        while i < self.plugins.len()
            invariant
                i <= self.plugins@.len(),
                out@.map_values(|p: &PluginInfo| *p) == self.plugins@.subrange(0, i as int).filter(supports(vendor)),
            decreases self.plugins@.len() - i,
        {
            proof { crate::peer::lemma_filter_step(self.plugins@, i as int, supports(vendor)); }
            let ghost before = out@;
            assert(supports(vendor)(self.plugins@[i as int]) == self.plugins@[i as int].supported_vendors@.contains(vendor));
            if self.plugins[i].supports_vendor(vendor) {
                out.push(&self.plugins[i]);
                assert(out@.map_values(|p: &PluginInfo| *p) =~= before.map_values(|p: &PluginInfo| *p).push(self.plugins@[i as int]));
            }
            i += 1;
        }
        assert(self.plugins@.subrange(0, i as int) =~= self.plugins@);
        out
    }

    /// The plugin for `gpu`: its vendor's own backend first (ROCm for AMD,
    /// CUDA for NVIDIA), then Vulkan.
    pub fn find_best_for_gpu(&self, gpu: &GpuInfo) -> (r: Option<&PluginInfo>)
        ensures
            match r {
                Some(p) => best_plugin(self.plugins_spec(), gpu.vendor) == Some(*p),
                None => best_plugin(self.plugins_spec(), gpu.vendor) is None,
            },
    {
        match gpu.vendor {
            GpuVendor::Amd => match self.find_for_vendor_named("rocm-backend", gpu.vendor) {
                Some(p) => Some(p),
                None => self.find_for_vendor_named("vulkan-backend", gpu.vendor),
            },
            GpuVendor::Nvidia => match self.find_for_vendor_named("cuda-backend", gpu.vendor) {
                Some(p) => Some(p),
                None => self.find_for_vendor_named("vulkan-backend", gpu.vendor),
            },
            _ => self.find_for_vendor_named("vulkan-backend", gpu.vendor),
        }
    }

    /// The base URL of downloads.
    pub fn base_url(&self) -> (r: &str)
        ensures
            r@ == self.base_url_spec(),
    {
        self.base_url.as_str()
    }

    /// Adds a plugin at the end.
    pub fn add_plugin(&mut self, plugin: PluginInfo)
        ensures
            final(self).plugins_spec() == old(self).plugins_spec().push(plugin),
            final(self).base_url_spec() == old(self).base_url_spec(),
    {
        self.plugins.push(plugin);
    }

    /// Sets checksums from `(name, checksum)` pairs, in order; each goes to
    /// the first plugin of that name, and unknown names are skipped.
    pub fn update_checksums(&mut self, checksums: &[(String, String)])
        ensures
            final(self).plugins_spec() == with_checksums(old(self).plugins_spec(), checksums@),
            final(self).base_url_spec() == old(self).base_url_spec(),
    {
        let mut i: usize = 0;
        while i < checksums.len()
            invariant
                i <= checksums@.len(),
                self.plugins@ == with_checksums(old(self).plugins_spec(), checksums@.subrange(0, i as int)),
                self.base_url@ == old(self).base_url_spec(),
            decreases checksums@.len() - i,
        {
            proof {
                assert(checksums@.subrange(0, i as int + 1).drop_last() =~= checksums@.subrange(0, i as int));
            }
            let ghost before = self.plugins@;
            match find_first(&self.plugins, checksums[i].0.as_str(), None) {
                Some(k) => {
                    let mut p = self.plugins.remove(k);
                    p.checksum = checksums[i].1.clone();
                    self.plugins.insert(k, p);
                    proof {
                        let c = choose|c: int| is_first_match(before, c, checksums@[i as int].0@, None);
                        if c < k {
                            assert(!plugin_fits(before[c], checksums@[i as int].0@, None));
                        } else if c > k {
                            assert(!plugin_fits(before[k as int], checksums@[i as int].0@, None));
                        }
                        assert(self.plugins@ =~= with_checksum(before, checksums@[i as int].0@, checksums@[i as int].1));
                    }
                },
                None => {},
            }
            i += 1;
        }
        assert(checksums@.subrange(0, i as int) =~= checksums@);
    }
}

/// Plugins that support `vendor`.
pub open spec fn supports(vendor: GpuVendor) -> spec_fn(PluginInfo) -> bool {
    |p: PluginInfo| p.supported_vendors@.contains(vendor)
}

impl Default for PluginRegistry {
    fn default() -> (r: Self)
        ensures
            r.base_url_spec() == "https://plugins.ai4all.network"@,
            r.plugins_spec().len() == 3,
    {
        PluginRegistry::new()
    }
}

/// Relies on `dirs::data_local_dir`: the user's local data directory, when
/// the platform has one. It depends on the environment, so nothing more is
/// stated.
#[verifier::external_body]
fn local_data_dir() -> (r: Option<String>) {
    dirs::data_local_dir().map(|p| p.to_string_lossy().into_owned())
}

/// Settings of the plugin manager.
#[derive(Debug, Clone)]
pub struct PluginManagerConfig {
    pub plugin_dir: String,
    pub auto_download: bool,
    /// `None` uses the official registry.
    pub registry_url: Option<String>,
    pub verify_checksums: bool,
    pub download_timeout_secs: u64,
}

impl Default for PluginManagerConfig {
    /// Plugins live under `ai4all/plugins` in the local data directory, or
    /// in the current directory where there is none.
    fn default() -> (r: Self)
        ensures
            exists|base: Seq<char>| r.plugin_dir@ == base + "/ai4all/plugins"@,
            r.auto_download,
            r.registry_url is None,
            r.verify_checksums,
            r.download_timeout_secs == 300,
    {
        let mut dir = match local_data_dir() {
            Some(d) => d,
            None => ".".to_owned(),
        };
        let ghost base = dir@;
        dir.append("/ai4all/plugins");
        PluginManagerConfig {
            plugin_dir: dir,
            auto_download: true,
            registry_url: None,
            verify_checksums: true,
            download_timeout_secs: 300,
        }
    }
}

/// What is known of one plugin on this machine.
#[derive(Debug, Clone)]
pub struct PluginStatus {
    pub name: String,
    pub version: String,
    pub is_local: bool,
    pub is_loaded: bool,
    pub path: Option<String>,
}

} // verus!
