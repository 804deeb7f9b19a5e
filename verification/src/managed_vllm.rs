//! The managed vLLM runtime: which container to run, with which arguments, and when it is ready.

use vstd::prelude::*;
use crate::text::{
    all_white, ascii_lowercase, decimal, is_blank, last_segment, last_segment_of, lemma_decimal_starts_with_digit,
    lemma_last_segment_suffix, lemma_lowercase_idempotent, lowercase, owned, push_decimal,
    trims_to, trims_to_word,
};

verus! {

pub const CONTAINER_NAME: &'static str = "token2token-managed-vllm";

pub const GPU_IMAGE: &'static str = "vllm/vllm-openai:v0.26.0";

pub const CPU_IMAGE: &'static str = "vllm/vllm-openai-cpu:latest-x86_64";

/// How the operator asked for the runtime to be started.
#[derive(Clone, Debug)]
pub struct StartOptions {
    pub model: String,
    pub port: u16,
    pub cpu: bool,
    pub max_model_len: u32,
    pub image: Option<String>,
}

/// What `status` reports of the runtime.
#[derive(Clone, Debug)]
pub struct RuntimeStatus {
    pub installed: bool,
    pub running: bool,
    pub container: String,
    pub engine_url: Option<String>,
}

/// The operating system of the machine the node runs on.
#[derive(Clone, Copy, Debug, PartialEq, Eq, Structural)]
pub enum HostOs {
    MacOs,
    Linux,
    Windows,
    Other,
}

/// The processor architecture of the machine the node runs on.
#[derive(Clone, Copy, Debug, PartialEq, Eq, Structural)]
pub enum HostArch {
    X86_64,
    Aarch64,
    Other,
}

/// The machine the node runs on.
#[derive(Clone, Copy, Debug, PartialEq, Eq, Structural)]
pub struct Host {
    pub os: HostOs,
    pub arch: HostArch,
}

/// Why a runtime configuration is refused before Docker is asked.
#[derive(Clone, Copy, Debug, PartialEq, Eq, Structural)]
pub enum DeviceError {
    EmptyModel,
    PortOutOfRange,
    MaxModelLenOutOfRange,
    CpuRequiresX86_64,
    GpuUnavailableOnMacOs,
}

/// Lowest port the runtime may listen on.
pub const MIN_PORT: u16 = 1024;

/// Smallest accepted maximum model length.
pub const MIN_MODEL_LEN: u32 = 128;

/// Largest accepted maximum model length.
pub const MAX_MODEL_LEN: u32 = 1_000_000;

/// The first reason, in the order they are checked, why `o` cannot run on `host`.
pub open spec fn device_problem(o: StartOptions, host: Host) -> Option<DeviceError> {
    if all_white(o.model@) {
        Some(DeviceError::EmptyModel)
    } else if o.port < MIN_PORT {
        Some(DeviceError::PortOutOfRange)
    } else if !(MIN_MODEL_LEN <= o.max_model_len && o.max_model_len <= MAX_MODEL_LEN) {
        Some(DeviceError::MaxModelLenOutOfRange)
    } else if o.cpu && host.arch != HostArch::X86_64 {
        Some(DeviceError::CpuRequiresX86_64)
    } else if !o.cpu && host.os == HostOs::MacOs {
        Some(DeviceError::GpuUnavailableOnMacOs)
    } else {
        None
    }
}

impl DeviceError {
    /// The text of the error.
    pub fn message(&self) -> (r: String)
        ensures
            r@ == match self {
                DeviceError::EmptyModel => "managed vLLM model cannot be empty"@,
                DeviceError::PortOutOfRange => "managed vLLM port must be between 1024 and 65535"@,
                DeviceError::MaxModelLenOutOfRange => "managed vLLM max model length must be between 128 and 1000000"@,
                DeviceError::CpuRequiresX86_64 => "managed vLLM CPU currently requires an x86_64 host"@,
                DeviceError::GpuUnavailableOnMacOs => "managed vLLM GPU is unavailable on macOS; connect Ollama or LM Studio, or run vLLM on an NVIDIA Linux/Windows host"@,
            },
    {
        match self {
            DeviceError::EmptyModel => owned("managed vLLM model cannot be empty"),
            DeviceError::PortOutOfRange => owned("managed vLLM port must be between 1024 and 65535"),
            DeviceError::MaxModelLenOutOfRange => owned(
                "managed vLLM max model length must be between 128 and 1000000",
            ),
            DeviceError::CpuRequiresX86_64 => owned("managed vLLM CPU currently requires an x86_64 host"),
            DeviceError::GpuUnavailableOnMacOs => owned(
                "managed vLLM GPU is unavailable on macOS; connect Ollama or LM Studio, or run vLLM on an NVIDIA Linux/Windows host",
            ),
        }
    }
}

/// Refuses a configuration that cannot run on `host`, before anything is asked of Docker.
pub fn ensure_supported_device(options: &StartOptions, host: Host) -> (r: Result<(), DeviceError>)
    ensures
        match device_problem(*options, host) {
            Some(e) => r == Err::<(), DeviceError>(e),
            None => r is Ok,
        },
{
    if is_blank(options.model.as_str()) {
        return Err(DeviceError::EmptyModel);
    }
    if options.port < MIN_PORT {
        return Err(DeviceError::PortOutOfRange);
    }
    if !(MIN_MODEL_LEN <= options.max_model_len && options.max_model_len <= MAX_MODEL_LEN) {
        return Err(DeviceError::MaxModelLenOutOfRange);
    }
    if options.cpu && host.arch != HostArch::X86_64 {
        return Err(DeviceError::CpuRequiresX86_64);
    }
    if !options.cpu && host.os == HostOs::MacOs {
        return Err(DeviceError::GpuUnavailableOnMacOs);
    }
    Ok(())
}

/// The image to run: the one asked for, else the CPU or the GPU image.
pub open spec fn image_of(o: StartOptions) -> Seq<char> {
    match o.image {
        Some(i) => i@,
        None => if o.cpu {
            CPU_IMAGE@
        } else {
            GPU_IMAGE@
        },
    }
}

/// The container image that `start` runs for `options`.
pub fn start_image(options: &StartOptions) -> (r: String)
    ensures
        r@ == image_of(*options),
{
    match &options.image {
        Some(i) => i.clone(),
        None => if options.cpu {
            owned(CPU_IMAGE)
        } else {
            owned(GPU_IMAGE)
        },
    }
}

/// The name under which the runtime serves a model: its last path segment, lower-cased.
pub open spec fn alias(model: Seq<char>) -> Seq<char> {
    lowercase(last_segment(model))
}

pub fn model_alias(model: &str) -> (r: String)
    ensures
        r@ == alias(model@),
{
    let last = last_segment_of(model);
    ascii_lowercase(last.as_str())
}

/// The port binding: the runtime's port 8000 published on the loopback address only.
pub open spec fn port_binding(port: u16) -> Seq<char> {
    "127.0.0.1:"@ + decimal(port as nat) + ":8000"@
}

/// The volume that keeps downloaded models between runs.
pub open spec fn hf_cache_volume() -> Seq<char> {
    "token2token-hf-cache:/root/.cache/huggingface"@
}

/// The volume that keeps vLLM's compilation cache between runs.
pub open spec fn vllm_cache_volume() -> Seq<char> {
    "token2token-vllm-cache:/root/.cache/vllm"@
}

/// The arguments of `docker run` that start the runtime for `o` from `image`.
pub open spec fn run_args(o: StartOptions, image: Seq<char>) -> Seq<Seq<char>> {
    seq![
        "run"@,
        "-d"@,
        "--name"@,
        CONTAINER_NAME@,
        "--restart"@,
        "unless-stopped"@,
        "-p"@,
        port_binding(o.port),
        "-v"@,
        hf_cache_volume(),
        "-v"@,
        vllm_cache_volume(),
    ] + (if o.cpu {
        seq!["-e"@, "VLLM_CPU_KVCACHE_SPACE=4"@, "-e"@, "VLLM_CPU_NUM_OF_RESERVED_CPU=1"@]
    } else {
        seq!["--gpus"@, "all"@, "--ipc"@, "host"@]
    }) + seq![
        image,
        o.model@,
        "--served-model-name"@,
        alias(o.model@),
        "--max-model-len"@,
        decimal(o.max_model_len as nat),
    ] + (if o.cpu {
        seq!["--dtype"@, "float32"@]
    } else {
        Seq::empty()
    })
}

/// The served model name holds no `/` and no ASCII capital.
pub proof fn lemma_alias_is_plain(model: Seq<char>)
    ensures
        forall|i: int|
            0 <= i < alias(model).len() ==> {
                let c = #[trigger] alias(model)[i];
                c != '/' && !('A' <= c && c <= 'Z')
            },
{
    lemma_last_segment_suffix(model);
    lemma_lowercase_idempotent(last_segment(model));
    assert forall|i: int| 0 <= i < alias(model).len() implies {
        let c = #[trigger] alias(model)[i];
        c != '/' && !('A' <= c && c <= 'Z')
    } by {
        assert(last_segment(model)[i] != '/');
    }
}

/// The runtime's HTTP port is published on the loopback address only, and both caches
/// live in named volumes, whatever the options.
pub proof fn lemma_runtime_is_local_only(o: StartOptions, image: Seq<char>)
    ensures
        run_args(o, image)[6] == "-p"@,
        run_args(o, image)[7] == port_binding(o.port),
        port_binding(o.port).take(10) == "127.0.0.1:"@,
        run_args(o, image).contains(hf_cache_volume()),
        run_args(o, image).contains(vllm_cache_volume()),
{
    reveal_strlit("127.0.0.1:");
    assert(port_binding(o.port).take(10) =~= "127.0.0.1:"@);
    assert(run_args(o, image)[9] == hf_cache_volume());
    assert(run_args(o, image)[11] == vllm_cache_volume());
}

/// Whatever the device, the runtime serves the model under its alias: the argument after
/// `--served-model-name` is the model's last path segment, lower-cased, and it follows the
/// model itself. Where neither the image, the model nor its alias reads `--served-model-name`,
/// that holds wherever the flag appears.
pub proof fn lemma_served_name_is_alias(o: StartOptions, image: Seq<char>)
    ensures
        run_args(o, image)[17] == o.model@,
        run_args(o, image)[18] == "--served-model-name"@,
        run_args(o, image)[19] == lowercase(last_segment(o.model@)),
        (image != "--served-model-name"@ && o.model@ != "--served-model-name"@ && alias(o.model@)
            != "--served-model-name"@) ==> forall|k: int|
            0 <= k < run_args(o, image).len() - 1 && #[trigger] run_args(o, image)[k] == "--served-model-name"@
                ==> run_args(o, image)[k + 1] == alias(o.model@),
{
    let a = run_args(o, image);
    if image != "--served-model-name"@ && o.model@ != "--served-model-name"@ && alias(o.model@)
        != "--served-model-name"@ {
        reveal_strlit("--served-model-name");
        reveal_strlit("run");
        reveal_strlit("-d");
        reveal_strlit("--name");
        reveal_strlit("token2token-managed-vllm");
        reveal_strlit("--restart");
        reveal_strlit("unless-stopped");
        reveal_strlit("-p");
        reveal_strlit("127.0.0.1:");
        reveal_strlit("-v");
        reveal_strlit("token2token-hf-cache:/root/.cache/huggingface");
        reveal_strlit("token2token-vllm-cache:/root/.cache/vllm");
        reveal_strlit("-e");
        reveal_strlit("VLLM_CPU_KVCACHE_SPACE=4");
        reveal_strlit("VLLM_CPU_NUM_OF_RESERVED_CPU=1");
        reveal_strlit("--gpus");
        reveal_strlit("all");
        reveal_strlit("--ipc");
        reveal_strlit("host");
        reveal_strlit("--max-model-len");
        reveal_strlit("--dtype");
        reveal_strlit("float32");
        lemma_decimal_starts_with_digit(o.max_model_len as nat);
        assert(port_binding(o.port)[0] == '1');
        assert forall|k: int|
            0 <= k < a.len() - 1 && #[trigger] a[k] == "--served-model-name"@ implies a[k + 1] == alias(o.model@) by {
            if k == 7 || k == 21 {
                assert(a[k][0] != "--served-model-name"@[0]);
            } else if k != 16 && k != 17 && k != 18 && k != 19 {
                assert(a[k].len() != 19 || a[k][2] != 's' || a[k][3] != 'e');
            }
        }
    }
}

/// A GPU runtime asks Docker for all GPUs, as one flag and its value.
pub proof fn lemma_gpu_runtime_requests_all_gpus(o: StartOptions, image: Seq<char>)
    requires
        !o.cpu,
    ensures
        run_args(o, image)[12] == "--gpus"@,
        run_args(o, image)[13] == "all"@,
{
}

/// A CPU runtime asks Docker for no GPU: no argument reads `--gpus` unless the image,
/// the model or its served name does.
pub proof fn lemma_cpu_runtime_requests_no_gpus(o: StartOptions, image: Seq<char>)
    requires
        o.cpu,
        image != "--gpus"@,
        o.model@ != "--gpus"@,
        alias(o.model@) != "--gpus"@,
    ensures
        !run_args(o, image).contains("--gpus"@),
{
    let a = run_args(o, image);
    reveal_strlit("--gpus");
    reveal_strlit("run");
    reveal_strlit("-d");
    reveal_strlit("--name");
    reveal_strlit("token2token-managed-vllm");
    reveal_strlit("--restart");
    reveal_strlit("unless-stopped");
    reveal_strlit("-p");
    reveal_strlit("127.0.0.1:");
    reveal_strlit("-v");
    reveal_strlit("token2token-hf-cache:/root/.cache/huggingface");
    reveal_strlit("token2token-vllm-cache:/root/.cache/vllm");
    reveal_strlit("-e");
    reveal_strlit("VLLM_CPU_KVCACHE_SPACE=4");
    reveal_strlit("VLLM_CPU_NUM_OF_RESERVED_CPU=1");
    reveal_strlit("--served-model-name");
    reveal_strlit("--max-model-len");
    reveal_strlit("--dtype");
    reveal_strlit("float32");
    lemma_decimal_starts_with_digit(o.max_model_len as nat);
    assert(port_binding(o.port)[0] == '1');
    assert(a.len() == 24);
    assert forall|i: int| 0 <= i < a.len() implies a[i] != "--gpus"@ by {
        if i == 7 {
            assert(a[i][0] != "--gpus"@[0]);
        } else if i == 21 {
            assert(a[i][0] != "--gpus"@[0]);
        } else if i != 16 && i != 17 && i != 19 {
            assert(a[i].len() != 6 || a[i][1] != '-' || a[i][2] != 'g');
        }
    }
}

/// The bounds on a configuration: a model that is only white space, a port below 1024, or a
/// maximum model length outside 128 to 1,000,000 is refused, whatever the device and host;
/// those bounds themselves are accepted.
pub proof fn lemma_configuration_bounds(o: StartOptions, host: Host)
    ensures
        all_white(o.model@) ==> device_problem(o, host) == Some(DeviceError::EmptyModel),
        !all_white(o.model@) && o.port < 1024 ==> device_problem(o, host) == Some(DeviceError::PortOutOfRange),
        !all_white(o.model@) && o.port >= 1024 && (o.max_model_len < 128 || o.max_model_len > 1_000_000)
            ==> device_problem(o, host) == Some(DeviceError::MaxModelLenOutOfRange),
        !all_white(o.model@) && o.port >= 1024 && 128 <= o.max_model_len <= 1_000_000 ==> match device_problem(
            o,
            host,
        ) {
            Some(e) => e == DeviceError::CpuRequiresX86_64 || e == DeviceError::GpuUnavailableOnMacOs,
            None => true,
        },
{
}

/// Whatever the host, a valid configuration is refused only where its device is
/// unavailable: a CPU runtime off x86_64, or a GPU runtime on macOS. Choosing the CPU
/// runtime exactly on macOS, it is refused exactly on a macOS host that is not x86_64.
pub proof fn lemma_supported_devices(o: StartOptions, host: Host)
    requires
        !all_white(o.model@),
        o.port >= MIN_PORT,
        MIN_MODEL_LEN <= o.max_model_len <= MAX_MODEL_LEN,
    ensures
        device_problem(o, host) is Some <==> ((o.cpu && host.arch != HostArch::X86_64) || (!o.cpu && host.os
            == HostOs::MacOs)),
        o.cpu == (host.os == HostOs::MacOs) ==> (device_problem(o, host) is Some <==> (host.os == HostOs::MacOs
            && host.arch != HostArch::X86_64)),
{
}

fn push_str(args: &mut Vec<String>, s: &str)
    ensures
        final(args).deep_view() == old(args).deep_view().push(s@),
{
    args.push(owned(s));
    assert(args.deep_view() =~= old(args).deep_view().push(s@));
}

fn push_string(args: &mut Vec<String>, s: String)
    ensures
        final(args).deep_view() == old(args).deep_view().push(s@),
{
    let ghost v = s@;
    args.push(s);
    assert(args.deep_view() =~= old(args).deep_view().push(v));
}

pub fn docker_run_args(options: &StartOptions, image: &str) -> (r: Vec<String>)
    ensures
        r.deep_view() == run_args(*options, image@),
{
    let mut args: Vec<String> = Vec::new();
    push_str(&mut args, "run");
    push_str(&mut args, "-d");
    push_str(&mut args, "--name");
    push_str(&mut args, CONTAINER_NAME);
    push_str(&mut args, "--restart");
    push_str(&mut args, "unless-stopped");
    push_str(&mut args, "-p");
    let mut binding = owned("127.0.0.1:");
    push_decimal(&mut binding, options.port as u32);
    binding.append(":8000");
    push_string(&mut args, binding);
    push_str(&mut args, "-v");
    push_str(&mut args, "token2token-hf-cache:/root/.cache/huggingface");
    push_str(&mut args, "-v");
    push_str(&mut args, "token2token-vllm-cache:/root/.cache/vllm");
    if options.cpu {
        push_str(&mut args, "-e");
        push_str(&mut args, "VLLM_CPU_KVCACHE_SPACE=4");
        push_str(&mut args, "-e");
        push_str(&mut args, "VLLM_CPU_NUM_OF_RESERVED_CPU=1");
    } else {
        push_str(&mut args, "--gpus");
        push_str(&mut args, "all");
        push_str(&mut args, "--ipc");
        push_str(&mut args, "host");
    }
    push_str(&mut args, image);
    push_string(&mut args, options.model.clone());
    push_str(&mut args, "--served-model-name");
    push_string(&mut args, model_alias(options.model.as_str()));
    push_str(&mut args, "--max-model-len");
    let mut len = String::new();
    push_decimal(&mut len, options.max_model_len);
    push_string(&mut args, len);
    if options.cpu {
        push_str(&mut args, "--dtype");
        push_str(&mut args, "float32");
    }
    assert(args.deep_view() =~= run_args(*options, image@));
    args
}


/// The address at which the runtime on `port` serves.
pub open spec fn engine_url_of(port: u16) -> Seq<char> {
    "http://127.0.0.1:"@ + decimal(port as nat)
}

/// The status report: the engine address is given exactly when the runtime is running.
pub fn runtime_status(installed: bool, running: bool, port: u16) -> (r: RuntimeStatus)
    ensures
        r.installed == installed,
        r.running == running,
        r.container@ == CONTAINER_NAME@,
        match r.engine_url {
            Some(u) => running && u@ == engine_url_of(port),
            None => !running,
        },
{
    let engine_url = if running {
        let mut u = owned("http://127.0.0.1:");
        push_decimal(&mut u, port as u32);
        Some(u)
    } else {
        None
    };
    RuntimeStatus { installed, running, container: owned(CONTAINER_NAME), engine_url }
}

/// Whether Docker's answer to the running-state query reads `true`, white space aside.
pub fn says_true(output: &str) -> (r: bool)
    ensures
        r == trims_to(output@, "true"@),
{
    proof {
        reveal_strlit("true");
    }
    trims_to_word(output, "true")
}

/// Whether `status` reports the runtime as running: only an installed container counts, and
/// its running-state query must read `true`. `output` is that query's output, `None` where
/// the query was not made.
pub fn status_running(installed: bool, output: Option<&str>) -> (r: bool)
    ensures
        r == (installed && match output {
            Some(o) => trims_to(o@, "true"@),
            None => false,
        }),
{
    if !installed {
        return false;
    }
    match output {
        Some(o) => says_true(o),
        None => false,
    }
}

/// Whether the container is running: the query succeeded and its output reads `true`.
pub fn reports_running(success: bool, output: &str) -> (r: bool)
    ensures
        r == (success && trims_to(output@, "true"@)),
{
    success && says_true(output)
}

/// How many times readiness is probed before the runtime is given up on.
pub const READY_ATTEMPTS: u32 = 180;

/// The next thing to do while waiting for the runtime to become healthy.
#[derive(Clone, Copy, Debug, PartialEq, Eq, Structural)]
pub enum ReadyStep {
    /// Ask the runtime's health endpoint.
    ProbeHealth,
    /// Ask Docker whether the container still runs.
    CheckContainer,
    /// Wait one second.
    Sleep,
    /// The runtime answers: done.
    Ready,
    /// The container stopped during startup.
    Exited,
    /// The runtime did not become healthy in time.
    TimedOut,
}

/// The wait for a freshly started runtime: health probes, each followed, while the
/// runtime does not answer, by a check that the container still runs and a pause.
pub struct ReadinessWait {
    probes: u32,
}

impl ReadinessWait {
    /// How many health probes have been made.
    pub closed spec fn probes(&self) -> nat {
        self.probes as nat
    }

    pub fn new() -> (r: ReadinessWait)
        ensures
            r.probes() == 0,
    {
        ReadinessWait { probes: 0 }
    }

    /// The outcome of one health probe.
    pub fn on_health(&mut self, healthy: bool) -> (r: ReadyStep)
        requires
            old(self).probes() < READY_ATTEMPTS,
        ensures
            final(self).probes() == old(self).probes() + 1,
            r == (if healthy {
                ReadyStep::Ready
            } else {
                ReadyStep::CheckContainer
            }),
    {
        self.probes = self.probes + 1;
        if healthy {
            ReadyStep::Ready
        } else {
            ReadyStep::CheckContainer
        }
    }

    /// The outcome of asking whether the container still runs.
    pub fn on_container(&self, running: bool) -> (r: ReadyStep)
        ensures
            r == (if running {
                ReadyStep::Sleep
            } else {
                ReadyStep::Exited
            }),
    {
        if running {
            ReadyStep::Sleep
        } else {
            ReadyStep::Exited
        }
    }

    /// What follows a pause: another probe, unless all probes are spent.
    pub fn after_sleep(&self) -> (r: ReadyStep)
        ensures
            r == (if self.probes() < READY_ATTEMPTS {
                ReadyStep::ProbeHealth
            } else {
                ReadyStep::TimedOut
            }),
    {
        if self.probes < READY_ATTEMPTS {
            ReadyStep::ProbeHealth
        } else {
            ReadyStep::TimedOut
        }
    }
}

} // verus!
