use token2token::managed_vllm::status_running;
use token2token::managed_vllm::{
    docker_run_args, ensure_supported_device, model_alias, reports_running, runtime_status, says_true,
    start_image, DeviceError, Host, HostArch, HostOs, ReadinessWait, ReadyStep, StartOptions, CONTAINER_NAME,
    CPU_IMAGE, GPU_IMAGE,
};

fn all_hosts() -> Vec<Host> {
    let mut hosts = Vec::new();
    for os in [HostOs::MacOs, HostOs::Linux, HostOs::Windows, HostOs::Other] {
        for arch in [HostArch::X86_64, HostArch::Aarch64, HostArch::Other] {
            hosts.push(Host { os, arch });
        }
    }
    hosts
}

#[test]
fn cpu_runtime_is_local_only_and_uses_persistent_caches() {
    let args = docker_run_args(
        &StartOptions {
            model: "Qwen/Qwen2.5-0.5B-Instruct".into(),
            port: 18000,
            cpu: true,
            max_model_len: 1024,
            image: None,
        },
        CPU_IMAGE,
    );
    assert!(args.contains(&"127.0.0.1:18000:8000".to_string()));
    assert!(args.contains(&"token2token-hf-cache:/root/.cache/huggingface".to_string()));
    assert!(!args.contains(&"--gpus".to_string()));
    assert_eq!(model_alias("Qwen/Qwen2.5-0.5B-Instruct"), "qwen2.5-0.5b-instruct");
}

#[test]
fn gpu_runtime_requests_all_gpus() {
    let args = docker_run_args(
        &StartOptions {
            model: "org/model".into(),
            port: 18000,
            cpu: false,
            max_model_len: 4096,
            image: Some("custom/image".into()),
        },
        "custom/image",
    );
    assert!(args.windows(2).any(|pair| pair == ["--gpus", "all"]));
    assert!(args.contains(&"custom/image".to_string()));
}

// Every host is tried, the one that runs the test among them.
#[test]
fn the_current_host_has_an_explicit_supported_device_result() {
    for host in all_hosts() {
        let options = StartOptions {
            model: "org/model".into(),
            port: 18000,
            cpu: host.os == HostOs::MacOs,
            max_model_len: 1024,
            image: None,
        };
        if host.os == HostOs::MacOs && host.arch == HostArch::Aarch64 {
            assert!(ensure_supported_device(&options, host).is_err());
        } else if host.os == HostOs::MacOs && host.arch == HostArch::Other {
            assert!(ensure_supported_device(&options, host).is_err());
        } else {
            assert!(ensure_supported_device(&options, host).is_ok());
        }
    }
}

#[test]
fn invalid_runtime_configuration_is_rejected_before_docker() {
    let options = StartOptions {
        model: " ".into(),
        port: 80,
        cpu: true,
        max_model_len: 1,
        image: None,
    };
    for host in all_hosts() {
        assert!(ensure_supported_device(&options, host).is_err());
    }
}

fn valid_options(cpu: bool) -> StartOptions {
    StartOptions { model: "org/model".into(), port: 18000, cpu, max_model_len: 1024, image: None }
}

const LINUX_X86: Host = Host { os: HostOs::Linux, arch: HostArch::X86_64 };

#[test]
fn device_errors_come_in_order() {
    let mut o = valid_options(true);
    o.model = "\t\u{3000}\n".into();
    o.port = 80;
    assert_eq!(ensure_supported_device(&o, LINUX_X86), Err(DeviceError::EmptyModel));
    o.model = "m".into();
    assert_eq!(ensure_supported_device(&o, LINUX_X86), Err(DeviceError::PortOutOfRange));
    o.port = 1024;
    o.max_model_len = 127;
    assert_eq!(ensure_supported_device(&o, LINUX_X86), Err(DeviceError::MaxModelLenOutOfRange));
    o.max_model_len = 1_000_001;
    assert_eq!(ensure_supported_device(&o, LINUX_X86), Err(DeviceError::MaxModelLenOutOfRange));
    o.max_model_len = 1_000_000;
    assert_eq!(ensure_supported_device(&o, LINUX_X86), Ok(()));
    o.max_model_len = 128;
    let arm = Host { os: HostOs::Linux, arch: HostArch::Aarch64 };
    assert_eq!(ensure_supported_device(&o, arm), Err(DeviceError::CpuRequiresX86_64));
    o.cpu = false;
    assert_eq!(ensure_supported_device(&o, arm), Ok(()));
    let mac = Host { os: HostOs::MacOs, arch: HostArch::X86_64 };
    assert_eq!(ensure_supported_device(&o, mac), Err(DeviceError::GpuUnavailableOnMacOs));
    assert_eq!(
        DeviceError::GpuUnavailableOnMacOs.message(),
        "managed vLLM GPU is unavailable on macOS; connect Ollama or LM Studio, or run vLLM on an NVIDIA Linux/Windows host"
    );
    assert_eq!(DeviceError::PortOutOfRange.message(), "managed vLLM port must be between 1024 and 65535");
}

#[test]
fn full_argument_lists() {
    let cpu = docker_run_args(&valid_options(true), CPU_IMAGE);
    let expected: Vec<&str> = vec![
        "run", "-d", "--name", "token2token-managed-vllm", "--restart", "unless-stopped", "-p",
        "127.0.0.1:18000:8000", "-v", "token2token-hf-cache:/root/.cache/huggingface", "-v",
        "token2token-vllm-cache:/root/.cache/vllm", "-e", "VLLM_CPU_KVCACHE_SPACE=4", "-e",
        "VLLM_CPU_NUM_OF_RESERVED_CPU=1", "vllm/vllm-openai-cpu:latest-x86_64", "org/model",
        "--served-model-name", "model", "--max-model-len", "1024", "--dtype", "float32",
    ];
    assert_eq!(cpu, expected);
    let mut o = valid_options(false);
    o.port = 65535;
    o.max_model_len = 1_000_000;
    let gpu = docker_run_args(&o, GPU_IMAGE);
    assert_eq!(gpu.len(), 22);
    assert_eq!(gpu[7], "127.0.0.1:65535:8000");
    assert_eq!(&gpu[12..16], ["--gpus", "all", "--ipc", "host"]);
    assert_eq!(gpu[16], "vllm/vllm-openai:v0.26.0");
    assert_eq!(gpu[21], "1000000");
}

#[test]
fn images_follow_the_device_unless_given() {
    assert_eq!(start_image(&valid_options(true)), CPU_IMAGE);
    assert_eq!(start_image(&valid_options(false)), GPU_IMAGE);
    let mut o = valid_options(true);
    o.image = Some("my/image".into());
    assert_eq!(start_image(&o), "my/image");
}

#[test]
fn aliases_are_lower_case_last_segments() {
    assert_eq!(model_alias("Meta/Llama-3"), "llama-3");
    assert_eq!(model_alias("NoSlash"), "noslash");
}

#[test]
fn status_gives_the_address_only_when_running() {
    let s = runtime_status(true, true, 18000);
    assert!(s.installed && s.running);
    assert_eq!(s.container, CONTAINER_NAME);
    assert_eq!(s.engine_url.as_deref(), Some("http://127.0.0.1:18000"));
    let s = runtime_status(true, false, 18000);
    assert_eq!(s.engine_url, None);
}

#[test]
fn running_state_is_read_from_trimmed_output() {
    assert!(says_true("true\n"));
    assert!(says_true("  true "));
    assert!(!says_true("false\n"));
    assert!(!says_true("truex"));
    assert!(!says_true(""));
    assert!(reports_running(true, "true\n"));
    assert!(!reports_running(false, "true\n"));
}

#[test]
fn readiness_is_probed_at_most_180_times() {
    let mut wait = ReadinessWait::new();
    let mut probes = 0;
    let mut step = ReadyStep::ProbeHealth;
    loop {
        step = match step {
            ReadyStep::ProbeHealth => {
                probes += 1;
                wait.on_health(false)
            }
            ReadyStep::CheckContainer => wait.on_container(true),
            ReadyStep::Sleep => wait.after_sleep(),
            other => break assert_eq!(other, ReadyStep::TimedOut),
        };
    }
    assert_eq!(probes, 180);
    let mut wait = ReadinessWait::new();
    assert_eq!(wait.on_health(true), ReadyStep::Ready);
    let mut wait = ReadinessWait::new();
    assert_eq!(wait.on_health(false), ReadyStep::CheckContainer);
    assert_eq!(wait.on_container(false), ReadyStep::Exited);
}

#[test]
fn status_counts_only_installed_running_containers() {
    assert!(status_running(true, Some("true\n")));
    assert!(!status_running(true, Some("false\n")));
    assert!(!status_running(true, None));
    assert!(!status_running(false, Some("true\n")));
}
