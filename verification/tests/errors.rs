use dcp::archive::is_safe_entry_path;
use dcp::config::{validate, Config, KubeConfig};
use dcp::error::{DCPError, ExtractionCause, Fault, Op};

fn config(write_to_stdout: bool) -> Config {
    Config {
        image: "example.org/app".to_string(),
        download_path: ".".to_string(),
        content_path: "/".to_string(),
        write_to_stdout,
        log_level: "debug".to_string(),
        username: String::new(),
        password: String::new(),
        force_pull: false,
        socket: "unix:///var/run/docker.sock".to_string(),
        kube_config: blank_kube(),
    }
}

fn blank_kube() -> KubeConfig {
    KubeConfig {
        kube_config_file: String::new(),
        pod_name: String::new(),
        pod_namespace: String::new(),
        container_name: String::new(),
    }
}

#[test]
fn dcp_error_keeps_its_message() {
    let e = DCPError::new("something broke");
    assert_eq!(e.message(), "something broke");
}

#[test]
fn configuration_fault_renders_the_stdout_message() {
    let e = Fault::Configuration.to_error();
    assert_eq!(e.message(), "writing to stdout is not currently implemented");
}

#[test]
fn runtime_detection_fault_renders() {
    let e = Fault::RuntimeDetection.to_error();
    assert_eq!(e.message(), "no valid container runtime");
}

#[test]
fn reference_parse_fault_renders() {
    let e = Fault::ReferenceParse.to_error();
    assert_eq!(
        e.message(),
        "could not split provided image into repository and tag"
    );
}

#[test]
fn engine_faults_wrap_the_operation() {
    let e = Fault::Engine { op: Op::Pull, message: "401".to_string() }.to_error();
    assert_eq!(e.message(), "error pulling the image: 401");
    let e = Fault::Engine { op: Op::Create, message: "409".to_string() }.to_error();
    assert_eq!(e.message(), "failed to start the image: 409");
    let e = Fault::Engine { op: Op::Copy, message: "500".to_string() }.to_error();
    assert_eq!(e.message(), "error copying the image's files: 500");
    let e = Fault::Engine { op: Op::Remove, message: "410".to_string() }.to_error();
    assert_eq!(e.message(), "failed to stop the image: 410");
}

#[test]
fn extraction_faults_render_their_cause() {
    let e = Fault::Extraction {
        cause: ExtractionCause::MissingPath { message: "no /x".to_string() },
    }
    .to_error();
    assert_eq!(e.message(), "failed to retrieve the files from the container: no /x");
    let e = Fault::Extraction { cause: ExtractionCause::EmptyArchive }.to_error();
    assert_eq!(e.message(), "failed to retrieve the files from the container");
    let e = Fault::Extraction { cause: ExtractionCause::Decode }.to_error();
    assert_eq!(e.message(), "failed to decode the archive");
    let e = Fault::Extraction { cause: ExtractionCause::UnsafePath }.to_error();
    assert_eq!(e.message(), "an archive entry path escapes the destination directory");
    let e = Fault::Extraction {
        cause: ExtractionCause::WriteFailed { message: "disk full".to_string() },
    }
    .to_error();
    assert_eq!(e.message(), "failed to unpack the archive: disk full");
}

#[test]
fn validate_rejects_stdout_only() {
    assert!(validate(&config(false)).is_ok());
    match validate(&config(true)) {
        Err(f) => assert!(matches!(f, Fault::Configuration)),
        Ok(_) => panic!("stdout mode must be rejected"),
    }
}

#[test]
fn blank_kube_config_checks_to_none() {
    assert!(blank_kube().check().is_none());
}

#[test]
fn provided_kube_config_checks_to_some() {
    let mut k = blank_kube();
    k.pod_name = "my-pod".to_string();
    let k = k.check().unwrap();
    assert_eq!(k.pod_name, "my-pod");
    assert_eq!(k.kube_config_file, "");
}

#[test]
fn entry_path_safety() {
    assert!(is_safe_entry_path("etc/passwd"));
    assert!(is_safe_entry_path("a/b..c/d"));
    assert!(is_safe_entry_path("..a/b"));
    assert!(is_safe_entry_path("a/..b"));
    assert!(!is_safe_entry_path(""));
    assert!(!is_safe_entry_path("/etc/passwd"));
    assert!(!is_safe_entry_path(".."));
    assert!(!is_safe_entry_path("../x"));
    assert!(!is_safe_entry_path("a/../b"));
    assert!(!is_safe_entry_path("a/b/.."));
}
