use dcp::container::{new, Capability, Container, CreateRequest, PullRequest, RemoveRequest};
use dcp::error::{ExtractionCause, Fault, Op};
use dcp::pipeline::{start, step, Action, Cleanup, Event, ExtractionRequest, State};
use dcp::runtime::Runtime;

fn request(force_pull: bool) -> ExtractionRequest {
    ExtractionRequest {
        content_path: "/".to_string(),
        download_path: "./out".to_string(),
        username: String::new(),
        password: String::new(),
        force_pull,
        write_to_stdout: false,
    }
}

fn docker_cap(image: &str) -> Capability {
    new(
        image.to_string(),
        Runtime::Docker { socket: "unix:///var/run/docker.sock".to_string() },
    )
    .unwrap()
}

fn podman_cap(image: &str) -> Capability {
    new(
        image.to_string(),
        Runtime::Podman { socket: "unix:///run/user/1/podman/podman.sock".to_string() },
    )
    .unwrap()
}

fn tar_with(entries: &[(&str, &[u8])]) -> Vec<u8> {
    let mut builder = tar::Builder::new(Vec::new());
    for (path, data) in entries {
        let mut header = tar::Header::new_gnu();
        header.set_size(data.len() as u64);
        header.set_mode(0o644);
        header.set_cksum();
        builder.append_data(&mut header, path, *data).unwrap();
    }
    builder.into_inner().unwrap()
}

#[test]
fn reference_with_empty_repository_is_rejected() {
    let r = new(
        ":v0.0.4".to_string(),
        Runtime::Docker { socket: "unix:///var/run/docker.sock".to_string() },
    );
    match r {
        Err(f) => assert!(matches!(f, Fault::ReferenceParse)),
        Ok(_) => panic!("an empty repository segment must be rejected"),
    }
}

#[test]
fn docker_pull_request_carries_repo_tag_and_auth() {
    let cap = docker_cap("example.org/app:v1");
    match cap.pull_request("user".to_string(), "secret".to_string()) {
        PullRequest::ByRepoTag { repository, tag, auth } => {
            assert_eq!(repository, "example.org/app");
            assert_eq!(tag, "v1");
            assert_eq!(auth.username, "user");
            assert_eq!(auth.password, "secret");
        },
        PullRequest::ByReference { .. } => panic!("the primary engine pulls by repo and tag"),
    }
}

#[test]
fn podman_pull_request_carries_trimmed_reference() {
    let cap = podman_cap(" example.org/app:v1 ");
    match cap.pull_request(String::new(), String::new()) {
        PullRequest::ByReference { reference, .. } => {
            assert_eq!(reference, "example.org/app:v1")
        },
        PullRequest::ByRepoTag { .. } => panic!("the alternative engine pulls by reference"),
    }
}

#[test]
fn create_requests_override_the_entrypoint() {
    let CreateRequest { image, blank_entrypoint } = docker_cap("a/b:c").create_request();
    assert_eq!(image, "a/b:c");
    assert!(blank_entrypoint);
    let CreateRequest { image, blank_entrypoint } = podman_cap(" a/b:c ").create_request();
    assert_eq!(image, "a/b:c");
    assert!(blank_entrypoint);
}

#[test]
fn remove_requests_are_per_identifier_and_forced() {
    let RemoveRequest { id, force } = podman_cap("a/b").remove_request("cid77".to_string());
    assert_eq!(id, "cid77");
    assert!(force);
}

#[test]
fn present_locally_is_an_exact_literal_match() {
    let cap = docker_cap("example.org/app");
    let reported = vec![
        "example.org/app:latest".to_string(),
        "other.org/thing:v2".to_string(),
    ];
    // A reference with no explicit tag misses `repo:latest`-shaped strings:
    // a documented limitation, preserved.
    assert!(!cap.present_locally(&reported));
    let reported = vec!["example.org/app".to_string()];
    assert!(cap.present_locally(&reported));
}

#[test]
fn present_image_skips_the_pull() {
    let cap = docker_cap("example.org/app:v1");
    let req = request(false);
    let (state, action) = start(&req);
    assert!(matches!(action, Action::ListImages));
    let tags = vec!["example.org/app:v1".to_string()];
    let (state, action) = step(&cap, &req, state, Event::ImagesListed { tags });
    assert!(matches!(state, State::Creating));
    assert!(matches!(action, Some(Action::Create { .. })));
}

#[test]
fn force_pull_ignores_a_present_image() {
    let cap = docker_cap("example.org/app:v1");
    let req = request(true);
    let (state, _) = start(&req);
    let tags = vec!["example.org/app:v1".to_string()];
    let (state, action) = step(&cap, &req, state, Event::ImagesListed { tags });
    assert!(matches!(state, State::Pulling));
    assert!(matches!(action, Some(Action::Pull { .. })));
}

#[test]
fn absent_image_is_pulled() {
    let cap = docker_cap("example.org/app:v1");
    let req = request(false);
    let (state, _) = start(&req);
    let (state, action) = step(&cap, &req, state, Event::ImagesListed { tags: vec![] });
    assert!(matches!(state, State::Pulling));
    match action {
        Some(Action::Pull { request: PullRequest::ByRepoTag { repository, tag, .. } }) => {
            assert_eq!(repository, "example.org/app");
            assert_eq!(tag, "v1");
        },
        _ => panic!("an absent image must be pulled"),
    }
}

#[test]
fn successful_run_unpacks_and_removes() {
    let cap = docker_cap("example.org/app:v1");
    let req = request(false);
    let (state, _) = start(&req);
    let (state, action) = step(&cap, &req, state, Event::ListFailed);
    assert!(matches!(action, Some(Action::Pull { .. })));
    let (state, action) = step(&cap, &req, state, Event::PullFinished);
    assert!(matches!(action, Some(Action::Create { .. })));
    let (state, action) = step(&cap, &req, state, Event::Created { container: "c1".to_string() });
    match &action {
        Some(Action::CopyFrom { container, source }) => {
            assert_eq!(container, "c1");
            assert_eq!(source, "/");
        },
        _ => panic!("creation must be followed by the copy call"),
    }
    let archive = tar_with(&[("dir/a.txt", b"alpha"), ("dir/sub/b.bin", b"beta")]);
    let (state, action) = step(&cap, &req, state, Event::CopyFinished { archive });
    match &action {
        Some(Action::WriteEntries { entries, destination }) => {
            assert_eq!(destination, "./out");
            assert_eq!(entries.len(), 2);
            assert_eq!(entries[0].path, "dir/a.txt");
            assert_eq!(entries[0].data, b"alpha");
            assert_eq!(entries[0].mode, 0o644);
            assert!(!entries[0].is_dir);
            assert_eq!(entries[1].path, "dir/sub/b.bin");
            assert_eq!(entries[1].data, b"beta");
        },
        _ => panic!("a decoded archive must be written out"),
    }
    let (state, action) = step(&cap, &req, state, Event::WriteFinished);
    match &action {
        Some(Action::Remove { request }) => {
            assert_eq!(request.id, "c1");
            assert!(request.force);
        },
        _ => panic!("the success path must still remove the container"),
    }
    let (state, action) = step(&cap, &req, state, Event::RemoveFinished);
    assert!(action.is_none());
    match state {
        State::Finished { outcome, cleanup } => {
            assert!(outcome.is_ok());
            assert!(matches!(cleanup, Cleanup::Attempted { removed: true }));
        },
        _ => panic!("the run must be over"),
    }
}

#[test]
fn missing_content_path_fails_but_still_removes() {
    let cap = docker_cap("example.org/app:v1");
    let req = request(false);
    let (state, _) = start(&req);
    let (state, _) = step(&cap, &req, state, Event::ListFailed);
    let (state, _) = step(&cap, &req, state, Event::PullFinished);
    let (state, _) = step(&cap, &req, state, Event::Created { container: "c9".to_string() });
    let (state, action) = step(
        &cap,
        &req,
        state,
        Event::CopyFailed { missing_path: true, message: "no such path".to_string() },
    );
    match &action {
        Some(Action::Remove { request }) => assert_eq!(request.id, "c9"),
        _ => panic!("a copy failure must still attempt removal"),
    }
    let (state, action) = step(&cap, &req, state, Event::RemoveFinished);
    assert!(action.is_none());
    match state {
        State::Finished { outcome, cleanup } => {
            match outcome {
                Err(Fault::Extraction { cause: ExtractionCause::MissingPath { message } }) => {
                    assert_eq!(message, "no such path")
                },
                _ => panic!("a missing content path is an extraction fault"),
            }
            assert!(matches!(cleanup, Cleanup::Attempted { removed: true }));
        },
        _ => panic!("the run must be over"),
    }
}

#[test]
fn transport_copy_failure_is_an_engine_fault() {
    let cap = docker_cap("example.org/app:v1");
    let req = request(false);
    let (state, _) = start(&req);
    let (state, _) = step(&cap, &req, state, Event::ListFailed);
    let (state, _) = step(&cap, &req, state, Event::PullFinished);
    let (state, _) = step(&cap, &req, state, Event::Created { container: "c2".to_string() });
    let (state, _) = step(
        &cap,
        &req,
        state,
        Event::CopyFailed { missing_path: false, message: "socket closed".to_string() },
    );
    let (state, _) = step(&cap, &req, state, Event::RemoveFinished);
    match state {
        State::Finished { outcome, .. } => match outcome {
            Err(Fault::Engine { op, message }) => {
                assert!(matches!(op, Op::Copy));
                assert_eq!(message, "socket closed");
            },
            _ => panic!("a transport failure during copy is an engine fault"),
        },
        _ => panic!("the run must be over"),
    }
}

#[test]
fn undecodable_archive_fails_and_cleanup_failure_does_not_mask_it() {
    let cap = docker_cap("example.org/app:v1");
    let req = request(false);
    let (state, _) = start(&req);
    let (state, _) = step(&cap, &req, state, Event::ListFailed);
    let (state, _) = step(&cap, &req, state, Event::PullFinished);
    let (state, _) = step(&cap, &req, state, Event::Created { container: "c3".to_string() });
    let garbage = vec![0xFFu8; 1024];
    let (state, action) = step(&cap, &req, state, Event::CopyFinished { archive: garbage });
    assert!(matches!(action, Some(Action::Remove { .. })));
    let (state, action) = step(
        &cap,
        &req,
        state,
        Event::RemoveFailed { message: "remove broke too".to_string() },
    );
    assert!(action.is_none());
    match state {
        State::Finished { outcome, cleanup } => {
            assert!(matches!(
                outcome,
                Err(Fault::Extraction { cause: ExtractionCause::Decode })
            ));
            assert!(matches!(cleanup, Cleanup::Attempted { removed: false }));
        },
        _ => panic!("the run must be over"),
    }
}

/// Builds a one-entry archive by hand, since the builder itself refuses
/// paths it considers unsafe — exactly the kind an adversarial engine could
/// still transmit.
fn raw_tar_with(path: &str, data: &[u8]) -> Vec<u8> {
    let mut header = tar::Header::new_gnu();
    header.set_size(data.len() as u64);
    header.set_mode(0o644);
    header.as_mut_bytes()[..path.len()].copy_from_slice(path.as_bytes());
    header.set_cksum();
    let mut bytes = header.as_bytes().to_vec();
    bytes.extend_from_slice(data);
    while bytes.len() % 512 != 0 {
        bytes.push(0);
    }
    bytes.extend_from_slice(&[0u8; 1024]);
    bytes
}

#[test]
fn escaping_entry_path_fails_the_extraction() {
    let cap = docker_cap("example.org/app:v1");
    let req = request(false);
    let (state, _) = start(&req);
    let (state, _) = step(&cap, &req, state, Event::ListFailed);
    let (state, _) = step(&cap, &req, state, Event::PullFinished);
    let (state, _) = step(&cap, &req, state, Event::Created { container: "c4".to_string() });
    let archive = raw_tar_with("../evil.txt", b"boom");
    let (state, action) = step(&cap, &req, state, Event::CopyFinished { archive });
    assert!(matches!(action, Some(Action::Remove { .. })));
    let (state, _) = step(&cap, &req, state, Event::RemoveFinished);
    match state {
        State::Finished { outcome, .. } => assert!(matches!(
            outcome,
            Err(Fault::Extraction { cause: ExtractionCause::UnsafePath })
        )),
        _ => panic!("the run must be over"),
    }
}

#[test]
fn empty_copy_response_fails_and_still_removes() {
    let cap = docker_cap("example.org/app:v1");
    let req = request(false);
    let (state, _) = start(&req);
    let (state, _) = step(&cap, &req, state, Event::ListFailed);
    let (state, _) = step(&cap, &req, state, Event::PullFinished);
    let (state, _) = step(&cap, &req, state, Event::Created { container: "c6".to_string() });
    let (state, action) = step(&cap, &req, state, Event::CopyFinished { archive: Vec::new() });
    assert!(matches!(action, Some(Action::Remove { .. })));
    let (state, _) = step(&cap, &req, state, Event::RemoveFinished);
    match state {
        State::Finished { outcome, .. } => assert!(matches!(
            outcome,
            Err(Fault::Extraction { cause: ExtractionCause::EmptyArchive })
        )),
        _ => panic!("the run must be over"),
    }
}

#[test]
fn pull_failure_ends_the_run_without_cleanup() {
    let cap = docker_cap("example.org/app:v1");
    let req = request(false);
    let (state, _) = start(&req);
    let (state, _) = step(&cap, &req, state, Event::ListFailed);
    let (state, action) = step(
        &cap,
        &req,
        state,
        Event::PullFailed { message: "registry unreachable".to_string() },
    );
    assert!(action.is_none());
    match state {
        State::Finished { outcome, cleanup } => {
            match outcome {
                Err(Fault::Engine { op, message }) => {
                    assert!(matches!(op, Op::Pull));
                    assert_eq!(message, "registry unreachable");
                },
                _ => panic!("a pull failure is an engine fault"),
            }
            assert!(matches!(cleanup, Cleanup::NotNeeded));
        },
        _ => panic!("the run must be over"),
    }
}

#[test]
fn write_failure_still_removes_the_container() {
    let cap = podman_cap("example.org/app:v1");
    let req = request(false);
    let (state, _) = start(&req);
    let (state, _) = step(&cap, &req, state, Event::ListFailed);
    let (state, _) = step(&cap, &req, state, Event::PullFinished);
    let (state, _) = step(&cap, &req, state, Event::Created { container: "c5".to_string() });
    let archive = tar_with(&[("ok.txt", b"fine")]);
    let (state, _) = step(&cap, &req, state, Event::CopyFinished { archive });
    let (state, action) = step(
        &cap,
        &req,
        state,
        Event::WriteFailed { message: "disk full".to_string() },
    );
    match &action {
        Some(Action::Remove { request }) => assert_eq!(request.id, "c5"),
        _ => panic!("a write failure must still attempt removal"),
    }
    let (state, _) = step(&cap, &req, state, Event::RemoveFinished);
    match state {
        State::Finished { outcome, .. } => match outcome {
            Err(Fault::Extraction { cause: ExtractionCause::WriteFailed { message } }) => {
                assert_eq!(message, "disk full")
            },
            _ => panic!("a write failure is an extraction fault"),
        },
        _ => panic!("the run must be over"),
    }
}
