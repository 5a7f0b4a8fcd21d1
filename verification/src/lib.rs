//! Copy a subtree of a container image's filesystem onto local disk without
//! leaving a running container behind.
//!
//! The crate is organised around four pieces: an image reference parser
//! ([`image`]), a runtime selector that decides which container engine to talk
//! to ([`runtime`]), an engine capability with one variant per supported
//! engine ([`container`], [`docker`], [`podman`]), and an extraction pipeline
//! that sequences pull, create, copy, unpack and remove as a best-effort unit
//! ([`pipeline`]). All engine traffic is performed by the caller: the library
//! hands out the next request to make and consumes the outcome, so every
//! decision along the way is verified.

use vstd::prelude::*;

use crate::config::Config;
use crate::error::Fault;
use crate::pipeline::ExtractionRequest;
use crate::runtime::{selector_start, Probe, SelectorState, DEFAULT_SOCKET};

pub mod archive;
pub mod config;
pub mod container;
pub mod docker;
pub mod error;
pub mod image;
pub mod pipeline;
pub mod podman;
pub mod runtime;

verus! {

/// Opens one run: the configuration is validated, and only then is runtime
/// selection started. A request to write the content to stdout fails here
/// with a configuration fault, before a single engine probe has been handed
/// out. Otherwise the caller receives the extraction request the pipeline
/// will serve, the selector's opening state, and the first probe to
/// perform, aimed at the configured socket; the alternative-engine fallback
/// is derived from `runtime_dir` only when the socket is the platform
/// default.
pub fn begin(cfg: Config, runtime_dir: Option<String>) -> (r: Result<
    (ExtractionRequest, SelectorState, Probe),
    Fault,
>)
    ensures
        r is Err <==> cfg.write_to_stdout,
        r matches Err(f) ==> f is Configuration,
        r matches Ok(t) ==> ({
            &&& t.0 == (ExtractionRequest {
                content_path: cfg.content_path,
                download_path: cfg.download_path,
                username: cfg.username,
                password: cfg.password,
                force_pull: cfg.force_pull,
                write_to_stdout: false,
            })
            &&& t.2 == (Probe::Docker { socket: cfg.socket })
            &&& t.1 matches SelectorState::ProbingDocker { socket, fallback }
            &&& socket == cfg.socket
            &&& (fallback is Some <==> (cfg.socket@ == DEFAULT_SOCKET@ && runtime_dir is Some))
            &&& (fallback matches Some(fb) ==> runtime_dir matches Some(d) && fb@
                == crate::runtime::podman_socket_spec(d@))
        }),
{
    if let Err(f) = crate::config::validate(&cfg) {
        return Err(f);
    }
    let request = ExtractionRequest {
        content_path: cfg.content_path,
        download_path: cfg.download_path,
        username: cfg.username,
        password: cfg.password,
        force_pull: cfg.force_pull,
        write_to_stdout: false,
    };
    let (state, probe) = selector_start(cfg.socket, runtime_dir);
    Ok((request, state, probe))
}

} // verus!
