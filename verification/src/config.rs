//! Run configuration.
//!
//! A [`Config`] is built once per invocation by the command-line layer and is
//! read-only afterwards. [`validate`] stands in front of the pipeline: a
//! request to write the content to stdout is rejected here, before any
//! engine is probed.

use vstd::prelude::*;

use crate::error::Fault;

verus! {

/// Everything one invocation needs.
pub struct Config {
    /// Raw image reference to extract content from.
    pub image: String,
    /// Where the extracted files should be saved on the filesystem.
    pub download_path: String,
    /// Where the content sits in the container filesystem.
    pub content_path: String,
    /// Whether to write to stdout instead of the filesystem; rejected.
    pub write_to_stdout: bool,
    /// What level of logs to output.
    pub log_level: String,
    /// Username for signing into a private registry.
    pub username: String,
    /// Password for signing into a private registry.
    pub password: String,
    /// Force a pull even if the image is present locally.
    pub force_pull: bool,
    /// The socket to reach the container runtime at.
    pub socket: String,
    /// Kubernetes cluster information, when copying out of a pod.
    pub kube_config: KubeConfig,
}

/// The cluster information required to copy data out of a pod's filesystem.
pub struct KubeConfig {
    /// Where the kube config file is located.
    pub kube_config_file: String,
    /// The name of the pod to copy data from.
    pub pod_name: String,
    /// The namespace of the pod to copy data from.
    pub pod_namespace: String,
    /// The name of the container to copy from, if the pod has several.
    pub container_name: String,
}

impl KubeConfig {
    /// True when no cluster information at all was provided.
    pub open spec fn is_blank(&self) -> bool {
        &&& self.kube_config_file@.len() == 0
        &&& self.pod_name@.len() == 0
        &&& self.pod_namespace@.len() == 0
        &&& self.container_name@.len() == 0
    }

    /// Hands the configuration back exactly when any of its fields was
    /// provided; a wholly blank configuration yields `None`.
    pub fn check(self) -> (r: Option<KubeConfig>)
        ensures
            r is Some <==> !self.is_blank(),
            r matches Some(k) ==> k == self,
    {
        if self.kube_config_file.as_str().is_empty() && self.pod_name.as_str().is_empty()
            && self.pod_namespace.as_str().is_empty() && self.container_name.as_str().is_empty() {
            None
        } else {
            Some(self)
        }
    }
}

/// The validation gate in front of the pipeline: writing the content to
/// stdout is rejected with a configuration fault, before any engine
/// interaction; every other configuration passes.
pub fn validate(cfg: &Config) -> (r: Result<(), Fault>)
    ensures
        r is Ok <==> !cfg.write_to_stdout,
        r matches Err(f) ==> f is Configuration,
{
    if cfg.write_to_stdout {
        Err(Fault::Configuration)
    } else {
        Ok(())
    }
}

} // verus!
