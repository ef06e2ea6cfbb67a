//! The runner's settings.
use vstd::prelude::*;

verus! {

/// Settings of one runner.
#[derive(Clone, Debug, PartialEq, Eq)]
pub struct Configuration {
    /// Root under which input roots, temporary directories and output files
    /// live.
    pub build_directory_path: String,
    /// Path of the socket on which the runner listens.
    pub grpc_listen_path: String,
    /// Number of requests that may run at once, never zero once resolved.
    pub num_cpus: u32,
    /// Memory limit of one request, in bytes.
    pub memory_max: u32,
    /// Paths that stay writable in every sandbox.
    pub rw_paths: Vec<String>,
}

/// The number of processors to use: the configured one, or, where that is
/// zero, the parallelism that the host offers, cut to 32 bits. Where the
/// host does not say, or what it says comes to zero, it is one: the number
/// is never zero.
pub open spec fn resolved_num_cpus(configured: u32, available: Option<usize>) -> u32 {
    if configured != 0 {
        configured
    } else {
        match available {
            Some(p) => if p as u32 != 0 {
                p as u32
            } else {
                1
            },
            None => 1,
        }
    }
}

impl Configuration {
    /// Builds the settings from the values of the configuration document and
    /// from the parallelism that the host reports, which stands in for a
    /// processor count of zero.
    pub fn new(
        build_directory_path: String,
        grpc_listen_path: String,
        num_cpus: u32,
        memory_max: u32,
        rw_paths: Vec<String>,
        available_parallelism: Option<usize>,
    ) -> (config: Configuration)
        ensures
            config.build_directory_path == build_directory_path,
            config.grpc_listen_path == grpc_listen_path,
            config.num_cpus == resolved_num_cpus(num_cpus, available_parallelism),
            config.num_cpus > 0,
            config.memory_max == memory_max,
            config.rw_paths == rw_paths,
    {
        let resolved: u32 = if num_cpus != 0 {
            num_cpus
        } else {
            match available_parallelism {
                Some(p) => {
                    let cut: u32 = #[verifier::truncate]
                    (p as u32);
                    if cut != 0 {
                        cut
                    } else {
                        1
                    }
                },
                None => 1,
            }
        };
        Configuration {
            build_directory_path,
            grpc_listen_path,
            num_cpus: resolved,
            memory_max,
            rw_paths,
        }
    }
}

} // verus!
