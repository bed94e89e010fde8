//! The capabilities granted to one run, derived from the configuration.
use crate::config::{ConfigView, WasmConfig};
use vstd::prelude::*;
use wasmtime_wasi::{DirPerms, FilePerms};

verus! {

/// Bytes a guest may write to standard output, and to standard error; more
/// is a capability error, not a silent truncation.
pub const OUTPUT_CAPACITY: usize = 64 * 1024;

/// The host directory exposed to a guest, and how.
#[derive(Debug)]
pub struct Preopen {
    pub host_path: String,
    pub guest_path: String,
    pub dir_perms: DirPerms,
    pub file_perms: FilePerms,
}

/// Everything a fresh execution context of one run is built from. Nothing
/// else is granted: no environment, no other directory, no process spawning.
#[derive(Debug)]
pub struct SandboxPlan {
    /// The bytes pre-filled on standard input.
    pub stdin: Vec<u8>,
    pub stdout_capacity: usize,
    pub stderr_capacity: usize,
    pub allow_tcp: bool,
    pub allow_udp: bool,
    /// The directory to expose, only while writing is allowed.
    pub preopen: Option<Preopen>,
}

/// `p` is the plan of a run under configuration `c` with `stdin` on standard
/// input: sockets exactly when the network is allowed, the host directory at
/// the guest path exactly when writing is allowed, bounded output streams.
pub open spec fn planned(c: ConfigView, stdin: Seq<u8>, p: SandboxPlan) -> bool {
    &&& p.stdin@ == stdin
    &&& p.stdout_capacity == OUTPUT_CAPACITY
    &&& p.stderr_capacity == OUTPUT_CAPACITY
    &&& p.allow_tcp == c.allow_network
    &&& p.allow_udp == c.allow_network
    &&& (p.preopen is Some <==> c.allow_write)
    &&& (p.preopen matches Some(d) ==> {
        &&& d.host_path@ == c.host_path
        &&& d.guest_path@ == c.guest_path
        &&& d.dir_perms == c.dir_perms
        &&& d.file_perms == c.file_perms
    })
}

/// The plan of a run's execution context under `cfg`, with `stdin` on
/// standard input.
pub fn plan_sandbox(cfg: &WasmConfig, stdin: Vec<u8>) -> (r: SandboxPlan)
    ensures
        planned(cfg@, stdin@, r),
{
    let preopen = if cfg.get_allow_write() {
        Some(
            Preopen {
                host_path: cfg.get_host_path().to_owned(),
                guest_path: cfg.get_guest_path().to_owned(),
                dir_perms: cfg.get_dir_perms(),
                file_perms: cfg.get_file_perms(),
            },
        )
    } else {
        None
    };
    let network = cfg.get_allow_network();
    SandboxPlan {
        stdin,
        stdout_capacity: OUTPUT_CAPACITY,
        stderr_capacity: OUTPUT_CAPACITY,
        allow_tcp: network,
        allow_udp: network,
        preopen,
    }
}

/// Every run under one configuration is granted the same capabilities,
/// whatever earlier runs did: only what is on standard input differs. No
/// directory is exposed while writing is not allowed, and no socket while
/// the network is not.
pub proof fn lemma_grant_from_config_alone(
    c: ConfigView,
    in1: Seq<u8>,
    p1: SandboxPlan,
    in2: Seq<u8>,
    p2: SandboxPlan,
)
    requires
        planned(c, in1, p1),
        planned(c, in2, p2),
    ensures
        p1.allow_tcp == p2.allow_tcp,
        p1.allow_udp == p2.allow_udp,
        p1.stdout_capacity == p2.stdout_capacity,
        p1.stderr_capacity == p2.stderr_capacity,
        p1.preopen is Some <==> p2.preopen is Some,
        p1.preopen matches Some(d1) ==> p2.preopen matches Some(d2) && d1.host_path@
            == d2.host_path@ && d1.guest_path@ == d2.guest_path@ && d1.dir_perms == d2.dir_perms
            && d1.file_perms == d2.file_perms,
        !c.allow_write ==> p1.preopen is None,
        !c.allow_network ==> !p1.allow_tcp && !p1.allow_udp,
{
}

} // verus!
