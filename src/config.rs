//! The sandbox configuration: what a guest may see and do, and where guest
//! binaries are found.
use crate::error::RuntimeError;
use crate::text::append;
use vstd::prelude::*;
use wasmtime_wasi::{DirPerms, FilePerms};

verus! {

#[verifier::external_type_specification]
#[verifier::external_body]
pub struct ExDirPerms(DirPerms);

#[verifier::external_type_specification]
#[verifier::external_body]
pub struct ExFilePerms(FilePerms);

/// Relies on `wasmtime_wasi::DirPerms::all` (bitflags): the set of every directory permission.
#[verifier::external_body]
fn every_dir_perm() -> DirPerms {
    DirPerms::all()
}

/// Relies on `wasmtime_wasi::FilePerms::all` (bitflags): the set of every file permission.
#[verifier::external_body]
fn every_file_perm() -> FilePerms {
    FilePerms::all()
}

/// A Unix path is absolute when it starts at the root.
pub open spec fn is_absolute(p: Seq<char>) -> bool {
    p.len() > 0 && p[0] == '/'
}

/// `base` joined with `p`: an absolute `p` replaces `base`; otherwise `p` is
/// appended, with a separator unless `base` is empty or already ends in one.
pub open spec fn joined(base: Seq<char>, p: Seq<char>) -> Seq<char> {
    if is_absolute(p) {
        p
    } else if base.len() == 0 || base.last() == '/' {
        base + p
    } else {
        base + seq!['/'] + p
    }
}

/// Where the binary of guest `id` lives: `{root}/{id}.{ext}`.
pub open spec fn module_file(root: Seq<char>, id: Seq<char>, ext: Seq<char>) -> Seq<char> {
    joined(root, id + seq!['.'] + ext)
}

pub fn join_path(base: &str, p: &str) -> (r: String)
    ensures
        r@ == joined(base@, p@),
{
    let pn = p.unicode_len();
    if pn > 0 && p.get_char(0) == '/' {
        return p.to_owned();
    }
    let mut r = base.to_owned();
    let n = base.unicode_len();
    if n > 0 && base.get_char(n - 1) != '/' {
        let sep = "/";
        proof {
            reveal_strlit("/");
        }
        append(&mut r, sep);
    }
    append(&mut r, p);
    r
}

/// The mathematical content of a configuration.
pub ghost struct ConfigView {
    pub host_path: Seq<char>,
    pub guest_path: Seq<char>,
    pub root_path: Seq<char>,
    pub dir_perms: DirPerms,
    pub file_perms: FilePerms,
    pub wasm_ext: Seq<char>,
    pub allow_write: bool,
    pub allow_network: bool,
}

/// What a guest may see and do, and where guest binaries are found.
///
/// The host path is resolved against the root directory when it is set, so
/// that a later change of the root does not move it.
#[derive(Debug)]
pub struct WasmConfig {
    host_path: String,
    guest_path: String,
    dir_perms: DirPerms,
    file_perms: FilePerms,
    rootdir: String,
    wasm_ext: String,
    allow_write: bool,
    allow_network: bool,
}

impl View for WasmConfig {
    type V = ConfigView;

    closed spec fn view(&self) -> ConfigView {
        ConfigView {
            host_path: self.host_path@,
            guest_path: self.guest_path@,
            root_path: self.rootdir@,
            dir_perms: self.dir_perms,
            file_perms: self.file_perms,
            wasm_ext: self.wasm_ext@,
            allow_write: self.allow_write,
            allow_network: self.allow_network,
        }
    }
}

impl WasmConfig {
    /// The default configuration for a process whose working directory is
    /// `cwd` (`None` when it cannot be determined, then "." stands for it):
    /// host path and root directory there, guests see it as "/", every
    /// directory and file permission, no write access, no network, and
    /// binaries recognised by the extension "wasm".
    pub fn from_working_dir(cwd: Option<String>) -> (r: Self)
        ensures
            r@.host_path == (match cwd {
                Some(d) => d@,
                None => "."@,
            }),
            r@.root_path == r@.host_path,
            r@.guest_path == "/"@,
            r@.wasm_ext == "wasm"@,
            !r@.allow_write,
            !r@.allow_network,
    {
        let dir = match cwd {
            Some(d) => d,
            None => ".".to_owned(),
        };
        WasmConfig {
            host_path: dir.clone(),
            guest_path: "/".to_owned(),
            dir_perms: every_dir_perm(),
            file_perms: every_file_perm(),
            rootdir: dir,
            wasm_ext: "wasm".to_owned(),
            allow_write: false,
            allow_network: false,
        }
    }

    /// Allow or forbid stream and datagram sockets.
    pub fn set_allow_network(&mut self, allow: bool) -> (r: &Self)
        ensures
            final(self)@ == (ConfigView { allow_network: allow, ..old(self)@ }),
            *r == *final(self),
    {
        self.allow_network = allow;
        self
    }

    pub fn get_allow_network(&self) -> (r: bool)
        ensures
            r == self@.allow_network,
    {
        self.allow_network
    }

    /// Set the directory scanned for guest binaries.
    pub fn set_rootdir(&mut self, p: &str) -> (r: &Self)
        ensures
            final(self)@ == (ConfigView { root_path: p@, ..old(self)@ }),
            *r == *final(self),
    {
        self.rootdir = p.to_owned();
        self
    }

    /// Set the host directory exposed to guests; a relative path is resolved
    /// against the root directory now.
    pub fn set_host_path(&mut self, p: &str) -> (r: Result<&Self, RuntimeError>)
        ensures
            final(self)@ == (ConfigView {
                host_path: joined(old(self)@.root_path, p@),
                ..old(self)@
            }),
            r is Ok,
            r matches Ok(c) ==> *c == *final(self),
    {
        self.host_path = join_path(self.rootdir.as_str(), p);
        Ok(self)
    }

    /// Set the path under which guests see the host directory.
    pub fn set_guest_path(&mut self, s: &str) -> (r: &Self)
        ensures
            final(self)@ == (ConfigView { guest_path: s@, ..old(self)@ }),
            *r == *final(self),
    {
        self.guest_path = s.to_owned();
        self
    }

    /// Set the extension (without the dot) that marks guest binaries.
    pub fn set_wasm_ext(&mut self, s: &str) -> (r: &Self)
        ensures
            final(self)@ == (ConfigView { wasm_ext: s@, ..old(self)@ }),
            *r == *final(self),
    {
        self.wasm_ext = s.to_owned();
        self
    }

    pub fn get_wasm_ext(&self) -> (r: &str)
        ensures
            r@ == self@.wasm_ext,
    {
        self.wasm_ext.as_str()
    }

    /// Expose the host directory to guests, or expose nothing at all.
    pub fn set_allow_write(&mut self, allow: bool) -> (r: &Self)
        ensures
            final(self)@ == (ConfigView { allow_write: allow, ..old(self)@ }),
            *r == *final(self),
    {
        self.allow_write = allow;
        self
    }

    /// Set the directory permissions; they matter only while writing is allowed.
    pub fn set_dir_perms(&mut self, perms: DirPerms) -> (r: &Self)
        ensures
            final(self)@ == (ConfigView { dir_perms: perms, ..old(self)@ }),
            *r == *final(self),
    {
        self.dir_perms = perms;
        self
    }

    /// Set the file permissions; they matter only while writing is allowed.
    pub fn set_file_perms(&mut self, perms: FilePerms) -> (r: &Self)
        ensures
            final(self)@ == (ConfigView { file_perms: perms, ..old(self)@ }),
            *r == *final(self),
    {
        self.file_perms = perms;
        self
    }

    pub fn get_allow_write(&self) -> (r: bool)
        ensures
            r == self@.allow_write,
    {
        self.allow_write
    }

    pub fn get_host_path(&self) -> (r: &str)
        ensures
            r@ == self@.host_path,
    {
        self.host_path.as_str()
    }

    pub fn get_guest_path(&self) -> (r: &str)
        ensures
            r@ == self@.guest_path,
    {
        self.guest_path.as_str()
    }

    pub fn get_root_path(&self) -> (r: &str)
        ensures
            r@ == self@.root_path,
    {
        self.rootdir.as_str()
    }

    pub fn get_dir_perms(&self) -> (r: DirPerms)
        ensures
            r == self@.dir_perms,
    {
        self.dir_perms
    }

    pub fn get_file_perms(&self) -> (r: FilePerms)
        ensures
            r == self@.file_perms,
    {
        self.file_perms
    }

    /// The file that holds the binary of guest `id`.
    pub fn binary_path(&self, id: &str) -> (r: String)
        ensures
            r@ == module_file(self@.root_path, id@, self@.wasm_ext),
    {
        let mut name = id.to_owned();
        let dot = ".";
        proof {
            reveal_strlit(".");
        }
        append(&mut name, dot);
        append(&mut name, self.wasm_ext.as_str());
        join_path(self.rootdir.as_str(), name.as_str())
    }
}

} // verus!
