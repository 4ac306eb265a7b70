//! Builders for two declarative image-build modules: a boot-shell module
//! that turns a list of shell commands into a boot script with a matching
//! oneshot unit file, and an ostree-package module that renders a package
//! manager command line and either returns it for immediate use or defers
//! it to first boot through the same script/unit pair.
//!
//! All path, command and file-content rendering is done here, as pure
//! functions from the module configuration, the output root and a freshly
//! generated token to the exact strings that end up on disk; the caller
//! performs the actual filesystem writes.

pub mod artifact;
pub mod boot_shell;
pub mod cmdline;
pub mod ostree_pkg;
mod token;
