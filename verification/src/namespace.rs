use vstd::prelude::*;
use crate::errors::{CliErrors, NamespaceErrors};

verus! {

/// Relies on nix::fcntl::open: opens the namespace file read-only and hands
/// back its raw file descriptor, or the system's error text when the path
/// cannot be opened.
#[verifier::external_body]
fn open_namespace_file(path: &str) -> (r: Result<i32, String>) {
    match nix::fcntl::open(path, nix::fcntl::OFlag::O_RDONLY, nix::sys::stat::Mode::empty()) {
        Ok(fd) => Ok(fd),
        Err(e) => Err(e.to_string()),
    }
}

/// Relies on nix::sched::setns: moves the network-namespace membership of the
/// calling OS thread to the namespace behind the descriptor, or reports the
/// kernel's refusal as its error text. Membership is per-thread kernel state;
/// other threads are unaffected.
#[verifier::external_body]
fn join_network_namespace(fd: i32) -> (r: Result<(), String>) {
    match nix::sched::setns(fd, nix::sched::CloneFlags::CLONE_NEWNET) {
        Ok(()) => Ok(()),
        Err(e) => Err(e.to_string()),
    }
}

/// Relies on nix::unistd::close: releases the namespace descriptor. Once the
/// thread has joined, membership lives in kernel thread state, so the
/// descriptor is not needed afterwards.
#[verifier::external_body]
fn close_namespace_file(fd: i32) {
    let _ = nix::unistd::close(fd);
}

/// Opens the namespace file named by `namespace_path`, joins the network
/// namespace on the calling thread, and closes the descriptor again.
///
/// Every failure is a namespace error: an `Open` error when the file cannot
/// be opened, a `Join` error when the kernel rejects the transition. The
/// call permanently changes the namespace membership of the calling thread
/// only, and must be issued at most once per thread, before that thread
/// performs any socket operation.
pub fn enter_network_namespace(namespace_path: String) -> (r: Result<(), CliErrors>)
    ensures
        r matches Err(e) ==> e is Namespace,
        r matches Err(e) ==> (e matches CliErrors::Namespace(n) ==> (n is Open || n is Join)),
{
    match open_namespace_file(namespace_path.as_str()) {
        Err(m) => Err(CliErrors::Namespace(NamespaceErrors::Open(m))),
        Ok(fd) => {
            match join_network_namespace(fd) {
                Err(m) => {
                    close_namespace_file(fd);
                    Err(CliErrors::Namespace(NamespaceErrors::Join(m)))
                }
                Ok(()) => {
                    close_namespace_file(fd);
                    Ok(())
                }
            }
        }
    }
}

} // verus!
