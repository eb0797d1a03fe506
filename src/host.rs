//! The host facilities the device uses: guest memory from `vm_memory` and
//! event file descriptors from `vmm_sys_util`.

use vm_memory::{Bytes, GuestAddress, GuestMemoryError, GuestMemoryMmap};
use vmm_sys_util::eventfd::EventFd;
use vstd::prelude::*;

verus! {

#[verifier::external_type_specification]
#[verifier::external_body]
#[verifier::reject_recursive_types(B)]
pub struct ExGuestMemoryMmap<B>(vm_memory::GuestMemoryMmap<B>);

#[verifier::external_type_specification]
#[verifier::external_body]
pub struct ExGuestMemoryError(vm_memory::GuestMemoryError);

#[verifier::external_type_specification]
#[verifier::external_body]
pub struct ExEventFd(vmm_sys_util::eventfd::EventFd);

#[verifier::external_type_specification]
#[verifier::external_body]
pub struct ExIoError(std::io::Error);

/// Relies on `vm_memory::Bytes::read_slice` for `GuestMemoryMmap`, which
/// succeeds only when the whole buffer of `len` bytes at `addr` was read.
#[verifier::external_body]
pub(crate) fn read_guest(mem: &GuestMemoryMmap, addr: u64, len: usize) -> (r: Result<
    Vec<u8>,
    GuestMemoryError,
>)
    requires
        len <= 4096,
    ensures
        r is Ok ==> r->Ok_0@.len() == len,
{
    let mut buf = vec![0u8; len];
    mem.read_slice(&mut buf, GuestAddress(addr)).map(|()| buf)
}

/// Relies on `vm_memory::Bytes::write_slice` for `GuestMemoryMmap`, which
/// copies `bytes` to guest memory at `addr`.
#[verifier::external_body]
pub(crate) fn write_guest(mem: &GuestMemoryMmap, addr: u64, bytes: &[u8]) -> (r: Result<
    (),
    GuestMemoryError,
>) {
    mem.write_slice(bytes, GuestAddress(addr))
}

/// Relies on `vmm_sys_util::eventfd::EventFd::new` to create a
/// non-blocking event file descriptor.
#[verifier::external_body]
pub(crate) fn new_event_fd() -> (r: Result<EventFd, std::io::Error>) {
    EventFd::new(libc::EFD_NONBLOCK)
}

/// Relies on `vmm_sys_util::eventfd::EventFd::read` to consume the counter.
#[verifier::external_body]
pub(crate) fn read_event_fd(fd: &EventFd) -> (r: Result<u64, std::io::Error>) {
    fd.read()
}

/// Relies on `vmm_sys_util::eventfd::EventFd::write` to add `v` to the counter.
#[verifier::external_body]
pub(crate) fn write_event_fd(fd: &EventFd, v: u64) -> (r: Result<(), std::io::Error>) {
    fd.write(v)
}

} // verus!
