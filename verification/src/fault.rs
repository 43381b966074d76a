//! What is logged when the backend cannot go on, and how its allocator serves
//! requests.
use vstd::prelude::*;
use vstd::string::StringExecFns;

use crate::text::{decimal, u64_text};

verus! {

/// The line that is logged on a panic.
pub fn panic(info: &str) -> (line: String)
    ensures
        line@ == "panic in axvisor_kvm_x86_bridge: "@ + info@,
{
    let mut line = String::from_str("panic in axvisor_kvm_x86_bridge: ");
    line.append(info);
    line
}

/// The line that is logged when memory runs out.
pub fn alloc_error(size: usize, align: usize) -> (line: String)
    ensures
        line@ == "allocation failure in axvisor_kvm_x86_bridge size="@ + decimal(size as nat) + " align="@ + decimal(
            align as nat,
        ),
{
    let mut line = String::from_str("allocation failure in axvisor_kvm_x86_bridge size=");
    let size_text = u64_text(size as u64);
    line.append(size_text.as_str());
    line.append(" align=");
    let align_text = u64_text(align as u64);
    line.append(align_text.as_str());
    line
}

/// What is done with a request for memory.
#[derive(Clone, Copy, Debug, PartialEq, Eq, Structural)]
pub enum AllocRequest {
    /// Nothing: the address is the alignment itself.
    Dangling { address: usize },
    /// Nothing at all.
    Nothing,
    /// Ask the host for memory.
    Allocate { size: usize, align: usize },
    /// Ask the host to resize.
    Resize { size: usize, align: usize },
    /// Give the memory back; there is no address.
    Free { align: usize },
}

/// The allocator of the backend.
#[derive(Clone, Copy, Debug, PartialEq, Eq, Structural)]
pub struct BridgeAllocator;

impl BridgeAllocator {
    /// How memory is found: an empty request needs none.
    pub fn serve_alloc(&self, size: usize, align: usize) -> (r: AllocRequest)
        ensures
            r == (if size == 0 {
                AllocRequest::Dangling { address: align }
            } else {
                AllocRequest::Allocate { size, align }
            }),
    {
        if size == 0 {
            return AllocRequest::Dangling { address: align };
        }
        AllocRequest::Allocate { size, align }
    }

    /// How memory is given back: an empty request has none.
    pub fn serve_dealloc(&self, size: usize, align: usize) -> (r: AllocRequest)
        ensures
            r == (if size == 0 {
                AllocRequest::Nothing
            } else {
                AllocRequest::Free { align }
            }),
    {
        if size == 0 {
            return AllocRequest::Nothing;
        }
        AllocRequest::Free { align }
    }

    /// How memory is resized.
    pub fn serve_realloc(&self, size: usize, align: usize, new_size: usize) -> (r: AllocRequest)
        ensures
            r == (if size == 0 && new_size == 0 {
                AllocRequest::Dangling { address: align }
            } else if size == 0 {
                AllocRequest::Allocate { size: new_size, align }
            } else if new_size == 0 {
                AllocRequest::Free { align }
            } else {
                AllocRequest::Resize { size: new_size, align }
            }),
    {
        if size == 0 {
            if new_size == 0 {
                return AllocRequest::Dangling { address: align };
            }
            return AllocRequest::Allocate { size: new_size, align };
        }
        if new_size == 0 {
            return AllocRequest::Free { align };
        }
        AllocRequest::Resize { size: new_size, align }
    }
}

} // verus!
