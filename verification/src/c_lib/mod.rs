//! C-flavoured building blocks: bits, bit flags, the libc-like surface, and the
//! boot information that the first stage hands over.

use crate::c_lib::bit_flags::BitFlags;
use vstd::prelude::*;

pub mod bit;
pub mod bit_flags;
pub mod cpuid;
pub mod libc;

verus! {

/// The boot information in raw numbers, as the first stage passes it.
#[derive(Clone, Copy, Debug, PartialEq, Eq, Structural)]
pub struct BootInfoInput {
    /// Multiboot magic value, equal to `0x36d76289`.
    pub multiboot_magic: u32,
    /// Address of the multiboot info.
    pub multiboot_info: u32,
    /// The edx register after querying the `cpuid` command.
    pub cpuid_edx: u32,
    /// The ecx register after querying the `cpuid` command.
    pub cpuid_ecx: u32,
    /// Address of the page table base.
    pub page_table_base: u64,
    /// The stack's top.
    pub stack_top: u64,
    /// Frame buffer address; 0 for now.
    pub framebuffer_addr: u64,
    /// Memory map address; 0 for now.
    pub memory_map_addr: u64,
    /// Address of the first stage's kernel entry.
    pub kernel_entry: u64,
}

/// A pointer from the 32-bit stage, kept as its 32-bit address.
#[derive(Clone, Copy, Debug, PartialEq, Eq, Structural)]
pub struct SmallPtr {
    ptr: u32,
}

impl SmallPtr {
    /// The address, in contracts.
    pub closed spec fn addr(self) -> u32 {
        self.ptr
    }

    /// A small pointer to the address `ptr`, which must be a 32-bit address.
    pub fn new_unchecked(ptr: u64) -> (small: SmallPtr)
        requires
            ptr <= u32::MAX,
        ensures
            small.addr() == ptr,
    {
        SmallPtr { ptr: ptr as u32 }
    }

    /// Converts the small pointer to the address it holds.
    pub fn into_inner(self) -> (addr: u64)
        ensures
            addr == self.addr(),
    {
        self.ptr as u64
    }
}

/// Boot info in the kernel's own types: the `cpuid` registers as bit flags and
/// the two pointers that must not be null as non-zero addresses.
#[derive(Clone, Copy, Debug)]
pub struct BootInfo {
    /// Multiboot magic value.
    pub multiboot_magic: u32,
    /// Multiboot info, as a 32-bit pointer.
    pub multiboot_info: SmallPtr,
    /// The edx register after `cpuid`, as bit flags.
    pub cpuid_edx: BitFlags,
    /// The ecx register after `cpuid`, as bit flags.
    pub cpuid_ecx: BitFlags,
    /// Address of the page table base; not null.
    pub page_table_base: u64,
    /// Address of the stack's top; not null.
    pub stack_top: u64,
    /// Address of the frame buffer; null for now.
    pub frame_buffer: u64,
    /// Address of the memory map; null for now.
    pub mem_map_addr: u64,
    /// Address of the first stage's kernel entry.
    pub kernel_entry: u64,
}

impl BootInfoInput {
    /// Converts the raw boot information into the kernel's types. The page
    /// table base and the stack top must not be null. The frame buffer and the
    /// memory map are null whatever the raw values say.
    pub fn into_rust(self) -> (info: BootInfo)
        requires
            self.page_table_base != 0,
            self.stack_top != 0,
        ensures
            info.multiboot_magic == self.multiboot_magic,
            info.multiboot_info.addr() == self.multiboot_info,
            info.cpuid_edx@ == self.cpuid_edx,
            info.cpuid_ecx@ == self.cpuid_ecx,
            info.page_table_base == self.page_table_base,
            info.stack_top == self.stack_top,
            info.frame_buffer == 0,
            info.mem_map_addr == 0,
            info.kernel_entry == self.kernel_entry,
    {
        BootInfo {
            cpuid_ecx: BitFlags::new(self.cpuid_ecx),
            cpuid_edx: BitFlags::new(self.cpuid_edx),
            frame_buffer: 0,
            kernel_entry: self.kernel_entry,
            mem_map_addr: 0,
            multiboot_info: SmallPtr::new_unchecked(self.multiboot_info as u64),
            multiboot_magic: self.multiboot_magic,
            page_table_base: self.page_table_base,
            stack_top: self.stack_top,
        }
    }
}

/// The boot information as the first stage passes it to the entry point: what
/// its pointer leads to, if the pointer is not null, and whether the first
/// stage calls it valid.
#[derive(Clone, Copy, Debug)]
pub struct BootInfoC {
    pub input: Option<BootInfoInput>,
    pub valid: bool,
}

impl BootInfoC {
    /// Returns the inner value: in `Ok` where the boot information is valid,
    /// in `Err` where it is not. The pointer must not be null.
    pub fn into_inner(self) -> (res: Result<BootInfoInput, BootInfoInput>)
        requires
            self.input is Some,
        ensures
            res == if self.valid {
                Ok::<BootInfoInput, BootInfoInput>(self.input.unwrap())
            } else {
                Err::<BootInfoInput, BootInfoInput>(self.input.unwrap())
            },
    {
        let input = self.input.unwrap();
        if self.valid {
            Ok(input)
        } else {
            Err(input)
        }
    }
}

} // verus!
