use kernel::arch::cpu::{enable_syscall_extensions, physical_address_width, supports_required_features, syscall_star};
use kernel::arch::gdt::{GlobalDescriptorTable, SegmentDescriptor, EXECUTE, PRESENT};
use kernel::arch::idt::{DescriptorTablePointer, InterruptDescriptorTable, InterruptGateDescriptor};
use kernel::arch::interrupt::{PageFaultErrorCode, RFlags};
use kernel::arch::msr::{join_halves, split_halves, ModelSpecificRegister};
use kernel::arch::tss::TaskStateSegment;
use kernel::mem::paging::{PageTable, PageTableEntry, PageSize};

#[test]
fn segment_descriptors() {
    assert_eq!(SegmentDescriptor::new().descriptor, 0);
    let data = SegmentDescriptor::code_or_data();
    assert_eq!(data.descriptor, 0x0020_9200_0000_0000);
    assert_eq!(data.set_flags(EXECUTE).descriptor, 0x0020_9a00_0000_0000);
    assert_eq!(data.set_privilege_level(3).descriptor, 0x0020_f200_0000_0000);
    assert_eq!(data.set_privilege_level(7).descriptor, 0x0020_f200_0000_0000);
    assert_eq!(SegmentDescriptor::new().set_type(0xff).descriptor, 0x0000_0700_0000_0000);
    assert_eq!(data.set_type(1).descriptor, 0x0020_9100_0000_0000);
    assert_eq!(data.set_privilege_level(3).set_privilege_level(0).descriptor, data.descriptor);
    assert_eq!(data.set_privilege_level(3).set_privilege_level(1).descriptor, 0x0020_b200_0000_0000);
}

#[test]
fn global_descriptor_table() {
    let gdt = GlobalDescriptorTable::uninit();
    assert_eq!(gdt.kernel_code.descriptor, 0x0020_9a00_0000_0000);
    assert_eq!(gdt.kernel_data.descriptor, 0x0020_9200_0000_0000);
    assert_eq!(gdt.user_data.descriptor, 0x0020_f200_0000_0000);
    assert_eq!(gdt.user_code.descriptor, 0x0020_fa00_0000_0000);
    assert_eq!(gdt.tss.descriptor, 0);
    assert_eq!(GlobalDescriptorTable::new().user_code, gdt.user_code);
}

#[test]
fn tss_descriptor_holds_base_and_limit() {
    let mut gdt = GlobalDescriptorTable::uninit();
    let base: u64 = 0xffff_8000_1234_5678;
    gdt.init_with_tss(base);
    let d = gdt.tss.descriptor;
    let read_base = ((d >> 16) & 0xff_ffff) | (((d >> 56) & 0xff) << 24) | (((d >> 64) & 0xffff_ffff) << 32);
    assert_eq!(read_base, base as u128);
    assert_eq!(d & 0xffff, 103);
    assert_eq!((d >> 40) & 0xf, 0b1001);
    assert_ne!(d & (PRESENT as u128), 0);
    let tss = SegmentDescriptor::new().as_tss_descriptor(0x1000);
    assert_eq!(tss.descriptor, (0x1000u128 << 16) | 103);
}

#[test]
fn task_state_segment() {
    let mut tss = TaskStateSegment::uninit();
    assert_eq!(tss.io_map, 104);
    assert_eq!(tss.rsp, [0, 0, 0]);
    tss.set_rsp0(0xdead_beef);
    assert_eq!(tss.rsp, [0xdead_beef, 0, 0]);
    assert_eq!(tss.ist, [0; 7]);
}

#[test]
fn interrupt_gates() {
    let gate = InterruptGateDescriptor::new(0x1122_3344_5566_7788, 0x8);
    let d = gate.descriptor;
    assert_eq!(d & 0xffff, 0x7788);
    assert_eq!((d >> 16) & 0xffff, 0x8);
    assert_eq!((d >> 40) & 0xff, 0x8e);
    assert_eq!((d >> 48) & 0xffff, 0x5566);
    assert_eq!((d >> 64) & 0xffff_ffff, 0x1122_3344);
    let mut idt = InterruptDescriptorTable::uninit();
    idt.init(1, 2, 3, 4, 5);
    assert_eq!(idt.descriptors[8], InterruptGateDescriptor::new(1, 0x8));
    assert_eq!(idt.descriptors[36], InterruptGateDescriptor::new(5, 0x8));
    assert_eq!(idt.descriptors[0].descriptor, 0);
    let pointer = DescriptorTablePointer { limit: 4095, base: 0x1000 };
    assert_eq!(pointer.limit, 4095);
}

#[test]
fn flag_names() {
    let rflags = RFlags::new((1 << 9) | (3 << 12) | (1 << 21));
    assert_eq!(rflags.iopl(), 3);
    assert_eq!(rflags.flag_names(), vec!["INTERRUPT_ENABLE", "IDENTIFICATION"]);
    assert!(RFlags::new(0).flag_names().is_empty());
    let code = PageFaultErrorCode { flags: 0b111 };
    assert_eq!(code.flag_names(), vec!["PRESENT", "WRITE", "USER_MODE"]);
    let sgx = PageFaultErrorCode { flags: 1 << 15 };
    assert_eq!(sgx.flag_names(), vec!["SGX"]);
}

#[test]
fn msr_values() {
    assert_eq!(split_halves(0x1234_5678_9abc_def0), (0x1234_5678, 0x9abc_def0));
    assert_eq!(join_halves(0x1234_5678, 0x9abc_def0), 0x1234_5678_9abc_def0);
    assert_eq!(ModelSpecificRegister::IA32_EFER.address(), 0xc000_0080);
    assert_eq!(ModelSpecificRegister::IA32_LSTAR.address(), 0xc000_0082);
    assert_eq!(ModelSpecificRegister::IA32_FMASK.address(), 0xc000_0084);
}

#[test]
fn page_table_entries() {
    let entry = PageTableEntry::new(0x1234_5000, 0x1ff, 40);
    assert_eq!(entry.entry, 0x1234_50ff);
    let page = PageTableEntry::new(0x1000, 0x3, 36);
    assert_eq!(page.entry, 0x1003);
    let cut = PageTableEntry::new(0xffff_f000, 0, 20);
    assert_eq!(cut.entry, 0xf_f000);
    PageTable::map(0x1000, 0x2000, PageSize::Page4KiB);
}

#[test]
fn processor_features() {
    assert!(supports_required_features(0x1, 0x0400_0000));
    assert!(supports_required_features(0xffff_ffff, 0xffff_ffff));
    assert!(!supports_required_features(0x0, 0x0400_0000));
    assert!(!supports_required_features(0x1, 0x03ff_ffff));
    assert_eq!(physical_address_width(0x0000_3027), 0x27);
    assert_eq!(physical_address_width(0xffff_ff30), 0x30);
    assert_eq!(syscall_star(), 0x0018_0008_0000_0000);
    assert_eq!(enable_syscall_extensions(0xd00), 0xd01);
    assert_eq!(enable_syscall_extensions(0xd01), 0xd01);
}

#[test]
fn single_feature_checks() {
    assert!(kernel::arch::cpu::supports_fsgsbase(0x3));
    assert!(!kernel::arch::cpu::supports_fsgsbase(0x2));
    assert!(kernel::arch::cpu::supports_xsave(0x0400_0000));
    assert!(!kernel::arch::cpu::supports_xsave(0x0800_0000));
}
