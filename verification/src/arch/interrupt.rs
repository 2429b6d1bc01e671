//! Code for working with x86_64 interrupts
use vstd::prelude::*;

verus! {

/// The names of the flags of `table` that are set in `flags`, in the order of the table.
pub open spec fn flag_names_spec(flags: u64, table: Seq<(Seq<char>, u64)>) -> Seq<Seq<char>>
    decreases table.len(),
{
    if table.len() == 0 {
        Seq::empty()
    } else {
        let names = flag_names_spec(flags, table.drop_last());
        if flags & table.last().1 != 0 {
            names.push(table.last().0)
        } else {
            names
        }
    }
}

/// A flag table as mathematical values.
pub open spec fn table_view(table: Seq<(&'static str, u64)>) -> Seq<(Seq<char>, u64)> {
    table.map_values(|entry: (&'static str, u64)| (entry.0@, entry.1))
}

/// The names of the flags of `table` that are set in `flags`.
pub fn flag_names(flags: u64, table: &Vec<(&'static str, u64)>) -> (names: Vec<&'static str>)
    ensures
        names@.map_values(|name: &'static str| name@) == flag_names_spec(flags, table_view(table@)),
{
    let mut names: Vec<&'static str> = Vec::new();
    let mut i: usize = 0;
    while i < table.len()
        invariant
            i <= table@.len(),
            names@.map_values(|name: &'static str| name@) == flag_names_spec(
                flags,
                table_view(table@.take(i as int)),
            ),
        decreases table@.len() - i,
    {
        let (name, bit) = table[i];
        proof {
            assert(table_view(table@.take(i + 1)).drop_last() =~= table_view(table@.take(i as int)));
        }
        if flags & bit != 0 {
            names.push(name);
        }
        i = i + 1;
    }
    proof {
        assert(table@.take(table@.len() as int) =~= table@);
    }
    names
}

/// The system flags in the RFLAGS register as defined in figure 2-5
#[derive(Debug, Clone, Copy, Default, PartialEq, Eq, Structural)]
pub struct RFlags {
    pub flags: u64,
}

/// The names and bits of the RFLAGS system flags.
pub open spec fn rflags_table() -> Seq<(Seq<char>, u64)> {
    seq![
        ("TRAP"@, 0x100u64),
        ("INTERRUPT_ENABLE"@, 0x200u64),
        ("NESTED_TASK"@, 0x4000u64),
        ("RESUME"@, 0x1_0000u64),
        ("VIRTUAL_8086"@, 0x2_0000u64),
        ("ALIGNMENT_CHECK"@, 0x4_0000u64),
        ("VIRTUAL_INTERRUPT"@, 0x8_0000u64),
        ("VIRTUAL_INTERRUPT_PENDING"@, 0x10_0000u64),
        ("IDENTIFICATION"@, 0x20_0000u64),
    ]
}

impl RFlags {
    pub fn new(flags: u64) -> (rflags: RFlags)
        ensures
            rflags.flags == flags,
    {
        RFlags { flags }
    }

    /// The names and bits of the system flags
    pub fn flag_table() -> (table: Vec<(&'static str, u64)>)
        ensures
            table_view(table@) == rflags_table(),
    {
        let table = vec![
            ("TRAP", 0x100u64),
            ("INTERRUPT_ENABLE", 0x200u64),
            ("NESTED_TASK", 0x4000u64),
            ("RESUME", 0x1_0000u64),
            ("VIRTUAL_8086", 0x2_0000u64),
            ("ALIGNMENT_CHECK", 0x4_0000u64),
            ("VIRTUAL_INTERRUPT", 0x8_0000u64),
            ("VIRTUAL_INTERRUPT_PENDING", 0x10_0000u64),
            ("IDENTIFICATION", 0x20_0000u64),
        ];
        table
    }

    /// The I/O privilege level
    pub fn iopl(&self) -> (iopl: u64)
        ensures
            iopl == (self.flags >> 12u64) & 3u64,
    {
        (self.flags >> 12) & 3
    }

    /// The names of the system flags that are set, in the order of the manual
    pub fn flag_names(&self) -> (names: Vec<&'static str>)
        ensures
            names@.map_values(|name: &'static str| name@) == flag_names_spec(self.flags, rflags_table()),
    {
        flag_names(self.flags, &Self::flag_table())
    }
}

/// The interrupt stack frame
#[derive(Debug, Clone, Copy, Default, PartialEq, Eq, Structural)]
pub struct StackFrame {
    pub rip: u64,
    pub cs: u64,
    pub rflags: RFlags,
    pub rsp: u64,
    pub ss: u64,
}

/// A page fault error code as defined in figure 7-11
#[derive(Debug, Clone, Copy, PartialEq, Eq, Structural)]
pub struct PageFaultErrorCode {
    pub flags: u64,
}

/// The names and bits of the page fault error code flags.
pub open spec fn page_fault_table() -> Seq<(Seq<char>, u64)> {
    seq![
        ("PRESENT"@, 0x1u64),
        ("WRITE"@, 0x2u64),
        ("USER_MODE"@, 0x4u64),
        ("RESERVED"@, 0x8u64),
        ("INSTRUCTION_FETCH"@, 0x10u64),
        ("PROTECTION"@, 0x20u64),
        ("SHADOW_STACK"@, 0x40u64),
        ("HLAT"@, 0x80u64),
        ("SGX"@, 0x8000u64),
    ]
}

impl PageFaultErrorCode {
    /// Page fault error code flags
    pub fn flag_table() -> (table: Vec<(&'static str, u64)>)
        ensures
            table_view(table@) == page_fault_table(),
    {
        let table = vec![
            ("PRESENT", 0x1u64),
            ("WRITE", 0x2u64),
            ("USER_MODE", 0x4u64),
            ("RESERVED", 0x8u64),
            ("INSTRUCTION_FETCH", 0x10u64),
            ("PROTECTION", 0x20u64),
            ("SHADOW_STACK", 0x40u64),
            ("HLAT", 0x80u64),
            ("SGX", 0x8000u64),
        ];
        table
    }

    /// The names of the flags that are set, in the order of the manual
    pub fn flag_names(&self) -> (names: Vec<&'static str>)
        ensures
            names@.map_values(|name: &'static str| name@) == flag_names_spec(self.flags, page_fault_table()),
    {
        flag_names(self.flags, &Self::flag_table())
    }
}

} // verus!
