use vstd::prelude::*;
use vstd::string::StringSliceAdditionalSpecFns;

verus! {

/// Number of slots in the process table.
pub const MAX_PROCESSES: usize = 50;

/// Number of CPU cores the kernel manages.
pub const MAX_CPUS: usize = 1;

/// Length of the fixed name buffer of a process.
pub const NAME_LEN: usize = 32;

/// Per-core bookkeeping.
pub struct Cpu {
    pub cid: usize,
    /// Id of the process running on this core, if any.
    pub current_pid: Option<u64>,
    /// Depth of nested spinlocks held on this core.
    pub ncli: usize,
    /// Whether interrupts were enabled before the outermost lock was taken.
    pub interrupts_enabled: bool,
}

impl Cpu {
    /// The reset state of core `cid`: no process, no lock held.
    pub fn new(cid: usize) -> (r: Cpu)
        ensures
            r.cid == cid,
            r.current_pid is None,
            r.ncli == 0,
            !r.interrupts_enabled,
    {
        Cpu { cid, current_pid: None, ncli: 0, interrupts_enabled: false }
    }

    /// Index of the core executing this code. Only core 0 is brought up.
    pub fn current() -> (r: usize)
        ensures
            r == 0,
            r < MAX_CPUS,
    {
        0
    }

    pub fn set_current_process(&mut self, pid: u64)
        ensures
            *final(self) == (Cpu { current_pid: Some(pid), ..*old(self) }),
    {
        self.current_pid = Some(pid);
    }

    pub fn clear_current_process(&mut self)
        ensures
            *final(self) == (Cpu { current_pid: None, ..*old(self) }),
    {
        self.current_pid = None;
    }
}

/// Index of the core executing this code.
pub fn mycpu() -> (r: usize)
    ensures
        r == 0,
        r < MAX_CPUS,
{
    Cpu::current()
}

#[derive(Clone, Copy, Debug, PartialEq, Eq, Structural)]
pub enum ProcessState {
    Ready,
    Running,
    Blocked,
    Terminated,
}

/// Saved user registers of a process.
#[derive(Clone, Copy, Debug)]
pub struct ProcessContext {
    pub x: [u64; 31],
    pub sp: u64,
    /// Address to return to when the process is resumed.
    pub elr: u64,
    pub spsr: u64,
}

impl ProcessContext {
    /// A fresh context: all general registers zero, entering at `entry_point`
    /// with stack pointer `sp`.
    pub fn new(entry_point: u64, sp: u64) -> (r: ProcessContext)
        ensures
            r.elr == entry_point,
            r.sp == sp,
            r.spsr == 0,
            forall|i: int| 0 <= i < 31 ==> #[trigger] r.x[i] == 0,
    {
        ProcessContext { x: [0u64; 31], sp, elr: entry_point, spsr: 0 }
    }
}

/// The name buffer of a process called `name`: its bytes, cut to
/// `NAME_LEN`, padded with zeros.
pub open spec fn name_buffer(name: Seq<u8>) -> Seq<u8> {
    Seq::new(NAME_LEN as nat, |i: int| if i < name.len() { name[i] } else { 0u8 })
}

#[derive(Clone, Copy, Debug)]
pub struct Process {
    pub pid: u64,
    pub name: [u8; 32],
    pub state: ProcessState,
    pub parent_pid: u64,
    pub pctx: ProcessContext,
    /// Channel the process sleeps on while blocked; 0 when none.
    pub chan: u64,
}

impl Process {
    /// A ready process with id `pid`, called `name`, that starts at
    /// `entry_point` with stack pointer `sp`.
    pub fn new(pid: u64, name: &str, parent_pid: u64, entry_point: u64, sp: u64) -> (r: Process)
        ensures
            r.pid == pid,
            r.name@ == name_buffer(name.spec_bytes()),
            r.state == ProcessState::Ready,
            r.parent_pid == parent_pid,
            r.pctx.elr == entry_point,
            r.pctx.sp == sp,
            r.pctx.spsr == 0,
            forall|i: int| 0 <= i < 31 ==> #[trigger] r.pctx.x[i] == 0,
            r.chan == 0,
    {
        let bytes = name.as_bytes();
        let mut name_bytes = [0u8; 32];
        let len: usize = if bytes.len() < NAME_LEN { bytes.len() } else { NAME_LEN };
        let mut i: usize = 0;
        while i < NAME_LEN
            invariant
                i <= NAME_LEN,
                len <= NAME_LEN,
                len <= bytes@.len(),
                len == bytes@.len() || len == NAME_LEN,
                bytes@ == name.spec_bytes(),
                forall|j: int| 0 <= j < i ==> #[trigger] name_bytes[j] == name_buffer(bytes@)[j],
                forall|j: int| i <= j < NAME_LEN ==> #[trigger] name_bytes[j] == 0,
            decreases NAME_LEN - i,
        {
            if i < len {
                name_bytes[i] = bytes[i];
            }
            i = i + 1;
        }
        assert(name_bytes@ =~= name_buffer(name.spec_bytes()));
        Process {
            pid,
            name: name_bytes,
            state: ProcessState::Ready,
            parent_pid,
            pctx: ProcessContext::new(entry_point, sp),
            chan: 0,
        }
    }

    pub fn set_state(&mut self, new_state: ProcessState)
        ensures
            *final(self) == (Process { state: new_state, ..*old(self) }),
    {
        self.state = new_state;
    }

    pub fn set_pctx(&mut self, new_ctx: ProcessContext)
        ensures
            *final(self) == (Process { pctx: new_ctx, ..*old(self) }),
    {
        self.pctx = new_ctx;
    }

    /// The first slot that holds a process with id `pid`.
    pub fn find_by_id(table: &ProcessTable, pid: u64) -> (r: Option<usize>)
        requires
            table.wf(),
        ensures
            match r {
                Some(i) => {
                    &&& i < MAX_PROCESSES
                    &&& slot_has_pid(table@.slots, i as int, pid)
                    &&& forall|j: int| 0 <= j < i ==> !#[trigger] slot_has_pid(table@.slots, j, pid)
                },
                None => forall|j: int| 0 <= j < MAX_PROCESSES ==> !#[trigger] slot_has_pid(table@.slots, j, pid),
            },
    {
        let mut i: usize = 0;
        while i < MAX_PROCESSES
            invariant
                table.wf(),
                i <= MAX_PROCESSES,
                forall|j: int| 0 <= j < i ==> !#[trigger] slot_has_pid(table@.slots, j, pid),
            decreases MAX_PROCESSES - i,
        {
            match table.slots[i] {
                Some(p) => {
                    if p.pid == pid {
                        return Some(i);
                    }
                },
                None => {},
            }
            i = i + 1;
        }
        None
    }

    /// The slot of the process that `cpu` records as running, if any.
    pub fn get_current(table: &ProcessTable, cpu: &Cpu) -> (r: Option<usize>)
        requires
            table.wf(),
        ensures
            match cpu.current_pid {
                None => r is None,
                Some(pid) => match r {
                    Some(i) => {
                        &&& i < MAX_PROCESSES
                        &&& slot_has_pid(table@.slots, i as int, pid)
                        &&& forall|j: int| 0 <= j < i ==> !#[trigger] slot_has_pid(table@.slots, j, pid)
                    },
                    None => forall|j: int|
                        0 <= j < MAX_PROCESSES ==> !#[trigger] slot_has_pid(table@.slots, j, pid),
                },
            },
    {
        match cpu.current_pid {
            None => None,
            Some(pid) => Process::find_by_id(table, pid),
        }
    }
}


/// Slot `i` of `slots` holds a process with id `pid`.
pub open spec fn slot_has_pid(slots: Seq<Option<Process>>, i: int, pid: u64) -> bool {
    slots[i] matches Some(p) && p.pid == pid
}

/// Every slot of `slots` is occupied.
pub open spec fn table_full(slots: Seq<Option<Process>>) -> bool {
    forall|i: int| 0 <= i < slots.len() ==> #[trigger] slots[i] is Some
}

/// The top of the stack of a process whose image of `image_len` bytes is
/// loaded at `process_addr`: 16 KiB above the image's end, rounded down to
/// a multiple of 16.
pub open spec fn stack_top_spec(process_addr: u64, image_len: u64) -> int {
    let end = process_addr + image_len + 0x4000;
    end - end % 16
}

/// The fixed-size table of processes, with the counter that hands out
/// process ids.
pub struct ProcessTable {
    slots: Vec<Option<Process>>,
    next_pid: u64,
}

/// What a process table holds: its slots, and the id the next loaded
/// process will get.
pub ghost struct TableView {
    pub slots: Seq<Option<Process>>,
    pub next_pid: u64,
}

impl View for ProcessTable {
    type V = TableView;

    closed spec fn view(&self) -> TableView {
        TableView { slots: self.slots@, next_pid: self.next_pid }
    }
}

impl ProcessTable {
    /// The table has exactly `MAX_PROCESSES` slots.
    pub open spec fn wf(&self) -> bool {
        self@.slots.len() == MAX_PROCESSES
    }

    /// The id the next loaded process will get.
    pub open spec fn spec_next_pid(&self) -> u64 {
        self@.next_pid
    }

    /// An empty table; ids start at 1 (0 stands for the kernel).
    pub fn new() -> (r: ProcessTable)
        ensures
            r.wf(),
            r@.slots == Seq::new(MAX_PROCESSES as nat, |i: int| None::<Process>),
            r.spec_next_pid() == 1,
    {
        let mut slots: Vec<Option<Process>> = Vec::new();
        let mut i: usize = 0;
        while i < MAX_PROCESSES
            invariant
                i <= MAX_PROCESSES,
                slots@ == Seq::new(i as nat, |j: int| None::<Process>),
            decreases MAX_PROCESSES - i,
        {
            slots.push(None);
            i = i + 1;
        }
        ProcessTable { slots, next_pid: 1 }
    }

    pub fn next_pid(&self) -> (r: u64)
        ensures
            r == self.spec_next_pid(),
    {
        self.next_pid
    }

    /// Hands out the next process id.
    pub fn allocate_pid(&mut self) -> (pid: u64)
        requires
            old(self).spec_next_pid() < u64::MAX,
        ensures
            pid == old(self).spec_next_pid(),
            final(self).spec_next_pid() == old(self).spec_next_pid() + 1,
            final(self)@.slots == old(self)@.slots,
            final(self).wf() == old(self).wf(),
    {
        let pid = self.next_pid;
        self.next_pid = self.next_pid + 1;
        pid
    }

    /// The content of slot `idx`.
    pub fn get(&self, idx: usize) -> (r: Option<Process>)
        requires
            self.wf(),
            idx < MAX_PROCESSES,
        ensures
            r == self@.slots[idx as int],
    {
        self.slots[idx]
    }

    /// Whether every slot is occupied.
    pub fn is_full(&self) -> (r: bool)
        requires
            self.wf(),
        ensures
            r == table_full(self@.slots),
    {
        let mut i: usize = 0;
        while i < MAX_PROCESSES
            invariant
                self.wf(),
                i <= MAX_PROCESSES,
                forall|j: int| 0 <= j < i ==> #[trigger] self@.slots[j] is Some,
            decreases MAX_PROCESSES - i,
        {
            if self.slots[i].is_none() {
                return false;
            }
            i = i + 1;
        }
        true
    }

    /// Sets the state of the process in slot `idx`.
    pub fn set_state(&mut self, idx: usize, state: ProcessState)
        requires
            old(self).wf(),
            idx < MAX_PROCESSES,
            old(self)@.slots[idx as int] is Some,
        ensures
            final(self).wf(),
            final(self).spec_next_pid() == old(self).spec_next_pid(),
            final(self)@.slots == old(self)@.slots.update(
                idx as int,
                Some(Process { state, ..old(self)@.slots[idx as int].unwrap() }),
            ),
    {
        let mut p = self.slots[idx].unwrap();
        p.set_state(state);
        self.slots.set(idx, Some(p));
    }

    /// Replaces the saved context of the process in slot `idx`.
    pub fn set_pctx(&mut self, idx: usize, pctx: ProcessContext)
        requires
            old(self).wf(),
            idx < MAX_PROCESSES,
            old(self)@.slots[idx as int] is Some,
        ensures
            final(self).wf(),
            final(self).spec_next_pid() == old(self).spec_next_pid(),
            final(self)@.slots == old(self)@.slots.update(
                idx as int,
                Some(Process { pctx, ..old(self)@.slots[idx as int].unwrap() }),
            ),
    {
        let mut p = self.slots[idx].unwrap();
        p.set_pctx(pctx);
        self.slots.set(idx, Some(p));
    }

    /// Replaces the whole content of the occupied slot `idx`.
    pub fn replace(&mut self, idx: usize, process: Process)
        requires
            old(self).wf(),
            idx < MAX_PROCESSES,
        ensures
            final(self).wf(),
            final(self).spec_next_pid() == old(self).spec_next_pid(),
            final(self)@.slots == old(self)@.slots.update(idx as int, Some(process)),
    {
        self.slots.set(idx, Some(process));
    }

    /// Puts `process` into the first free slot and returns that slot, or
    /// fails when every slot is occupied.
    pub fn add_process_to_ptable(&mut self, process: Process) -> (r: Result<usize, &'static str>)
        requires
            old(self).wf(),
        ensures
            final(self).wf(),
            final(self).spec_next_pid() == old(self).spec_next_pid(),
            match r {
                Ok(i) => {
                    &&& i < MAX_PROCESSES
                    &&& old(self)@.slots[i as int] is None
                    &&& forall|j: int| 0 <= j < i ==> #[trigger] old(self)@.slots[j] is Some
                    &&& final(self)@.slots == old(self)@.slots.update(i as int, Some(process))
                },
                Err(msg) => {
                    &&& table_full(old(self)@.slots)
                    &&& final(self)@.slots == old(self)@.slots
                    &&& msg@ == "Process table is full"@
                },
            },
    {
        let mut i: usize = 0;
        while i < MAX_PROCESSES
            invariant
                self.wf(),
                self.next_pid == old(self).next_pid,
                self@.slots == old(self)@.slots,
                i <= MAX_PROCESSES,
                forall|j: int| 0 <= j < i ==> #[trigger] self@.slots[j] is Some,
            decreases MAX_PROCESSES - i,
        {
            if self.slots[i].is_none() {
                self.slots.set(i, Some(process));
                return Ok(i);
            }
            i = i + 1;
        }
        Err("Process table is full")
    }

}

/// The stack top for a process image of `image_len` bytes loaded at
/// `process_addr` (see `stack_top_spec`).
pub fn process_stack_top(process_addr: u64, image_len: u64) -> (r: u64)
    requires
        process_addr + image_len + 0x4000 <= u64::MAX,
    ensures
        r == stack_top_spec(process_addr, image_len),
{
    let end: u64 = process_addr + image_len + 0x4000;
    let r: u64 = end & !0xfu64;
    assert(end & !0xfu64 == end - end % 16) by (bit_vector);
    r
}

/// Records a process loaded from an image of `image_len` bytes at
/// `process_addr`: it gets the next id, the stack above its image, and
/// the first free slot. Returns the new process's id.
pub fn load_process(
    table: &mut ProcessTable,
    process_name: &str,
    parent_pid: u64,
    image_len: u64,
    process_addr: u64,
    entry_point: u64,
) -> (pid: u64)
    requires
        old(table).wf(),
        !table_full(old(table)@.slots),
        old(table).spec_next_pid() < u64::MAX,
        process_addr + image_len + 0x4000 <= u64::MAX,
    ensures
        final(table).wf(),
        pid == old(table).spec_next_pid(),
        final(table).spec_next_pid() == old(table).spec_next_pid() + 1,
        exists|i: int|
            {
                &&& 0 <= i < MAX_PROCESSES
                &&& #[trigger] old(table)@.slots[i] is None
                &&& forall|j: int| 0 <= j < i ==> #[trigger] old(table)@.slots[j] is Some
                &&& final(table)@.slots == old(table)@.slots.update(i, final(table)@.slots[i])
                &&& final(table)@.slots[i] matches Some(p) && {
                    &&& p.pid == pid
                    &&& p.name@ == name_buffer(process_name.spec_bytes())
                    &&& p.state == ProcessState::Ready
                    &&& p.parent_pid == parent_pid
                    &&& p.pctx.elr == entry_point
                    &&& p.pctx.sp == stack_top_spec(process_addr, image_len)
                    &&& p.pctx.spsr == 0
                    &&& p.chan == 0
                    &&& forall|k: int| 0 <= k < 31 ==> #[trigger] p.pctx.x[k] == 0
                }
            },
{
    let stack_top = process_stack_top(process_addr, image_len);
    let pid = table.allocate_pid();
    let process = Process::new(pid, process_name, parent_pid, entry_point, stack_top);
    let r = table.add_process_to_ptable(process);
    match r {
        Ok(i) => {
            assert(final(table)@.slots[i as int] == Some(process));
            pid
        },
        Err(_) => {
            pid
        },
    }
}


/// The stack top is 16-byte aligned and lies within 16 bytes below the
/// point 16 KiB past the end of the image.
pub proof fn lemma_stack_top_aligned(process_addr: u64, image_len: u64)
    ensures
        stack_top_spec(process_addr, image_len) % 16 == 0,
        process_addr + image_len + 0x4000 - 16 < stack_top_spec(process_addr, image_len),
        stack_top_spec(process_addr, image_len) <= process_addr + image_len + 0x4000,
{
}

} // verus!
