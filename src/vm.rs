//! The script interpreter and the cooperative thread scheduler.
use vstd::prelude::*;

use crate::memory::{byte_at, word_at, Buffer, Resource};
use crate::video::{drawn, hierarchy_drawn, Point, Video, VideoError, Palette, PALETTE_BYTES};

verus! {

pub const NUM_VARIABLES: usize = 256;
pub const NUM_THREADS: usize = 64;
pub const STACK_SIZE: usize = 255;
/// A staged redirect that deactivates its thread.
pub const SET_INACTIVE_THREAD: usize = 0xfffe;
/// The program counter of a thread that does not run.
pub const INACTIVE_THREAD: usize = 0xffff;
pub const COLOR_BLACK: u8 = 0xff;
pub const DEFAULT_ZOOM: u16 = 0x40;
/// The lowest resource id that names a game part rather than a resource.
pub const GAME_PART_FIRST: u16 = 0x3e80;
pub const NUM_PALETTES: u8 = 32;

pub const VM_VARIABLE_RANDOM_SEED: usize = 0x3c;
pub const VM_VARIABLE_SCROLL_Y: usize = 0xf9;
pub const VM_VARIABLE_PAUSE_SLICES: usize = 0xff;
/// Milliseconds in one pacing slice.
pub const SLICE_MS: u64 = 20;

/// One script thread: where it stands, the redirect staged for it, and
/// whether it is held paused this frame and the next (a thread that is not
/// paused runs when its program counter is active).
#[derive(Clone, Copy, Debug, PartialEq, Eq)]
pub struct Thread {
    pub pc: usize,
    pub requested_pc_offset: Option<usize>,
    pub paused_current: bool,
    pub paused_requested: bool,
}

impl Thread {
    /// An inactive thread with nothing staged.
    pub fn new() -> (r: Thread)
        ensures
            r.pc == INACTIVE_THREAD,
            r.requested_pc_offset is None,
            !r.paused_current,
            !r.paused_requested,
    {
        Thread {
            pc: INACTIVE_THREAD,
            requested_pc_offset: None,
            paused_current: false,
            paused_requested: false,
        }
    }
}

/// The segment that sprite polygons are read from.
#[derive(Clone, Copy, Debug, PartialEq, Eq)]
pub enum VideoBufferSeg {
    Cinematic,
    Video2,
}

/// Work that only the host can do, asked for in the middle of a slice. The
/// slice goes on when the host calls `host_frame` again.
#[derive(Clone, Copy, Debug, PartialEq, Eq)]
pub enum HostRequest {
    /// Pace the frame, apply a requested palette, show the page.
    Present(u8),
    /// Load a resource entry into the arena.
    LoadEntry(u16),
    /// Free the transient resources.
    InvalidateResources,
}

/// How a call of `host_frame` ended.
#[derive(Clone, Copy, Debug, PartialEq, Eq)]
pub enum FrameEvent {
    /// Every thread has had its slice.
    Finished,
    /// The current slice waits for the host.
    Request(HostRequest),
    /// The step budget ran out; call again to go on.
    OutOfSteps,
}

/// Fatal conditions: the bytecode or the data is corrupt.
#[derive(Clone, Copy, Debug, PartialEq, Eq)]
pub enum VmError {
    StackOverflow,
    StackUnderflow,
    UnknownOpcode { offset: usize, opcode: u8 },
    ScriptOutOfRange { offset: usize },
    PaletteOutOfRange { palette_id: u8 },
    BadThreadId { thread_id: u8 },
    Video(VideoError),
}

pub struct VirtualMachine {
    pub variables: Vec<i16>,
    pub threads: Vec<Thread>,
    pub resource: Resource,
    pub video: Video,
    pub requested_next_part: Option<u16>,
    /// The cursor, as an offset into the bytecode segment.
    pub script_ptr: usize,
    pub stack_ptr: usize,
    pub goto_next_thread: bool,
    pub video_buffer_seg: VideoBufferSeg,
    pub script_stack_calls: Vec<usize>,
    /// The next thread the frame will look at.
    pub frame_thread: usize,
    /// Whether thread `frame_thread` is in the middle of its slice.
    pub in_slice: bool,
}

/// Relies on rand::random: an arbitrary 16-bit value to seed the script's randomness.
#[verifier::external_body]
fn random_seed() -> (r: i16) {
    rand::random::<i16>()
}

/// The result of a comparison selected by the low three bits of a condition
/// byte: equal, not equal, greater, greater or equal, less, less or equal;
/// anything else is false.
pub open spec fn compare(cond: u8, b: i16, a: i16) -> bool {
    let c = cond % 8;
    if c == 0 {
        b == a
    } else if c == 1 {
        b != a
    } else if c == 2 {
        b > a
    } else if c == 3 {
        b >= a
    } else if c == 4 {
        b < a
    } else if c == 5 {
        b <= a
    } else {
        false
    }
}

/// The program counter that a staged redirect leaves: none keeps `pc`, the
/// deactivation sentinel gives the inactive one, any other offset is taken.
pub open spec fn redirected(pc: usize, req: Option<usize>) -> usize {
    match req {
        None => pc,
        Some(o) => if o == SET_INACTIVE_THREAD { INACTIVE_THREAD } else { o },
    }
}

/// Milliseconds to sleep before a present: what is left of `pause_slices`
/// slices since the previous present; a clock that went back counts as no time.
pub open spec fn sleep_for(now: u64, last: u64, pause_slices: i16) -> int {
    let elapsed = if now >= last { now - last } else { 0 };
    let target = if pause_slices > 0 { pause_slices * SLICE_MS } else { 0 };
    if target > elapsed { target - elapsed } else { 0 }
}

/// The pacing delay before a present (see `sleep_for`).
pub fn frame_sleep_ms(now: u64, last: u64, pause_slices: i16) -> (r: u64)
    ensures
        r == sleep_for(now, last, pause_slices),
{
    let elapsed: u64 = if now >= last { now - last } else { 0 };
    let target: u64 = if pause_slices > 0 { pause_slices as u64 * SLICE_MS } else { 0 };
    if target > elapsed { target - elapsed } else { 0 }
}

impl VirtualMachine {
    pub open spec fn wf(&self) -> bool {
        &&& self.variables@.len() == NUM_VARIABLES
        &&& self.threads@.len() == NUM_THREADS
        &&& self.script_stack_calls@.len() == STACK_SIZE
        &&& self.stack_ptr <= STACK_SIZE
        &&& self.video.wf()
        &&& self.frame_thread <= NUM_THREADS
        &&& self.in_slice ==> self.frame_thread < NUM_THREADS
        &&& self.in_slice ==> !self.threads@[self.frame_thread as int].paused_current
            && self.threads@[self.frame_thread as int].pc != INACTIVE_THREAD
    }

    /// The bytecode byte at offset `o`.
    pub open spec fn code(&self, o: int) -> Option<u8> {
        byte_at(self.resource.memory@, self.resource.seg_bytecode + o)
    }

    /// The big-endian bytecode word at offset `o`.
    pub open spec fn code_word(&self, o: int) -> Option<u16> {
        word_at(self.resource.memory@, self.resource.seg_bytecode + o)
    }

    /// The bytecode byte at offset `o`, known to exist.
    pub open spec fn cb(&self, o: int) -> u8 {
        self.code(o)->Some_0
    }

    /// The bytecode word at offset `o`, known to exist.
    pub open spec fn cw(&self, o: int) -> u16 {
        self.code_word(o)->Some_0
    }

    /// The bytecode bytes `o .. o + n` all exist.
    pub open spec fn code_in_range(&self, o: int, n: int) -> bool {
        self.resource.seg_bytecode + o + n <= self.resource.memory@.len()
    }

    /// Only the cursor and variables may differ from `old`: threads, stack,
    /// video, resources and frame position are as they were.
    pub open spec fn same_but_cursor_vars(&self, old: &VirtualMachine) -> bool {
        &&& self.threads@ == old.threads@
        &&& self.resource == old.resource
        &&& self.video == old.video
        &&& self.requested_next_part == old.requested_next_part
        &&& self.stack_ptr == old.stack_ptr
        &&& self.script_stack_calls@ == old.script_stack_calls@
        &&& self.goto_next_thread == old.goto_next_thread
        &&& self.video_buffer_seg == old.video_buffer_seg
        &&& self.frame_thread == old.frame_thread
        &&& self.in_slice == old.in_slice
    }

    /// A machine over `resource` and `video`, seeded with a random value
    /// (see `with_seed`).
    pub fn new(resource: Resource, video: Video) -> (r: VirtualMachine)
        requires
            video.wf(),
        ensures
            r.wf(),
            r.resource == resource,
            r.video == video,
            r.script_ptr == 0,
            r.stack_ptr == 0,
    {
        Self::with_seed(resource, video, random_seed())
    }

    /// A machine over `resource` and `video`: all variables 0 but 0x54 = 0x81
    /// and the random-seed variable = `seed`; every thread inactive.
    pub fn with_seed(resource: Resource, video: Video, seed: i16) -> (r: VirtualMachine)
        requires
            video.wf(),
        ensures
            r.wf(),
            r.resource == resource,
            r.video == video,
            forall|v: int| 0 <= v < NUM_VARIABLES && v != 0x54 && v != VM_VARIABLE_RANDOM_SEED ==>
                r.variables@[v] == 0,
            r.variables@[0x54] == 0x81,
            r.variables@[VM_VARIABLE_RANDOM_SEED as int] == seed,
            r.variables@.len() == NUM_VARIABLES,
            r.script_ptr == 0,
            r.goto_next_thread == false,
            r.video_buffer_seg == VideoBufferSeg::Cinematic,
            forall|t: int| 0 <= t < NUM_THREADS ==> #[trigger] r.threads@[t] == (Thread {
                pc: INACTIVE_THREAD,
                requested_pc_offset: None,
                paused_current: false,
                paused_requested: false,
            }),
            r.requested_next_part is None,
            r.stack_ptr == 0,
            r.frame_thread == NUM_THREADS,
            !r.in_slice,
    {
        let mut variables: Vec<i16> = Vec::new();
        while variables.len() < NUM_VARIABLES
            invariant
                variables@.len() <= NUM_VARIABLES,
                forall|v: int| 0 <= v < variables@.len() ==> variables@[v] == 0,
            decreases NUM_VARIABLES - variables@.len(),
        {
            variables.push(0);
        }
        variables.set(0x54, 0x81);
        variables.set(VM_VARIABLE_RANDOM_SEED, seed);
        let mut threads: Vec<Thread> = Vec::new();
        while threads.len() < NUM_THREADS
            invariant
                threads@.len() <= NUM_THREADS,
                forall|t: int| 0 <= t < threads@.len() ==> #[trigger] threads@[t] == (Thread {
                    pc: INACTIVE_THREAD,
                    requested_pc_offset: None,
                    paused_current: false,
                    paused_requested: false,
                }),
            decreases NUM_THREADS - threads@.len(),
        {
            threads.push(Thread::new());
        }
        let mut script_stack_calls: Vec<usize> = Vec::new();
        while script_stack_calls.len() < STACK_SIZE
            invariant
                script_stack_calls@.len() <= STACK_SIZE,
            decreases STACK_SIZE - script_stack_calls@.len(),
        {
            script_stack_calls.push(0);
        }
        VirtualMachine {
            variables,
            threads,
            resource,
            video,
            requested_next_part: None,
            script_ptr: 0,
            stack_ptr: 0,
            goto_next_thread: false,
            video_buffer_seg: VideoBufferSeg::Cinematic,
            script_stack_calls,
            frame_thread: NUM_THREADS,
            in_slice: false,
        }
    }

    /// Resets the machine for a new part: variable 0xE4 becomes 0x14, every
    /// thread inactive with nothing staged and neither paused flag set, then
    /// thread 0 is activated at offset 0. The host maps the
    /// part's segments.
    pub fn init_for_part(&mut self, part_id: u16)
        requires
            old(self).wf(),
        ensures
            final(self).wf(),
            final(self).variables@ == old(self).variables@.update(0xe4, 0x14),
            final(self).threads@[0] == (Thread {
                pc: 0,
                requested_pc_offset: None,
                paused_current: false,
                paused_requested: false,
            }),
            forall|t: int| 1 <= t < NUM_THREADS ==> #[trigger] final(self).threads@[t] == (Thread {
                pc: INACTIVE_THREAD,
                requested_pc_offset: None,
                paused_current: false,
                paused_requested: false,
            }),
            final(self).resource == old(self).resource,
            final(self).video == old(self).video,
            final(self).requested_next_part == old(self).requested_next_part,
            final(self).frame_thread == NUM_THREADS,
            !final(self).in_slice,
    {
        self.variables.set(0xe4, 0x14);
        let mut threads: Vec<Thread> = Vec::new();
        std::mem::swap(&mut threads, &mut self.threads);
        let mut t: usize = 0;
        while t < NUM_THREADS
            invariant
                threads@.len() == NUM_THREADS,
                t <= NUM_THREADS,
                forall|u: int| 0 <= u < t ==> #[trigger] threads@[u] == (Thread {
                    pc: INACTIVE_THREAD,
                    requested_pc_offset: None,
                    paused_current: false,
                    paused_requested: false,
                }),
            decreases NUM_THREADS - t,
        {
            threads.set(t, Thread::new());
            t = t + 1;
        }
        std::mem::swap(&mut threads, &mut self.threads);
        self.threads.set(
            0,
            Thread { pc: 0, requested_pc_offset: None, paused_current: false, paused_requested: false },
        );
        self.frame_thread = NUM_THREADS;
        self.in_slice = false;
    }

    /// Starts a frame: a requested part switch is made first (its id is
    /// returned, for the host to map the part's segments), then every thread
    /// takes its requested paused flag as current and its staged redirect as
    /// its program counter, and the redirect is cleared.
    pub fn check_thread_requests(&mut self) -> (r: Option<u16>)
        requires
            old(self).wf(),
        ensures
            final(self).wf(),
            r == old(self).requested_next_part,
            final(self).requested_next_part is None,
            final(self).frame_thread == 0,
            !final(self).in_slice,
            final(self).resource == old(self).resource,
            final(self).video == old(self).video,
            r is None ==> final(self).variables@ == old(self).variables@,
            r is Some ==> final(self).variables@ == old(self).variables@.update(0xe4, 0x14),
            forall|t: int| 0 <= t < NUM_THREADS && r is None ==> #[trigger] final(self).threads@[t] == (Thread {
                pc: redirected(old(self).threads@[t].pc, old(self).threads@[t].requested_pc_offset),
                requested_pc_offset: None,
                paused_current: old(self).threads@[t].paused_requested,
                paused_requested: old(self).threads@[t].paused_requested,
            }),
            r is Some ==> final(self).threads@[0] == (Thread {
                pc: 0,
                requested_pc_offset: None,
                paused_current: false,
                paused_requested: false,
            }),
            forall|t: int| 1 <= t < NUM_THREADS && r is Some ==> #[trigger] final(self).threads@[t] == (Thread {
                pc: INACTIVE_THREAD,
                requested_pc_offset: None,
                paused_current: false,
                paused_requested: false,
            }),
    {
        let r = self.requested_next_part;
        if let Some(part) = r {
            self.init_for_part(part);
            self.requested_next_part = None;
        }
        let ghost mid = self.threads@;
        let mut threads: Vec<Thread> = Vec::new();
        std::mem::swap(&mut threads, &mut self.threads);
        let mut t: usize = 0;
        while t < NUM_THREADS
            invariant
                threads@.len() == NUM_THREADS,
                mid.len() == NUM_THREADS,
                t <= NUM_THREADS,
                forall|u: int| 0 <= u < t ==> #[trigger] threads@[u] == (Thread {
                    pc: redirected(mid[u].pc, mid[u].requested_pc_offset),
                    requested_pc_offset: None,
                    paused_current: mid[u].paused_requested,
                    paused_requested: mid[u].paused_requested,
                }),
                forall|u: int| t <= u < NUM_THREADS ==> #[trigger] threads@[u] == mid[u],
            decreases NUM_THREADS - t,
        {
            let mut th = threads[t];
            th.paused_current = th.paused_requested;
            if let Some(offset) = th.requested_pc_offset {
                th.pc = if offset == SET_INACTIVE_THREAD { INACTIVE_THREAD } else { offset };
                th.requested_pc_offset = None;
            }
            threads.set(t, th);
            t = t + 1;
        }
        std::mem::swap(&mut threads, &mut self.threads);
        self.frame_thread = 0;
        self.in_slice = false;
        r
    }
}

/// `th` with offset `o` staged.
pub open spec fn with_request(th: Thread, o: usize) -> Thread {
    Thread { requested_pc_offset: Some(o), ..th }
}

/// What every instruction keeps: the machine is well formed, threads keep
/// their program counters and paused flags, and the resources and the
/// frame position are the same.
pub open spec fn kept_schedule(new: &VirtualMachine, old: &VirtualMachine) -> bool {
    &&& new.wf()
    &&& new.resource == old.resource
    &&& new.frame_thread == old.frame_thread
    &&& new.in_slice == old.in_slice
    &&& forall|t: int| 0 <= t < NUM_THREADS ==> {
        &&& (#[trigger] new.threads@[t]).pc == old.threads@[t].pc
        &&& new.threads@[t].paused_current == old.threads@[t].paused_current
        &&& new.threads@[t].paused_requested == old.threads@[t].paused_requested
        &&& old.threads@[t].requested_pc_offset is Some ==> new.threads@[t].requested_pc_offset is Some
    }
}

/// `kept_schedule`, with the call stack as it was, and the slice goes on.
pub open spec fn kept_slice(new: &VirtualMachine, old: &VirtualMachine) -> bool {
    &&& kept_schedule(new, old)
    &&& new.goto_next_thread == old.goto_next_thread
    &&& new.stack_ptr == old.stack_ptr
    &&& new.script_stack_calls@ == old.script_stack_calls@
    &&& new.requested_next_part == old.requested_next_part
    &&& new.video_buffer_seg == old.video_buffer_seg
}

/// What `op_mov_const` guarantees, from the state just past its opcode byte.
pub open spec fn mov_const_post(old: &VirtualMachine, new: &VirtualMachine, r: Result<(), VmError>) -> bool {
    &&& new.wf()
    &&& (new.same_but_cursor_vars(old))
    &&& (r is Ok <==> old.code_in_range(old.script_ptr as int, 3))
    &&& (r is Ok ==> {
        let p = old.script_ptr as int;
        &&& new.same_but_cursor_vars(old)
        &&& new.script_ptr == p + 3
        &&& new.variables@ == old.variables@.update(
            old.cb(p) as int,
            old.cw(p + 1) as i16,
        )
    })
}

/// What `op_mov` guarantees, from the state just past its opcode byte.
pub open spec fn mov_post(old: &VirtualMachine, new: &VirtualMachine, r: Result<(), VmError>) -> bool {
    &&& new.wf()
    &&& (new.same_but_cursor_vars(old))
    &&& (r is Ok <==> old.code_in_range(old.script_ptr as int, 2))
    &&& (r is Ok ==> {
        let p = old.script_ptr as int;
        &&& new.same_but_cursor_vars(old)
        &&& new.script_ptr == p + 2
        &&& new.variables@ == old.variables@.update(
            old.cb(p) as int,
            old.variables@[old.cb(p + 1) as int],
        )
    })
}

/// What `op_add_const` guarantees, from the state just past its opcode byte.
pub open spec fn add_const_post(old: &VirtualMachine, new: &VirtualMachine, r: Result<(), VmError>) -> bool {
    &&& new.wf()
    &&& (new.same_but_cursor_vars(old))
    &&& (r is Ok <==> old.code_in_range(old.script_ptr as int, 3))
    &&& (r is Ok ==> {
        let p = old.script_ptr as int;
        let v = old.cb(p) as int;
        &&& new.same_but_cursor_vars(old)
        &&& new.script_ptr == p + 3
        &&& new.variables@ == old.variables@.update(
            v,
            old.variables@[v].wrapping_add(old.cw(p + 1) as i16),
        )
    })
}

/// What `op_or` guarantees, from the state just past its opcode byte.
pub open spec fn or_post(old: &VirtualMachine, new: &VirtualMachine, r: Result<(), VmError>) -> bool {
    &&& new.wf()
    &&& (new.same_but_cursor_vars(old))
    &&& (r is Ok <==> old.code_in_range(old.script_ptr as int, 3))
    &&& (r is Ok ==> {
        let p = old.script_ptr as int;
        let v = old.cb(p) as int;
        &&& new.same_but_cursor_vars(old)
        &&& new.script_ptr == p + 3
        &&& new.variables@ == old.variables@.update(
            v,
            (old.variables@[v] as u16 | old.cw(p + 1)) as i16,
        )
    })
}

/// What `op_call` guarantees, from the state just past its opcode byte.
pub open spec fn call_post(old: &VirtualMachine, new: &VirtualMachine, r: Result<(), VmError>) -> bool {
    &&& new.wf()
    &&& (r is Err ==> new.same_but_cursor_vars(old))
    &&& (!old.code_in_range(old.script_ptr as int, 2) <==> r is Err && r != Err::<(), VmError>(VmError::StackOverflow))
    &&& (old.code_in_range(old.script_ptr as int, 2) ==> (
        r == Err::<(), VmError>(VmError::StackOverflow) <==> old.stack_ptr == STACK_SIZE))
    &&& (r is Ok ==> {
        let p = old.script_ptr as int;
        &&& new.threads@ == old.threads@
        &&& new.variables@ == old.variables@
        &&& new.video == old.video
        &&& new.resource == old.resource
        &&& new.goto_next_thread == old.goto_next_thread
        &&& new.frame_thread == old.frame_thread
        &&& new.in_slice == old.in_slice
        &&& new.requested_next_part == old.requested_next_part
        &&& new.stack_ptr == old.stack_ptr + 1
        &&& new.script_stack_calls@ == old.script_stack_calls@.update(
            old.stack_ptr as int,
            (p + 2) as usize,
        )
        &&& new.script_ptr == old.cw(p)
    })
}

/// What `op_ret` guarantees, from the state just past its opcode byte.
pub open spec fn ret_post(old: &VirtualMachine, new: &VirtualMachine, r: Result<(), VmError>) -> bool {
    &&& new.wf()
    &&& (r is Err ==> new.same_but_cursor_vars(old))
    &&& (r == Err::<(), VmError>(VmError::StackUnderflow) <==> old.stack_ptr == 0)
    &&& (r is Err ==> r == Err::<(), VmError>(VmError::StackUnderflow))
    &&& (r is Ok ==> {
        &&& new.threads@ == old.threads@
        &&& new.variables@ == old.variables@
        &&& new.video == old.video
        &&& new.resource == old.resource
        &&& new.goto_next_thread == old.goto_next_thread
        &&& new.frame_thread == old.frame_thread
        &&& new.in_slice == old.in_slice
        &&& new.requested_next_part == old.requested_next_part
        &&& new.script_stack_calls@ == old.script_stack_calls@
        &&& new.stack_ptr == old.stack_ptr - 1
        &&& new.script_ptr == old.script_stack_calls@[old.stack_ptr - 1]
    })
}

/// What `op_jmp` guarantees, from the state just past its opcode byte.
pub open spec fn jmp_post(old: &VirtualMachine, new: &VirtualMachine, r: Result<(), VmError>) -> bool {
    &&& new.wf()
    &&& (new.same_but_cursor_vars(old))
    &&& (new.variables@ == old.variables@)
    &&& (r is Ok <==> old.code_in_range(old.script_ptr as int, 2))
    &&& (r is Ok ==> new.same_but_cursor_vars(old)
        && new.variables@ == old.variables@
        && new.script_ptr == old.cw(old.script_ptr as int))
}

/// What `op_set_set_vect` guarantees, from the state just past its opcode byte.
pub open spec fn set_set_vect_post(old: &VirtualMachine, new: &VirtualMachine, r: Result<(), VmError>) -> bool {
    &&& new.wf()
    &&& (kept_slice(new, old))
    &&& (r is Ok <==> old.code_in_range(old.script_ptr as int, 3)
        && old.cb(old.script_ptr as int) < NUM_THREADS)
    &&& (r is Ok ==> {
        let p = old.script_ptr as int;
        let t = old.cb(p) as int;
        &&& new.script_ptr == p + 3
        &&& new.variables@ == old.variables@
        &&& new.video == old.video
        &&& new.threads@ == old.threads@.update(
            t,
            with_request(old.threads@[t], old.cw(p + 1) as usize),
        )
    })
}

/// What `op_jnz` guarantees, from the state just past its opcode byte.
pub open spec fn jnz_post(old: &VirtualMachine, new: &VirtualMachine, r: Result<(), VmError>) -> bool {
    &&& new.wf()
    &&& (new.same_but_cursor_vars(old))
    &&& (r is Ok <==> old.code_in_range(old.script_ptr as int, 3))
    &&& (r is Ok ==> {
        let p = old.script_ptr as int;
        let v = old.cb(p) as int;
        let n = old.variables@[v].wrapping_sub(1);
        &&& new.same_but_cursor_vars(old)
        &&& new.variables@ == old.variables@.update(v, n)
        &&& new.script_ptr == if n != 0 { old.cw(p + 1) as int } else { p + 3 }
    })
}

/// What `op_cond_jmp` guarantees, from the state just past its opcode byte.
pub open spec fn cond_jmp_post(old: &VirtualMachine, new: &VirtualMachine, r: Result<(), VmError>) -> bool {
    &&& new.wf()
    &&& (new.same_but_cursor_vars(old))
    &&& (new.variables@ == old.variables@)
    &&& (({
        let p = old.script_ptr as int;
        let c = old.cb(p);
        let len = cond_operand_len(c);
        &&& r is Ok <==> old.code_in_range(p, 2) && old.code_in_range(p, 2 + len + 2)
        &&& r is Ok ==> {
            let b = old.variables@[old.cb(p + 1) as int];
            let a = cond_operand(old, c, p + 2);
            &&& new.same_but_cursor_vars(old)
            &&& new.variables@ == old.variables@
            &&& new.script_ptr == if compare(c, b, a) {
                old.cw(p + 2 + len) as int
            } else {
                p + 2 + len + 2
            }
        }
    }))
}

/// What `op_set_palette` guarantees, from the state just past its opcode byte.
pub open spec fn set_palette_post(old: &VirtualMachine, new: &VirtualMachine, r: Result<(), VmError>) -> bool {
    &&& new.wf()
    &&& (kept_slice(new, old))
    &&& (({
        let p = old.script_ptr as int;
        let id = old.cw(p) / 256;
        let start = old.resource.seg_palettes + id * 32;
        let mem = old.resource.memory@;
        &&& r is Ok <==> old.code_in_range(p, 2) && (id >= NUM_PALETTES || start + 32 <= mem.len())
        &&& r is Ok ==> {
            &&& new.script_ptr == p + 2
            &&& new.variables@ == old.variables@
            &&& new.threads@ == old.threads@
            &&& new.video.pages@ == old.video.pages@
            &&& new.video.cur_page_ptr1 == old.video.cur_page_ptr1
            &&& new.video.cur_page_ptr2 == old.video.cur_page_ptr2
            &&& new.video.cur_page_ptr3 == old.video.cur_page_ptr3
            &&& new.video.text_requests@ == old.video.text_requests@
            &&& if id >= NUM_PALETTES {
                new.video.palette_requested == old.video.palette_requested
            } else {
                &&& new.video.palette_requested is Some
                &&& new.video.palette_requested->Some_0.data@ == mem.subrange(start, start + 32)
            }
        }
    }))
}

/// What `op_select_video_page` guarantees, from the state just past its opcode byte.
pub open spec fn select_video_page_post(old: &VirtualMachine, new: &VirtualMachine, r: Result<(), VmError>) -> bool {
    &&& new.wf()
    &&& (kept_slice(new, old))
    &&& (r is Ok <==> old.code_in_range(old.script_ptr as int, 1))
    &&& (r is Ok ==> {
        let p = old.script_ptr as int;
        &&& new.script_ptr == p + 1
        &&& new.variables@ == old.variables@
        &&& new.threads@ == old.threads@
        &&& new.video.cur_page_ptr1 == old.video.resolve(old.cb(p))
        &&& new.video.pages@ == old.video.pages@
    })
}

/// What `op_fill_video_page` guarantees, from the state just past its opcode byte.
pub open spec fn fill_video_page_post(old: &VirtualMachine, new: &VirtualMachine, r: Result<(), VmError>) -> bool {
    &&& new.wf()
    &&& (kept_slice(new, old))
    &&& (r is Ok <==> old.code_in_range(old.script_ptr as int, 2))
    &&& (r is Ok ==> {
        let p = old.script_ptr as int;
        let pg = old.video.resolve(old.cb(p)) as int;
        &&& new.script_ptr == p + 2
        &&& new.variables@ == old.variables@
        &&& new.threads@ == old.threads@
        &&& forall|q: int, i: int| 0 <= q < crate::video::NUM_PAGES && 0 <= i < crate::video::PAGE_SIZE ==>
            #[trigger] new.video.page(q)[i] == if q == pg {
                crate::video::packed_color(old.cb(p + 1))
            } else {
                old.video.page(q)[i]
            }
        &&& forall|q: int| 0 <= q < crate::video::NUM_PAGES && q != pg ==>
            #[trigger] new.video.pages@[q] == old.video.pages@[q]
    })
}

/// What `op_copy_video_page` guarantees, from the state just past its opcode byte.
pub open spec fn copy_video_page_post(old: &VirtualMachine, new: &VirtualMachine, r: Result<(), VmError>) -> bool {
    &&& new.wf()
    &&& (kept_slice(new, old))
    &&& (r is Ok <==> old.code_in_range(old.script_ptr as int, 2))
    &&& (r is Ok ==> {
        let p = old.script_ptr as int;
        let sp = old.video.resolve(old.cb(p)) as int;
        let dp = old.video.resolve(old.cb(p + 1)) as int;
        &&& new.script_ptr == p + 2
        &&& new.variables@ == old.variables@
        &&& new.threads@ == old.threads@
        &&& forall|q: int, i: int| 0 <= q < crate::video::NUM_PAGES && 0 <= i < crate::video::PAGE_SIZE ==>
            #[trigger] new.video.page(q)[i] == if q == dp {
                crate::video::scrolled_pixel(
                    old.video.page(sp),
                    old.video.page(dp),
                    old.variables@[VM_VARIABLE_SCROLL_Y as int] as int,
                    i,
                )
            } else {
                old.video.page(q)[i]
            }
        &&& forall|q: int| 0 <= q < crate::video::NUM_PAGES && q != dp ==>
            #[trigger] new.video.pages@[q] == old.video.pages@[q]
    })
}

/// What `op_draw_string` guarantees, from the state just past its opcode byte.
pub open spec fn draw_string_post(old: &VirtualMachine, new: &VirtualMachine, r: Result<(), VmError>) -> bool {
    &&& new.wf()
    &&& (kept_slice(new, old))
    &&& (r is Ok <==> old.code_in_range(old.script_ptr as int, 5))
    &&& (r is Ok ==> {
        let p = old.script_ptr as int;
        &&& new.script_ptr == p + 5
        &&& new.variables@ == old.variables@
        &&& new.threads@ == old.threads@
        &&& new.video.pages@ == old.video.pages@
        &&& new.video.text_requests@ == old.video.text_requests@.push(
            crate::video::TextRequest {
                string_id: old.cw(p),
                x: old.cb(p + 2) as u16,
                y: old.cb(p + 3) as u16,
                color: old.cb(p + 4) as u16,
            },
        )
    })
}

/// What `op_play_sound` guarantees, from the state just past its opcode byte.
pub open spec fn play_sound_post(old: &VirtualMachine, new: &VirtualMachine, r: Result<(), VmError>) -> bool {
    &&& new.wf()
    &&& (new.same_but_cursor_vars(old))
    &&& (r is Ok <==> old.code_in_range(old.script_ptr as int, 5))
    &&& (r is Ok ==> new.same_but_cursor_vars(old)
        && new.variables@ == old.variables@
        && new.script_ptr == old.script_ptr + 5)
}

/// What `op_play_music` guarantees, from the state just past its opcode byte.
pub open spec fn play_music_post(old: &VirtualMachine, new: &VirtualMachine, r: Result<(), VmError>) -> bool {
    &&& new.wf()
    &&& (new.same_but_cursor_vars(old))
    &&& (r is Ok <==> old.code_in_range(old.script_ptr as int, 5))
    &&& (r is Ok ==> new.same_but_cursor_vars(old)
        && new.variables@ == old.variables@
        && new.script_ptr == old.script_ptr + 5)
}

/// What `op_blit_frame_buffer` guarantees, from the state just past its opcode byte.
pub open spec fn blit_frame_buffer_post(old: &VirtualMachine, new: &VirtualMachine, r: Result<HostRequest, VmError>) -> bool {
    &&& new.wf()
    &&& (new.same_but_cursor_vars(old))
    &&& (r is Ok <==> old.code_in_range(old.script_ptr as int, 1))
    &&& (r is Ok ==> {
        let p = old.script_ptr as int;
        &&& new.same_but_cursor_vars(old)
        &&& new.script_ptr == p + 1
        &&& new.variables@ == old.variables@.update(0xf7, 0)
        &&& r == Ok::<HostRequest, VmError>(HostRequest::Present(old.cb(p)))
    })
}

/// What `op_update_memlist` guarantees, from the state just past its opcode byte.
pub open spec fn update_memlist_post(old: &VirtualMachine, new: &VirtualMachine, r: Result<Option<HostRequest>, VmError>) -> bool {
    &&& new.wf()
    &&& (r is Err ==> new.same_but_cursor_vars(old))
    &&& (r is Ok <==> old.code_in_range(old.script_ptr as int, 2))
    &&& (r is Ok ==> {
        let p = old.script_ptr as int;
        let id = old.cw(p);
        &&& new.script_ptr == p + 2
        &&& new.variables@ == old.variables@
        &&& new.threads@ == old.threads@
        &&& new.video == old.video
        &&& new.resource == old.resource
        &&& new.stack_ptr == old.stack_ptr
        &&& new.script_stack_calls@ == old.script_stack_calls@
        &&& new.goto_next_thread == old.goto_next_thread
        &&& new.frame_thread == old.frame_thread
        &&& new.in_slice == old.in_slice
        &&& if id == 0 {
            &&& r == Ok::<Option<HostRequest>, VmError>(Some(HostRequest::InvalidateResources))
            &&& new.requested_next_part == old.requested_next_part
        } else if id >= GAME_PART_FIRST {
            &&& r == Ok::<Option<HostRequest>, VmError>(None)
            &&& new.requested_next_part == Some(id)
        } else {
            &&& r == Ok::<Option<HostRequest>, VmError>(Some(HostRequest::LoadEntry(id)))
            &&& new.requested_next_part == old.requested_next_part
        }
    })
}

/// What `op_pause_thread` guarantees, from the state just past its opcode byte.
pub open spec fn pause_thread_post(old: &VirtualMachine, new: &VirtualMachine) -> bool {
    &&& new.wf()
    &&& (new.goto_next_thread)
    &&& (new.script_ptr == old.script_ptr)
    &&& (new.variables@ == old.variables@)
    &&& (new.threads@ == old.threads@)
    &&& (new.video == old.video)
    &&& (new.resource == old.resource)
    &&& (new.stack_ptr == old.stack_ptr)
    &&& (new.script_stack_calls@ == old.script_stack_calls@)
    &&& (new.frame_thread == old.frame_thread)
    &&& (new.in_slice == old.in_slice)
    &&& (new.requested_next_part == old.requested_next_part)
}

/// What `op_kill_thread` guarantees, from the state just past its opcode byte.
pub open spec fn kill_thread_post(old: &VirtualMachine, new: &VirtualMachine) -> bool {
    &&& new.wf()
    &&& (new.goto_next_thread)
    &&& (new.script_ptr == INACTIVE_THREAD)
    &&& (new.variables@ == old.variables@)
    &&& (new.threads@ == old.threads@)
    &&& (new.video == old.video)
    &&& (new.resource == old.resource)
    &&& (new.stack_ptr == old.stack_ptr)
    &&& (new.script_stack_calls@ == old.script_stack_calls@)
    &&& (new.frame_thread == old.frame_thread)
    &&& (new.in_slice == old.in_slice)
    &&& (new.requested_next_part == old.requested_next_part)
}

/// What `op_draw_poly_sprite` guarantees, from the state just past its opcode byte.
pub open spec fn draw_poly_sprite_post(old: &VirtualMachine, new: &VirtualMachine, val: u8, r: Result<(), VmError>) -> bool {
    &&& new.wf()
    &&& (kept_schedule(new, old))
    &&& (new.goto_next_thread == old.goto_next_thread)
    &&& (new.stack_ptr == old.stack_ptr)
    &&& (new.script_stack_calls@ == old.script_stack_calls@)
    &&& (new.requested_next_part == old.requested_next_part)
    &&& (new.variables@ == old.variables@)
    &&& (new.threads@ == old.threads@)
    &&& (new.video.only_target_changed(&old.video))
    &&& (!old.code_in_range(old.script_ptr as int, sprite_len(val)) ==> r is Err
        && r->Err_0 is ScriptOutOfRange && new.video == old.video)
    &&& (old.code_in_range(old.script_ptr as int, sprite_len(val)) ==> {
        let p = old.script_ptr as int;
        let ops = sprite_operands(old, val, p);
        &&& (r is Ok || r->Err_0 is Video)
        &&& new.script_ptr == p + sprite_len(val)
        &&& new.video_buffer_seg == ops.seg
        &&& drawn(
            &old.video,
            &new.video,
            old.resource.memory@,
            seg_base(&old.resource, ops.seg) + ops.offset,
            COLOR_BLACK,
            ops.zoom,
            ops.x as int,
            ops.y as int,
            video_result(r),
        )
        &&& ({
            let mem = old.resource.memory@;
            let a = seg_base(&old.resource, ops.seg) + ops.offset;
            a < mem.len() && mem[a] < 0xc0 && mem[a] % 64 == 2 && r is Ok ==> hierarchy_drawn(
                &old.video,
                &new.video,
                mem,
                seg_base(&old.resource, ops.seg),
                a + 1,
                ops.zoom,
                ops.x as int,
                ops.y as int,
            )
        })
    })
}

/// What `op_draw_poly_background` guarantees, from the state just past its opcode byte.
pub open spec fn draw_poly_background_post(old: &VirtualMachine, new: &VirtualMachine, val: u8, r: Result<(), VmError>) -> bool {
    &&& new.wf()
    &&& (kept_schedule(new, old))
    &&& (new.goto_next_thread == old.goto_next_thread)
    &&& (new.stack_ptr == old.stack_ptr)
    &&& (new.script_stack_calls@ == old.script_stack_calls@)
    &&& (new.requested_next_part == old.requested_next_part)
    &&& (new.variables@ == old.variables@)
    &&& (new.threads@ == old.threads@)
    &&& (new.video.only_target_changed(&old.video))
    &&& (!old.code_in_range(old.script_ptr as int, 3) ==> r is Err
        && r->Err_0 is ScriptOutOfRange && new.video == old.video)
    &&& (old.code_in_range(old.script_ptr as int, 3) ==> {
        let p = old.script_ptr as int;
        let pt = background_point(old.cb(p + 1), old.cb(p + 2));
        &&& (r is Ok || r->Err_0 is Video)
        &&& new.script_ptr == p + 3
        &&& new.video_buffer_seg == VideoBufferSeg::Cinematic
        &&& drawn(
            &old.video,
            &new.video,
            old.resource.memory@,
            old.resource.seg_cinematic + ((val % 128) * 256 + old.cb(p)) * 2,
            COLOR_BLACK,
            DEFAULT_ZOOM,
            pt.x as int,
            pt.y as int,
            video_result(r),
        )
        &&& ({
            let mem = old.resource.memory@;
            let a = old.resource.seg_cinematic + ((val % 128) * 256 + old.cb(p)) * 2;
            a < mem.len() && mem[a] < 0xc0 && mem[a] % 64 == 2 && r is Ok ==> hierarchy_drawn(
                &old.video,
                &new.video,
                mem,
                old.resource.seg_cinematic as int,
                a + 1,
                DEFAULT_ZOOM,
                pt.x as int,
                pt.y as int,
            )
        })
    })
}

impl VirtualMachine {
    /// Reads the bytecode byte at the cursor and advances past it.
    fn fetch_byte(&mut self) -> (r: Result<u8, VmError>)
        requires
            old(self).wf(),
        ensures
            final(self).same_but_cursor_vars(old(self)),
            final(self).variables@ == old(self).variables@,
            final(self).wf(),
            match old(self).code(old(self).script_ptr as int) {
                Some(b) => r == Ok::<u8, VmError>(b) && final(self).script_ptr == old(self).script_ptr + 1,
                None => r == Err::<u8, VmError>(VmError::ScriptOutOfRange { offset: old(self).script_ptr })
                    && final(self).script_ptr == old(self).script_ptr,
            },
    {
        let mut buffer = Buffer::with_offset(self.resource.seg_bytecode, self.script_ptr);
        match buffer.fetch_byte(&self.resource) {
            Some(b) => {
                self.script_ptr = buffer.pos;
                Ok(b)
            },
            None => Err(VmError::ScriptOutOfRange { offset: self.script_ptr }),
        }
    }

    /// Reads the big-endian bytecode word at the cursor and advances past it.
    fn fetch_word(&mut self) -> (r: Result<u16, VmError>)
        requires
            old(self).wf(),
        ensures
            final(self).same_but_cursor_vars(old(self)),
            final(self).variables@ == old(self).variables@,
            final(self).wf(),
            match old(self).code_word(old(self).script_ptr as int) {
                Some(w) => r == Ok::<u16, VmError>(w) && final(self).script_ptr == old(self).script_ptr + 2,
                None => r == Err::<u16, VmError>(VmError::ScriptOutOfRange { offset: old(self).script_ptr })
                    && final(self).script_ptr == old(self).script_ptr,
            },
    {
        let mut buffer = Buffer::with_offset(self.resource.seg_bytecode, self.script_ptr);
        match buffer.fetch_word(&self.resource) {
            Some(w) => {
                self.script_ptr = buffer.pos;
                Ok(w)
            },
            None => Err(VmError::ScriptOutOfRange { offset: self.script_ptr }),
        }
    }

    /// `mov_const v, w`: variable v takes the word as a signed value.
    pub fn op_mov_const(&mut self) -> (r: Result<(), VmError>)
        requires
            old(self).wf(),
        ensures
            final(self).wf(),
            mov_const_post(old(self), final(self), r),
    {
        let v = self.fetch_byte()?;
        let w = self.fetch_word()?;
        self.variables.set(v as usize, w as i16);
        Ok(())
    }

    /// `mov dst, src`: variable dst takes the value of variable src.
    pub fn op_mov(&mut self) -> (r: Result<(), VmError>)
        requires
            old(self).wf(),
        ensures
            final(self).wf(),
            mov_post(old(self), final(self), r),
    {
        let dst = self.fetch_byte()?;
        let src = self.fetch_byte()?;
        let value = self.variables[src as usize];
        self.variables.set(dst as usize, value);
        Ok(())
    }

    /// `add_const v, w`: adds the word to variable v, wrapping.
    pub fn op_add_const(&mut self) -> (r: Result<(), VmError>)
        requires
            old(self).wf(),
        ensures
            final(self).wf(),
            add_const_post(old(self), final(self), r),
    {
        let v = self.fetch_byte()?;
        let w = self.fetch_word()?;
        let value = self.variables[v as usize].wrapping_add(w as i16);
        self.variables.set(v as usize, value);
        Ok(())
    }

    /// `or v, w`: ors the word into variable v, bit for bit.
    pub fn op_or(&mut self) -> (r: Result<(), VmError>)
        requires
            old(self).wf(),
        ensures
            final(self).wf(),
            or_post(old(self), final(self), r),
    {
        let v = self.fetch_byte()?;
        let w = self.fetch_word()?;
        let value = (self.variables[v as usize] as u16 | w) as i16;
        self.variables.set(v as usize, value);
        Ok(())
    }

    /// `call x`: pushes the offset after the instruction and jumps to x. A
    /// full stack is a fatal overflow.
    pub fn op_call(&mut self) -> (r: Result<(), VmError>)
        requires
            old(self).wf(),
        ensures
            final(self).wf(),
            call_post(old(self), final(self), r),
    {
        let target = self.fetch_word()?;
        if self.stack_ptr == STACK_SIZE {
            return Err(VmError::StackOverflow);
        }
        let ret = self.script_ptr;
        self.script_stack_calls.set(self.stack_ptr, ret);
        self.stack_ptr = self.stack_ptr + 1;
        self.script_ptr = target as usize;
        Ok(())
    }

    /// `ret`: pops an offset and jumps to it. An empty stack is a fatal underflow.
    pub fn op_ret(&mut self) -> (r: Result<(), VmError>)
        requires
            old(self).wf(),
        ensures
            final(self).wf(),
            ret_post(old(self), final(self), r),
    {
        if self.stack_ptr == 0 {
            return Err(VmError::StackUnderflow);
        }
        self.stack_ptr = self.stack_ptr - 1;
        self.script_ptr = self.script_stack_calls[self.stack_ptr];
        Ok(())
    }

    /// `pause`: ends the slice; the cursor stays where the next fetch would read.
    pub fn op_pause_thread(&mut self)
        requires
            old(self).wf(),
        ensures
            final(self).wf(),
            pause_thread_post(old(self), final(self)),
    {
        self.goto_next_thread = true;
    }

    /// `jmp x`: continues at offset x.
    pub fn op_jmp(&mut self) -> (r: Result<(), VmError>)
        requires
            old(self).wf(),
        ensures
            final(self).wf(),
            jmp_post(old(self), final(self), r),
    {
        let target = self.fetch_word()?;
        self.script_ptr = target as usize;
        Ok(())
    }

    /// `setvec t, x`: stages offset x (or the deactivation sentinel) for
    /// thread t, to be applied when the next frame starts.
    pub fn op_set_set_vect(&mut self) -> (r: Result<(), VmError>)
        requires
            old(self).wf(),
        ensures
            final(self).wf(),
            set_set_vect_post(old(self), final(self), r),
    {
        let t = self.fetch_byte()?;
        let w = self.fetch_word()?;
        if t as usize >= NUM_THREADS {
            return Err(VmError::BadThreadId { thread_id: t });
        }
        let mut th = self.threads[t as usize];
        th.requested_pc_offset = Some(w as usize);
        self.threads.set(t as usize, th);
        Ok(())
    }

    /// `jnz v, x`: decrements variable v, wrapping, and jumps to x when the
    /// result is not zero; otherwise goes on after the instruction.
    pub fn op_jnz(&mut self) -> (r: Result<(), VmError>)
        requires
            old(self).wf(),
        ensures
            final(self).wf(),
            jnz_post(old(self), final(self), r),
    {
        let v = self.fetch_byte()?;
        let n = self.variables[v as usize].wrapping_sub(1);
        self.variables.set(v as usize, n);
        if n != 0 {
            self.op_jmp()
        } else {
            self.fetch_word()?;
            Ok(())
        }
    }
}

/// The operand of a conditional jump: another variable when bit 7 of the
/// condition byte is set, else a signed word when bit 6 is, else a byte.
pub open spec fn cond_operand(m: &VirtualMachine, cond: u8, q: int) -> i16 {
    if cond & 0x80 != 0 {
        m.variables@[m.cb(q) as int]
    } else if cond & 0x40 != 0 {
        m.cw(q) as i16
    } else {
        m.cb(q) as i16
    }
}

/// How many bytes that operand takes.
pub open spec fn cond_operand_len(cond: u8) -> int {
    if cond & 0x80 == 0 && cond & 0x40 != 0 { 2 } else { 1 }
}

impl VirtualMachine {
    /// `cond_jmp c, v, a, x`: compares variable v with the operand a (see
    /// `cond_operand`) by the comparator in the low bits of c (see `compare`)
    /// and jumps to x when it holds; otherwise goes on after the instruction.
    pub fn op_cond_jmp(&mut self) -> (r: Result<(), VmError>)
        requires
            old(self).wf(),
        ensures
            final(self).wf(),
            cond_jmp_post(old(self), final(self), r),
    {
        let c = self.fetch_byte()?;
        let v = self.fetch_byte()?;
        let b = self.variables[v as usize];
        let a: i16 = if c & 0x80 != 0 {
            let w = self.fetch_byte()?;
            self.variables[w as usize]
        } else if c & 0x40 != 0 {
            let w = self.fetch_word()?;
            w as i16
        } else {
            let w = self.fetch_byte()?;
            w as i16
        };
        let cond = c % 8;
        let taken = if cond == 0 {
            b == a
        } else if cond == 1 {
            b != a
        } else if cond == 2 {
            b > a
        } else if cond == 3 {
            b >= a
        } else if cond == 4 {
            b < a
        } else if cond == 5 {
            b <= a
        } else {
            false
        };
        if taken {
            self.op_jmp()
        } else {
            self.fetch_word()?;
            Ok(())
        }
    }

    /// `set_palette w`: the high byte of w picks one of 32 palettes, which is
    /// marked for the next present; a higher id does nothing.
    pub fn op_set_palette(&mut self) -> (r: Result<(), VmError>)
        requires
            old(self).wf(),
        ensures
            final(self).wf(),
            set_palette_post(old(self), final(self), r),
    {
        let w = self.fetch_word()?;
        let id = (w / 256) as u8;
        if id >= NUM_PALETTES {
            return Ok(());
        }
        let base = self.resource.seg_palettes;
        let n = self.resource.memory.len();
        let off = id as usize * PALETTE_BYTES;
        if base > n || off + PALETTE_BYTES > n - base {
            return Err(VmError::PaletteOutOfRange { palette_id: id });
        }
        let palette = Palette::from_bytes(&self.resource.memory, base + off);
        self.video.palette_requested = Some(palette);
        Ok(())
    }

    /// `select_video_page id`: the draw target becomes the page that id names.
    pub fn op_select_video_page(&mut self) -> (r: Result<(), VmError>)
        requires
            old(self).wf(),
        ensures
            final(self).wf(),
            select_video_page_post(old(self), final(self), r),
    {
        let id = self.fetch_byte()?;
        self.video.change_page_ptr1(id);
        Ok(())
    }

    /// `fill_video_page id, c`: fills the page that id names with colour c.
    pub fn op_fill_video_page(&mut self) -> (r: Result<(), VmError>)
        requires
            old(self).wf(),
        ensures
            final(self).wf(),
            fill_video_page_post(old(self), final(self), r),
    {
        let id = self.fetch_byte()?;
        let color = self.fetch_byte()?;
        self.video.fill_video_page(id, color);
        Ok(())
    }

    /// `copy_video_page src, dst`: copies page src into page dst, shifted by
    /// the scroll variable.
    pub fn op_copy_video_page(&mut self) -> (r: Result<(), VmError>)
        requires
            old(self).wf(),
        ensures
            final(self).wf(),
            copy_video_page_post(old(self), final(self), r),
    {
        let src = self.fetch_byte()?;
        let dst = self.fetch_byte()?;
        let scroll = self.variables[VM_VARIABLE_SCROLL_Y];
        self.video.copy_page(src, dst, scroll);
        Ok(())
    }

    /// `blit id`: clears variable 0xF7 and asks the host to pace the frame
    /// and present the page that id names.
    pub fn op_blit_frame_buffer(&mut self) -> (r: Result<HostRequest, VmError>)
        requires
            old(self).wf(),
        ensures
            final(self).wf(),
            blit_frame_buffer_post(old(self), final(self), r),
    {
        let id = self.fetch_byte()?;
        self.variables.set(0xf7, 0);
        Ok(HostRequest::Present(id))
    }

    /// `kill`: ends the slice and leaves the thread inactive.
    pub fn op_kill_thread(&mut self)
        requires
            old(self).wf(),
        ensures
            final(self).wf(),
            kill_thread_post(old(self), final(self)),
    {
        self.script_ptr = INACTIVE_THREAD;
        self.goto_next_thread = true;
    }

    /// `draw_string id, x, y, c`: records the string for the text layer.
    pub fn op_draw_string(&mut self) -> (r: Result<(), VmError>)
        requires
            old(self).wf(),
        ensures
            final(self).wf(),
            draw_string_post(old(self), final(self), r),
    {
        let id = self.fetch_word()?;
        let x = self.fetch_byte()?;
        let y = self.fetch_byte()?;
        let color = self.fetch_byte()?;
        self.video.draw_string(color as u16, x as u16, y as u16, id);
        Ok(())
    }

    /// `play_sound res, freq, vol, channel`: the sound layer is not part of
    /// the engine core; the operands are skipped.
    pub fn op_play_sound(&mut self) -> (r: Result<(), VmError>)
        requires
            old(self).wf(),
        ensures
            final(self).wf(),
            play_sound_post(old(self), final(self), r),
    {
        self.fetch_word()?;
        self.fetch_byte()?;
        self.fetch_byte()?;
        self.fetch_byte()?;
        Ok(())
    }

    /// `play_music res, delay, pos`: the music layer is not part of the
    /// engine core; the operands are skipped.
    pub fn op_play_music(&mut self) -> (r: Result<(), VmError>)
        requires
            old(self).wf(),
        ensures
            final(self).wf(),
            play_music_post(old(self), final(self), r),
    {
        self.fetch_word()?;
        self.fetch_word()?;
        self.fetch_byte()?;
        Ok(())
    }

    /// `update_memlist id`: 0 asks the host to free transient resources; a
    /// part id stages a part switch for the next frame; any other id asks the
    /// host to load that resource.
    pub fn op_update_memlist(&mut self) -> (r: Result<Option<HostRequest>, VmError>)
        requires
            old(self).wf(),
        ensures
            final(self).wf(),
            update_memlist_post(old(self), final(self), r),
    {
        let id = self.fetch_word()?;
        if id == 0 {
            Ok(Some(HostRequest::InvalidateResources))
        } else if id >= GAME_PART_FIRST {
            self.requested_next_part = Some(id);
            Ok(None)
        } else {
            Ok(Some(HostRequest::LoadEntry(id)))
        }
    }
}

/// Where and how a sprite polygon is drawn, as decoded from its operands.
#[derive(Clone, Copy, Debug, PartialEq, Eq)]
pub struct SpriteOperands {
    pub offset: usize,
    pub x: i16,
    pub y: i16,
    pub zoom: u16,
    pub seg: VideoBufferSeg,
}

/// A coordinate of a sprite: a signed word when both selector bits are
/// clear, a variable when only the low one is set, the byte when only the
/// high one is, the byte plus `extra` when both are.
pub open spec fn sprite_coord(m: &VirtualMachine, hi: bool, lo: bool, q: int, extra: i16) -> i16 {
    if !hi {
        if !lo {
            (m.cb(q) as int * 256 + m.cb(q + 1) as int) as u16 as i16
        } else {
            m.variables@[m.cb(q) as int]
        }
    } else if lo {
        (m.cb(q) as int + extra) as i16
    } else {
        m.cb(q) as i16
    }
}

/// Bytes a sprite coordinate takes.
pub open spec fn sprite_coord_len(hi: bool, lo: bool) -> int {
    if !hi && !lo { 2 } else { 1 }
}

/// The zoom of a sprite: the default when both selector bits are equal, a
/// variable when only the low one is set, the byte when only the high one is.
pub open spec fn sprite_zoom(m: &VirtualMachine, hi: bool, lo: bool, q: int) -> u16 {
    if hi == lo {
        DEFAULT_ZOOM
    } else if lo {
        m.variables@[m.cb(q) as int] as u16
    } else {
        m.cb(q) as u16
    }
}

/// Bytes a sprite zoom takes: none for the default.
pub open spec fn sprite_zoom_len(hi: bool, lo: bool) -> int {
    if hi == lo { 0 } else { 1 }
}

/// The segment a sprite comes from: the secondary one when both zoom
/// selector bits are set.
pub open spec fn sprite_seg(hi: bool, lo: bool) -> VideoBufferSeg {
    if hi && lo { VideoBufferSeg::Video2 } else { VideoBufferSeg::Cinematic }
}

/// Bytes of all the operands of a sprite instruction.
pub open spec fn sprite_len(val: u8) -> int {
    2 + sprite_coord_len(val & 0x20 != 0, val & 0x10 != 0) + sprite_coord_len(val & 8 != 0, val & 4 != 0)
        + sprite_zoom_len(val & 2 != 0, val & 1 != 0)
}

/// The decoded operands of a sprite instruction whose operands start at `p`.
pub open spec fn sprite_operands(m: &VirtualMachine, val: u8, p: int) -> SpriteOperands {
    let xl = sprite_coord_len(val & 0x20 != 0, val & 0x10 != 0);
    let yl = sprite_coord_len(val & 8 != 0, val & 4 != 0);
    SpriteOperands {
        offset: (m.cw(p) as int * 2) as usize,
        x: sprite_coord(m, val & 0x20 != 0, val & 0x10 != 0, p + 2, 0x100),
        y: sprite_coord(m, val & 8 != 0, val & 4 != 0, p + 2 + xl, 0),
        zoom: sprite_zoom(m, val & 2 != 0, val & 1 != 0, p + 2 + xl + yl),
        seg: sprite_seg(val & 2 != 0, val & 1 != 0),
    }
}

/// The position of a background polygon from its x and y bytes: a y below
/// row 199 is pulled up to it and the excess moves x to the right.
pub open spec fn background_point(xb: u8, yb: u8) -> Point {
    if yb > 199 {
        Point { x: (xb + yb - 199) as i16, y: 199 }
    } else {
        Point { x: xb as i16, y: yb as i16 }
    }
}

/// The base of a polygon segment.
pub open spec fn seg_base(res: &Resource, seg: VideoBufferSeg) -> int {
    match seg {
        VideoBufferSeg::Cinematic => res.seg_cinematic as int,
        VideoBufferSeg::Video2 => res.seg_video2 as int,
    }
}

/// The drawing outcome inside an instruction's result.
pub open spec fn video_result(r: Result<(), VmError>) -> Result<(), VideoError> {
    match r {
        Ok(()) => Ok(()),
        Err(VmError::Video(e)) => Err(e),
        Err(_) => Err(VideoError::DataOutOfRange),
    }
}

impl VirtualMachine {
    /// Decodes the operands of a sprite instruction `val`: a word offset,
    /// then x, y and zoom, each in the form that two bits of `val` select.
    pub fn read_sprite_operands(&mut self, val: u8) -> (r: Result<SpriteOperands, VmError>)
        requires
            old(self).wf(),
        ensures
            final(self).wf(),
            final(self).same_but_cursor_vars(old(self)),
            final(self).variables@ == old(self).variables@,
            r is Ok <==> old(self).code_in_range(old(self).script_ptr as int, sprite_len(val)),
            r is Err ==> r->Err_0 is ScriptOutOfRange,
            r is Ok ==> {
                let p = old(self).script_ptr as int;
                &&& final(self).script_ptr == p + sprite_len(val)
                &&& r->Ok_0 == sprite_operands(old(self), val, p)
            },
    {
        let w = self.fetch_word()?;
        let offset = w as usize * 2;
        let xb = self.fetch_byte()?;
        let x: i16 = if val & 0x20 == 0 {
            if val & 0x10 == 0 {
                let lo = self.fetch_byte()?;
                ((xb as u16) * 256 + lo as u16) as i16
            } else {
                self.variables[xb as usize]
            }
        } else if val & 0x10 != 0 {
            xb as i16 + 0x100
        } else {
            xb as i16
        };
        let yb = self.fetch_byte()?;
        let y: i16 = if val & 8 == 0 {
            if val & 4 == 0 {
                let lo = self.fetch_byte()?;
                ((yb as u16) * 256 + lo as u16) as i16
            } else {
                self.variables[yb as usize]
            }
        } else {
            yb as i16
        };
        let zoom: u16;
        let seg: VideoBufferSeg;
        if val & 2 == 0 {
            if val & 1 == 0 {
                zoom = DEFAULT_ZOOM;
            } else {
                let z = self.fetch_byte()?;
                zoom = self.variables[z as usize] as u16;
            }
            seg = VideoBufferSeg::Cinematic;
        } else if val & 1 != 0 {
            zoom = DEFAULT_ZOOM;
            seg = VideoBufferSeg::Video2;
        } else {
            let z = self.fetch_byte()?;
            zoom = z as u16;
            seg = VideoBufferSeg::Cinematic;
        }
        Ok(SpriteOperands { offset, x, y, zoom, seg })
    }

    /// Sprite instruction `val`: decodes its operands (see
    /// `read_sprite_operands`) and draws the polygon at that offset of the
    /// chosen segment, in the colours of its data (see `drawn`).
    pub fn op_draw_poly_sprite(&mut self, val: u8) -> (r: Result<(), VmError>)
        requires
            old(self).wf(),
        ensures
            final(self).wf(),
            draw_poly_sprite_post(old(self), final(self), val, r),
    {
        let ops = self.read_sprite_operands(val)?;
        self.video_buffer_seg = ops.seg;
        let base = match ops.seg {
            VideoBufferSeg::Cinematic => self.resource.seg_cinematic,
            VideoBufferSeg::Video2 => self.resource.seg_video2,
        };
        let buffer = Buffer::with_offset(base, ops.offset);
        match self.video.read_and_draw_polygon(&self.resource, buffer, COLOR_BLACK, ops.zoom, Point { x: ops.x, y: ops.y }) {
            Ok(()) => Ok(()),
            Err(e) => Err(VmError::Video(e)),
        }
    }

    /// Background instruction `val`: a 15-bit word offset (high bits from
    /// `val`), then x and y bytes (see `background_point`); draws that polygon
    /// of the cinematic segment at 1:1 in the colours of its data (see `drawn`).
    pub fn op_draw_poly_background(&mut self, val: u8) -> (r: Result<(), VmError>)
        requires
            old(self).wf(),
        ensures
            final(self).wf(),
            draw_poly_background_post(old(self), final(self), val, r),
    {
        let lsb = self.fetch_byte()?;
        let offset: usize = ((val % 128) as usize * 256 + lsb as usize) * 2;
        self.video_buffer_seg = VideoBufferSeg::Cinematic;
        let xb = self.fetch_byte()?;
        let yb = self.fetch_byte()?;
        let point = if yb > 199 {
            Point { x: (xb as i16) + (yb as i16 - 199), y: 199 }
        } else {
            Point { x: xb as i16, y: yb as i16 }
        };
        let buffer = Buffer::with_offset(self.resource.seg_cinematic, offset);
        match self.video.read_and_draw_polygon(&self.resource, buffer, COLOR_BLACK, DEFAULT_ZOOM, point) {
            Ok(()) => Ok(()),
            Err(e) => Err(VmError::Video(e)),
        }
    }
}

/// The opcodes this interpreter knows: the polygon forms (bit 7 or bit 6
/// set) and the listed instructions.
pub open spec fn is_known_opcode(op: u8) -> bool {
    op & 0x80 != 0 || op & 0x40 != 0 || op <= 1 || (3 <= op && op <= 0x0b) || (0x0d <= op && op <= 0x12)
        || op == 0x15 || (0x18 <= op && op <= 0x1a)
}

/// `t` is `s` after a successful `call` whose opcode is at the cursor of `s`:
/// the offset after the instruction is pushed and the cursor is the target.
pub open spec fn call_step(s: &VirtualMachine, t: &VirtualMachine) -> bool {
    let p = s.script_ptr as int;
    &&& p + 3 <= usize::MAX
    &&& s.stack_ptr < STACK_SIZE
    &&& t.stack_ptr == s.stack_ptr + 1
    &&& t.script_stack_calls@ == s.script_stack_calls@.update(s.stack_ptr as int, (p + 3) as usize)
    &&& t.script_ptr == s.cw(p + 1)
}

/// `t` is `s` after a successful `ret`: the top offset is popped into the cursor.
pub open spec fn ret_step(s: &VirtualMachine, t: &VirtualMachine) -> bool {
    &&& s.stack_ptr > 0
    &&& t.stack_ptr == s.stack_ptr - 1
    &&& t.script_stack_calls@ == s.script_stack_calls@
    &&& t.script_ptr == s.script_stack_calls@[s.stack_ptr - 1]
}

/// A `call` followed, once the code it reached has returned to the same
/// stack depth without touching the frames below, by a `ret` resumes right
/// after the `call` instruction.
pub proof fn lemma_call_then_return(
    before_call: &VirtualMachine,
    after_call: &VirtualMachine,
    before_ret: &VirtualMachine,
    after_ret: &VirtualMachine,
)
    requires
        call_step(before_call, after_call),
        before_ret.stack_ptr == after_call.stack_ptr,
        forall|j: int| 0 <= j < after_call.stack_ptr ==>
            #[trigger] before_ret.script_stack_calls@[j] == after_call.script_stack_calls@[j],
        ret_step(before_ret, after_ret),
        before_call.script_stack_calls@.len() == STACK_SIZE,
    ensures
        after_ret.script_ptr == before_call.script_ptr + 3,
        after_ret.stack_ptr == before_call.stack_ptr,
{
    assert(before_ret.script_stack_calls@[before_call.stack_ptr as int] == after_call.script_stack_calls@[before_call.stack_ptr as int]);
}

/// An instruction's result without its host request.
pub open spec fn unit(r: Result<Option<HostRequest>, VmError>) -> Result<(), VmError> {
    match r {
        Ok(_) => Ok(()),
        Err(e) => Err(e),
    }
}

/// The host request an instruction returned, or its error. Only `blit`
/// reads this, and it always returns a request when it succeeds, so the
/// stand-in error for a missing request never arises.
pub open spec fn request(r: Result<Option<HostRequest>, VmError>) -> Result<HostRequest, VmError> {
    match r {
        Ok(Some(h)) => Ok(h),
        Ok(None) => Err(VmError::StackUnderflow),
        Err(e) => Err(e),
    }
}

/// No instruction writes below the lower of the stack depths before and after it.
pub open spec fn frames_below_kept(s: &VirtualMachine, t: &VirtualMachine) -> bool {
    forall|j: int| 0 <= j < s.stack_ptr && 0 <= j < t.stack_ptr ==>
        #[trigger] t.script_stack_calls@[j] == s.script_stack_calls@[j]
}

/// What executing the instruction at the cursor of `old` guarantees:
/// `new` and the result are as the instruction's own relation says, from the
/// state just past the opcode byte.
pub open spec fn instruction_post(old: &VirtualMachine, new: &VirtualMachine, r: Result<Option<HostRequest>, VmError>) -> bool {
    &&& new.wf()
    &&& (kept_schedule(new, old))
    &&& (frames_below_kept(old, new))
    &&& (({
        let p = old.script_ptr as int;
        match old.code(p) {
            None => r == Err::<Option<HostRequest>, VmError>(VmError::ScriptOutOfRange { offset: old.script_ptr }),
            Some(op) => {
                let at_operands = VirtualMachine { script_ptr: (p + 1) as usize, ..*old };
                &&& !is_known_opcode(op) ==> r == Err::<Option<HostRequest>, VmError>(
                    VmError::UnknownOpcode { offset: old.script_ptr, opcode: op },
                )
                &&& op == 0x06 ==> {
                    &&& r == Ok::<Option<HostRequest>, VmError>(None)
                    &&& new.goto_next_thread
                    &&& new.script_ptr == p + 1
                    &&& new.variables@ == old.variables@
                    &&& new.threads@ == old.threads@
                    &&& new.video == old.video
                    &&& new.stack_ptr == old.stack_ptr
                }
                &&& op == 0x11 ==> {
                    &&& r == Ok::<Option<HostRequest>, VmError>(None)
                    &&& new.goto_next_thread
                    &&& new.script_ptr == INACTIVE_THREAD
                }
                &&& op == 0x04 && old.code_in_range(p + 1, 2) ==> (
                    r == Err::<Option<HostRequest>, VmError>(VmError::StackOverflow) <==> old.stack_ptr == STACK_SIZE)
                &&& op == 0x04 && r is Ok ==> call_step(old, new)
                &&& op == 0x05 ==> (
                    r == Err::<Option<HostRequest>, VmError>(VmError::StackUnderflow) <==> old.stack_ptr == 0)
                &&& op == 0x05 && r is Ok ==> ret_step(old, new)
                &&& op != 0x06 && op != 0x11 ==> new.goto_next_thread == old.goto_next_thread
                &&& op & 0x80 != 0 ==> draw_poly_background_post(&at_operands, new, op, unit(r))
                    && (r is Ok ==> r == Ok::<Option<HostRequest>, VmError>(None))
                &&& op & 0x80 == 0 && op & 0x40 != 0 ==> draw_poly_sprite_post(&at_operands, new, op, unit(r))
                    && (r is Ok ==> r == Ok::<Option<HostRequest>, VmError>(None))
                &&& op == 0x10 ==> blit_frame_buffer_post(&at_operands, new, request(r))
                    && (r is Ok ==> r->Ok_0 is Some)
                &&& op == 0x19 ==> update_memlist_post(&at_operands, new, r)
                &&& op == 0x06 ==> pause_thread_post(&at_operands, new)
                &&& op == 0x11 ==> kill_thread_post(&at_operands, new)
                &&& op == 0x00 ==> mov_const_post(&at_operands, new, unit(r))
                    && (r is Ok ==> r == Ok::<Option<HostRequest>, VmError>(None))
                &&& op == 0x01 ==> mov_post(&at_operands, new, unit(r))
                    && (r is Ok ==> r == Ok::<Option<HostRequest>, VmError>(None))
                &&& op == 0x03 ==> add_const_post(&at_operands, new, unit(r))
                    && (r is Ok ==> r == Ok::<Option<HostRequest>, VmError>(None))
                &&& op == 0x04 ==> call_post(&at_operands, new, unit(r))
                    && (r is Ok ==> r == Ok::<Option<HostRequest>, VmError>(None))
                &&& op == 0x05 ==> ret_post(&at_operands, new, unit(r))
                    && (r is Ok ==> r == Ok::<Option<HostRequest>, VmError>(None))
                &&& op == 0x07 ==> jmp_post(&at_operands, new, unit(r))
                    && (r is Ok ==> r == Ok::<Option<HostRequest>, VmError>(None))
                &&& op == 0x08 ==> set_set_vect_post(&at_operands, new, unit(r))
                    && (r is Ok ==> r == Ok::<Option<HostRequest>, VmError>(None))
                &&& op == 0x09 ==> jnz_post(&at_operands, new, unit(r))
                    && (r is Ok ==> r == Ok::<Option<HostRequest>, VmError>(None))
                &&& op == 0x0a ==> cond_jmp_post(&at_operands, new, unit(r))
                    && (r is Ok ==> r == Ok::<Option<HostRequest>, VmError>(None))
                &&& op == 0x0b ==> set_palette_post(&at_operands, new, unit(r))
                    && (r is Ok ==> r == Ok::<Option<HostRequest>, VmError>(None))
                &&& op == 0x0d ==> select_video_page_post(&at_operands, new, unit(r))
                    && (r is Ok ==> r == Ok::<Option<HostRequest>, VmError>(None))
                &&& op == 0x0e ==> fill_video_page_post(&at_operands, new, unit(r))
                    && (r is Ok ==> r == Ok::<Option<HostRequest>, VmError>(None))
                &&& op == 0x0f ==> copy_video_page_post(&at_operands, new, unit(r))
                    && (r is Ok ==> r == Ok::<Option<HostRequest>, VmError>(None))
                &&& op == 0x12 ==> draw_string_post(&at_operands, new, unit(r))
                    && (r is Ok ==> r == Ok::<Option<HostRequest>, VmError>(None))
                &&& op == 0x15 ==> or_post(&at_operands, new, unit(r))
                    && (r is Ok ==> r == Ok::<Option<HostRequest>, VmError>(None))
                &&& op == 0x18 ==> play_sound_post(&at_operands, new, unit(r))
                    && (r is Ok ==> r == Ok::<Option<HostRequest>, VmError>(None))
                &&& op == 0x1a ==> play_music_post(&at_operands, new, unit(r))
                    && (r is Ok ==> r == Ok::<Option<HostRequest>, VmError>(None))
            },
        }
    }))
}

impl VirtualMachine {
    /// Executes the instruction at the cursor. Pausing and killing end the
    /// slice; an instruction that needs the host returns its request. No
    /// instruction changes a thread's program counter or paused flags.
    pub fn execute_instruction(&mut self) -> (r: Result<Option<HostRequest>, VmError>)
        requires
            old(self).wf(),
        ensures
            final(self).wf(),
            instruction_post(old(self), final(self), r),
    {
        let at = self.script_ptr;
        // the arena's length fits a usize, so offsets inside it do too
        let arena_len = self.resource.memory.len();
        let op = self.fetch_byte()?;
        assert(op & 0x80 != 0 ==> op >= 0x80) by (bit_vector);
        assert(op & 0x40 != 0 ==> op >= 0x40) by (bit_vector);
        if op & 0x80 != 0 {
            self.op_draw_poly_background(op)?;
            return Ok(None);
        }
        if op & 0x40 != 0 {
            self.op_draw_poly_sprite(op)?;
            return Ok(None);
        }
        match op {
            0x00 => self.op_mov_const()?,
            0x01 => self.op_mov()?,
            0x03 => self.op_add_const()?,
            0x04 => self.op_call()?,
            0x05 => self.op_ret()?,
            0x06 => self.op_pause_thread(),
            0x07 => self.op_jmp()?,
            0x08 => self.op_set_set_vect()?,
            0x09 => self.op_jnz()?,
            0x0a => self.op_cond_jmp()?,
            0x0b => self.op_set_palette()?,
            0x0d => self.op_select_video_page()?,
            0x0e => self.op_fill_video_page()?,
            0x0f => self.op_copy_video_page()?,
            0x10 => {
                let req = self.op_blit_frame_buffer()?;
                return Ok(Some(req));
            },
            0x11 => self.op_kill_thread(),
            0x12 => self.op_draw_string()?,
            0x15 => self.op_or()?,
            0x18 => self.op_play_sound()?,
            0x19 => return self.op_update_memlist(),
            0x1a => self.op_play_music()?,
            _ => return Err(VmError::UnknownOpcode { offset: at, opcode: op }),
        }
        Ok(None)
    }
}

impl VirtualMachine {
    /// Starts the slice of thread `frame_thread`: the cursor takes its
    /// program counter and the call stack is empty.
    fn start_slice(&mut self)
        requires
            old(self).wf(),
            !old(self).in_slice,
            old(self).frame_thread < NUM_THREADS,
            !old(self).threads@[old(self).frame_thread as int].paused_current,
            old(self).threads@[old(self).frame_thread as int].pc != INACTIVE_THREAD,
        ensures
            final(self).wf(),
            final(self).in_slice,
            final(self).script_ptr == old(self).threads@[old(self).frame_thread as int].pc,
            final(self).stack_ptr == 0,
            !final(self).goto_next_thread,
            final(self).threads@ == old(self).threads@,
            final(self).frame_thread == old(self).frame_thread,
            final(self).variables@ == old(self).variables@,
            final(self).video == old(self).video,
            final(self).resource == old(self).resource,
    {
        self.script_ptr = self.threads[self.frame_thread].pc;
        self.stack_ptr = 0;
        self.goto_next_thread = false;
        self.in_slice = true;
    }

    /// Ends the slice of thread `frame_thread`: its program counter keeps
    /// the cursor, and the frame moves on to the next thread.
    fn end_slice(&mut self)
        requires
            old(self).wf(),
            old(self).in_slice,
        ensures
            final(self).wf(),
            !final(self).in_slice,
            final(self).frame_thread == old(self).frame_thread + 1,
            final(self).threads@ == old(self).threads@.update(
                old(self).frame_thread as int,
                Thread { pc: old(self).script_ptr, ..old(self).threads@[old(self).frame_thread as int] },
            ),
            final(self).variables@ == old(self).variables@,
            final(self).video == old(self).video,
            final(self).resource == old(self).resource,
    {
        let t = self.frame_thread;
        let mut th = self.threads[t];
        th.pc = self.script_ptr;
        self.threads.set(t, th);
        self.in_slice = false;
        self.frame_thread = t + 1;
    }

    /// One step of a frame (see `frame_step_post`): passes over a thread
    /// that does not run, starts the slice of one that does, or executes one
    /// instruction of the current slice and ends the slice on a pause or kill.
    pub fn frame_step(&mut self) -> (r: Result<Option<FrameEvent>, VmError>)
        requires
            old(self).wf(),
        ensures
            frame_step_post(old(self), final(self), r),
    {
        if !self.in_slice {
            if self.frame_thread >= NUM_THREADS {
                return Ok(Some(FrameEvent::Finished));
            }
            let th = self.threads[self.frame_thread];
            if !th.paused_current && th.pc != INACTIVE_THREAD {
                self.start_slice();
            } else {
                self.frame_thread = self.frame_thread + 1;
            }
            Ok(None)
        } else {
            let ir = self.execute_instruction();
            let ghost mid = *self;
            let r = match ir {
                Err(e) => Err(e),
                Ok(None) => Ok(None),
                Ok(Some(h)) => Ok(Some(FrameEvent::Request(h))),
            };
            let ok = match ir {
                Ok(_) => true,
                Err(_) => false,
            };
            if ok && self.goto_next_thread {
                self.end_slice();
            }
            assert(instruction_post(old(self), &mid, ir) && step_outcome(&mid, self, ir, r));
            r
        }
    }

    /// Runs the frame on by `frame_step`, at most `max_steps` steps: threads
    /// are taken in increasing id, and one runs when it is not paused and is
    /// active, from its program counter until it pauses or is killed. Returns
    /// `Finished` when every thread is done, a request when a slice needs the
    /// host (call again after serving it), `OutOfSteps` when the budget is
    /// spent, or the first fatal error. Paused flags never change here, and
    /// no thread the frame has not reached, or passed over, changes its
    /// program counter.
    pub fn host_frame(&mut self, max_steps: u64) -> (r: Result<FrameEvent, VmError>)
        requires
            old(self).wf(),
        ensures
            final(self).wf(),
            exists|tr: Seq<VirtualMachine>| #[trigger] frame_run(tr) && tr[0] == *old(self) && tr.len() <= max_steps + 1
                && if r == Ok::<FrameEvent, VmError>(FrameEvent::OutOfSteps) {
                tr.len() == max_steps + 1 && tr.last() == *final(self)
            } else {
                tr.len() <= max_steps && frame_step_post(&tr.last(), final(self), step_result(r))
            },
            final(self).frame_thread >= old(self).frame_thread,
            forall|t: int| 0 <= t < NUM_THREADS ==> {
                &&& (#[trigger] final(self).threads@[t]).paused_current == old(self).threads@[t].paused_current
                &&& final(self).threads@[t].paused_requested == old(self).threads@[t].paused_requested
                &&& final(self).threads@[t].requested_pc_offset is None ==> old(self).threads@[t].requested_pc_offset is None
            },
            forall|t: int| final(self).frame_thread <= t < NUM_THREADS ==>
                (#[trigger] final(self).threads@[t]).pc == old(self).threads@[t].pc,
            forall|t: int| old(self).frame_thread <= t < final(self).frame_thread
                && !(!old(self).threads@[t].paused_current && old(self).threads@[t].pc != INACTIVE_THREAD)
                ==> (#[trigger] final(self).threads@[t]).pc == old(self).threads@[t].pc,
            r == Ok::<FrameEvent, VmError>(FrameEvent::Finished) ==> final(self).frame_thread == NUM_THREADS
                && !final(self).in_slice,
    {
        let mut steps: u64 = 0;
        let ghost mut tr: Seq<VirtualMachine> = seq![*self];
        while steps < max_steps
            invariant
                self.wf(),
                steps <= max_steps,
                frame_run(tr),
                tr.len() == steps + 1,
                tr[0] == *old(self),
                tr.last() == *self,
                self.frame_thread >= old(self).frame_thread,
                forall|t: int| 0 <= t < NUM_THREADS ==> {
                    &&& (#[trigger] self.threads@[t]).paused_current == old(self).threads@[t].paused_current
                    &&& self.threads@[t].paused_requested == old(self).threads@[t].paused_requested
                    &&& self.threads@[t].requested_pc_offset is None ==> old(self).threads@[t].requested_pc_offset is None
                },
                forall|t: int| self.frame_thread <= t < NUM_THREADS ==>
                    (#[trigger] self.threads@[t]).pc == old(self).threads@[t].pc,
                forall|t: int| old(self).frame_thread <= t < self.frame_thread
                    && !(!old(self).threads@[t].paused_current && old(self).threads@[t].pc != INACTIVE_THREAD)
                    ==> (#[trigger] self.threads@[t]).pc == old(self).threads@[t].pc,
            decreases max_steps - steps,
        {
            let ghost prev = *self;
            let r = self.frame_step();
            match r {
                Ok(None) => {
                    proof {
                        let cur = *self;
                        assert(frame_step_post(&prev, &cur, Ok(None)));
                        let tr2 = tr.push(cur);
                        assert(forall|i: int| 0 <= i < tr.len() ==> tr2[i] == tr[i]);
                        assert(frame_run(tr2));
                        tr = tr2;
                    }
                    steps = steps + 1;
                },
                Ok(Some(e)) => {
                    assert(frame_run(tr) && frame_step_post(&tr.last(), self, step_result(Ok(e))));
                    return Ok(e);
                },
                Err(e) => {
                    assert(frame_run(tr) && frame_step_post(&tr.last(), self, step_result(Err(e))));
                    return Err(e);
                },
            }
        }
        assert(frame_run(tr));
        Ok(FrameEvent::OutOfSteps)
    }
}

/// How an executed instruction ends a step: its error or host request is
/// the step's result, and a pause or kill ends the slice, the thread's
/// program counter keeping the cursor.
pub open spec fn step_outcome(
    mid: &VirtualMachine,
    new: &VirtualMachine,
    ir: Result<Option<HostRequest>, VmError>,
    r: Result<Option<FrameEvent>, VmError>,
) -> bool {
    &&& r == match ir {
        Err(e) => Err(e),
        Ok(None) => Ok(None),
        Ok(Some(h)) => Ok(Some(FrameEvent::Request(h))),
    }
    &&& if ir is Ok && mid.goto_next_thread {
        &&& new.wf()
        &&& new.threads@ == mid.threads@.update(
            mid.frame_thread as int,
            Thread { pc: mid.script_ptr, ..mid.threads@[mid.frame_thread as int] },
        )
        &&& !new.in_slice
        &&& new.frame_thread == mid.frame_thread + 1
        &&& new.variables@ == mid.variables@
        &&& new.video == mid.video
        &&& new.resource == mid.resource
    } else {
        *new == *mid
    }
}

/// One step of a frame from `old` to `new`. Outside a slice: past the last
/// thread the frame is finished; a thread that is not paused and is active
/// starts its slice with the cursor at its program counter and an empty
/// stack; any other thread is passed over. Inside a slice: one instruction
/// runs as `instruction_post` says, and `step_outcome` ends the step.
pub open spec fn frame_step_post(old: &VirtualMachine, new: &VirtualMachine, r: Result<Option<FrameEvent>, VmError>) -> bool {
    let ft = old.frame_thread as int;
    let th = old.threads@[ft];
    if !old.in_slice {
        &&& new.wf()
        &&& new.variables@ == old.variables@
        &&& new.video == old.video
        &&& new.resource == old.resource
        &&& new.threads@ == old.threads@
        &&& if old.frame_thread >= NUM_THREADS {
            r == Ok::<Option<FrameEvent>, VmError>(Some(FrameEvent::Finished)) && *new == *old
        } else if !th.paused_current && th.pc != INACTIVE_THREAD {
            &&& r == Ok::<Option<FrameEvent>, VmError>(None)
            &&& new.in_slice
            &&& new.frame_thread == old.frame_thread
            &&& new.script_ptr == th.pc
            &&& new.stack_ptr == 0
            &&& !new.goto_next_thread
        } else {
            &&& r == Ok::<Option<FrameEvent>, VmError>(None)
            &&& !new.in_slice
            &&& new.frame_thread == old.frame_thread + 1
        }
    } else {
        exists|mid: VirtualMachine, ir: Result<Option<HostRequest>, VmError>|
            #[trigger] instruction_post(old, &mid, ir) && step_outcome(&mid, new, ir, r)
    }
}

/// `tr` is a run of frame steps, each of which went on.
pub open spec fn frame_run(tr: Seq<VirtualMachine>) -> bool {
    &&& tr.len() >= 1
    &&& forall|i: int| 0 <= i < tr.len() - 1 ==> #[trigger] frame_step_post(&tr[i], &tr[i + 1], Ok(None))
}

/// A frame's result as a step result.
pub open spec fn step_result(r: Result<FrameEvent, VmError>) -> Result<Option<FrameEvent>, VmError> {
    match r {
        Ok(e) => Ok(Some(e)),
        Err(e) => Err(e),
    }
}

} // verus!
