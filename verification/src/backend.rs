use vstd::prelude::*;
use std::collections::HashSet;
use crate::cpu::step_post;
use crate::dsp::{spec_step, DSP, NESTING_LIMIT};
use crate::fault::Fault;
use crate::Gamecube;

verus! {

broadcast use vstd::std_specs::hash::group_hash_axioms;

/// The number of instructions in one batch of a run. Between two batches
/// the driver looks for a command to stop, and refreshes what it shows.
pub const BATCH: u32 = 2000;

/// The number of bytes by which the instruction window starts before the
/// current instruction address.
pub const WINDOW_LEAD: u32 = 5 * 4;

/// A command to the driver.
#[derive(Clone, Copy, Debug, PartialEq, Eq, Structural)]
pub enum Command {
    Run,
    Step,
    Stop,
    Breakpoint(u32),
}

/// How a batch ended.
#[derive(Clone, Copy, Debug, PartialEq, Eq, Structural)]
pub enum BatchEnd {
    /// Every instruction of the batch retired, and none stopped at a
    /// breakpoint.
    Completed,
    /// An instruction retired and left the current instruction address at
    /// this breakpoint.
    Breakpoint(u32),
    /// A step failed with this fault.
    Faulted(Fault),
}

/// A snapshot of the registers of the CPU that the driver shows.
pub struct SharedProcessorState {
    pub cia: u32,
    pub nia: u32,
    pub lr: u32,
    pub ctr: u32,
    pub srr0: u32,
    pub srr1: u32,
    pub gprs: [u32; 32],
}

impl SharedProcessorState {
    /// A snapshot with every register zero.
    pub fn new() -> (r: Self)
        ensures
            r.cia == 0 && r.nia == 0 && r.lr == 0 && r.ctr == 0 && r.srr0 == 0 && r.srr1 == 0,
            forall|i: int| 0 <= i < 32 ==> r.gprs[i] == 0,
    {
        Self { cia: 0, nia: 0, lr: 0, ctr: 0, srr0: 0, srr1: 0, gprs: [0;32] }
    }

    /// Takes the snapshot of the machine `gc`.
    pub fn update(&mut self, gc: &Gamecube)
        ensures
            final(self).cia == gc.cpu.cia,
            final(self).nia == gc.cpu.nia,
            final(self).lr == gc.cpu.lr,
            final(self).ctr == gc.cpu.ctr,
            final(self).srr0 == gc.cpu.srr0,
            final(self).srr1 == gc.cpu.srr1,
            final(self).gprs == gc.cpu.gprs,
    {
        self.cia = gc.cpu.cia;
        self.nia = gc.cpu.nia;
        self.lr = gc.cpu.lr;
        self.ctr = gc.cpu.ctr;
        self.srr0 = gc.cpu.srr0;
        self.srr1 = gc.cpu.srr1;
        self.gprs = gc.cpu.gprs;
    }
}

/// The address of entry `i` of the instruction window around the current
/// instruction address `cia`: `i` words after the start of the window,
/// modulo 2^32.
pub open spec fn spec_window_address(cia: u32, i: usize) -> u32 {
    cia.wrapping_sub(WINDOW_LEAD).wrapping_add((((i % 0x4000_0000) as u32) * 4) as u32)
}

/// The address of entry `i` of the instruction window.
#[verifier::when_used_as_spec(spec_window_address)]
pub fn window_address(cia: u32, i: usize) -> (r: u32)
    ensures
        r == spec_window_address(cia, i),
{
    cia.wrapping_sub(WINDOW_LEAD).wrapping_add(((i % 0x4000_0000) as u32) * 4)
}

/// Entry `i` of the instruction window of the machine `gc`: its address,
/// and the word that a fetch finds there, or zero where the fetch fails.
pub open spec fn window_entry(gc: &Gamecube, i: usize) -> (u32, u32) {
    let addr: u32 = spec_window_address(gc.cpu.cia, i);
    (addr, match gc.read_u32(addr, true) {
        Ok(word) => word,
        Err(_) => 0u32,
    })
}

/// Fills `buffer` with the instruction window of the machine `gc`: the
/// words around the current instruction address, five of them before it.
pub fn update_instruction_buffer(gc: &Gamecube, buffer: &mut Vec<(u32, u32)>)
    ensures
        final(buffer)@.len() == old(buffer)@.len(),
        forall|i: int| 0 <= i < old(buffer)@.len() ==> #[trigger] final(buffer)@[i] == window_entry(gc, i as usize),
{
    let mut i: usize = 0;
    while i < buffer.len()
        invariant
            i <= buffer@.len(),
            buffer@.len() == old(buffer)@.len(),
            forall|j: int| 0 <= j < i ==> #[trigger] buffer@[j] == window_entry(gc, j as usize),
        decreases buffer@.len() - i,
    {
        let addr: u32 = window_address(gc.cpu.cia, i);
        let word: u32 = match gc.read_u32(addr, true) {
            Ok(w) => w,
            Err(_) => 0,
        };
        buffer.set(i, (addr, word));
        i += 1;
    }
}

/// The driver's state: the machine, the DSP, the breakpoints, and whether a
/// run is under way.
pub struct Emulator {
    pub gamecube: Gamecube,
    pub dsp: DSP,
    pub breakpoints: HashSet<u32>,
    pub running: bool,
}

/// What one step of the DSP followed by one step of the CPU leaves of the
/// driver's state `pre`. The DSP steps first, on the shared registers and
/// the audio RAM of the machine; where its step fails, the CPU does not
/// step.
pub open spec fn pair_post(pre: Emulator, post: Emulator, res: Result<(), Fault>) -> bool {
    let turn = spec_step(pre.dsp, pre.gamecube.dsp_client, pre.gamecube.aram@, NESTING_LIMIT as nat);
    let handed = Gamecube { dsp_client: turn.client, ..pre.gamecube };
    &&& post.breakpoints == pre.breakpoints
    &&& post.running == pre.running
    &&& post.dsp == turn.dsp
    &&& if turn.res is Err {
        post.gamecube == handed && res == turn.res
    } else {
        step_post(handed, post.gamecube, res)
    }
}

/// The state `post` is what `n` pairs of steps that all succeed make of the
/// state `pre`, none of which, but maybe the last, ends at a breakpoint.
pub open spec fn quiet_run(pre: Emulator, post: Emulator, n: nat) -> bool
    decreases n,
{
    if n == 0 {
        post == pre
    } else {
        exists|mid: Emulator, res: Result<(), Fault>|
            {
                &&& quiet_run(pre, mid, (n - 1) as nat)
                &&& (n == 1 || !pre.breakpoints@.contains(mid.gamecube.cpu.cia))
                &&& res is Ok
                &&& #[trigger] pair_post(mid, post, res)
            }
    }
}

/// What a batch of at most `limit` pairs of steps that ends with `end`
/// leaves of the state `pre`.
pub open spec fn batch_post(pre: Emulator, post: Emulator, limit: nat, end: BatchEnd) -> bool {
    match end {
        BatchEnd::Completed => quiet_run(pre, post, limit) && (limit == 0 || !pre.breakpoints@.contains(post.gamecube.cpu.cia)),
        BatchEnd::Breakpoint(addr) => {
            &&& addr == post.gamecube.cpu.cia
            &&& pre.breakpoints@.contains(addr)
            &&& exists|n: nat| 1 <= n <= limit && #[trigger] quiet_run(pre, post, n)
        },
        BatchEnd::Faulted(f) => exists|n: nat, mid: Emulator|
            {
                &&& n < limit
                &&& #[trigger] quiet_run(pre, mid, n)
                &&& (n == 0 || !pre.breakpoints@.contains(mid.gamecube.cpu.cia))
                &&& pair_post(mid, post, Err(f))
            },
    }
}

impl Emulator {
    /// A driver over the machine and the DSP, with no breakpoint, at rest.
    pub fn new(gamecube: Gamecube, dsp: DSP) -> (r: Self)
        ensures
            r.gamecube == gamecube,
            r.dsp == dsp,
            r.breakpoints@ == Set::<u32>::empty(),
            !r.running,
    {
        Self { gamecube, dsp, breakpoints: HashSet::new(), running: false }
    }

    /// Steps the DSP once, and after it the CPU.
    pub fn pair_step(&mut self) -> (res: Result<(), Fault>)
        ensures
            pair_post(*old(self), *final(self), res),
    {
        self.dsp.step(&mut self.gamecube.dsp_client, &self.gamecube.aram)?;
        crate::cpu::step(&mut self.gamecube)
    }

    /// Runs one batch: at most `limit` pairs of steps. The batch ends early
    /// at the first instruction that leaves the current instruction
    /// address at a breakpoint, and at the first step that fails.
    pub fn run_batch(&mut self, limit: u32) -> (end: BatchEnd)
        ensures
            batch_post(*old(self), *final(self), limit as nat, end),
    {
        let mut done: u32 = 0;
        while done < limit
            invariant
                done <= limit,
                self.breakpoints == old(self).breakpoints,
                quiet_run(*old(self), *self, done as nat),
                done == 0 || !old(self).breakpoints@.contains(self.gamecube.cpu.cia),
            decreases limit - done,
        {
            let ghost before: Emulator = *self;
            let res: Result<(), Fault> = self.pair_step();
            match res {
                Err(f) => {
                    assert(quiet_run(*old(self), before, done as nat) && pair_post(before, *self, Err(f)));
                    return BatchEnd::Faulted(f);
                },
                Ok(_) => {},
            }
            done += 1;
            assert(quiet_run(*old(self), before, (done - 1) as nat) && res is Ok && pair_post(before, *self, res));
            assert(quiet_run(*old(self), *self, done as nat));
            let cia: u32 = self.gamecube.cpu.cia;
            if self.breakpoints.contains(&cia) {
                return BatchEnd::Breakpoint(cia);
            }
        }
        BatchEnd::Completed
    }

    /// The state after the command `command` has been taken in, apart from
    /// the step that `Step` asks for: `Run` starts a run, `Stop` ends it,
    /// and `Breakpoint` adds a breakpoint.
    pub open spec fn commanded(pre: Emulator, post: Emulator, command: Command) -> bool {
        &&& post.gamecube == pre.gamecube
        &&& post.dsp == pre.dsp
        &&& post.running == (match command {
            Command::Run => true,
            Command::Stop => false,
            _ => pre.running,
        })
        &&& post.breakpoints@ == (match command {
            Command::Breakpoint(addr) => pre.breakpoints@.insert(addr),
            _ => pre.breakpoints@,
        })
    }

    /// Takes in a command. `Step` makes one pair of steps and returns how
    /// it ended; any other command changes the driver's state only, and
    /// succeeds.
    pub fn handle(&mut self, command: Command) -> (res: Result<(), Fault>)
        ensures
            command is Step ==> pair_post(*old(self), *final(self), res),
            !(command is Step) ==> res is Ok && Self::commanded(*old(self), *final(self), command),
    {
        match command {
            Command::Run => {
                self.running = true;
                Ok(())
            },
            Command::Step => self.pair_step(),
            Command::Stop => {
                self.running = false;
                Ok(())
            },
            Command::Breakpoint(addr) => {
                self.breakpoints.insert(addr);
                Ok(())
            },
        }
    }

    /// Whether a run goes on after a batch that ended with `end`: only
    /// after a batch that completed, and only where no stop was asked for
    /// in the meantime.
    pub open spec fn goes_on(running: bool, end: BatchEnd, stop_requested: bool) -> bool {
        running && end is Completed && !stop_requested
    }

    /// Settles the run after a batch: a breakpoint, a fault, and a stop
    /// that was asked for during the batch end the run.
    pub fn settle(&mut self, end: BatchEnd, stop_requested: bool)
        ensures
            final(self).running == Self::goes_on(old(self).running, end, stop_requested),
            final(self).gamecube == old(self).gamecube,
            final(self).dsp == old(self).dsp,
            final(self).breakpoints == old(self).breakpoints,
    {
        let completed: bool = match end {
            BatchEnd::Completed => true,
            _ => false,
        };
        self.running = self.running && completed && !stop_requested;
    }
}

} // verus!
