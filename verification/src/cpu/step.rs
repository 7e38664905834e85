//! One step of the machine: interrupt service, one instruction, and the
//! picture processing unit catching up with the cycles spent.
use crate::cpu::bus::BusView;
use crate::cpu::controller::Controller;
use crate::cpu::cpu::Cpu;
use crate::cpu::cpu::CpuStatusRegister;
use crate::cpu::cpu::CpuView;
use crate::cpu::cpu::NMI_VECTOR;
use crate::cpu::instructions::decode;
use crate::cpu::instructions::Instruction;
use vstd::prelude::*;

verus! {

/// Cycles that entering the interrupt handler takes.
pub const NMI_CYCLES: u8 = 7;

/// Cycles for which an OAM DMA transfer stalls the processor; one more when
/// the transfer starts on an odd cycle.
pub const DMA_STALL_CYCLES: u16 = 513;

/// The most cycles that one step can add to the cycle counter.
pub const MAX_STEP_CYCLES: u64 = 531;

impl CpuView {
    /// The picture processing unit has latched an interrupt request.
    pub open spec fn nmi_pending(self) -> bool {
        self.bus.ppu.nmi_interrupt is Some
    }

    /// The processor after it entered the interrupt handler: the latch is
    /// cleared, the program counter and the status (with `U` set and `B`
    /// clear) are on the stack, `I` is set, and the program counter comes
    /// from the vector at `$FFFA`.
    pub open spec fn service_nmi(self) -> CpuView {
        let acknowledged = CpuView {
            bus: BusView { ppu: self.bus.ppu.acknowledge_nmi(), ..self.bus },
            ..self
        };
        let pushed = acknowledged.push_u16(self.pc).push(
            (self.status.bits | 0x20) & !0x10u8,
        ).set_flag(0x04, true);
        CpuView {
            pc: pushed.bus.peek_u16(NMI_VECTOR),
            bus: pushed.bus.after_read_u16(NMI_VECTOR),
            ..pushed
        }
    }

    /// The processor at the instruction boundary: inside the interrupt
    /// handler if a request was pending, else unchanged.
    pub open spec fn poll_interrupt(self) -> CpuView {
        if self.nmi_pending() {
            self.service_nmi()
        } else {
            self
        }
    }

    /// The instruction that the program counter points at.
    pub open spec fn current_instruction(self) -> Instruction {
        decode(self.bus.peek(self.pc))
    }

    /// The processor after the fetch of the opcode and the execution of the
    /// instruction that the program counter points at.
    pub open spec fn run_instruction(self) -> CpuView {
        CpuView { bus: self.bus.after_read(self.pc), ..self }.execute(self.current_instruction())
    }

    /// The cycles that the instruction at the program counter takes.
    pub open spec fn instruction_cycles(self) -> int {
        CpuView { bus: self.bus.after_read(self.pc), ..self }.execute_cycles(
            self.current_instruction(),
        )
    }

    /// The cycles that a step spends before any DMA stall: seven for a
    /// serviced interrupt, and those of the instruction.
    pub open spec fn spent_cycles(self) -> int {
        (if self.nmi_pending() {
            NMI_CYCLES as int
        } else {
            0
        }) + self.poll_interrupt().instruction_cycles()
    }

    /// The processor after `cycles` cycles were accounted for: the counter
    /// moves on, and the picture processing unit runs three dots per cycle
    /// in one go.
    pub open spec fn account(self, cycles: int) -> CpuView {
        CpuView {
            cycle: (self.cycle + cycles) as u64,
            bus: BusView { ppu: self.bus.ppu.step((3 * cycles) as u8), ..self.bus },
            ..self
        }
    }

    /// The cycles for which a pending OAM DMA transfer stalls the processor:
    /// 513, and one more if the cycle counter is odd when the stall begins,
    /// which is when the instruction that started the transfer is accounted
    /// for.
    pub open spec fn stall_cycles(self) -> int {
        if self.bus.dma_stall {
            DMA_STALL_CYCLES + self.cycle % 2
        } else {
            0
        }
    }

    /// The processor after the stall for a pending OAM DMA transfer, during
    /// which the picture processing unit runs on.
    pub open spec fn stall(self) -> CpuView {
        CpuView {
            cycle: (self.cycle + self.stall_cycles()) as u64,
            bus: BusView {
                ppu: self.bus.ppu.run(self.stall_cycles() as nat),
                dma_stall: false,
                ..self.bus
            },
            ..self
        }
    }

    /// The processor with the pause switch set if it runs in step mode.
    pub open spec fn pause_in_step_mode(self) -> CpuView {
        CpuView {
            controller: Controller {
                pause: self.controller.pause || self.controller.step_mode,
                ..self.controller
            },
            ..self
        }
    }

    /// The processor after one step. A paused processor executes nothing.
    /// Otherwise a pending interrupt is serviced, one instruction is
    /// executed, the cycles spent are accounted for, and a DMA transfer that
    /// the instruction started stalls the processor.
    pub open spec fn step(self) -> CpuView {
        if self.controller.pause {
            self.pause_in_step_mode()
        } else {
            self.poll_interrupt().run_instruction().account(
                self.spent_cycles(),
            ).stall().pause_in_step_mode()
        }
    }

    /// During the step the picture processing unit completes a frame.
    pub open spec fn step_completes_frame(self) -> bool {
        let executed = self.poll_interrupt().run_instruction();
        let accounted = executed.account(self.spent_cycles());
        !self.controller.pause && (executed.bus.ppu.completes_frame(
            (3 * self.spent_cycles()) as u8,
        ) || accounted.bus.ppu.run_completes_frame(accounted.stall_cycles() as nat))
    }
}

impl Cpu {
    /// Services a pending interrupt request, if there is one, and returns
    /// the cycles that took.
    pub fn poll_interrupt(&mut self) -> (cycles: u8)
        requires
            old(self).wf(),
        ensures
            final(self)@ == old(self)@.poll_interrupt(),
            final(self).cycle == old(self).cycle,
            cycles == (if old(self)@.nmi_pending() {
                NMI_CYCLES
            } else {
                0
            }),
            final(self).wf(),
    {
        match self.bus.ppu.poll_nmi_status() {
            Some(_) => {
                self.push_u16(self.pc);
                self.push((self.status.bits | CpuStatusRegister::U) & !CpuStatusRegister::B);
                self.status.set(CpuStatusRegister::I, true);
                self.pc = self.bus.read_u16(NMI_VECTOR);
                NMI_CYCLES
            },
            None => {
                assert(self@ =~= old(self)@);
                0
            },
        }
    }

    /// Fetches, decodes and executes the instruction at the program counter
    /// and returns the cycles it took.
    fn run_instruction(&mut self) -> (cycles: u8)
        requires
            old(self).wf(),
        ensures
            final(self)@ == old(self)@.run_instruction(),
            final(self).cycle == old(self).cycle,
            cycles == old(self)@.instruction_cycles(),
            cycles <= 10,
            final(self).wf(),
    {
        let opcode = self.bus.read(self.pc);
        let instruction = Instruction::from_u8(opcode);
        self.execute_instruction(&instruction)
    }

    /// Stalls the processor for a pending OAM DMA transfer and says whether
    /// the picture processing unit completed a frame meanwhile.
    fn stall(&mut self) -> (frame_complete: bool)
        requires
            old(self).wf(),
            old(self).cycle + DMA_STALL_CYCLES + 1 <= u64::MAX,
        ensures
            final(self)@ == old(self)@.stall(),
            frame_complete == old(self).bus.ppu@.run_completes_frame(
                old(self)@.stall_cycles() as nat,
            ),
            final(self).wf(),
    {
        if !self.bus.dma_stall {
            return false;
        }
        let stall: u16 = DMA_STALL_CYCLES + (self.cycle % 2) as u16;
        self.bus.dma_stall = false;
        self.cycle += stall as u64;
        let ghost start = self@;
        let mut frame_complete = false;
        let mut i: u16 = 0;
        while i < stall
            invariant
                i <= stall,
                self.wf(),
                self@ == (CpuView { bus: BusView { ppu: self.bus.ppu@, ..start.bus }, ..start }),
                self.bus.ppu@ == start.bus.ppu.run(i as nat),
                frame_complete == start.bus.ppu.run_completes_frame(i as nat),
            decreases stall - i,
        {
            if self.bus.ppu.step(3) {
                frame_complete = true;
            }
            i += 1;
        }
        frame_complete
    }

    /// Runs one step and says whether a frame was completed, which is when
    /// the host should present the picture.
    pub fn step(&mut self) -> (frame_complete: bool)
        requires
            old(self).wf(),
            old(self).cycle + MAX_STEP_CYCLES <= u64::MAX,
        ensures
            final(self)@ == old(self)@.step(),
            frame_complete == old(self)@.step_completes_frame(),
            final(self).wf(),
    {
        let mut frame_complete = false;
        if !self.controller.pause {
            let interrupt_cycles = self.poll_interrupt();
            let cycles = interrupt_cycles + self.run_instruction();
            self.cycle += cycles as u64;
            let first = self.bus.ppu.step(3 * cycles);
            let second = self.stall();
            frame_complete = first || second;
        }
        if self.controller.step_mode {
            self.controller.pause = true;
        }
        frame_complete
    }
}

} // verus!
