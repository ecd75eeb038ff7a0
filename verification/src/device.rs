//! The frame driver's decisions: what one turn of the emulation loop
//! does around an instruction, and how long a frame runs and waits.

use vstd::prelude::*;
use crate::cpu::{lemma_reported_iff_unimplemented, CpuView, UnimplementedOpcode, CPU};
use crate::gpu::{GpuView, OAM_SIZE};
use crate::interrupt_controller::{InterruptController, InterruptFlags};
use crate::joypad::{Joypad, KeyValue};
use crate::mbc::{LoadError, MBC};
use crate::mbc0::{title_of, MBC0};
use crate::mmu::MmuView;
use crate::registers::Registers;

verus! {

pub const WINDOW_WIDTH: u32 = 160;
pub const WINDOW_HEIGTH: u32 = 144;
pub const PIXEL_SCALE: u32 = 3;
/// The cycle budget of one frame.
pub const CYCLES_PER_FRAME: u32 = 69905;
/// What the dispatch of an interrupt costs.
pub const DISPATCH_CYCLES: u32 = 5;
/// The most that one turn of the loop can cost: six machine cycles of
/// four dots, and a dispatch.
pub const MAX_TURN_CYCLES: u32 = 29;
/// The time that a frame should take, in milliseconds.
pub const FRAME_MILLIS: u128 = 16;

pub struct Device {
    pub cpu: CPU,
}

impl CpuView {
    /// The machine after a pending bulk transfer: the 160 bytes from the
    /// source address on, as the memory bus reads them, become OAM.
    pub open spec fn transfer_dma(self) -> CpuView {
        if self.mmu.dma_transfer {
            CpuView {
                gpu: GpuView {
                    oam: Seq::new(
                        OAM_SIZE as nat,
                        |i: int| self.mmu.read_byte(((self.mmu.dma_address + i) % 0x10000) as u16),
                    ),
                    ..self.gpu
                },
                mmu: MmuView { dma_transfer: false, ..self.mmu },
                ..self
            }
        } else {
            self
        }
    }

    /// The machine after the interrupt requests of the pixel engine and
    /// of the joypad were handed to the controller and withdrawn where
    /// they came from.
    pub open spec fn collect_requests(self) -> CpuView {
        let with_stat = if self.gpu.stat_interrupt_req {
            self.interrupt_controller.with_request(InterruptFlags::LCDStat)
        } else {
            self.interrupt_controller
        };
        let with_vblank = if self.gpu.vblank_interrupt_req {
            with_stat.with_request(InterruptFlags::VBlank)
        } else {
            with_stat
        };
        let with_joypad = if self.joypad.joypad_interrupt_req {
            with_vblank.with_request(InterruptFlags::Joypad)
        } else {
            with_vblank
        };
        CpuView {
            interrupt_controller: with_joypad,
            gpu: GpuView { stat_interrupt_req: false, vblank_interrupt_req: false, ..self.gpu },
            joypad: Joypad { joypad_interrupt_req: false, ..self.joypad },
            ..self
        }
    }

    /// Interrupt dispatch, and the cycles it costs: with the master latch
    /// set and a source pending, the latch is cleared, PC is pushed, the
    /// vector of the source becomes PC and its request is cleared.
    /// Otherwise nothing happens.
    pub open spec fn dispatch(self) -> (CpuView, u32) {
        if self.interrupt_controller.interrupt_master_enable {
            match self.interrupt_controller.first_pending() {
                Some(flag) => {
                    let pushed = self.push(self.registers.pc);
                    (
                        CpuView {
                            registers: Registers { pc: flag.spec_vector(), ..pushed.registers },
                            interrupt_controller: InterruptController {
                                interrupt_master_enable: false,
                                ..pushed.interrupt_controller.without_request(flag)
                            },
                            ..pushed
                        },
                        DISPATCH_CYCLES,
                    )
                },
                None => (self, 0),
            }
        } else {
            (self, 0)
        }
    }

    /// What follows an instruction that cost `dots` dots: the bulk
    /// transfer, the pixel engine, the interrupt requests and the
    /// dispatch. The result counts the dots and the dispatch.
    pub open spec fn after_instruction(self, dots: u8) -> (CpuView, u32) {
        let moved = self.transfer_dma();
        let shown = CpuView { gpu: moved.gpu.update_scanlines(dots), ..moved };
        let dispatched = shown.collect_requests().dispatch();
        (dispatched.0, (dots + dispatched.1) as u32)
    }

    /// One turn of the emulation loop: one instruction, and what follows
    /// it unless the instruction was the prefix of the extended table.
    pub open spec fn drive(self) -> (CpuView, Result<u32, UnimplementedOpcode>) {
        let (stepped, outcome) = self.step();
        match outcome {
            Err(e) => (stepped, Err(e)),
            Ok(cycles) => {
                let dots = ((cycles * 4) % 256) as u8;
                if stepped.cb_prefix {
                    (stepped, Ok(dots as u32))
                } else {
                    (stepped.after_instruction(dots).0, Ok(stepped.after_instruction(dots).1))
                }
            },
        }
    }

    /// The turns of one frame, from `total` cycles already spent: turn
    /// follows turn until the budget is used up or an opcode is
    /// reported. No turn is cut short and none is skipped.
    pub open spec fn run_frame_from(self, total: u32) -> (CpuView, Result<u32, UnimplementedOpcode>)
        decreases CYCLES_PER_FRAME + MAX_TURN_CYCLES - total,
    {
        if total >= CYCLES_PER_FRAME {
            (self, Ok(total))
        } else {
            let (next, outcome) = self.drive();
            match outcome {
                Err(e) => (next, Err(e)),
                Ok(spent) => if 0 < spent <= MAX_TURN_CYCLES {
                    next.run_frame_from((total + spent) as u32)
                } else {
                    (next, Ok(total))
                },
            }
        }
    }
}

/// How long to wait, in milliseconds, after a frame that took
/// `time_spent` milliseconds: the rest of the frame's time, or nothing
/// for a frame that overran it.
pub open spec fn spec_frame_delay(time_spent: u128) -> Option<u64> {
    if time_spent < FRAME_MILLIS { Some((FRAME_MILLIS - time_spent) as u64) } else { None }
}

#[verifier::when_used_as_spec(spec_frame_delay)]
pub fn frame_delay(time_spent: u128) -> (r: Option<u64>)
    ensures
        r == spec_frame_delay(time_spent),
{
    if time_spent < FRAME_MILLIS {
        Some((FRAME_MILLIS - time_spent) as u64)
    } else {
        None
    }
}

/// A turn that executes its instruction spends between 4 and 29 cycles.
pub proof fn lemma_drive_spends(m: CpuView)
    ensures
        m.drive().1 matches Ok(spent) ==> 4 <= spent <= 29,
{
    let (fetched, opcode) = m.fetch_byte();
    lemma_reported_iff_unimplemented(fetched, opcode);
}

impl Device {
    pub fn new() -> (r: Device)
        ensures
            r.cpu@ == CpuView::power_on(),
    {
        Device { cpu: CPU::new() }
    }

    /// Takes `image` as the cartridge if its header is acceptable.
    pub fn open_rom(&mut self, image: Vec<u8>) -> (r: Result<(), LoadError>)
        ensures
            match r {
                Ok(()) => MBC0::load_error(image@) is None && final(self).cpu@ == (CpuView {
                    mmu: MmuView { rom: image@, ..old(self).cpu@.mmu },
                    ..old(self).cpu@
                }),
                Err(e) => MBC0::load_error(image@) == Some(e) && final(self).cpu@ == old(self).cpu@,
            },
    {
        self.cpu.open_rom(image)
    }

    /// The title of the cartridge, without its padding.
    pub fn game_title(&self) -> (r: Vec<u8>)
        ensures
            r@ == title_of(self.cpu@.mmu.rom),
    {
        self.cpu.mmu.game_title()
    }

    pub fn press(&mut self, key: KeyValue)
        ensures
            final(self).cpu@ == (CpuView { joypad: old(self).cpu@.joypad.after_press(key), ..old(self).cpu@ }),
    {
        self.cpu.joypad.set_key_pressed(key);
    }

    pub fn release(&mut self, key: KeyValue)
        ensures
            final(self).cpu@ == (CpuView { joypad: old(self).cpu@.joypad.after_release(key), ..old(self).cpu@ }),
    {
        self.cpu.joypad.set_key_released(key);
    }

    /// Carries out a pending bulk transfer into OAM.
    pub fn transfer_dma(&mut self)
        ensures
            final(self).cpu@ == old(self).cpu@.transfer_dma(),
    {
        if self.cpu.mmu.dma_transfer {
            let source: u16 = self.cpu.mmu.dma_address;
            let ghost before = self.cpu@;
            let mut i: usize = 0;
            while i < OAM_SIZE
                invariant
                    i <= OAM_SIZE,
                    source == before.mmu.dma_address,
                    self.cpu@.mmu == before.mmu,
                    self.cpu@.gpu.oam.len() == OAM_SIZE,
                    forall|k: int|
                        0 <= k < i ==> #[trigger] self.cpu@.gpu.oam[k] == before.mmu.read_byte(
                            ((before.mmu.dma_address + k) % 0x10000) as u16,
                        ),
                    self.cpu@ == (CpuView { gpu: GpuView { oam: self.cpu@.gpu.oam, ..before.gpu }, ..before }),
                decreases OAM_SIZE - i,
            {
                let value: u8 = self.cpu.mmu.read_byte(source.wrapping_add(i as u16));
                self.cpu.gpu.write_byte_oam(i, value);
                i = i + 1;
            }
            self.cpu.mmu.dma_transfer = false;
            assert(self.cpu@.gpu.oam =~= old(self).cpu@.transfer_dma().gpu.oam);
        }
    }

    /// Hands the interrupt requests of the pixel engine and of the
    /// joypad to the controller.
    pub fn collect_requests(&mut self)
        ensures
            final(self).cpu@ == old(self).cpu@.collect_requests(),
    {
        if self.cpu.gpu.stat_interrupt_req {
            self.cpu.interrupt_controller.set_interrupt_flag(InterruptFlags::LCDStat);
            self.cpu.gpu.stat_interrupt_req = false;
        }
        if self.cpu.gpu.vblank_interrupt_req {
            self.cpu.interrupt_controller.set_interrupt_flag(InterruptFlags::VBlank);
            self.cpu.gpu.vblank_interrupt_req = false;
        }
        if self.cpu.joypad.joypad_interrupt_req {
            self.cpu.interrupt_controller.set_interrupt_flag(InterruptFlags::Joypad);
            self.cpu.joypad.joypad_interrupt_req = false;
        }
    }

    /// Dispatches the pending interrupt of highest priority, if the
    /// master latch allows it, and returns the cycles that this cost.
    pub fn dispatch_interrupt(&mut self) -> (r: u32)
        ensures
            (final(self).cpu@, r) == old(self).cpu@.dispatch(),
    {
        if self.cpu.interrupt_controller.ime() {
            match self.cpu.interrupt_controller.get_first_interrupt() {
                Some(flag) => {
                    self.cpu.push_to_stack(self.cpu.registers.pc);
                    self.cpu.registers.pc = flag.vector();
                    self.cpu.interrupt_controller.disable_master_interrupt();
                    self.cpu.interrupt_controller.clear_interrupt_flag(flag);
                    DISPATCH_CYCLES
                },
                None => 0,
            }
        } else {
            0
        }
    }

    /// One turn of the emulation loop. Returns the cycles to charge to
    /// the frame, or the opcode that the engine does not execute.
    pub fn step(&mut self) -> (r: Result<u32, UnimplementedOpcode>)
        ensures
            (final(self).cpu@, r) == old(self).cpu@.drive(),
    {
        proof {
            lemma_reported_iff_unimplemented(old(self).cpu@.fetch_byte().0, old(self).cpu@.fetch_byte().1);
        }
        match self.cpu.do_cycle() {
            Err(e) => Err(e),
            Ok(cycles) => {
                let cycles_elapsed: u8 = cycles * 4;
                if !self.cpu.cb_prefix {
                    self.transfer_dma();
                    self.cpu.gpu.update_scanlines(cycles_elapsed);
                    self.collect_requests();
                    let overhead: u32 = self.dispatch_interrupt();
                    Ok(cycles_elapsed as u32 + overhead)
                } else {
                    Ok(cycles_elapsed as u32)
                }
            },
        }
    }

    /// Runs the turns of one frame and returns the cycles spent, or the
    /// opcode that the engine does not execute.
    pub fn run_frame(&mut self) -> (r: Result<u32, UnimplementedOpcode>)
        ensures
            (final(self).cpu@, r) == old(self).cpu@.run_frame_from(0),
            r matches Ok(total) ==> CYCLES_PER_FRAME <= total < CYCLES_PER_FRAME + 29,
    {
        let mut total_cycles: u32 = 0;
        while total_cycles < CYCLES_PER_FRAME
            invariant
                total_cycles < CYCLES_PER_FRAME + 29,
                self.cpu@.run_frame_from(total_cycles) == old(self).cpu@.run_frame_from(0),
            decreases CYCLES_PER_FRAME + 29 - total_cycles,
        {
            proof {
                lemma_drive_spends(self.cpu@);
            }
            match self.step() {
                Err(e) => {
                    return Err(e);
                },
                Ok(spent) => {
                    total_cycles = total_cycles + spent;
                },
            }
        }
        Ok(total_cycles)
    }
}

} // verus!
