use vstd::prelude::*;

use crate::apu::channel_state::APUSynthCommand;
use crate::cartridge::{supported_mapper, Cartridge, CartridgeView};
use crate::cpu::cpu::{new_cpu_spec, reset_spec, tick_spec, CPUError, CPU};
use crate::cpu::disassembly::{bus_peek, trace_line, DisassemblyMachineState, ExecutedInstruction};
use crate::cpu::cpu_bus::{CPUBus, CPUBusView};
use crate::nes::ines_rom::INESRom;
use crate::ppu::{pixbuf_len, PPUView};

verus! {

/// The machine: the CPU, its bus (which holds the PPU, the APU and the
/// cartridge), and the cycles run so far.
#[derive(Debug)]
pub struct NESState {
    pub bus: CPUBus,
    pub cpu: CPU,
    pub cpu_cycle_count: u64,
    pub ppu_cycle_count: u64,
}

/// The machine as values.
pub struct NESStateView {
    pub bus: CPUBusView,
    pub cpu: CPU,
    pub cpu_cycle_count: u64,
    pub ppu_cycle_count: u64,
}

impl View for NESState {
    type V = NESStateView;

    open spec fn view(&self) -> NESStateView {
        NESStateView {
            bus: self.bus@,
            cpu: self.cpu,
            cpu_cycle_count: self.cpu_cycle_count,
            ppu_cycle_count: self.ppu_cycle_count,
        }
    }
}

/// `n + 1`, wrapping past the largest `u64`.
pub open spec fn next_count(n: u64) -> u64 {
    if n == u64::MAX {
        0
    } else {
        (n + 1) as u64
    }
}

impl NESStateView {
    /// The machine at power-on around a cartridge.
    pub open spec fn power_on(cartridge: CartridgeView) -> NESStateView {
        NESStateView {
            bus: CPUBusView::power_on(cartridge),
            cpu: new_cpu_spec(),
            cpu_cycle_count: 0,
            ppu_cycle_count: 0,
        }
    }

    /// One CPU cycle, counted when the CPU meets no unknown opcode.
    pub open spec fn cpu_tick(self) -> (NESStateView, Option<(crate::cpu::instructions::Instruction, u8)>, Option<u8>) {
        let ((c, b), executed, unknown) = tick_spec::<CPUBus>(self.cpu, self.bus);
        if unknown is Some {
            (NESStateView { bus: b, cpu: c, ..self }, executed, unknown)
        } else {
            (
                NESStateView { bus: b, cpu: c, cpu_cycle_count: next_count(self.cpu_cycle_count), ..self },
                executed,
                unknown,
            )
        }
    }

    /// Whether the PPU is at cycle 1 of the pre-render line, where a frame ends.
    pub open spec fn at_frame_end(self) -> bool {
        self.bus.ppu.cycle == 1 && self.bus.ppu.scanline == -1
    }

    /// The CPU's share of a master tick (every third PPU cycle): OAM DMA if a
    /// transfer is under way, else one CPU cycle. Returns the machine, the
    /// instruction executed, if one completed, and the unknown opcode met, if any.
    pub open spec fn cpu_step(self) -> (NESStateView, Option<(crate::cpu::instructions::Instruction, u8)>, Option<u8>) {
        if self.ppu_cycle_count % 3 == 0 {
            let (b, dma) = self.bus.dma_step(self.ppu_cycle_count);
            if dma {
                (NESStateView { bus: b, ..self }, None, None)
            } else {
                NESStateView { bus: b, ..self }.cpu_tick()
            }
        } else {
            (self, None, None)
        }
    }

    /// One PPU cycle, with its NMI delivered to the CPU.
    pub open spec fn ppu_step(self, pixbuf: Seq<u8>) -> (NESStateView, Seq<u8>) {
        let (p, pix, nmi) = self.bus.ppu.tick(self.bus.cartridge, pixbuf);
        let cart = if p.cycle == 0 {
            self.bus.cartridge.scanline_clock()
        } else {
            self.bus.cartridge
        };
        (
            NESStateView {
                bus: CPUBusView { ppu: p, cartridge: cart, ..self.bus },
                cpu: if nmi {
                    CPU { nmi_set: true, ..self.cpu }
                } else {
                    self.cpu
                },
                ppu_cycle_count: next_count(self.ppu_cycle_count),
                ..self
            },
            pix,
        )
    }

    /// One APU step, with its IRQ delivered to the CPU, and its commands.
    pub open spec fn apu_step(self) -> (NESStateView, Seq<APUSynthCommand>) {
        let (a, irq, cmds) = self.bus.apu.tick_spec(self.cpu_cycle_count);
        (
            NESStateView {
                bus: CPUBusView { apu: a, ..self.bus },
                cpu: if irq {
                    CPU { irq_set: true, ..self.cpu }
                } else {
                    self.cpu
                },
                ..self
            },
            cmds,
        )
    }

    /// One master tick: the CPU's share, a PPU cycle, an APU step. Returns the
    /// machine, the picture, the APU's commands, the instruction executed, and
    /// the unknown opcode met (in which case the tick stops after the CPU).
    #[verifier::opaque]
    pub open spec fn tick(self, pixbuf: Seq<u8>) -> (
        NESStateView,
        Seq<u8>,
        Seq<APUSynthCommand>,
        Option<(crate::cpu::instructions::Instruction, u8)>,
        Option<u8>,
    ) {
        let (s1, executed, unknown) = self.cpu_step();
        if unknown is Some {
            (s1, pixbuf, seq![], executed, unknown)
        } else {
            let (s2, pix) = s1.ppu_step(pixbuf);
            let (s3, cmds) = s2.apu_step();
            (s3, pix, cmds, executed, unknown)
        }
    }
}

/// The most master ticks a frame takes: one full frame of PPU cycles and one more.
pub open spec fn frame_tick_limit() -> nat {
    89343
}

/// `n` master ticks from `s` and picture `pix`: the machine, the picture and
/// the APU's commands in order; `None` if the CPU meets an unknown opcode.
pub open spec fn run_ticks(s: NESStateView, pix: Seq<u8>, n: nat) -> Option<(NESStateView, Seq<u8>, Seq<APUSynthCommand>)>
    decreases n,
{
    if n == 0 {
        Some((s, pix, seq![]))
    } else {
        match run_ticks(s, pix, (n - 1) as nat) {
            None => None,
            Some((s1, p1, c1)) => {
                let (s2, p2, c2, _, unknown) = s1.tick(p1);
                if unknown is Some {
                    None
                } else {
                    Some((s2, p2, c1 + c2))
                }
            },
        }
    }
}

/// Whether `k` master ticks from `s` end at a frame's end.
pub open spec fn ends_frame(s: NESStateView, pix: Seq<u8>, k: nat) -> bool {
    match run_ticks(s, pix, k) {
        Some((t, _, _)) => t.at_frame_end(),
        None => false,
    }
}

/// Whether running master ticks from `s0` with picture `p0` reaches `s1`, `p1`
/// and the commands `cmds` at the first frame's end, or after
/// `frame_tick_limit()` ticks without one.
pub open spec fn frame_ran(s0: NESStateView, p0: Seq<u8>, s1: NESStateView, p1: Seq<u8>, cmds: Seq<APUSynthCommand>) -> bool {
    exists|n: nat|
        #![trigger run_ticks(s0, p0, n)]
        1 <= n <= frame_tick_limit() && run_ticks(s0, p0, n) == Some((s1, p1, cmds)) && (s1.at_frame_end()
            || n == frame_tick_limit()) && forall|k: nat| 1 <= k < n ==> !#[trigger] ends_frame(s0, p0, k)
}

/// Whether the CPU meets an unknown opcode within `frame_tick_limit()` master
/// ticks from `s0` with picture `p0`.
pub open spec fn frame_fails(s0: NESStateView, p0: Seq<u8>) -> bool {
    exists|n: nat| #![trigger run_ticks(s0, p0, n)] 1 <= n <= frame_tick_limit() && run_ticks(s0, p0, n) is None
}

impl NESState {
    /// A machine at power-on around a cartridge.
    pub fn new(cartridge: Cartridge) -> (r: NESState)
        ensures
            r@ == NESStateView::power_on(cartridge@),
    {
        NESState { bus: CPUBus::new(cartridge), cpu: CPU::new(), cpu_cycle_count: 0, ppu_cycle_count: 0 }
    }
}

/// The emulator: the machine, the last instruction it completed with the
/// machine state from before it, and whether it writes a trace.
#[derive(Debug)]
pub struct NES {
    pub state: NESState,
    pub last_executed_instruction: Option<ExecutedInstruction>,
    pub last_disassembly_machine_state: Option<DisassemblyMachineState>,
    pub trace_enabled: bool,
}

/// What a master tick hands back: the APU's commands, and the trace line of the
/// last instruction when one is due.
#[derive(Debug)]
pub struct NESTickOutput {
    pub commands: Vec<APUSynthCommand>,
    pub trace_line: Option<String>,
}

/// What a frame's worth of master ticks hands back: the APU's commands and the
/// trace lines, each in order.
#[derive(Debug)]
pub struct NESFrameOutput {
    pub commands: Vec<APUSynthCommand>,
    pub trace_lines: Vec<String>,
}

/// The state a trace line reports, as captured from the machine.
pub open spec fn captured_state(s: NESStateView) -> DisassemblyMachineState {
    DisassemblyMachineState {
        cpu: s.cpu,
        scanline: s.bus.ppu.scanline,
        cycle: s.bus.ppu.cycle,
        cycle_count: s.cpu_cycle_count,
        vram_addr: s.bus.ppu.vram_addr,
        tram_addr: s.bus.ppu.tram_addr,
        ppu2002: bus_peek(s.bus, 0x2002),
        ppu2004: bus_peek(s.bus, 0x2004),
        ppu2007: bus_peek(s.bus, 0x2007),
        fine_x: s.bus.ppu.fine_x,
        ppu_address_latch: s.bus.ppu.address_latch,
    }
}

/// Whether the CPU gets this master tick: every third PPU cycle, unless OAM
/// DMA takes it.
pub open spec fn cpu_runs(s: NESStateView) -> bool {
    s.ppu_cycle_count % 3 == 0 && !s.bus.dma_step(s.ppu_cycle_count).1
}

impl NES {
    /// A machine running the ROM image, reset.
    pub fn from_rom(rom: INESRom) -> (r: NES)
        requires
            supported_mapper(rom.mapper_id),
        ensures
            ({
                let s0 = NESStateView::power_on(CartridgeView::power_on(rom));
                let (c, b) = reset_spec::<CPUBus>(s0.cpu, s0.bus);
                &&& r.state.cpu == c
                &&& r.state@.bus == b
            }),
            r.state.cpu_cycle_count == 0,
            r.state.ppu_cycle_count == 0,
            r.last_executed_instruction is None,
            r.last_disassembly_machine_state is None,
            !r.trace_enabled,
    {
        let cartridge = Cartridge::from_ines_rom(rom);
        let state = NESState::new(cartridge);
        let mut machine = NES {
            state,
            last_executed_instruction: None,
            last_disassembly_machine_state: None,
            trace_enabled: false,
        };
        machine.reset();
        machine
    }

    /// Runs one CPU cycle; the last completed instruction is kept.
    pub fn tick_cpu(&mut self) -> (r: Result<(), CPUError>)
        ensures
            ({
                let (s, executed, unknown) = old(self).state@.cpu_tick();
                &&& final(self).state@ == s
                &&& match r {
                    Ok(()) => unknown is None,
                    Err(CPUError::UnknownOpcode(op)) => unknown == Some(op),
                }
                &&& r is Ok ==> match executed {
                    Some(e) => final(self).last_executed_instruction matches Some(x) && e == (
                        x.instruction,
                        x.opcode,
                    ) && final(self).last_disassembly_machine_state == Some(
                        captured_state(old(self).state@),
                    ),
                    None => final(self).last_executed_instruction == old(
                        self,
                    ).last_executed_instruction && final(self).last_disassembly_machine_state == old(
                        self,
                    ).last_disassembly_machine_state,
                }
                &&& final(self).trace_enabled == old(self).trace_enabled
            }),
    {
        let captured_state = DisassemblyMachineState::capture(
            &self.state.cpu,
            &self.state.bus,
            self.state.cpu_cycle_count,
        );
        let executed = self.state.cpu.tick(&mut self.state.bus);
        match executed {
            Err(e) => Err(e),
            Ok(executed) => {
                self.state.cpu_cycle_count = if self.state.cpu_cycle_count == u64::MAX {
                    0
                } else {
                    self.state.cpu_cycle_count + 1
                };
                if let Some(instruction) = executed {
                    self.last_disassembly_machine_state = Some(captured_state);
                    self.last_executed_instruction = Some(instruction);
                }
                Ok(())
            },
        }
    }

    /// Runs one PPU cycle, delivering its NMI.
    pub fn tick_ppu(&mut self, pixbuf: &mut Vec<u8>)
        requires
            old(pixbuf)@.len() == pixbuf_len(),
        ensures
            (final(self).state@, final(pixbuf)@) == old(self).state@.ppu_step(old(pixbuf)@),
            final(pixbuf)@.len() == pixbuf_len(),
            final(self).last_executed_instruction == old(self).last_executed_instruction,
            final(self).last_disassembly_machine_state == old(self).last_disassembly_machine_state,
            final(self).trace_enabled == old(self).trace_enabled,
    {
        let nmi_set = self.state.bus.tick_ppu(pixbuf);
        self.state.ppu_cycle_count = if self.state.ppu_cycle_count == u64::MAX {
            0
        } else {
            self.state.ppu_cycle_count + 1
        };
        if nmi_set {
            self.nmi();
        }
    }

    /// Runs the APU, delivering its IRQ; returns its commands for the synthesizer.
    pub fn tick_apu(&mut self) -> (r: Vec<APUSynthCommand>)
        ensures
            (final(self).state@, r@) == old(self).state@.apu_step(),
            final(self).last_executed_instruction == old(self).last_executed_instruction,
            final(self).last_disassembly_machine_state == old(self).last_disassembly_machine_state,
            final(self).trace_enabled == old(self).trace_enabled,
    {
        let (irq_set, commands) = self.state.bus.tick_apu(self.state.cpu_cycle_count);
        if irq_set {
            self.state.cpu.irq_set = true;
        }
        commands
    }

    /// One master tick: the CPU every third PPU cycle (unless OAM DMA holds the
    /// bus), then a PPU cycle and an APU step. Returns the APU's commands, or
    /// the CPU's error.
    pub fn tick(&mut self, pixbuf: &mut Vec<u8>) -> (r: Result<NESTickOutput, CPUError>)
        requires
            old(pixbuf)@.len() == pixbuf_len(),
        ensures
            ({
                let (s, pix, cmds, executed, unknown) = old(self).state@.tick(old(pixbuf)@);
                &&& final(self).state@ == s
                &&& final(pixbuf)@ == pix
                &&& match r {
                    Ok(out) => {
                        &&& unknown is None
                        &&& out.commands@ == cmds
                        &&& match out.trace_line {
                            Some(line) => {
                                &&& cpu_runs(old(self).state@)
                                &&& old(self).trace_enabled
                                &&& old(self).state.cpu.wait_cycles == 0
                                &&& old(self).last_executed_instruction matches Some(e)
                                &&& old(self).last_disassembly_machine_state matches Some(p)
                                &&& line@ == trace_line(e, p)
                            },
                            None => !(cpu_runs(old(self).state@) && old(self).trace_enabled
                                && old(self).state.cpu.wait_cycles == 0
                                && old(self).last_executed_instruction is Some
                                && old(self).last_disassembly_machine_state is Some),
                        }
                    },
                    Err(CPUError::UnknownOpcode(op)) => unknown == Some(op),
                }
            }),
            final(pixbuf)@.len() == pixbuf_len(),
            final(self).trace_enabled == old(self).trace_enabled,
    {
        reveal(NESStateView::tick);
        let mut trace_line = None;
        if self.state.ppu_cycle_count % 3 == 0 {
            let dma_ticked = self.state.bus.maybe_tick_dma(self.state.ppu_cycle_count);
            if !dma_ticked {
                trace_line = self.log_last_executed_instruction();
                match self.tick_cpu() {
                    Err(e) => {
                        return Err(e);
                    },
                    Ok(()) => {},
                }
            }
        }
        self.tick_ppu(pixbuf);
        let commands = self.tick_apu();
        Ok(NESTickOutput { commands, trace_line })
    }

    /// The trace line of the last instruction, when tracing is on and the CPU
    /// is about to fetch the next one.
    pub fn log_last_executed_instruction(&self) -> (r: Option<String>)
        ensures
            match r {
                Some(line) => {
                    &&& self.trace_enabled
                    &&& self.state.cpu.wait_cycles == 0
                    &&& self.last_executed_instruction matches Some(e)
                    &&& self.last_disassembly_machine_state matches Some(p)
                    &&& line@ == trace_line(e, p)
                },
                None => !(self.trace_enabled && self.state.cpu.wait_cycles == 0
                    && self.last_executed_instruction is Some
                    && self.last_disassembly_machine_state is Some),
            },
    {
        if !self.trace_enabled || self.state.cpu.wait_cycles != 0 {
            return None;
        }
        match (&self.last_executed_instruction, &self.last_disassembly_machine_state) {
            (Some(executed_instruction), Some(prev_state)) => Some(executed_instruction.disassemble(prev_state)),
            _ => None,
        }
    }

    /// Runs master ticks until the PPU reaches cycle 1 of the pre-render line,
    /// where a frame ends (giving up after `frame_tick_limit()` ticks, which a
    /// running PPU never needs). Returns the APU's commands in order, or the
    /// CPU's error.
    pub fn execute_frame(&mut self, pixbuf: &mut Vec<u8>) -> (r: Result<NESFrameOutput, CPUError>)
        requires
            old(pixbuf)@.len() == pixbuf_len(),
        ensures
            final(pixbuf)@.len() == pixbuf_len(),
            final(self).trace_enabled == old(self).trace_enabled,
            match r {
                Ok(out) => {
                    &&& !old(self).trace_enabled ==> out.trace_lines@.len() == 0
                    &&& frame_ran(old(self).state@, old(pixbuf)@, final(self).state@, final(pixbuf)@, out.commands@)
                },
                Err(_) => frame_fails(old(self).state@, old(pixbuf)@),
            },
    {
        let ghost s0 = self.state@;
        let ghost p0 = pixbuf@;
        let mut commands: Vec<APUSynthCommand> = Vec::new();
        let mut trace_lines: Vec<String> = Vec::new();
        let mut i: u64 = 0;
        loop
            invariant
                i < frame_tick_limit(),
                self.trace_enabled == old(self).trace_enabled,
                !self.trace_enabled ==> trace_lines@.len() == 0,
                s0 == old(self).state@,
                p0 == old(pixbuf)@,
                pixbuf@.len() == pixbuf_len(),
                run_ticks(s0, p0, i as nat) == Some((self.state@, pixbuf@, commands@)),
                forall|k: nat| 1 <= k <= i ==> !#[trigger] ends_frame(s0, p0, k),
            decreases frame_tick_limit() - i,
        {
            let ghost before = (self.state@, pixbuf@, commands@);
            let result = self.tick(pixbuf);
            let result = match result {
                Ok(out) => {
                    if let Some(line) = out.trace_line {
                        trace_lines.push(line);
                    }
                    Ok(out.commands)
                },
                Err(e) => Err(e),
            };
            let ghost next = (i + 1) as nat;
            proof {
                assert(run_ticks(s0, p0, next) == match run_ticks(s0, p0, i as nat) {
                    None => None,
                    Some((s1, p1, c1)) => {
                        let (s2, p2, c2, _, unknown) = s1.tick(p1);
                        if unknown is Some {
                            None
                        } else {
                            Some((s2, p2, c1 + c2))
                        }
                    },
                });
            }
            match result {
                Err(e) => {
                    assert(run_ticks(s0, p0, next) is None);
                    assert(s0 == old(self).state@ && p0 == old(pixbuf)@);
                    assert(1 <= next <= frame_tick_limit() && run_ticks(old(self).state@, old(pixbuf)@, next) is None);
                    assert(frame_fails(old(self).state@, old(pixbuf)@));
                    return Err(e);
                },
                Ok(mut c) => {
                    commands.append(&mut c);
                },
            }
            assert(run_ticks(s0, p0, next) == Some((self.state@, pixbuf@, commands@)));
            i = i + 1;
            if (self.state.bus.ppu.cycle == 1 && self.state.bus.ppu.scanline == -1) || i == 89343 {
                assert(forall|k: nat| 1 <= k < next ==> !#[trigger] ends_frame(s0, p0, k));
                assert(s0 == old(self).state@ && p0 == old(pixbuf)@);
                assert(run_ticks(old(self).state@, old(pixbuf)@, next) == Some((self.state@, pixbuf@, commands@)));
                assert(frame_ran(old(self).state@, old(pixbuf)@, self.state@, pixbuf@, commands@));
                return Ok(NESFrameOutput { commands, trace_lines });
            }
            assert(!ends_frame(s0, p0, next));
        }
    }

    /// Raises a non-maskable interrupt.
    pub fn nmi(&mut self)
        ensures
            final(self).state@ == (NESStateView {
                cpu: CPU { nmi_set: true, ..old(self).state.cpu },
                ..old(self).state@
            }),
            final(self).last_executed_instruction == old(self).last_executed_instruction,
            final(self).last_disassembly_machine_state == old(self).last_disassembly_machine_state,
            final(self).trace_enabled == old(self).trace_enabled,
    {
        self.state.cpu.nmi_set = true;
    }

    /// Resets the CPU through the reset vector and restarts the cycle counts.
    pub fn reset(&mut self)
        ensures
            ({
                let (c, b) = reset_spec::<CPUBus>(old(self).state.cpu, old(self).state@.bus);
                &&& final(self).state.cpu == c
                &&& final(self).state@.bus == b
            }),
            final(self).state.cpu_cycle_count == 0,
            final(self).state.ppu_cycle_count == 0,
            final(self).last_executed_instruction == old(self).last_executed_instruction,
            final(self).last_disassembly_machine_state == old(self).last_disassembly_machine_state,
            final(self).trace_enabled == old(self).trace_enabled,
    {
        CPU::reset(&mut self.state.bus, &mut self.state.cpu);
        self.state.ppu_cycle_count = 0;
        self.state.cpu_cycle_count = 0;
    }
}

} // verus!
