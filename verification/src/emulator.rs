use vstd::prelude::*;

use crate::apu::channel_state::APUSynthCommand;
use crate::cartridge::{supported_mapper, CartridgeView};
use crate::cpu::cpu::{reset_spec, CPUError, CPU};
use crate::cpu::cpu_bus::{CPUBus, CPUBusView};
use crate::cpu::disassembly::bus_peek;
use crate::nes::controller::{Controller, ControllerButton};
use crate::nes::ines_rom::INESRom;
use crate::nes::nes::{frame_fails, frame_ran, run_ticks, NESFrameOutput, NESStateView, NES};
use crate::ppu::{pixbuf_len, PPULoopyRegister};

verus! {

/// What the emulator is doing.
#[derive(Debug, Clone, Copy, PartialEq, Eq, Structural)]
pub enum EmulatorState {
    Run,
    Pause,
    RunUntilNextFrame,
    RunUntilNextInstruction,
}

/// What the user interface shows of the machine.
#[derive(Debug, Clone, Copy)]
pub struct MachineState {
    pub emulator_state: EmulatorState,
    pub cpu: CPU,
    pub vram_addr: PPULoopyRegister,
    pub tram_addr: PPULoopyRegister,
    pub scanline: i32,
    pub cycle: i32,
    pub mem2002: u8,
    pub mem2004: u8,
    pub mem2007: u8,
}

/// A message to the emulator.
#[derive(Debug, Clone, Copy, PartialEq, Eq, Structural)]
pub enum EmulationInboundMessage {
    ControllerButtonChanged(ControllerButton, bool),
    EmulatorStateChangeRequested(EmulatorState),
}

/// A message from the emulator.
#[derive(Debug, Clone, Copy)]
pub enum EmulationOutboundMessage {
    FrameReady,
    MachineStateChanged(MachineState),
}

/// The emulator: a machine and what it is doing.
#[derive(Debug)]
pub struct Emulator {
    pub machine: NES,
    pub state: EmulatorState,
}

/// What one emulator step hands back: the messages for the user interface,
/// and the APU's commands and the trace lines from the machine.
#[derive(Debug)]
pub struct EmulatorStepOutput {
    pub outbound: Vec<EmulationOutboundMessage>,
    pub commands: Vec<APUSynthCommand>,
    pub trace_lines: Vec<String>,
}

/// The machine with a button of the first controller pressed or released.
pub open spec fn with_button(s: NESStateView, button: ControllerButton, pressed: bool) -> NESStateView {
    let c = s.bus.controllers[0];
    NESStateView {
        bus: CPUBusView {
            controllers: s.bus.controllers.update(
                0,
                Controller { state: c.state.with_button(button, pressed), ..c },
            ),
            ..s.bus
        },
        ..s
    }
}

/// The machine and the emulator's state after the inbound messages, in order:
/// button changes go to the first controller, state requests replace the state.
pub open spec fn apply_messages(s: NESStateView, e: EmulatorState, msgs: Seq<EmulationInboundMessage>) -> (
    NESStateView,
    EmulatorState,
)
    decreases msgs.len(),
{
    if msgs.len() == 0 {
        (s, e)
    } else {
        let (s1, e1) = apply_messages(s, e, msgs.drop_last());
        match msgs.last() {
            EmulationInboundMessage::ControllerButtonChanged(b, p) => (with_button(s1, b, p), e1),
            EmulationInboundMessage::EmulatorStateChangeRequested(n) => (s1, n),
        }
    }
}

/// What the user interface is shown of a machine.
pub open spec fn machine_state_of(s: NESStateView, e: EmulatorState) -> MachineState {
    MachineState {
        emulator_state: e,
        cpu: s.cpu,
        vram_addr: PPULoopyRegister(s.bus.ppu.vram_addr),
        tram_addr: PPULoopyRegister(s.bus.ppu.tram_addr),
        scanline: s.bus.ppu.scanline,
        cycle: s.bus.ppu.cycle,
        mem2002: bus_peek(s.bus, 0x2002),
        mem2004: bus_peek(s.bus, 0x2004),
        mem2007: bus_peek(s.bus, 0x2007),
    }
}

/// The most master ticks a single-instruction step runs.
pub open spec fn instruction_tick_limit() -> u64 {
    8192
}

/// Whether `k` master ticks from `s0` with picture `p0` run without error and
/// leave the CPU past the cycle count it started at.
pub open spec fn cpu_advanced(s0: NESStateView, p0: Seq<u8>, k: nat) -> bool {
    match run_ticks(s0, p0, k) {
        Some((t, _, _)) => t.cpu_cycle_count > s0.cpu_cycle_count,
        None => false,
    }
}

/// Whether running master ticks from `s0` with picture `p0` reaches `s1`, `p1`
/// and the commands `cmds` at the first tick after which the CPU has counted a
/// cycle, or after `instruction_tick_limit()` ticks without one.
pub open spec fn instruction_step_ran(
    s0: NESStateView,
    p0: Seq<u8>,
    s1: NESStateView,
    p1: Seq<u8>,
    cmds: Seq<APUSynthCommand>,
) -> bool {
    exists|n: nat|
        #![trigger run_ticks(s0, p0, n)]
        1 <= n <= instruction_tick_limit() && run_ticks(s0, p0, n) == Some((s1, p1, cmds)) && (
        s1.cpu_cycle_count > s0.cpu_cycle_count || n == instruction_tick_limit()) && forall|k: nat|
            1 <= k < n ==> !#[trigger] cpu_advanced(s0, p0, k)
}

/// Whether the CPU meets an unknown opcode within `instruction_tick_limit()`
/// master ticks from `s0` with picture `p0`.
pub open spec fn instruction_step_fails(s0: NESStateView, p0: Seq<u8>) -> bool {
    exists|n: nat|
        #![trigger run_ticks(s0, p0, n)]
        1 <= n <= instruction_tick_limit() && run_ticks(s0, p0, n) is None
}

/// The pair of messages that follows a frame or an instruction step.
pub open spec fn frame_messages(m: MachineState, out: Seq<EmulationOutboundMessage>) -> bool {
    &&& out.len() == 2
    &&& out[0] matches EmulationOutboundMessage::MachineStateChanged(ms) && ms == m
    &&& out[1] is FrameReady
}

/// Runs master ticks until the CPU has counted a cycle (giving up after
/// `instruction_tick_limit()` ticks). Returns the APU's commands in order, or
/// the CPU's error.
fn run_until_cpu_cycle(machine: &mut NES, pixbuf: &mut Vec<u8>) -> (r: Result<NESFrameOutput, CPUError>)
    requires
        old(pixbuf)@.len() == pixbuf_len(),
    ensures
        final(pixbuf)@.len() == pixbuf_len(),
        final(machine).trace_enabled == old(machine).trace_enabled,
        match r {
            Ok(out) => instruction_step_ran(
                old(machine).state@,
                old(pixbuf)@,
                final(machine).state@,
                final(pixbuf)@,
                out.commands@,
            ),
            Err(_) => instruction_step_fails(old(machine).state@, old(pixbuf)@),
        },
{
    let ghost s0 = machine.state@;
    let ghost p0 = pixbuf@;
    let start_cycles = machine.state.cpu_cycle_count;
    let mut commands: Vec<APUSynthCommand> = Vec::new();
    let mut trace_lines: Vec<String> = Vec::new();
    let mut n: u64 = 0;
    loop
        invariant
            n < instruction_tick_limit(),
            s0 == old(machine).state@,
            p0 == old(pixbuf)@,
            s0.cpu_cycle_count == start_cycles,
            pixbuf@.len() == pixbuf_len(),
            machine.trace_enabled == old(machine).trace_enabled,
            run_ticks(s0, p0, n as nat) == Some((machine.state@, pixbuf@, commands@)),
            forall|k: nat| 1 <= k <= n ==> !#[trigger] cpu_advanced(s0, p0, k),
        decreases instruction_tick_limit() - n,
    {
        let next: u64 = n + 1;
        let result = machine.tick(pixbuf);
        proof {
            assert(run_ticks(s0, p0, next as nat) == match run_ticks(s0, p0, n as nat) {
                None => None,
                Some((t1, q1, c1)) => {
                    let (t2, q2, c2, _, unknown) = t1.tick(q1);
                    if unknown is Some {
                        None
                    } else {
                        Some((t2, q2, c1 + c2))
                    }
                },
            });
        }
        match result {
            Ok(out) => {
                let mut c = out.commands;
                commands.append(&mut c);
                if let Some(line) = out.trace_line {
                    trace_lines.push(line);
                }
            },
            Err(e) => {
                assert(run_ticks(s0, p0, next as nat) is None);
                assert(instruction_step_fails(s0, p0));
                return Err(e);
            },
        }
        assert(run_ticks(s0, p0, next as nat) == Some((machine.state@, pixbuf@, commands@)));
        n = next;
        if machine.state.cpu_cycle_count > start_cycles || n == 8192 {
            assert(instruction_step_ran(s0, p0, machine.state@, pixbuf@, commands@));
            return Ok(NESFrameOutput { commands, trace_lines });
        }
        assert(!cpu_advanced(s0, p0, next as nat));
    }
}

impl Emulator {
    /// An emulator running the machine.
    pub fn new(machine: NES) -> (r: Emulator)
        ensures
            r.state == EmulatorState::Run,
            r.machine.state@ == machine.state@,
            r.machine.trace_enabled == machine.trace_enabled,
    {
        Emulator { machine, state: EmulatorState::Run }
    }

    /// What the user interface is shown of the machine.
    pub fn get_machine_state(&self) -> (r: MachineState)
        ensures
            r == machine_state_of(self.machine.state@, self.state),
    {
        let bus = &self.machine.state.bus;
        MachineState {
            emulator_state: self.state,
            cpu: self.machine.state.cpu,
            vram_addr: bus.ppu.vram_addr,
            tram_addr: bus.ppu.tram_addr,
            scanline: bus.ppu.scanline,
            cycle: bus.ppu.cycle,
            mem2002: crate::bus::Bus::read_readonly(bus, 0x2002),
            mem2004: crate::bus::Bus::read_readonly(bus, 0x2004),
            mem2007: crate::bus::Bus::read_readonly(bus, 0x2007),
        }
    }

    /// Applies the inbound messages in order.
    pub fn handle_messages(&mut self, messages: &Vec<EmulationInboundMessage>)
        ensures
            (final(self).machine.state@, final(self).state) == apply_messages(
                old(self).machine.state@,
                old(self).state,
                messages@,
            ),
            final(self).machine.trace_enabled == old(self).machine.trace_enabled,
    {
        let mut i: usize = 0;
        while i < messages.len()
            invariant
                i <= messages@.len(),
                (self.machine.state@, self.state) == apply_messages(
                    old(self).machine.state@,
                    old(self).state,
                    messages@.subrange(0, i as int),
                ),
                self.machine.trace_enabled == old(self).machine.trace_enabled,
            decreases messages.len() - i,
        {
            let ghost prefix = messages@.subrange(0, (i + 1) as int);
            assert(prefix.drop_last() =~= messages@.subrange(0, i as int));
            match messages[i] {
                EmulationInboundMessage::ControllerButtonChanged(button, pressed) => {
                    self.machine.state.bus.set_controller_button_state(0, button, pressed);
                },
                EmulationInboundMessage::EmulatorStateChangeRequested(new_state) => {
                    self.state = new_state;
                },
            }
            i = i + 1;
        }
        assert(messages@.subrange(0, messages@.len() as int) =~= messages@);
    }

    /// One step of the emulator's loop: apply the inbound messages, then, by
    /// state, do nothing (paused), run a frame (running, or once before
    /// pausing), or run until the CPU has run a cycle and pause. After a
    /// frame or a step the user interface gets the machine state and a
    /// frame-ready message. An unknown opcode stops the step with its error.
    pub fn run_once(&mut self, messages: &Vec<EmulationInboundMessage>, pixbuf: &mut Vec<u8>) -> (r: Result<EmulatorStepOutput, CPUError>)
        requires
            old(pixbuf)@.len() == pixbuf_len(),
        ensures
            final(pixbuf)@.len() == pixbuf_len(),
            final(self).machine.trace_enabled == old(self).machine.trace_enabled,
            ({
                let (s1, e1) = apply_messages(old(self).machine.state@, old(self).state, messages@);
                match r {
                    Ok(out) => match e1 {
                        EmulatorState::Pause => {
                            &&& final(self).machine.state@ == s1
                            &&& final(self).state == EmulatorState::Pause
                            &&& out.outbound@.len() == 0
                            &&& out.commands@.len() == 0
                            &&& final(pixbuf)@ == old(pixbuf)@
                        },
                        EmulatorState::Run => {
                            &&& final(self).state == EmulatorState::Run
                            &&& frame_ran(s1, old(pixbuf)@, final(self).machine.state@, final(pixbuf)@, out.commands@)
                            &&& frame_messages(
                                machine_state_of(final(self).machine.state@, EmulatorState::Run),
                                out.outbound@,
                            )
                        },
                        EmulatorState::RunUntilNextFrame => {
                            &&& final(self).state == EmulatorState::Pause
                            &&& frame_ran(s1, old(pixbuf)@, final(self).machine.state@, final(pixbuf)@, out.commands@)
                            &&& frame_messages(
                                machine_state_of(final(self).machine.state@, EmulatorState::RunUntilNextFrame),
                                out.outbound@,
                            )
                        },
                        EmulatorState::RunUntilNextInstruction => {
                            &&& final(self).state == EmulatorState::Pause
                            &&& instruction_step_ran(
                                s1,
                                old(pixbuf)@,
                                final(self).machine.state@,
                                final(pixbuf)@,
                                out.commands@,
                            )
                            &&& frame_messages(
                                machine_state_of(
                                    final(self).machine.state@,
                                    EmulatorState::RunUntilNextInstruction,
                                ),
                                out.outbound@,
                            )
                        },
                    },
                    Err(_) => match e1 {
                        EmulatorState::Pause => false,
                        EmulatorState::Run | EmulatorState::RunUntilNextFrame => frame_fails(s1, old(pixbuf)@),
                        EmulatorState::RunUntilNextInstruction => instruction_step_fails(s1, old(pixbuf)@),
                    },
                }
            }),
    {
        self.handle_messages(messages);
        let ghost s0 = self.machine.state@;
        let ghost p0 = pixbuf@;
        let mut outbound: Vec<EmulationOutboundMessage> = Vec::new();
        let mut commands: Vec<APUSynthCommand> = Vec::new();
        let mut trace_lines: Vec<String> = Vec::new();
        match self.state {
            EmulatorState::Pause => {},
            EmulatorState::Run | EmulatorState::RunUntilNextFrame => {
                let frame = self.machine.execute_frame(pixbuf);
                match frame {
                    Ok(f) => {
                        commands = f.commands;
                        trace_lines = f.trace_lines;
                    },
                    Err(e) => {
                        return Err(e);
                    },
                }
                outbound.push(EmulationOutboundMessage::MachineStateChanged(self.get_machine_state()));
                outbound.push(EmulationOutboundMessage::FrameReady);
                if self.state == EmulatorState::RunUntilNextFrame {
                    self.state = EmulatorState::Pause;
                }
            },
            EmulatorState::RunUntilNextInstruction => {
                match run_until_cpu_cycle(&mut self.machine, pixbuf) {
                    Ok(f) => {
                        commands = f.commands;
                        trace_lines = f.trace_lines;
                    },
                    Err(e) => {
                        return Err(e);
                    },
                }
                outbound.push(EmulationOutboundMessage::MachineStateChanged(self.get_machine_state()));
                outbound.push(EmulationOutboundMessage::FrameReady);
                self.state = EmulatorState::Pause;
            },
        }
        proof {
            if outbound@.len() == 2 {
                assert(outbound@[1] is FrameReady);
            }
        }
        Ok(EmulatorStepOutput { outbound, commands, trace_lines })
    }
}

/// Builds emulators for an iNES ROM image.
#[derive(Debug, Clone)]
pub struct NESEmulatorBuilder {
    pub rom: INESRom,
}

impl NESEmulatorBuilder {
    pub fn new(rom: INESRom) -> (r: NESEmulatorBuilder)
        ensures
            r.rom == rom,
    {
        NESEmulatorBuilder { rom }
    }

    /// An emulator running a fresh machine for the ROM image, tracing when asked.
    pub fn build(&self, trace_enabled: bool) -> (r: Emulator)
        requires
            supported_mapper(self.rom.mapper_id),
        ensures
            r.state == EmulatorState::Run,
            r.machine.trace_enabled == trace_enabled,
            r.machine.state.cpu_cycle_count == 0,
            r.machine.state.ppu_cycle_count == 0,
            ({
                let s0 = NESStateView::power_on(CartridgeView::power_on(self.rom));
                let (c, b) = reset_spec::<CPUBus>(s0.cpu, s0.bus);
                &&& r.machine.state.cpu == c
                &&& r.machine.state@.bus == b
            }),
    {
        let mut machine = NES::from_rom(self.rom.duplicate());
        machine.trace_enabled = trace_enabled;
        Emulator::new(machine)
    }
}

} // verus!
