use vstd::prelude::*;

use crate::apu::apu::APU;
use crate::apu::channel_state::APUSynthCommand;
use crate::bus::Bus;
use crate::cartridge::cartridge::InterceptorResult;
use crate::cartridge::{Cartridge, CartridgeView};
use crate::nes::controller::{button_pressed, report_byte, Controller, ControllerButton, ControllerState};
use crate::nes::dma::DMA;
use crate::cpu::cpu::{pull_spec, push_spec, CPU};
use crate::ppu::{pixbuf_len, register_at, PPURegister, PPUView, PPU};

verus! {

/// The CPU's view of the console: 2 KiB of work RAM (mirrored to 0x1fff), the
/// PPU's registers (mirrored to 0x3fff), the APU, OAM DMA and the controllers
/// from 0x4000, and the cartridge, which answers first wherever it claims an
/// address.
#[derive(Debug, Clone)]
pub struct CPUBus {
    pub work_ram: [u8; 2048],
    pub controllers: [Controller; 2],
    pub ppu: PPU,
    pub dma: DMA,
    pub apu: APU,
    pub cartridge: Cartridge,
}

/// The bus as values.
#[verifier::ext_equal]
pub struct CPUBusView {
    pub work_ram: Seq<u8>,
    pub controllers: Seq<Controller>,
    pub ppu: PPUView,
    pub dma: DMA,
    pub apu: APU,
    pub cartridge: CartridgeView,
}

impl View for CPUBus {
    type V = CPUBusView;

    open spec fn view(&self) -> CPUBusView {
        CPUBusView {
            work_ram: self.work_ram@,
            controllers: self.controllers@,
            ppu: self.ppu@,
            dma: self.dma,
            apu: self.apu,
            cartridge: self.cartridge@,
        }
    }
}

/// The controller bit a read yields: the top bit of its shift register.
pub open spec fn controller_bit(c: Controller) -> u8 {
    if c.shift_register >= 128 {
        1
    } else {
        0
    }
}

impl CPUBusView {
    /// The bus at power-on around a cartridge.
    pub open spec fn power_on(cartridge: CartridgeView) -> CPUBusView {
        let idle = Controller {
            state: ControllerState {
                right: false,
                left: false,
                down: false,
                up: false,
                start: false,
                select: false,
                b: false,
                a: false,
            },
            shift_register: 0,
        };
        CPUBusView {
            work_ram: Seq::new(2048, |i: int| 0u8),
            controllers: seq![idle, idle],
            ppu: PPUView::power_on(),
            dma: DMA { page: 0, addr: 0, data: 0, transfer: false, dummy: true },
            apu: APU::new_spec(),
            cartridge,
        }
    }

    /// What the console itself answers to a read: work RAM, a PPU register,
    /// the APU (0x4014 is write-only), a controller bit; open bus from 0x4018.
    pub open spec fn internal_read(self, addr: u16) -> Option<u8> {
        if addr < 0x2000 {
            Some(self.work_ram[addr as int % 0x800])
        } else if addr < 0x4000 {
            Some(self.ppu.register_peek(self.cartridge, register_at(addr)))
        } else if addr == 0x4014 {
            None
        } else if addr < 0x4016 {
            self.apu.read_spec(addr)
        } else if addr < 0x4018 {
            Some(controller_bit(self.controllers[addr - 0x4016]))
        } else {
            None
        }
    }

    /// What a read yields: the cartridge's answer where it claims the address.
    pub open spec fn read(self, addr: u16) -> Option<u8> {
        match self.cartridge.cpu_read(addr) {
            InterceptorResult::Intercepted(v) => v,
            InterceptorResult::NotIntercepted => self.internal_read(addr),
        }
    }

    /// The side effects of a read: a PPU register's, or a controller's shift.
    pub open spec fn read_effect(self, addr: u16) -> CPUBusView {
        if self.cartridge.cpu_read(addr) is Intercepted {
            self
        } else if 0x2000 <= addr < 0x4000 {
            CPUBusView {
                ppu: self.ppu.register_read_effect(self.cartridge, register_at(addr)),
                ..self
            }
        } else if 0x4016 <= addr < 0x4018 {
            let i = addr - 0x4016;
            let c = self.controllers[i];
            CPUBusView {
                controllers: self.controllers.update(
                    i,
                    Controller { shift_register: c.shift_register << 1u8, ..c },
                ),
                ..self
            }
        } else {
            self
        }
    }

    /// The console after a write it handles itself: work RAM, a PPU register,
    /// the start of an OAM DMA transfer (0x4014), an APU register, or a
    /// controller poll (0x4016 polls the first controller, 0x4017 the second).
    pub open spec fn internal_write(self, addr: u16, value: u8) -> CPUBusView {
        if addr < 0x2000 {
            CPUBusView { work_ram: self.work_ram.update(addr as int % 0x800, value), ..self }
        } else if addr < 0x4000 {
            let (p, c) = self.ppu.register_write(self.cartridge, register_at(addr), value);
            CPUBusView { ppu: p, cartridge: c, ..self }
        } else if addr == 0x4014 {
            CPUBusView { dma: DMA { page: value, addr: 0, transfer: true, ..self.dma }, ..self }
        } else if addr < 0x4016 {
            CPUBusView { apu: self.apu.write_spec(addr, value), ..self }
        } else if addr < 0x4018 {
            let i = addr - 0x4016;
            let c = self.controllers[i];
            CPUBusView {
                controllers: self.controllers.update(
                    i,
                    Controller { shift_register: report_byte(c.state) as u8, ..c },
                ),
                ..self
            }
        } else {
            self
        }
    }

    /// The bus after a write: the cartridge takes the addresses it claims.
    pub open spec fn write(self, addr: u16, value: u8) -> CPUBusView {
        if self.cartridge.takes_cpu_write(addr) {
            CPUBusView { cartridge: self.cartridge.cpu_write(addr, value), ..self }
        } else {
            self.internal_write(addr, value)
        }
    }

    /// One OAM DMA step on PPU cycle `ppu_cycle_count`, and whether the DMA
    /// took the cycle from the CPU. A transfer first waits for an odd cycle,
    /// then reads a byte on even cycles and writes it to OAM on odd ones.
    #[verifier::opaque]
    pub open spec fn dma_step(self, ppu_cycle_count: u64) -> (CPUBusView, bool) {
        if self.dma.transfer {
            if self.dma.dummy {
                if ppu_cycle_count % 2 == 1 {
                    (CPUBusView { dma: DMA { dummy: false, ..self.dma }, ..self }, true)
                } else {
                    (self, true)
                }
            } else if ppu_cycle_count % 2 == 0 {
                let addr = (self.dma.page as int * 256 + self.dma.addr as int) as u16;
                let value = match self.read(addr) {
                    Some(v) => v,
                    None => 0u8,
                };
                let after = self.read_effect(addr);
                (CPUBusView { dma: DMA { data: value, ..after.dma }, ..after }, true)
            } else {
                let last = self.dma.addr == 255;
                (
                    CPUBusView {
                        ppu: PPUView {
                            oam: self.ppu.oam.update(self.dma.addr as int, self.dma.data),
                            ..self.ppu
                        },
                        dma: DMA {
                            addr: ((self.dma.addr as int + 1) % 256) as u8,
                            transfer: self.dma.transfer && !last,
                            dummy: self.dma.dummy || last,
                            ..self.dma
                        },
                        ..self
                    },
                    true,
                )
            }
        } else {
            (self, false)
        }
    }
}

impl Bus for CPUBus {
    open spec fn try_read_spec(m: CPUBusView, addr: u16) -> Option<u8> {
        m.read(addr)
    }

    open spec fn read_effect_spec(m: CPUBusView, addr: u16) -> CPUBusView {
        m.read_effect(addr)
    }

    open spec fn write_spec(m: CPUBusView, addr: u16, value: u8) -> CPUBusView {
        m.write(addr, value)
    }

    fn try_read_readonly(&self, addr: u16) -> (r: Option<u8>) {
        match self.cartridge.cpu_read(addr) {
            InterceptorResult::Intercepted(v) => v,
            InterceptorResult::NotIntercepted => {
                if addr < 0x2000 {
                    Some(self.work_ram[(addr % 0x800) as usize])
                } else if addr < 0x4000 {
                    Some(self.ppu.try_read_readonly(&self.cartridge, PPURegister::from_address(addr)))
                } else if addr == 0x4014 {
                    None
                } else if addr < 0x4016 {
                    self.apu.try_read_readonly(addr)
                } else if addr < 0x4018 {
                    Some(self.controllers[(addr - 0x4016) as usize].read_readonly())
                } else {
                    None
                }
            },
        }
    }

    fn read_side_effects(&mut self, addr: u16) {
        if let InterceptorResult::Intercepted(_) = self.cartridge.cpu_read(addr) {
            return;
        }
        if addr >= 0x2000 && addr < 0x4000 {
            self.ppu.read_side_effects(&self.cartridge, PPURegister::from_address(addr));
        } else if addr >= 0x4016 && addr < 0x4018 {
            let i = (addr - 0x4016) as usize;
            let mut c = self.controllers[i];
            c.read();
            self.controllers[i] = c;
        }
    }

    fn write(&mut self, addr: u16, value: u8) {
        if let InterceptorResult::Intercepted(_) = self.cartridge.cpu_write(addr, value) {
            return;
        }
        if addr < 0x2000 {
            self.work_ram[(addr % 0x800) as usize] = value;
        } else if addr < 0x4000 {
            self.ppu.write_bus(&mut self.cartridge, PPURegister::from_address(addr), value);
        } else if addr == 0x4014 {
            self.dma.page = value;
            self.dma.addr = 0;
            self.dma.transfer = true;
        } else if addr < 0x4016 {
            self.apu.write(addr, value);
        } else if addr < 0x4018 {
            let i = (addr - 0x4016) as usize;
            let mut c = self.controllers[i];
            c.poll();
            self.controllers[i] = c;
        }
    }
}

impl CPUBus {
    /// The bus around a cartridge, with everything else at power-on.
    pub fn new(cartridge: Cartridge) -> (r: CPUBus)
        ensures
            r@ == CPUBusView::power_on(cartridge@),
    {
        let work_ram = [0u8; 2048];
        assert(work_ram@ =~= Seq::new(2048, |i: int| 0u8));
        let c0 = Controller::new();
        let c1 = Controller::new();
        assert(c0.state.right == false && c0.state.a == false) by {
            assert(!button_pressed(c0.state, ControllerButton::Right));
            assert(!button_pressed(c0.state, ControllerButton::A));
        }
        let controllers = [c0, c1];
        proof {
            assert(!button_pressed(c0.state, ControllerButton::Left));
            assert(!button_pressed(c0.state, ControllerButton::Down));
            assert(!button_pressed(c0.state, ControllerButton::Up));
            assert(!button_pressed(c0.state, ControllerButton::Start));
            assert(!button_pressed(c0.state, ControllerButton::Select));
            assert(!button_pressed(c0.state, ControllerButton::B));
            assert(!button_pressed(c1.state, ControllerButton::Right));
            assert(!button_pressed(c1.state, ControllerButton::Left));
            assert(!button_pressed(c1.state, ControllerButton::Down));
            assert(!button_pressed(c1.state, ControllerButton::Up));
            assert(!button_pressed(c1.state, ControllerButton::Start));
            assert(!button_pressed(c1.state, ControllerButton::Select));
            assert(!button_pressed(c1.state, ControllerButton::B));
            assert(!button_pressed(c1.state, ControllerButton::A));
            assert(controllers@ =~= seq![c0, c1]);
        }
        CPUBus {
            work_ram,
            controllers,
            ppu: PPU::new(),
            dma: DMA::new(),
            apu: APU::new(),
            cartridge,
        }
    }

    /// Runs OAM DMA for one PPU cycle if a transfer is under way; returns
    /// whether it did (the CPU is halted meanwhile).
    pub fn maybe_tick_dma(&mut self, ppu_cycle_count: u64) -> (r: bool)
        ensures
            (final(self)@, r) == old(self)@.dma_step(ppu_cycle_count),
    {
        reveal(CPUBusView::dma_step);
        if self.dma.transfer {
            if self.dma.dummy {
                if ppu_cycle_count % 2 == 1 {
                    self.dma.dummy = false;
                }
            } else if ppu_cycle_count % 2 == 0 {
                let addr = self.dma.ram_addr();
                let value = self.read(addr);
                self.dma.store_data(value);
            } else {
                self.dma.write_to_ppu(&mut self.ppu.oam);
            }
            true
        } else {
            false
        }
    }

    /// Runs the APU at CPU cycle `cpu_cycle_count`; returns whether it raises a
    /// frame IRQ, and its commands for the synthesizer.
    pub fn tick_apu(&mut self, cpu_cycle_count: u64) -> (r: (bool, Vec<APUSynthCommand>))
        ensures
            ({
                let (a, irq, cmds) = old(self)@.apu.tick_spec(cpu_cycle_count);
                &&& final(self)@ == (CPUBusView { apu: a, ..old(self)@ })
                &&& r.0 == irq
                &&& r.1@ == cmds
            }),
    {
        APU::tick(&mut self.apu, cpu_cycle_count)
    }

    /// Presses or releases a button on one of the two controllers.
    pub fn set_controller_button_state(&mut self, controller_index: usize, button: ControllerButton, pressed: bool)
        requires
            controller_index < 2,
        ensures
            final(self)@ == (CPUBusView {
                controllers: old(self)@.controllers.update(
                    controller_index as int,
                    Controller {
                        state: old(self)@.controllers[controller_index as int].state.with_button(button, pressed),
                        ..old(self)@.controllers[controller_index as int]
                    },
                ),
                ..old(self)@
            }),
    {
        let mut c = self.controllers[controller_index];
        c.set_button_state(button, pressed);
        self.controllers[controller_index] = c;
    }

    /// Runs the PPU for one cycle; returns whether it raises an NMI.
    pub fn tick_ppu(&mut self, pixbuf: &mut Vec<u8>) -> (nmi: bool)
        requires
            old(pixbuf)@.len() == pixbuf_len(),
        ensures
            ({
                let (p, pix, n) = old(self)@.ppu.tick(old(self)@.cartridge, old(pixbuf)@);
                &&& final(self)@ == (CPUBusView {
                    ppu: p,
                    cartridge: if p.cycle == 0 {
                        old(self)@.cartridge.scanline_clock()
                    } else {
                        old(self)@.cartridge
                    },
                    ..old(self)@
                })
                &&& final(pixbuf)@ == pix
                &&& nmi == n
            }),
            final(pixbuf)@.len() == pixbuf_len(),
    {
        self.cartridge.tick_ppu(&mut self.ppu, pixbuf)
    }

    /// Returns whether the cartridge has an IRQ pending, and acknowledges it.
    pub fn poll_irq(&mut self) -> (r: bool)
        ensures
            r == old(self)@.cartridge.pending_irq(),
            final(self)@ == (CPUBusView { cartridge: old(self)@.cartridge.acknowledge_irq(), ..old(self)@ }),
    {
        self.cartridge.poll_irq()
    }
}

/// No cartridge claims a CPU address below 0x6000.
pub proof fn lemma_cartridge_ignores_low(c: CartridgeView, addr: u16)
    requires
        addr < 0x6000,
    ensures
        c.cpu_read(addr) is NotIntercepted,
        !c.takes_cpu_write(addr),
{
}

/// Work RAM reads back what was written, at every mirror of the address.
#[verifier::spinoff_prover]
#[verifier::rlimit(50)]
pub proof fn lemma_work_ram_write_read(m: CPUBusView, addr: u16, mirror: u16, value: u8)
    requires
        m.work_ram.len() == 2048,
        addr < 0x2000,
        mirror < 0x2000,
        addr % 0x800 == mirror % 0x800,
    ensures
        m.write(addr, value).read(mirror) == Some(value),
        m.write(addr, value).read_effect(mirror) == m.write(addr, value),
{
    lemma_cartridge_ignores_low(m.cartridge, addr);
    lemma_cartridge_ignores_low(m.cartridge, mirror);
}

/// A byte pushed on the stack is the byte pulled back, and the pull restores
/// the stack pointer.
#[verifier::spinoff_prover]
#[verifier::rlimit(50)]
pub proof fn lemma_stack_push_pull(value: u8, cpu: CPU, bus: CPUBusView)
    requires
        bus.work_ram.len() == 2048,
    ensures
        ({
            let (c1, b1) = push_spec::<CPUBus>(value, cpu, bus);
            let (v, c2, b2) = pull_spec::<CPUBus>(c1, b1);
            &&& v == value
            &&& c2 == cpu
            &&& b2 == b1
        }),
{
    let addr = (cpu.s as int + 256) as u16;
    let b1 = bus.write(addr, value);
    lemma_work_ram_write_read(bus, addr, addr, value);
    let c1 = CPU { s: crate::cpu::cpu::dec8(cpu.s), ..cpu };
    assert(crate::cpu::cpu::inc8(c1.s) == cpu.s);
    assert(push_spec::<CPUBus>(value, cpu, bus) == (c1, b1));
    assert(b1.read(addr) == Some(value));
    assert(b1.read_effect(addr) == b1);
}


/// `n` OAM DMA steps on the PPU cycles `c`, `c + 1`, ... from `m`.
pub open spec fn dma_run(m: CPUBusView, c: u64, n: nat) -> CPUBusView
    decreases n,
{
    if n == 0 {
        m
    } else {
        dma_run(m, c, (n - 1) as nat).dma_step((c + n - 1) as u64).0
    }
}

/// Running `a` steps and then `b` more is running `a + b` steps.
#[verifier::spinoff_prover]
#[verifier::rlimit(50)]
proof fn lemma_dma_run_split(m: CPUBusView, c: u64, a: nat, b: nat)
    requires
        c + a + b <= u64::MAX,
    ensures
        dma_run(m, c, a + b) == dma_run(dma_run(m, c, a), (c + a) as u64, b),
    decreases b,
{
    if b > 0 {
        lemma_dma_run_split(m, c, a, (b - 1) as nat);
        assert(((c + a) as u64 + b - 1) as u64 == (c + (a + b) - 1) as u64);
    }
}

/// While a transfer waits, an odd cycle ends the wait and an even one passes.
proof fn lemma_dma_wait_step(m: CPUBusView, c: u64)
    requires
        m.dma.transfer,
        m.dma.dummy,
    ensures
        m.dma_step(c).0 == (if c % 2 == 1 {
            CPUBusView { dma: DMA { dummy: false, ..m.dma }, ..m }
        } else {
            m
        }),
{
    reveal(CPUBusView::dma_step);
}

/// A read-write pair of a transfer from work RAM: the even cycle fetches the
/// byte at the page and offset, the odd one stores it in sprite memory and
/// moves to the next offset.
proof fn lemma_dma_pair_steps(r0: CPUBusView, even: u64)
    requires
        r0.work_ram.len() == 2048,
        r0.ppu.oam.len() == 256,
        r0.dma.transfer,
        !r0.dma.dummy,
        r0.dma.page < 0x20,
        even % 2 == 0,
        even < u64::MAX,
    ensures
        ({
            let r1 = r0.dma_step(even).0;
            let r2 = r1.dma_step((even + 1) as u64).0;
            let k = r0.dma.addr as int;
            &&& r2.work_ram == r0.work_ram
            &&& r2.cartridge == r0.cartridge
            &&& r2.ppu.oam == r0.ppu.oam.update(k, r0.work_ram[(r0.dma.page as int * 256 + k) % 2048])
            &&& r2.dma.page == r0.dma.page
            &&& r2.dma.addr == (k + 1) % 256
            &&& r2.dma.transfer == (k != 255)
            &&& r2.dma.dummy == (k == 255)
        }),
{
    reveal(CPUBusView::dma_step);
    let addr = (r0.dma.page as int * 256 + r0.dma.addr as int) as u16;
    lemma_cartridge_ignores_low(r0.cartridge, addr);
}

/// After `k` read-write pairs of a transfer from a page of work RAM that
/// started at offset 0 on an even cycle, the first `k` bytes of sprite memory
/// hold the page's first `k` bytes.
#[verifier::spinoff_prover]
#[verifier::rlimit(50)]
proof fn lemma_dma_pairs(m: CPUBusView, c: u64, k: nat)
    requires
        m.work_ram.len() == 2048,
        m.ppu.oam.len() == 256,
        m.dma.transfer,
        !m.dma.dummy,
        m.dma.addr == 0,
        m.dma.page < 0x20,
        c % 2 == 0,
        c + 512 <= u64::MAX,
        k <= 256,
    ensures
        ({
            let r = dma_run(m, c, 2 * k);
            &&& r.work_ram == m.work_ram
            &&& r.cartridge == m.cartridge
            &&& r.ppu.oam.len() == 256
            &&& forall|j: int| 0 <= j < k ==> r.ppu.oam[j] == m.work_ram[(m.dma.page as int * 256 + j) % 2048]
            &&& r.dma.page == m.dma.page
            &&& r.dma.addr == k % 256
            &&& r.dma.transfer == (k < 256)
            &&& r.dma.dummy == (k == 256)
        }),
    decreases k,
{
    if k > 0 {
        let k1 = (k - 1) as nat;
        lemma_dma_pairs(m, c, k1);
        let r0 = dma_run(m, c, 2 * k1);
        let even = (c + 2 * k1) as u64;
        lemma_dma_pair_steps(r0, even);
        assert(dma_run(m, c, 2 * k1 + 1) == r0.dma_step(even).0);
        assert(dma_run(m, c, 2 * k) == dma_run(m, c, 2 * k1 + 1).dma_step((even + 1) as u64).0);
    }
}

/// A transfer started on an odd cycle copies the page in 513 steps.
#[verifier::spinoff_prover]
#[verifier::rlimit(50)]
proof fn lemma_dma_odd_start(m: CPUBusView, c: u64)
    requires
        m.work_ram.len() == 2048,
        m.ppu.oam.len() == 256,
        m.dma.transfer,
        m.dma.dummy,
        m.dma.addr == 0,
        m.dma.page < 0x20,
        c % 2 == 1,
        c + 514 <= u64::MAX,
    ensures
        ({
            let r = dma_run(m, c, 513);
            &&& forall|i: int| 0 <= i < 256 ==> r.ppu.oam[i] == m.work_ram[(m.dma.page as int * 256 + i) % 2048]
            &&& !r.dma.transfer
            &&& r.work_ram == m.work_ram
        }),
{
    let m1 = m.dma_step(c).0;
    lemma_dma_wait_step(m, c);
    assert(dma_run(m, c, 1) == m1) by {
        reveal_with_fuel(dma_run, 2);
    }
    lemma_dma_pairs(m1, (c + 1) as u64, 256);
    lemma_dma_run_split(m, c, 1, 512);
}

/// A transfer started on an even cycle waits one cycle more: 514 steps.
#[verifier::spinoff_prover]
#[verifier::rlimit(50)]
proof fn lemma_dma_even_start(m: CPUBusView, c: u64)
    requires
        m.work_ram.len() == 2048,
        m.ppu.oam.len() == 256,
        m.dma.transfer,
        m.dma.dummy,
        m.dma.addr == 0,
        m.dma.page < 0x20,
        c % 2 == 0,
        c + 514 <= u64::MAX,
    ensures
        ({
            let r = dma_run(m, c, 514);
            &&& forall|i: int| 0 <= i < 256 ==> r.ppu.oam[i] == m.work_ram[(m.dma.page as int * 256 + i) % 2048]
            &&& !r.dma.transfer
            &&& r.work_ram == m.work_ram
        }),
{
    lemma_dma_wait_step(m, c);
    assert(dma_run(m, c, 1) == m) by {
        reveal_with_fuel(dma_run, 2);
    }
    let m2 = m.dma_step((c + 1) as u64).0;
    lemma_dma_wait_step(m, (c + 1) as u64);
    assert(dma_run(m, c, 2) == m2);
    lemma_dma_pairs(m2, (c + 2) as u64, 256);
    lemma_dma_run_split(m, c, 2, 512);
}

/// An OAM DMA transfer from a page of work RAM, started (by a write to 0x4014)
/// on PPU cycle `c`, copies the page into sprite memory in 513 cycles when
/// `c` is odd and 514 when it is even, then ends; work RAM is untouched.
#[verifier::spinoff_prover]
#[verifier::rlimit(50)]
pub proof fn lemma_dma_copies_page(m: CPUBusView, c: u64)
    requires
        m.work_ram.len() == 2048,
        m.ppu.oam.len() == 256,
        m.dma.transfer,
        m.dma.dummy,
        m.dma.addr == 0,
        m.dma.page < 0x20,
        c + 514 <= u64::MAX,
    ensures
        ({
            let r = dma_run(m, c, if c % 2 == 1 { 513 } else { 514 });
            &&& forall|i: int| 0 <= i < 256 ==> r.ppu.oam[i] == m.work_ram[(m.dma.page as int * 256 + i) % 2048]
            &&& !r.dma.transfer
            &&& r.work_ram == m.work_ram
        }),
{
    if c % 2 == 1 {
        lemma_dma_odd_start(m, c);
    } else {
        lemma_dma_even_start(m, c);
    }
}



} // verus!
