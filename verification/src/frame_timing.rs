use vstd::prelude::*;

use crate::cartridge::CartridgeView;
use crate::ppu::{bit8, frame_cycles, frame_position, lemma_advance_steps_frame, PPUView};

verus! {

/// Where vertical blank starts: cycle 0 of line 240, that is (240 + 1) * 341.
pub open spec fn vblank_position() -> int {
    82181
}

/// Whether the PPU is at a position of the frame: cycles 0 to 340 of lines -1
/// to 260.
pub open spec fn on_frame(p: PPUView) -> bool {
    0 <= p.cycle <= 340 && -1 <= p.scanline <= 260
}

/// `n` PPU cycles from `p` and picture `pix` with the cartridge `cart`: the
/// PPU, the picture, and how many NMIs were raised.
pub open spec fn ppu_run(p: PPUView, cart: CartridgeView, pix: Seq<u8>, n: nat) -> (PPUView, Seq<u8>, nat)
    decreases n,
{
    if n == 0 {
        (p, pix, 0)
    } else {
        let (q, px, count) = ppu_run(p, cart, pix, (n - 1) as nat);
        let (q2, px2, nmi) = q.tick(cart, px);
        (q2, px2, count + if nmi {
            1nat
        } else {
            0nat
        })
    }
}

/// How many of the `n` positions from `pos0` on, wrapping at the end of the
/// frame, are the start of vertical blank.
pub open spec fn vblank_hits(pos0: int, n: nat) -> nat
    decreases n,
{
    if n == 0 {
        0
    } else {
        vblank_hits(pos0, (n - 1) as nat) + if (pos0 + n - 1) % frame_cycles() == vblank_position() {
            1nat
        } else {
            0nat
        }
    }
}

/// The start of vertical blank is met once in the first `n` positions exactly
/// when it is fewer than `n` positions ahead.
proof fn lemma_vblank_hits(pos0: int, n: nat)
    requires
        0 <= pos0 < frame_cycles(),
        n <= frame_cycles(),
    ensures
        vblank_hits(pos0, n) == if (vblank_position() - pos0 + frame_cycles()) % frame_cycles() < n {
            1nat
        } else {
            0nat
        },
    decreases n,
{
    if n > 0 {
        lemma_vblank_hits(pos0, (n - 1) as nat);
        let f = frame_cycles();
        let j = n - 1;
        let d = (vblank_position() - pos0 + f) % f;
        if pos0 <= vblank_position() {
            assert(d == vblank_position() - pos0);
        } else {
            assert(d == vblank_position() - pos0 + f);
        }
        if pos0 + j < f {
            assert((pos0 + j) % f == pos0 + j);
        } else {
            assert((pos0 + j) % f == pos0 + j - f);
        }
    }
}

/// One PPU cycle keeps the control register, moves the position one step on,
/// and raises an NMI exactly at the start of vertical blank with NMIs enabled.
#[verifier::spinoff_prover]
#[verifier::rlimit(40)]
proof fn lemma_tick_position(q: PPUView, cart: CartridgeView, pix: Seq<u8>)
    requires
        on_frame(q),
    ensures
        ({
            let (q2, _, nmi) = q.tick(cart, pix);
            &&& q2.control == q.control
            &&& on_frame(q2)
            &&& frame_position(q2) == (frame_position(q) + 1) % frame_cycles()
            &&& nmi == (frame_position(q) == vblank_position() && bit8(q.control, 7))
        }),
{
    let (q2, _, _) = q.tick(cart, pix);
    lemma_advance_steps_frame(q);
}

/// Over `k` cycles the control register stays, the position moves `k` steps
/// on, and an NMI is raised at each start of vertical blank passed, when
/// NMIs are enabled.
#[verifier::spinoff_prover]
#[verifier::rlimit(40)]
proof fn lemma_run_positions(p: PPUView, cart: CartridgeView, pix: Seq<u8>, k: nat)
    requires
        on_frame(p),
        k <= frame_cycles(),
    ensures
        ({
            let (q, _, count) = ppu_run(p, cart, pix, k);
            &&& q.control == p.control
            &&& on_frame(q)
            &&& frame_position(q) == (frame_position(p) + k) % frame_cycles()
            &&& count == if bit8(p.control, 7) {
                vblank_hits(frame_position(p), k)
            } else {
                0nat
            }
        }),
    decreases k,
{
    if k > 0 {
        lemma_run_positions(p, cart, pix, (k - 1) as nat);
        let (q, px, _) = ppu_run(p, cart, pix, (k - 1) as nat);
        lemma_tick_position(q, cart, px);
        let f = frame_cycles();
        let pos0 = frame_position(p);
        assert(0 <= pos0 < f);
        let a = (pos0 + k - 1) % f;
        assert((a + 1) % f == (pos0 + k) % f);
    }
}

/// With no register writes, any frame's worth of PPU cycles raises exactly one
/// NMI when PPUCTRL enables NMIs, and none when it does not.
pub proof fn lemma_one_nmi_per_frame(p: PPUView, cart: CartridgeView, pix: Seq<u8>)
    requires
        on_frame(p),
    ensures
        ppu_run(p, cart, pix, frame_cycles() as nat).2 == if bit8(p.control, 7) {
            1nat
        } else {
            0nat
        },
{
    lemma_run_positions(p, cart, pix, frame_cycles() as nat);
    let pos0 = frame_position(p);
    lemma_vblank_hits(pos0, frame_cycles() as nat);
}

} // verus!
