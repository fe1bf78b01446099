use vstd::prelude::*;

use crate::cpu::cpu_core::Cpu;
use crate::cpu::memory::memory_core::Memory;
use crate::cpu::memory_access::{bare_reaches, device_load, read_effect};
use crate::error::EmuError;
use crate::system::plic::PLIC_CLAIM;

verus! {

/// Width of the frame in pixels.
pub const SCREEN_WIDTH: u64 = 320;

/// Height of the frame in pixels.
pub const SCREEN_HEIGHT: u64 = 200;

/// Number of pixels of a frame.
pub const SCREEN_PIXELS: u64 = 64000;

/// The window pixel of a frame word: its red, green and blue bytes, fully opaque.
pub open spec fn pixel_of(val: u32) -> u32 {
    (val & 0xff) | (((val >> 8u32) & 0xff) << 8u32) | (((val >> 16u32) & 0xff) << 16u32) | (0xffu32 << 24u32)
}

/// No word of the frame at `addr` reaches the PLIC claim register, whose read changes the
/// device state.
pub open spec fn frame_reads_plain<M: Memory>(cpu: Cpu<M>, addr: u64) -> bool {
    forall|p: int| 0 <= p < SCREEN_PIXELS ==> !#[trigger] bare_reaches(cpu, (addr + 4 * p) as u64, PLIC_CLAIM)
}

/// The word of pixel `p` of the frame at `addr`, as a word read through the hart's address
/// path gives it.
pub open spec fn frame_word<M: Memory>(cpu: Cpu<M>, addr: u64, p: int) -> Option<u64> {
    device_load(cpu, (addr + 4 * p) as u64, 4)
}

/// The pixel read `k`-th: the frame is read row by row, column by column within a row.
pub open spec fn read_order(k: int) -> int {
    pix(k % 320, k / 320)
}

/// `cs` is a run of harts through the first `n` word reads of the frame at `addr`, each read
/// (through the hart's address path) giving `vs[k]`.
pub open spec fn frame_reads<M: Memory>(cs: Seq<Cpu<M>>, vs: Seq<u64>, addr: u64, n: int) -> bool {
    &&& cs.len() == n + 1
    &&& vs.len() == n
    &&& forall|k: int|
        0 <= k < n ==> #[trigger] read_effect(cs[k], cs[k + 1], (addr + 4 * read_order(k)) as u64, 4, Ok(vs[k]))
}

/// The window pixel of a frame word.
pub fn pixel(val: u32) -> (r: u32)
    ensures
        r == pixel_of(val),
{
    let r = val & 0xff;
    let g = (val >> 8u32) & 0xff;
    let b = (val >> 16u32) & 0xff;
    r | (g << 8u32) | (b << 16u32) | (0xffu32 << 24u32)
}

/// Copies the frame at `addr` into `buf`, one pixel per word; pixel `x * SCREEN_HEIGHT + y`
/// is read row by row. A refused read stops the copy and is reported.
pub fn frame_pixels<M: Memory>(cpu: &mut Cpu<M>, addr: u64, buf: &mut Vec<u32>) -> (r: Result<(), EmuError>)
    requires
        old(cpu).wf(),
        old(buf)@.len() == SCREEN_PIXELS,
        addr <= u32::MAX,
    ensures
        final(cpu).wf(),
        final(buf)@.len() == SCREEN_PIXELS,
        frame_reads_plain(*old(cpu), addr) ==> *final(cpu) == *old(cpu),
        frame_reads_plain(*old(cpu), addr) ==> (r is Ok <==> forall|p: int|
            0 <= p < SCREEN_PIXELS ==> #[trigger] frame_word(*old(cpu), addr, p) is Some),
        frame_reads_plain(*old(cpu), addr) && r is Ok ==> forall|p: int|
            0 <= p < SCREEN_PIXELS ==> #[trigger] final(buf)@[p] == pixel_of(
                frame_word(*old(cpu), addr, p)->0 as u32,
            ),
        r is Ok ==> exists|cs: Seq<Cpu<M>>, vs: Seq<u64>|
            #![trigger frame_reads(cs, vs, addr, SCREEN_PIXELS as int)]
            frame_reads(cs, vs, addr, SCREEN_PIXELS as int) && cs[0] == *old(cpu) && cs.last() == *final(cpu)
                && forall|k: int|
                0 <= k < SCREEN_PIXELS ==> #[trigger] final(buf)@[read_order(k)] == pixel_of(vs[k] as u32),
        r is Err ==> exists|cs: Seq<Cpu<M>>, vs: Seq<u64>, k: int, e: EmuError|
            #![trigger frame_reads(cs, vs, addr, k), read_effect(cs[k], *final(cpu), (addr + 4 * read_order(k)) as u64, 4, Err(e))]
            0 <= k < SCREEN_PIXELS && frame_reads(cs, vs, addr, k) && cs[0] == *old(cpu) && read_effect(
                cs[k],
                *final(cpu),
                (addr + 4 * read_order(k)) as u64,
                4,
                Err(e),
            ),
{
    let ghost c0 = *cpu;
    let ghost plain = frame_reads_plain(c0, addr);
    let ghost mut cs: Seq<Cpu<M>> = seq![c0];
    let ghost mut vs: Seq<u64> = Seq::empty();
    let mut y: u64 = 0;
    while y < SCREEN_HEIGHT
        invariant
            cpu.wf(),
            buf@.len() == SCREEN_PIXELS,
            y <= SCREEN_HEIGHT,
            addr <= u32::MAX,
            c0 == *old(cpu),
            frame_reads(cs, vs, addr, 320 * y),
            cs[0] == c0,
            cs.last() == *cpu,
            forall|k: int| 0 <= k < 320 * y ==> #[trigger] buf@[read_order(k)] == pixel_of(vs[k] as u32),
            plain == frame_reads_plain(c0, addr),
            plain ==> *cpu == c0,
            plain ==> forall|xx: int, yy: int|
                #![trigger pix(xx, yy)]
                0 <= xx < 320 && 0 <= yy < y ==> frame_word(c0, addr, pix(xx, yy)) is Some && buf@[pix(xx, yy)]
                    == pixel_of(frame_word(c0, addr, pix(xx, yy))->0 as u32),
        decreases SCREEN_HEIGHT - y,
    {
        let mut x: u64 = 0;
        while x < SCREEN_WIDTH
            invariant
                cpu.wf(),
                buf@.len() == SCREEN_PIXELS,
                y < SCREEN_HEIGHT,
                x <= SCREEN_WIDTH,
                addr <= u32::MAX,
                c0 == *old(cpu),
                frame_reads(cs, vs, addr, 320 * y + x),
                cs[0] == c0,
                cs.last() == *cpu,
                forall|k: int| 0 <= k < 320 * y + x ==> #[trigger] buf@[read_order(k)] == pixel_of(vs[k] as u32),
                plain == frame_reads_plain(c0, addr),
                plain ==> *cpu == c0,
                plain ==> forall|xx: int, yy: int|
                #![trigger pix(xx, yy)]
                    0 <= xx < 320 && 0 <= yy < 200 && (yy < y || (yy == y && xx < x)) ==> frame_word(c0, addr, pix(xx, yy))
                        is Some && buf@[pix(xx, yy)] == pixel_of(frame_word(c0, addr, pix(xx, yy))->0 as u32),
            decreases SCREEN_WIDTH - x,
        {
            proof {
                lemma_pix(x as int, y as int, x as int, y as int);
            }
            let p = x * SCREEN_HEIGHT + y;
            assert(p == pix(x as int, y as int));
            let ghost k0: int = 320 * y + x;
            proof {
                lemma_read_order_at(x as int, y as int);
            }
            let ghost before = *cpu;
            let val = match cpu.read_mem_u32(addr + p * 4) {
                Ok(v) => v,
                Err(e) => {
                    proof {
                        if plain {
                            assert(!bare_reaches(c0, (addr + 4 * (p as int)) as u64, PLIC_CLAIM));
                            assert(frame_word(c0, addr, p as int) is None);
                        }
                        assert(read_effect(cs[k0], *cpu, (addr + 4 * read_order(k0)) as u64, 4, Err(e)));
                    }
                    return Err(e);
                },
            };
            proof {
                if plain {
                    assert(!bare_reaches(c0, (addr + 4 * (p as int)) as u64, PLIC_CLAIM));
                    assert(frame_word(c0, addr, p as int) == Some(val as u64));
                }
            }
            let ghost old_buf = buf@;
            buf.set(p as usize, pixel(val));
            proof {
                let cs2 = cs.push(*cpu);
                let vs2 = vs.push(val as u64);
                assert forall|k: int| 0 <= k < k0 + 1 implies #[trigger] read_effect(
                    cs2[k],
                    cs2[k + 1],
                    (addr + 4 * read_order(k)) as u64,
                    4,
                    Ok(vs2[k]),
                ) by {
                    if k < k0 {
                        assert(cs2[k] == cs[k] && cs2[k + 1] == cs[k + 1] && vs2[k] == vs[k]);
                    } else {
                        assert(cs2[k] == before && cs2[k + 1] == *cpu);
                    }
                }
                assert forall|k: int| 0 <= k < k0 + 1 implies #[trigger] buf@[read_order(k)] == pixel_of(
                    vs2[k] as u32,
                ) by {
                    if k < k0 {
                        lemma_read_order_distinct(k, k0);
                        assert(old_buf[read_order(k)] == buf@[read_order(k)]);
                    }
                }
                cs = cs2;
                vs = vs2;
            }
            proof {
                if plain {
                    assert forall|xx: int, yy: int|
                #![trigger pix(xx, yy)]
                        0 <= xx < 320 && 0 <= yy < 200 && (yy < y || (yy == y && xx < x + 1)) implies frame_word(
                        c0,
                        addr,
                        pix(xx, yy),
                    ) is Some && buf@[pix(xx, yy)] == pixel_of(frame_word(c0, addr, pix(xx, yy))->0 as u32) by {
                        lemma_pix(xx, yy, x as int, y as int);
                        if xx != x || yy != y {
                            assert(old_buf[pix(xx, yy)] == buf@[pix(xx, yy)]);
                        }
                    }
                }
            }
            x = x + 1;
        }
        y = y + 1;
    }
    proof {
        if plain {
            assert forall|q: int| 0 <= q < SCREEN_PIXELS implies #[trigger] frame_word(c0, addr, q) is Some
                && buf@[q] == pixel_of(frame_word(c0, addr, q)->0 as u32) by {
                let xx = q / 200;
                let yy = q % 200;
                assert(pix(xx, yy) == q && 0 <= xx < 320 && 0 <= yy < 200) by (nonlinear_arith)
                    requires
                        0 <= q < 64000,
                        xx == q / 200,
                        yy == q % 200,
                ;
                assert(buf@[pix(xx, yy)] == pixel_of(frame_word(c0, addr, pix(xx, yy))->0 as u32));
            }
        }
    }
    Ok(())
}

/// The read at row `y`, column `x` is read number `320 * y + x`, of pixel `pix(x, y)`.
proof fn lemma_read_order_at(x: int, y: int)
    requires
        0 <= x < 320,
        0 <= y < 200,
    ensures
        read_order(320 * y + x) == pix(x, y),
        0 <= 320 * y + x < 64000,
{
    assert((320 * y + x) % 320 == x && (320 * y + x) / 320 == y && 320 * y + x < 64000) by (nonlinear_arith)
        requires
            0 <= x < 320,
            0 <= y < 200,
    ;
}

/// Different reads are of different pixels, each inside the frame.
proof fn lemma_read_order_distinct(j: int, k: int)
    requires
        0 <= j < k < 64000,
    ensures
        read_order(j) != read_order(k),
        0 <= read_order(j) < 64000,
{
    let (xj, yj, xk, yk) = (j % 320, j / 320, k % 320, k / 320);
    assert(0 <= xj < 320 && 0 <= yj < 200 && j == 320 * yj + xj) by (nonlinear_arith)
        requires
            0 <= j < 64000,
            xj == j % 320,
            yj == j / 320,
    ;
    assert(0 <= xk < 320 && 0 <= yk < 200 && k == 320 * yk + xk) by (nonlinear_arith)
        requires
            0 <= k < 64000,
            xk == k % 320,
            yk == k / 320,
    ;
    lemma_pix(xj, yj, xk, yk);
}

/// Index of the pixel at column `x` and row `y`: the frame is stored column by column.
pub open spec fn pix(x: int, y: int) -> int {
    x * 200 + y
}

/// Pixel indices of the frame lie inside it and name one pixel each.
proof fn lemma_pix(xx: int, yy: int, x: int, y: int)
    requires
        0 <= xx < 320,
        0 <= yy < 200,
        0 <= x < 320,
        0 <= y < 200,
    ensures
        0 <= pix(xx, yy) < 64000,
        pix(xx, yy) == pix(x, y) ==> xx == x && yy == y,
{
    assert(0 <= xx * 200 + yy < 64000) by (nonlinear_arith)
        requires
            0 <= xx < 320,
            0 <= yy < 200,
    ;
    assert(xx * 200 + yy == x * 200 + y ==> xx == x && yy == y) by (nonlinear_arith)
        requires
            0 <= yy < 200,
            0 <= y < 200,
    ;
}

/// The key-queue entry of a key transition: the top bit set for a press, the key code below.
pub open spec fn key_entry(pressed: bool, key: u8) -> u32 {
    ((if pressed { 1u32 } else { 0u32 }) << 31u32) | (key as u32)
}

/// The key-queue entries of the keys whose state changed from `before` to `now`, in key
/// order, followed by the end mark.
pub open spec fn key_entries(keys: Seq<u8>, before: Seq<bool>, now: Seq<bool>) -> Seq<u32>
    decreases keys.len(),
{
    if keys.len() == 0 {
        seq![0xffff_ffffu32]
    } else {
        let rest = key_entries(keys.drop_first(), before.drop_first(), now.drop_first());
        if now[0] != before[0] {
            seq![key_entry(now[0], keys[0])] + rest
        } else {
            rest
        }
    }
}

/// The entries to put in the guest's key queue for the key states `now`, given the states
/// `before` seen at the last frame: one per key that went down or up, then the end mark.
pub fn key_queue_entries(keys: &Vec<u8>, before: &Vec<bool>, now: &Vec<bool>) -> (r: Vec<u32>)
    requires
        keys@.len() == before@.len(),
        keys@.len() == now@.len(),
    ensures
        r@ == key_entries(keys@, before@, now@),
{
    let mut r: Vec<u32> = Vec::new();
    let n = keys.len();
    let mut i: usize = n;
    let mut tail: Vec<u32> = vec![0xffff_ffffu32];
    while i > 0
        invariant
            i <= n,
            n == keys@.len(),
            n == before@.len(),
            n == now@.len(),
            tail@ == key_entries(keys@.skip(i as int), before@.skip(i as int), now@.skip(i as int)),
        decreases i,
    {
        i = i - 1;
        proof {
            assert(keys@.skip(i as int).drop_first() =~= keys@.skip(i + 1));
            assert(before@.skip(i as int).drop_first() =~= before@.skip(i + 1));
            assert(now@.skip(i as int).drop_first() =~= now@.skip(i + 1));
        }
        if now[i] != before[i] {
            let e: u32 = ((if now[i] { 1u32 } else { 0u32 }) << 31u32) | (keys[i] as u32);
            let mut next: Vec<u32> = vec![e];
            next.append(&mut tail);
            tail = next;
        }
    }
    proof {
        assert(keys@.skip(0) =~= keys@);
        assert(before@.skip(0) =~= before@);
        assert(now@.skip(0) =~= now@);
    }
    r.append(&mut tail);
    r
}

} // verus!
