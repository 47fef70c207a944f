//! How long the DMA units hold the processor, and what they put on the bus
//! while they do.

use vstd::prelude::*;

use super::{ApuState, Dma, DmcDma};
use crate::cpu::PinState;

verus! {

/// The unit with the halves of the cycle exchanged: what comes next is a
/// put cycle where it was a get cycle, and the other way round.
pub open spec fn flipped(apu: ApuState) -> ApuState {
    ApuState { put_cycle: !apu.put_cycle, ..apu }
}

/// Whether two states of the unit agree in all that the DMA units go by.
pub open spec fn same_transfers(a: ApuState, b: ApuState) -> bool {
    &&& a.oam_dma == b.oam_dma
    &&& a.oam_cycle == b.oam_cycle
    &&& a.oam_bank == b.oam_bank
    &&& a.dmc_dma == b.dmc_dma
    &&& a.dmc_credit == b.dmc_credit
    &&& a.put_cycle == b.put_cycle
}

/// One cycle of the sprite DMA while the processor shows a read: a
/// transfer under way comes closer to its end, and the bus carries a read
/// or the write to `$2004`.
pub proof fn lemma_oam_budget_step(apu: ApuState, bus: PinState)
    requires
        bus.read,
    ensures
        ({
            let (after, driven) = apu.clock_oam(bus);
            &&& apu.oam_dma != Dma::Idle ==> flipped(after).oam_budget() < apu.oam_budget()
            &&& apu.oam_dma == Dma::Idle ==> after.oam_dma == Dma::Idle
            &&& after == (ApuState { oam_dma: after.oam_dma, oam_cycle: after.oam_cycle, ..apu })
            &&& driven.read || driven.address == 0x2004
            &&& driven.data == bus.data
        }),
{
    reveal(ApuState::clock_oam);
}

/// One cycle of the sample fetch while the processor shows a read: a fetch
/// under way comes closer to its end, by three where it takes the cycle for
/// its read.
pub proof fn lemma_dmc_budget_step(apu: ApuState, bus: PinState)
    ensures
        ({
            let (after, driven) = apu.clock_dmc_dma(bus, true);
            &&& apu.dmc_dma != DmcDma::Idle ==> flipped(after).dmc_budget() < apu.dmc_budget()
            &&& apu.dmc_reads() ==> flipped(after).dmc_budget() + 3 <= apu.dmc_budget()
            &&& apu.dmc_dma == DmcDma::Idle ==> after.dmc_dma == DmcDma::Idle
            &&& same_transfers(after, ApuState { dmc_dma: after.dmc_dma, ..apu })
            &&& driven == bus || driven.read
        }),
{
    reveal(ApuState::clock_dmc_dma);
}

/// The registers leave the DMA units alone unless the bus carries a write
/// to `$4014` or `$4015`.
pub proof fn lemma_registers_keep_transfers(apu: ApuState, bus: PinState)
    requires
        bus.read || bus.address == 0x2004,
    ensures
        same_transfers(apu.handle_cpu(bus).0, apu),
        apu.handle_cpu(bus).0.dmc == apu.dmc,
        apu.handle_cpu(bus).1.not_ready == bus.not_ready,
{
    reveal(ApuState::handle_cpu);
    reveal(ApuState::write_dmc);
}

/// The sample channel's share of a cycle in which the processor shows a
/// read: a fetch that begins costs less than the credit it takes.
pub proof fn lemma_fetch_budget_step(apu: ApuState)
    ensures
        ({
            let after = apu.clock_dmc(true);
            &&& after.oam_dma == apu.oam_dma
            &&& after.oam_cycle == apu.oam_cycle
            &&& after.put_cycle == apu.put_cycle
            &&& after.dmc_dma == apu.dmc_dma && after.dmc_credit == apu.dmc_credit
                || apu.dmc_dma == DmcDma::Idle && after.dmc_dma == DmcDma::Dummy
                && after.dmc_credit + 1 == apu.dmc_credit
        }),
{
    reveal(ApuState::clock_dmc);
}

/// A cycle in which the processor shows a read leaves NOT_READY high only
/// while a transfer is asked for or under way, and then with a smaller
/// budget than before: the DMA units never hold the processor for ever.
pub proof fn lemma_dma_budget(apu: ApuState, bus: PinState)
    requires
        bus.read,
    ensures
        apu.clock(bus).1.not_ready == (apu.clock(bus).0.oam_dma != Dma::Idle || apu.clock(
            bus,
        ).0.dmc_dma != DmcDma::Idle),
        apu.clock(bus).1.not_ready ==> apu.clock(bus).0.dma_budget() < apu.dma_budget(),
{
    reveal(ApuState::clock);
    reveal(ApuState::strobe_controllers);
    reveal(ApuState::clock_cpu);
    reveal(ApuState::clock_apu);
    reveal(ApuState::tick_counters);
    let strobed = apu.strobe_controllers();
    let stage = strobed.clock_cpu(bus);
    if strobed.dmc_reads() {
        lemma_dmc_budget_step(strobed, bus);
    } else {
        lemma_oam_budget_step(strobed, bus);
        let moved = strobed.clock_oam(bus);
        lemma_dmc_budget_step(moved.0, moved.1);
    }
    let seen = PinState { irq: stage.1.irq || stage.0.status.irq_active(), ..stage.1 };
    lemma_registers_keep_transfers(stage.0, seen);
    let handled = stage.0.handle_cpu(seen);
    lemma_fetch_budget_step(handled.0);
}

/// The unit after `n` cycles. `buses(i)` is the processor bus as the
/// processor set it up for cycle `i`.
pub open spec fn run(apu: ApuState, buses: spec_fn(nat) -> PinState, n: nat) -> ApuState
    decreases n,
{
    if n == 0 {
        apu
    } else {
        run(apu, buses, (n - 1) as nat).clock(buses((n - 1) as nat)).0
    }
}

/// The processor bus as the unit leaves it in cycle `i`.
pub open spec fn driven(apu: ApuState, buses: spec_fn(nat) -> PinState, i: nat) -> PinState {
    run(apu, buses, i).clock(buses(i)).1
}

/// The cycles that pass between the cycle after the write to `$4014` and the
/// first read of the transfer: the cycle in which the processor stops, and
/// one more if that one is a get cycle.
pub open spec fn lead(apu: ApuState) -> nat {
    if apu.put_cycle {
        1
    } else {
        2
    }
}

/// Whether the sample channel keeps still: no fetch is under way and the
/// sample has no bytes left.
pub open spec fn dmc_silent(apu: ApuState) -> bool {
    apu.dmc_dma == DmcDma::Idle && apu.dmc.bytes_remaining == 0
}

/// A write to `$4014` asks for a transfer from the page written: the unit
/// waits for the processor to stop, and NOT_READY goes up in the same
/// cycle. The write stays on the bus as the processor made it.
pub proof fn lemma_dma_request(apu: ApuState, bus: PinState)
    requires
        apu.oam_dma == Dma::Idle,
        dmc_silent(apu),
        bus.address == 0x4014,
        !bus.read,
    ensures
        dmc_silent(apu.clock(bus).0),
        apu.clock(bus).0.oam_dma == Dma::Halt,
        apu.clock(bus).0.oam_bank == bus.data,
        apu.clock(bus).0.oam_cycle == 0,
        apu.clock(bus).0.put_cycle == !apu.put_cycle,
        apu.clock(bus).1.not_ready,
        apu.clock(bus).1.address == bus.address,
        !apu.clock(bus).1.read,
{
    reveal(ApuState::clock);
    reveal(ApuState::strobe_controllers);
    reveal(ApuState::clock_cpu);
    reveal(ApuState::clock_oam);
    reveal(ApuState::clock_dmc_dma);
    reveal(ApuState::handle_cpu);
    reveal(ApuState::write_dmc);
    reveal(ApuState::clock_dmc);
    reveal(ApuState::clock_apu);
    reveal(ApuState::tick_counters);
}

/// One cycle of the unit while the processor shows a read and the sample
/// channel keeps still, as far as the transfer goes.
pub proof fn lemma_dma_step(apu: ApuState, bus: PinState)
    requires
        bus.read,
        dmc_silent(apu),
    ensures
        dmc_silent(apu.clock(bus).0),
        apu.clock(bus).0.put_cycle == !apu.put_cycle,
        apu.clock(bus).0.oam_bank == apu.oam_bank,
        apu.clock(bus).1.not_ready == (apu.clock(bus).0.oam_dma != Dma::Idle),
        apu.oam_dma == Dma::Idle ==> apu.clock(bus).0.oam_dma == Dma::Idle,
        apu.oam_dma == Dma::Halt ==> apu.clock(bus).0.oam_dma == (if apu.put_cycle {
            Dma::Get
        } else {
            Dma::Align
        }) && apu.clock(bus).0.oam_cycle == apu.oam_cycle && apu.clock(bus).1.address
            == bus.address && apu.clock(bus).1.read,
        apu.oam_dma == Dma::Align ==> apu.clock(bus).0.oam_dma == Dma::Get && apu.clock(
            bus,
        ).0.oam_cycle == apu.oam_cycle && apu.clock(bus).1.address == bus.address && apu.clock(
            bus,
        ).1.read,
        apu.oam_dma == Dma::Get && !apu.put_cycle ==> apu.clock(bus).0.oam_dma == Dma::Put
            && apu.clock(bus).0.oam_cycle == apu.oam_cycle && apu.clock(bus).1.address
            == apu.dma_address() && apu.clock(bus).1.read,
        apu.oam_dma == Dma::Put ==> apu.clock(bus).0.oam_dma == (if apu.oam_cycle == 255 {
            Dma::End
        } else {
            Dma::Get
        }) && apu.clock(bus).0.oam_cycle as int == (apu.oam_cycle + 1) % 256 && apu.clock(
            bus,
        ).1.address == 0x2004 && !apu.clock(bus).1.read && apu.clock(bus).1.data == bus.data,
        apu.oam_dma == Dma::End ==> apu.clock(bus).0.oam_dma == Dma::Idle && apu.clock(
            bus,
        ).1.address == bus.address && apu.clock(bus).1.read,
{
    reveal(ApuState::clock);
    reveal(ApuState::strobe_controllers);
    reveal(ApuState::clock_cpu);
    reveal(ApuState::clock_oam);
    reveal(ApuState::clock_dmc_dma);
    reveal(ApuState::handle_cpu);
    reveal(ApuState::write_dmc);
    reveal(ApuState::clock_dmc);
    reveal(ApuState::clock_apu);
    reveal(ApuState::tick_counters);
}

/// Where the transfer stands after the lead and `k` pairs of cycles: at the
/// read of byte `k`, or at its end once all 256 bytes are through.
pub proof fn lemma_dma_progress(apu: ApuState, buses: spec_fn(nat) -> PinState, k: nat)
    requires
        apu.oam_dma == Dma::Halt,
        apu.oam_cycle == 0,
        dmc_silent(apu),
        forall|i: nat| (#[trigger] buses(i)).read,
        k <= 256,
    ensures
        run(apu, buses, lead(apu) + 2 * k).oam_dma == (if k < 256 {
            Dma::Get
        } else {
            Dma::End
        }),
        run(apu, buses, lead(apu) + 2 * k).oam_cycle as int == k % 256,
        run(apu, buses, lead(apu) + 2 * k).oam_bank == apu.oam_bank,
        run(apu, buses, lead(apu) + 2 * k).put_cycle == false,
        dmc_silent(run(apu, buses, lead(apu) + 2 * k)),
    decreases k,
{
    if k == 0 {
        lemma_dma_step(apu, buses(0));
        assert(run(apu, buses, 0) == apu);
        assert(run(apu, buses, 1) == run(apu, buses, 0).clock(buses(0)).0);
        if !apu.put_cycle {
            lemma_dma_step(run(apu, buses, 1), buses(1));
            assert(run(apu, buses, 2) == run(apu, buses, 1).clock(buses(1)).0);
        }
    } else {
        lemma_dma_progress(apu, buses, (k - 1) as nat);
        let at = (lead(apu) + 2 * (k - 1)) as nat;
        lemma_dma_step(run(apu, buses, at), buses(at));
        assert(run(apu, buses, at + 1) == run(apu, buses, at).clock(buses(at)).0);
        lemma_dma_step(run(apu, buses, at + 1), buses(at + 1));
        assert(run(apu, buses, at + 2) == run(apu, buses, at + 1).clock(buses(at + 1)).0);
    }
}

/// A sprite DMA, from the cycle after the write to `$4014` on, while the
/// processor shows reads.
///
/// The processor is held for 513 cycles if the first of them is a put
/// cycle, and for 514 if it is a get cycle: NOT_READY is high in every one
/// of them and low in the cycle after. The first cycle, or the first two,
/// leave the bus to the processor's own read. Then follow 256 pairs of
/// cycles: a read of the next byte of the page, and a write to `$2004` with
/// the data lines as the read left them. No other cycle writes to `$2004`,
/// so exactly 256 bytes are written. The cycle after the last write leaves
/// the bus to the processor again.
#[verifier::rlimit(50)]
pub proof fn lemma_oam_dma(apu: ApuState, buses: spec_fn(nat) -> PinState)
    requires
        apu.oam_dma == Dma::Halt,
        apu.oam_cycle == 0,
        dmc_silent(apu),
        forall|i: nat| (#[trigger] buses(i)).read,
    ensures
        lead(apu) + 512 == (if apu.put_cycle {
            513nat
        } else {
            514nat
        }),
        forall|i: nat| i < lead(apu) + 512 ==> (#[trigger] driven(apu, buses, i)).not_ready,
        !driven(apu, buses, lead(apu) + 512).not_ready,
        forall|i: nat|
            i < lead(apu) ==> (#[trigger] driven(apu, buses, i)).read && driven(
                apu,
                buses,
                i,
            ).address == buses(i).address,
        forall|k: nat|
            k < 256 ==> (#[trigger] driven(apu, buses, lead(apu) + 2 * k)).read && driven(
                apu,
                buses,
                lead(apu) + 2 * k,
            ).address == apu.oam_bank * 256 + k,
        forall|k: nat|
            k < 256 ==> !(#[trigger] driven(apu, buses, lead(apu) + 2 * k + 1)).read && driven(
                apu,
                buses,
                lead(apu) + 2 * k + 1,
            ).address == 0x2004 && driven(apu, buses, lead(apu) + 2 * k + 1).data == buses(
                lead(apu) + 2 * k + 1,
            ).data,
        driven(apu, buses, lead(apu) + 512).read && driven(apu, buses, lead(apu) + 512).address
            == buses(lead(apu) + 512).address,
        run(apu, buses, lead(apu) + 513).oam_dma == Dma::Idle,
{
    let l = lead(apu);
    assert forall|k: nat| k < 256 implies (#[trigger] driven(apu, buses, l + 2 * k)).read && driven(
        apu,
        buses,
        l + 2 * k,
    ).address == apu.oam_bank * 256 + k && driven(apu, buses, l + 2 * k).not_ready && !driven(
        apu,
        buses,
        l + 2 * k + 1,
    ).read && driven(apu, buses, l + 2 * k + 1).address == 0x2004 && driven(
        apu,
        buses,
        l + 2 * k + 1,
    ).data == buses(l + 2 * k + 1).data && driven(apu, buses, l + 2 * k + 1).not_ready by {
        lemma_dma_progress(apu, buses, k);
        let at = l + 2 * k;
        lemma_dma_step(run(apu, buses, at), buses(at));
        assert(run(apu, buses, at + 1) == run(apu, buses, at).clock(buses(at)).0);
        lemma_dma_step(run(apu, buses, at + 1), buses(at + 1));
    }
    assert forall|k: nat| k < 256 implies !(#[trigger] driven(apu, buses, l + 2 * k + 1)).read
        && driven(apu, buses, l + 2 * k + 1).address == 0x2004 && driven(
        apu,
        buses,
        l + 2 * k + 1,
    ).data == buses(l + 2 * k + 1).data by {
        assert(driven(apu, buses, l + 2 * k).read);
    }
    // The lead.
    lemma_dma_step(apu, buses(0));
    assert(run(apu, buses, 0) == apu);
    assert(run(apu, buses, 1) == run(apu, buses, 0).clock(buses(0)).0);
    lemma_dma_step(run(apu, buses, 1), buses(1));
    assert forall|i: nat| i < l implies (#[trigger] driven(apu, buses, i)).read && driven(
        apu,
        buses,
        i,
    ).address == buses(i).address && driven(apu, buses, i).not_ready by {
        assert(i == 0 || i == 1);
    }
    // Every cycle of the transfer is a read or a write cycle of some pair.
    assert forall|i: nat| i < l + 512 implies (#[trigger] driven(apu, buses, i)).not_ready by {
        if i >= l {
            let k = ((i - l) / 2) as nat;
            assert(k < 256);
            assert(i == l + 2 * k || i == l + 2 * k + 1);
            assert(driven(apu, buses, l + 2 * k).read);
        }
    }
    // The end.
    lemma_dma_progress(apu, buses, 256);
    let end = l + 512;
    lemma_dma_step(run(apu, buses, end), buses(end));
    assert(run(apu, buses, end + 1) == run(apu, buses, end).clock(buses(end)).0);
}

/// One cycle of the unit while the processor shows a read and no sprite
/// DMA is asked for, as far as the sample fetch goes.
pub proof fn lemma_dmc_step(apu: ApuState, bus: PinState)
    requires
        bus.read,
        apu.oam_dma == Dma::Idle,
        apu.dmc.countdown > 1,
    ensures
        apu.clock(bus).0.oam_dma == Dma::Idle,
        apu.clock(bus).0.put_cycle == !apu.put_cycle,
        apu.clock(bus).0.dmc.countdown == apu.dmc.countdown - 1,
        apu.clock(bus).1.not_ready == (apu.clock(bus).0.dmc_dma != DmcDma::Idle),
        apu.dmc_dma == DmcDma::Idle && apu.dmc.wants_byte() && apu.dmc_credit > 0 ==> apu.clock(
            bus,
        ).0.dmc_dma == DmcDma::Dummy && apu.clock(bus).0.dmc == apu.dmc.ticked() && apu.clock(
            bus,
        ).1.address == bus.address && apu.clock(bus).1.read,
        apu.dmc_dma == DmcDma::Dummy ==> apu.clock(bus).0.dmc_dma == DmcDma::ToRead && apu.clock(
            bus,
        ).0.dmc == apu.dmc.ticked() && apu.clock(bus).1.address == bus.address && apu.clock(
            bus,
        ).1.read,
        apu.dmc_dma == DmcDma::ToRead && apu.put_cycle ==> apu.clock(bus).0.dmc_dma
            == DmcDma::ToRead && apu.clock(bus).0.dmc == apu.dmc.ticked() && apu.clock(
            bus,
        ).1.address == bus.address && apu.clock(bus).1.read,
        apu.dmc_dma == DmcDma::ToRead && !apu.put_cycle ==> apu.clock(bus).0.dmc_dma
            == DmcDma::ToReceive && apu.clock(bus).0.dmc == apu.dmc.ticked() && apu.clock(
            bus,
        ).1.address == apu.dmc.current_address && apu.clock(bus).1.read,
        apu.dmc_dma == DmcDma::ToReceive ==> apu.clock(bus).0.dmc_dma == DmcDma::Idle
            && apu.clock(bus).0.dmc == apu.dmc.received(bus.data).ticked() && apu.clock(
            bus,
        ).1.address == bus.address && apu.clock(bus).1.read && apu.clock(bus).0.status.dmc_irq
            == (apu.status.dmc_irq || apu.dmc.ends_with_irq()),
{
    reveal(ApuState::clock);
    reveal(ApuState::strobe_controllers);
    reveal(ApuState::clock_cpu);
    reveal(ApuState::clock_oam);
    reveal(ApuState::clock_dmc_dma);
    reveal(ApuState::handle_cpu);
    reveal(ApuState::write_dmc);
    reveal(ApuState::clock_dmc);
    reveal(ApuState::clock_apu);
    reveal(ApuState::tick_counters);
}

/// The cycles for which a sample fetch holds the processor when no sprite
/// DMA is under way: three if the fetch comes due in a get cycle, four if
/// it comes due in a put cycle.
pub open spec fn fetch_hold(apu: ApuState) -> nat {
    if apu.put_cycle {
        4
    } else {
        3
    }
}

/// A sample fetch on its own, from the cycle in which it comes due, while
/// the processor shows reads.
///
/// The processor is held for three or four cycles: the cycle in which it
/// stops, one cycle of rest, one more if the next would be a put cycle, and
/// the cycle in which the unit reads the sample byte at the place of the
/// fetch. In the cycle after, the bus is the processor's again, and the
/// unit takes the byte that the read left on the data lines: the byte is in
/// the sample buffer, and the fetch has moved on by one.
pub proof fn lemma_dmc_dma(apu: ApuState, buses: spec_fn(nat) -> PinState)
    requires
        apu.oam_dma == Dma::Idle,
        apu.dmc_dma == DmcDma::Idle,
        apu.dmc.wants_byte(),
        apu.dmc_credit > 0,
        apu.dmc.countdown > 8,
        forall|i: nat| (#[trigger] buses(i)).read,
    ensures
        forall|i: nat| i < fetch_hold(apu) ==> (#[trigger] driven(apu, buses, i)).not_ready,
        !driven(apu, buses, fetch_hold(apu)).not_ready,
        driven(apu, buses, (fetch_hold(apu) - 1) as nat).read,
        driven(apu, buses, (fetch_hold(apu) - 1) as nat).address == apu.dmc.current_address,
        run(apu, buses, fetch_hold(apu) + 1).dmc.buffer == Some(buses(fetch_hold(apu)).data),
        run(apu, buses, fetch_hold(apu) + 1).dmc.current_address == apu.dmc.received(
            buses(fetch_hold(apu)).data,
        ).current_address,
        run(apu, buses, fetch_hold(apu) + 1).dmc.bytes_remaining == apu.dmc.received(
            buses(fetch_hold(apu)).data,
        ).bytes_remaining,
        run(apu, buses, fetch_hold(apu) + 1).dmc_dma == DmcDma::Idle,
{
    let s0 = apu;
    assert(run(apu, buses, 0) == s0);
    lemma_dmc_step(s0, buses(0));
    let s1 = s0.clock(buses(0)).0;
    assert(run(apu, buses, 1) == s1);
    lemma_dmc_step(s1, buses(1));
    let s2 = s1.clock(buses(1)).0;
    assert(run(apu, buses, 2) == s2);
    lemma_dmc_step(s2, buses(2));
    let s3 = s2.clock(buses(2)).0;
    assert(run(apu, buses, 3) == s3);
    lemma_dmc_step(s3, buses(3));
    let s4 = s3.clock(buses(3)).0;
    assert(run(apu, buses, 4) == s4);
    if apu.put_cycle {
        lemma_dmc_step(s4, buses(4));
        let s5 = s4.clock(buses(4)).0;
        assert(run(apu, buses, 5) == s5);
    }
    assert forall|i: nat| i < fetch_hold(apu) implies (#[trigger] driven(
        apu,
        buses,
        i,
    )).not_ready by {
        assert(i == 0 || i == 1 || i == 2 || i == 3);
    }
}

} // verus!
