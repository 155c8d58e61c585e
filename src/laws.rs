use vstd::prelude::*;
use crate::bus::Bus;
use crate::cpu::{addressed, charged, executed, fetched};
use crate::debugger::{contents_of, App, State, StateView};
use crate::disassembler::{decode_from, Disassembler, ORIGIN};
use crate::registers::Registers;

verus! {

/// A read of an address returns the byte last written there, provided some
/// device claims it.
pub proof fn lemma_read_returns_last_write(before: Bus, after: Bus, addr: u16, value: u8)
    requires
        after.same_but(&before, addr, value),
        before.covers(addr),
    ensures
        after.peek(addr) == value,
        after.covers(addr),
{
}

/// An instruction costs one cycle more than its base count exactly when the
/// addressing crossed a page and the operation asked for the extra cycle;
/// either alone costs the base count.
pub proof fn lemma_extra_cycle_rule(regs: Registers, bus: &Bus)
    ensures
        addressed(regs, bus).page_crossed && executed(regs, bus).extra ==> charged(regs, bus) == fetched(regs, bus).cycles + 1,
        !(addressed(regs, bus).page_crossed && executed(regs, bus).extra) ==> charged(regs, bus) == fetched(regs, bus).cycles,
        charged(regs, bus) >= 1,
{
}

/// Two disassemblies of the same bytes give the same lines and the same
/// address map.
pub proof fn lemma_disassembly_deterministic(first: Disassembler, second: Disassembler, bytes: Seq<u8>)
    requires
        first.wf(),
        second.wf(),
        first.listing() == decode_from(bytes, 0),
        second.listing() == decode_from(bytes, 0),
    ensures
        first.listing() == second.listing(),
        first.counters@.len() == second.counters@.len(),
        forall|i: int| 0 <= i < first.counters@.len() ==> first.counters@[i] == #[trigger] second.counters@[i],
{
    assert(first.listing().len() == first.counters@.len());
    assert(second.listing().len() == second.counters@.len());
    assert forall|i: int| 0 <= i < first.counters@.len() implies first.counters@[i] == #[trigger] second.counters@[i] by {
        assert(first.listing()[i] == second.listing()[i]);
        assert(first.listing()[i].0 == first.counters@[i]);
        assert(second.listing()[i].0 == second.counters@[i]);
    }
}

/// Two loads of the same image give the same listing and the same bytes
/// from the origin on, whatever the sessions held before.
pub proof fn lemma_reload_same_listing(first: App, second: App, program: Seq<u8>)
    requires
        program.len() <= 0x8000,
        first.inner_machine_state.dis.listing() == decode_from(program, 0),
        second.inner_machine_state.dis.listing() == decode_from(program, 0),
        forall|a: u16| ORIGIN <= a < ORIGIN + program.len() ==> #[trigger] first.inner_machine_state.bus.peek(a) == program[a - ORIGIN],
        forall|a: u16| ORIGIN <= a < ORIGIN + program.len() ==> #[trigger] second.inner_machine_state.bus.peek(a) == program[a - ORIGIN],
    ensures
        first.inner_machine_state.dis.listing() == second.inner_machine_state.dis.listing(),
        forall|a: u16| ORIGIN <= a < ORIGIN + program.len() ==> #[trigger] first.inner_machine_state.bus.peek(a)
            == second.inner_machine_state.bus.peek(a),
{
}

/// Restoring a snapshot gives back every device byte, the registers, the
/// cycle state and the listing; the processor restored is the one owned by
/// the restored bus.
pub proof fn lemma_snapshot_round_trip(live: State, snap: State, restored: State)
    requires
        live.wf(),
        snap.view() == live.view(),
        restored == snap,
    ensures
        restored.view() == live.view(),
        restored.cpu() == live.cpu(),
        forall|a: u16| #[trigger] restored.bus.peek(a) == live.bus.peek(a),
{
    assert forall|a: u16| #[trigger] restored.bus.peek(a) == live.bus.peek(a) by {
        lemma_same_contents_read_alike(restored.bus.devices@, live.bus.devices@, a);
    }
}

proof fn lemma_same_contents_read_alike(x: Seq<crate::device::Device>, y: Seq<crate::device::Device>, a: u16)
    requires
        contents_of(x) == contents_of(y),
    ensures
        crate::bus::read_from(x, a) == crate::bus::read_from(y, a),
    decreases x.len(),
{
    assert(contents_of(x).len() == x.len() && contents_of(y).len() == y.len());
    if x.len() > 0 {
        assert(contents_of(x)[0] == contents_of(y)[0]);
        let xs = x.drop_first();
        let ys = y.drop_first();
        assert(contents_of(xs) =~= contents_of(ys)) by {
            assert forall|i: int| 0 <= i < xs.len() implies xs[i].contents() == ys[i].contents() by {
                assert(contents_of(x)[i + 1] == contents_of(y)[i + 1]);
            }
        }
        lemma_same_contents_read_alike(xs, ys, a);
    }
}

/// The states that the first `k` sessions of a run hold live.
pub open spec fn saved_by(apps: Seq<App>, k: int) -> Seq<StateView> {
    Seq::new(k as nat, |i: int| apps[i].live())
}

/// What `App::step` states of a step that was taken.
pub open spec fn stepped(before: App, after: App) -> bool {
    after.history() == before.history().push(before.live())
}

/// What `App::rollback` states of a rollback on a non-empty history.
pub open spec fn rolled_back(before: App, after: App) -> bool {
    before.history().len() > 0 ==> {
        &&& after.live() == before.history().last()
        &&& after.history() == before.history().drop_last()
    }
}

proof fn lemma_steps_push(apps: Seq<App>, n: int, k: int)
    requires
        0 <= k <= n < apps.len(),
        forall|i: int| 0 <= i < n ==> stepped(#[trigger] apps[i], apps[i + 1]),
    ensures
        apps[k].history() == apps[0].history() + saved_by(apps, k),
    decreases k,
{
    if k == 0 {
        assert(apps[0].history() + saved_by(apps, 0) =~= apps[0].history());
    } else {
        lemma_steps_push(apps, n, k - 1);
        assert(stepped(apps[k - 1], apps[k]));
        assert(apps[k].history() =~= apps[0].history() + saved_by(apps, k));
    }
}

#[verifier::rlimit(100)]
#[verifier::spinoff_prover]
proof fn lemma_rollbacks_pop(apps: Seq<App>, n: int, j: int)
    requires
        0 <= j <= n,
        apps.len() == 2 * n + 1,
        forall|i: int| 0 <= i < n ==> stepped(#[trigger] apps[i], apps[i + 1]),
        forall|i: int| n <= i < 2 * n ==> rolled_back(#[trigger] apps[i], apps[i + 1]),
    ensures
        apps[n + j].history() == apps[0].history() + saved_by(apps, n - j),
        j >= 1 ==> apps[n + j].live() == apps[n - j].live(),
    decreases j,
{
    if j == 0 {
        lemma_steps_push(apps, n, n);
    } else {
        lemma_rollbacks_pop(apps, n, j - 1);
        let h = apps[n + j - 1].history();
        assert(rolled_back(apps[n + j - 1], apps[n + j]));
        assert(h.len() > 0);
        assert(h.last() == apps[n - j].live());
        assert(h.drop_last() =~= apps[0].history() + saved_by(apps, n - j));
    }
}

/// `n` taken steps followed by `n` rollbacks give back the live state from
/// before the first step and the history as it was then.
pub proof fn lemma_rollbacks_undo_steps(apps: Seq<App>, n: int)
    requires
        n >= 1,
        apps.len() == 2 * n + 1,
        forall|i: int| 0 <= i < n ==> stepped(#[trigger] apps[i], apps[i + 1]),
        forall|i: int| n <= i < 2 * n ==> rolled_back(#[trigger] apps[i], apps[i + 1]),
    ensures
        apps[2 * n].live() == apps[0].live(),
        apps[2 * n].history() == apps[0].history(),
{
    lemma_rollbacks_pop(apps, n, n);
    assert(apps[0].history() + saved_by(apps, 0) =~= apps[0].history());
}

} // verus!
