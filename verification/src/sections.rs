//! Critical sections: what is done in them, and that they are always left.
use crate::action::{each, guarded, Action, Probe};
use crate::bus::Bus;
use crate::config::Features;
use crate::dispatch::{answer_actions, Reading};
use crate::endpoint::{parity_probe, Endpoint, In, Out};
use crate::fifo::ByteOrder;
use crate::interrupt::{in_actions, interrupt_actions, out_actions, probe_if};
use crate::registers::{Diepint, Doepint, Gintsts, Gotgint};
use crate::state::State;
use crate::types::{Direction, EndpointAddress};
use vstd::prelude::*;

verus! {

/// Whether an action neither enters nor leaves a critical section.
pub open spec fn plain(action: Action) -> bool {
    action !is EnterCritical && action !is ExitCritical
}

/// Whether no action of a list enters or leaves a critical section.
pub open spec fn all_plain(actions: Seq<Action>) -> bool {
    forall|i: int| 0 <= i < actions.len() ==> plain(#[trigger] actions[i])
}

/// Whether what follows from a probe neither enters nor leaves a critical section nor fetches
/// another value, so that the probe may stand inside one.
pub open spec fn stays_inside(probe: Probe) -> bool {
    probe is CancelTransfer || probe is FrameNumber
}

/// Whether an action may stand inside a critical section, or outside of one.
pub open spec fn allowed(action: Action, inside: bool) -> bool {
    match action {
        Action::EnterCritical => !inside,
        Action::ExitCritical => inside,
        Action::Probe(probe) => inside ==> stays_inside(probe),
        _ => true,
    }
}

/// Whether critical sections are entered one at a time, each of them is left, and no probe inside
/// one leads to another.
pub open spec fn bracketed(actions: Seq<Action>) -> bool {
    &&& forall|i: int|
        0 <= i < actions.len() ==> allowed(#[trigger] actions[i], guarded(actions, i))
    &&& !guarded(actions, actions.len() as int)
}

/// Where a critical section is entered and not left, it is in force.
proof fn lemma_guarded(actions: Seq<Action>, enter: int, i: int)
    requires
        0 <= enter < i < actions.len(),
        actions[enter] is EnterCritical,
        forall|k: int|
            enter < k < i ==> (#[trigger] actions[k]) !is EnterCritical && actions[k]
                !is ExitCritical,
    ensures
        guarded(actions, i),
    decreases i,
{
    if enter < i - 1 {
        assert(actions[i - 1] !is EnterCritical && actions[i - 1] !is ExitCritical);
        lemma_guarded(actions, enter, i - 1);
    }
}

/// No interrupt can come between the writes of a packet to its FIFO.
pub proof fn law_fifo_writes_are_guarded(
    ep: Endpoint<In>,
    order: ByteOrder,
    data: Seq<u8>,
    i: int,
)
    requires
        0 <= i < ep.transfer_fifo_actions(order, data).len(),
        ep.transfer_fifo_actions(order, data)[i] is WriteFifo,
    ensures
        guarded(ep.transfer_fifo_actions(order, data), i),
{
    let actions = ep.transfer_fifo_actions(order, data);
    assert(actions[0] is EnterCritical);
    assert forall|k: int| 0 < k < i implies (#[trigger] actions[k]) !is EnterCritical && actions[k]
        !is ExitCritical by {
        assert(parity_probe(Direction::In, ep.info).len() <= 1);
    }
    lemma_guarded(actions, 0, i);
}

/// What holds of every action of each part holds of every action of the whole.
pub proof fn lemma_each_all(n: int, f: spec_fn(int) -> Seq<Action>, p: spec_fn(Action) -> bool)
    requires
        forall|i: int, k: int| 0 <= i < n && 0 <= k < f(i).len() ==> p(#[trigger] f(i)[k]),
    ensures
        forall|k: int| 0 <= k < each(n, f).len() ==> p(#[trigger] each(n, f)[k]),
    decreases n,
{
    if n > 0 {
        lemma_each_all(n - 1, f, p);
        let before = each(n - 1, f);
        assert forall|k: int| 0 <= k < each(n, f).len() implies p(#[trigger] each(n, f)[k]) by {
            if k < before.len() {
                assert(each(n, f)[k] == before[k]);
            } else {
                assert(each(n, f)[k] == f(n - 1)[k - before.len()]);
            }
        }
    }
}

/// No interrupt can come while the FIFOs are being laid out and their flush is requested.
pub proof fn law_fifo_setup_is_guarded<const N: usize>(bus: Bus<N>, i: int)
    requires
        0 < i < bus.init_fifo_actions().len() - 2,
    ensures
        guarded(bus.init_fifo_actions(), i),
{
    let actions = bus.init_fifo_actions();
    let f = |i: int| bus.tx_fifo(i);
    let p = |a: Action| a !is EnterCritical && a !is ExitCritical;
    let count = bus.instance.endpoint_count as int;
    lemma_each_all(count, f, p);
    let fifos = each(count, f);
    assert forall|k: int| 0 < k < i implies (#[trigger] actions[k]) !is EnterCritical && actions[k]
        !is ExitCritical by {
        if 2 <= k < 2 + fifos.len() {
            assert(actions[k] == fifos[k - 2]);
            assert(p(fifos[k - 2]));
        }
    }
    lemma_guarded(actions, 0, i);
}

/// A list without brackets is bracketed.
proof fn lemma_plain(actions: Seq<Action>)
    requires
        all_plain(actions),
    ensures
        bracketed(actions),
{
    assert forall|i: int| 0 <= i < actions.len() implies allowed(
        #[trigger] actions[i],
        guarded(actions, i),
    ) by {
        assert(plain(actions[i]));
        lemma_stays_unguarded(actions, 0, i);
    }
    lemma_stays_unguarded(actions, 0, actions.len() as int);
}

/// What follows a list does not change what is guarded in it.
proof fn lemma_guarded_before(a: Seq<Action>, b: Seq<Action>, i: int)
    requires
        0 <= i <= a.len(),
    ensures
        guarded(a + b, i) == guarded(a, i),
    decreases i,
{
    if i > 0 {
        assert((a + b)[i - 1] == a[i - 1]);
        lemma_guarded_before(a, b, i - 1);
    }
}

/// Where a list leaves its critical sections, it does not change what is guarded behind it.
proof fn lemma_guarded_behind(a: Seq<Action>, b: Seq<Action>, i: int)
    requires
        0 <= i <= b.len(),
        !guarded(a, a.len() as int),
    ensures
        guarded(a + b, a.len() + i) == guarded(b, i),
    decreases i,
{
    if i > 0 {
        assert((a + b)[a.len() + i - 1] == b[i - 1]);
        lemma_guarded_behind(a, b, i - 1);
    } else {
        lemma_guarded_before(a, b, a.len() as int);
    }
}

/// Two bracketed lists are bracketed one after the other.
proof fn lemma_bracketed_concat(a: Seq<Action>, b: Seq<Action>)
    requires
        bracketed(a),
        bracketed(b),
    ensures
        bracketed(a + b),
{
    let all = a + b;
    let n = a.len() as int;
    lemma_guarded_behind(a, b, b.len() as int);
    assert forall|i: int| 0 <= i < all.len() implies allowed(#[trigger] all[i], guarded(all, i)) by {
        if i < n {
            assert(all[i] == a[i]);
            lemma_guarded_before(a, b, i);
        } else {
            assert(all[i] == b[i - n]);
            lemma_guarded_behind(a, b, i - n);
        }
    }
}

/// Where no critical section is in force and none is entered, none comes into force.
proof fn lemma_stays_unguarded(actions: Seq<Action>, from: int, i: int)
    requires
        0 <= from <= i <= actions.len(),
        !guarded(actions, from),
        forall|k: int| from <= k < i ==> plain(#[trigger] actions[k]),
    ensures
        !guarded(actions, i),
    decreases i,
{
    if from < i {
        assert(plain(actions[i - 1]));
        lemma_stays_unguarded(actions, from, i - 1);
    }
}

/// A list with one critical section, from `enter` to `exit`, is bracketed.
proof fn lemma_one_section(all: Seq<Action>, enter: int, exit: int)
    requires
        0 <= enter < exit < all.len(),
        all[enter] is EnterCritical,
        all[exit] is ExitCritical,
        forall|k: int|
            0 <= k < all.len() && k != enter && k != exit ==> plain(#[trigger] all[k]) && (enter < k
                < exit ==> allowed(all[k], true)),
    ensures
        bracketed(all),
{
    assert forall|i: int| 0 <= i < all.len() implies allowed(#[trigger] all[i], guarded(all, i)) by {
        if i <= enter {
            lemma_stays_unguarded(all, 0, i);
        } else if i <= exit {
            lemma_guarded(all, enter, i);
        } else {
            lemma_stays_unguarded(all, exit + 1, i);
        }
    }
    lemma_stays_unguarded(all, exit + 1, all.len() as int);
}

/// Bracketed lists are bracketed one after the other, however many.
proof fn lemma_bracketed_each(n: int, f: spec_fn(int) -> Seq<Action>)
    requires
        forall|i: int| 0 <= i < n ==> bracketed(#[trigger] f(i)),
    ensures
        bracketed(each(n, f)),
    decreases n,
{
    if n > 0 {
        lemma_bracketed_each(n - 1, f);
        lemma_bracketed_concat(each(n - 1, f), f(n - 1));
    } else {
        lemma_plain(each(n, f));
    }
}

/// Setting up the FIFOs happens in one critical section, which is left.
proof fn lemma_init_fifo<const N: usize>(bus: Bus<N>)
    ensures
        bracketed(bus.init_fifo_actions()),
{
    let f = |i: int| bus.tx_fifo(i);
    let count = bus.instance.endpoint_count as int;
    let p = |a: Action| plain(a) && allowed(a, true);
    lemma_each_all(count, f, p);
    let fifos = each(count, f);
    let all = bus.init_fifo_actions();
    let exit = all.len() - 2;
    assert forall|k: int| 0 <= k < all.len() && k != 0 && k != exit implies plain(
        #[trigger] all[k],
    ) && allowed(all[k], true) by {
        if 2 <= k < 2 + fifos.len() {
            assert(all[k] == fifos[k - 2]);
            assert(p(fifos[k - 2]));
        }
    }
    lemma_one_section(all, 0, exit);
}

/// Configuring an IN endpoint happens in one critical section, which is left.
proof fn lemma_configure_in<const N: usize>(bus: Bus<N>, i: int)
    ensures
        bracketed(bus.configure_in(i)),
{
    match bus.ep_in@[i] {
        Some(_) => lemma_one_section(bus.configure_in(i), 0, 2),
        None => lemma_plain(bus.configure_in(i)),
    }
}

/// Configuring an OUT endpoint happens in one critical section, which is left.
proof fn lemma_configure_out<const N: usize>(bus: Bus<N>, i: int, setup_addr: u32)
    ensures
        bracketed(bus.configure_out(i, setup_addr)),
{
    let all = bus.configure_out(i, setup_addr);
    match bus.ep_out@[i] {
        Some(_) => lemma_one_section(all, 0, all.len() - 1),
        None => lemma_plain(all),
    }
}

/// Configuring the endpoints leaves every critical section that it enters.
proof fn lemma_configure<const N: usize>(bus: Bus<N>, setup_addr: u32)
    ensures
        bracketed(bus.configure_endpoints_actions(setup_addr)),
{
    let fin = |i: int| bus.configure_in(i);
    let fout = |i: int| bus.configure_out(i, setup_addr);
    assert forall|i: int| 0 <= i < N implies bracketed(#[trigger] fin(i)) by {
        lemma_configure_in(bus, i);
    }
    assert forall|i: int| 0 <= i < N implies bracketed(#[trigger] fout(i)) by {
        lemma_configure_out(bus, i, setup_addr);
    }
    lemma_bracketed_each(N as int, fin);
    lemma_bracketed_each(N as int, fout);
    let ins = each(N as int, fin);
    let outs = each(N as int, fout);
    let all = bus.configure_endpoints_actions(setup_addr);
    let mask = seq![all.last()];
    lemma_bracketed_concat(ins, outs);
    lemma_plain(mask);
    lemma_bracketed_concat(ins + outs, mask);
    assert(ins + outs + mask =~= all);
}

/// Every critical section that enabling or disabling, stalling or releasing an endpoint enters is
/// left, and no two are nested.
pub proof fn law_endpoint_sections_are_left<const N: usize>(addr: EndpointAddress, on: bool)
    ensures
        bracketed(Bus::<N>::set_stalled_actions(addr, on)),
        bracketed(Bus::<N>::set_enabled_actions(addr, on)),
{
    lemma_one_section(Bus::<N>::set_stalled_actions(addr, on), 0, 2);
    let enable = Bus::<N>::set_enabled_actions(addr, on);
    lemma_one_section(enable, 0, enable.len() - 2);
}

/// Disabling all endpoints leaves every critical section that it enters.
proof fn lemma_disable_all<const N: usize>(bus: Bus<N>)
    ensures
        bracketed(bus.disable_all_actions()),
{
    let f = |i: int| Bus::<N>::disable_actions(i);
    assert forall|i: int| 0 <= i < bus.instance.endpoint_count implies bracketed(
        #[trigger] f(i),
    ) by {
        let addr_in = EndpointAddress::of(i, Direction::In);
        let addr_out = EndpointAddress::of(i, Direction::Out);
        law_endpoint_sections_are_left::<N>(addr_in, false);
        law_endpoint_sections_are_left::<N>(addr_out, false);
        lemma_bracketed_concat(
            Bus::<N>::set_enabled_actions(addr_in, false),
            Bus::<N>::set_enabled_actions(addr_out, false),
        );
    }
    lemma_bracketed_each(bus.instance.endpoint_count as int, f);
}

/// Aborting transmissions and waking endpoints enters no critical section.
proof fn lemma_reset_start<const N: usize>(bus: Bus<N>)
    ensures
        bracketed(bus.abort_all_actions()),
        bracketed(bus.wake_all_actions()),
{
    let count = bus.instance.endpoint_count as int;
    let fabort = |i: int| Bus::<N>::abort_endpoint(i);
    let fwake = |i: int| Bus::<N>::wake_endpoint(i);
    assert forall|i: int| 0 <= i < count implies bracketed(#[trigger] fabort(i)) by {
        lemma_plain(fabort(i));
    }
    assert forall|i: int| 0 <= i < count implies bracketed(#[trigger] fwake(i)) by {
        lemma_plain(fwake(i));
    }
    lemma_bracketed_each(count, fabort);
    lemma_bracketed_each(count, fwake);
}

/// The end of a bus reset leaves the critical section that it enters.
proof fn lemma_reset_end<const N: usize>(bus: Bus<N>)
    ensures
        bracketed(bus.end_reset_actions()),
{
    lemma_one_section(bus.end_reset_actions(), 0, 2);
}

/// Five bracketed lists are bracketed one after the other.
proof fn lemma_bracketed_five(
    a: Seq<Action>,
    b: Seq<Action>,
    c: Seq<Action>,
    d: Seq<Action>,
    e: Seq<Action>,
)
    requires
        bracketed(a),
        bracketed(b),
        bracketed(c),
        bracketed(d),
        bracketed(e),
    ensures
        bracketed(a + b + c + d + e),
{
    lemma_bracketed_concat(a, b);
    lemma_bracketed_concat(a + b, c);
    lemma_bracketed_concat(a + b + c, d);
    lemma_bracketed_concat(a + b + c + d, e);
}

/// A bus reset leaves every critical section that it enters.
proof fn lemma_reset<const N: usize>(bus: Bus<N>, setup_addr: u32)
    ensures
        bracketed(bus.reset_actions(setup_addr)),
{
    lemma_reset_start(bus);
    lemma_init_fifo(bus);
    lemma_configure(bus, setup_addr);
    lemma_reset_end(bus);
    lemma_bracketed_five(
        bus.abort_all_actions(),
        bus.wake_all_actions(),
        bus.init_fifo_actions(),
        bus.configure_endpoints_actions(setup_addr),
        bus.end_reset_actions(),
    );
}

/// What the bus does about interrupts other than those about VBUS leaves every critical section
/// that it enters.
proof fn lemma_late<const N: usize>(bus: Bus<N>, ints: Gintsts, setup_addr: u32)
    ensures
        bracketed(bus.late_actions(ints, setup_addr)),
{
    lemma_plain(bus.event_actions(ints));
    let none = Seq::<Action>::empty();
    lemma_plain(none);
    lemma_reset(bus, setup_addr);
    lemma_bracketed_concat(none, bus.event_actions(ints));
    lemma_bracketed_concat(bus.reset_actions(setup_addr), bus.event_actions(ints));
}

/// Initializing the core enters no critical section.
proof fn lemma_init<const N: usize>(bus: Bus<N>)
    ensures
        bracketed(bus.init_actions()),
{
    let reset = bus.core_reset_actions();
    let rest = bus.init_actions().skip(reset.len() as int);
    lemma_plain(reset);
    assert(rest.len() == 8);
    lemma_plain(rest);
    lemma_bracketed_concat(reset, rest);
    assert(reset + rest =~= bus.init_actions());
}

/// What the bus does about VBUS enters no critical section.
proof fn lemma_vbus<const N: usize>(bus: Bus<N>, ints: Gintsts, otgints: Gotgint)
    ensures
        bracketed(bus.session_actions(ints)),
        bracketed(bus.otg_actions(otgints)),
{
    lemma_plain(bus.session_actions(ints));
    lemma_plain(bus.otg_actions(otgints));
}

/// Whatever interrupts the bus deals with: every critical section that it enters is left, and no
/// two are nested.
pub proof fn law_bus_sections_are_left<const N: usize>(
    bus: Bus<N>,
    ints: Gintsts,
    otgints: Gotgint,
    setup_addr: u32,
)
    ensures
        bracketed(bus.init_actions()),
        bracketed(bus.session_actions(ints) + bus.late_actions(ints, setup_addr)),
        bracketed(bus.otg_actions(otgints) + bus.late_actions(ints, setup_addr)),
        bracketed(bus.otg_actions(otgints) + bus.disable_all_actions()),
{
    let session = bus.session_actions(ints);
    let otg = bus.otg_actions(otgints);
    lemma_init(bus);
    lemma_vbus(bus, ints, otgints);
    lemma_disable_all(bus);
    lemma_bracketed_concat(otg, bus.disable_all_actions());
    let late = bus.late_actions(ints, setup_addr);
    lemma_late(bus, ints, setup_addr);
    lemma_bracketed_concat(session, late);
    lemma_bracketed_concat(otg, late);
}

/// Handing a packet to its FIFO leaves the critical section that it enters.
proof fn lemma_transfer_fifo(ep: Endpoint<In>, order: ByteOrder, data: Seq<u8>)
    ensures
        bracketed(ep.transfer_fifo_actions(order, data)),
{
    let all = ep.transfer_fifo_actions(order, data);
    assert(parity_probe(Direction::In, ep.info).len() <= 1);
    lemma_one_section(all, 0, all.len() - 1);
}

/// Handing a packet to the DMA engine leaves the critical section that it enters.
proof fn lemma_transfer_dma(ep: Endpoint<In>, len: int, addr: usize)
    ensures
        bracketed(ep.transfer_dma_actions(len, addr)),
{
    let all = ep.transfer_dma_actions(len, addr);
    assert(parity_probe(Direction::In, ep.info).len() <= 1);
    if len > 0 {
        lemma_one_section(all, 1, all.len() - 1);
    } else {
        lemma_one_section(all, 0, all.len() - 1);
    }
}

/// Letting the core receive a packet into its FIFO leaves the critical section that it enters.
proof fn lemma_arm_fifo(ep: Endpoint<Out>)
    ensures
        bracketed(ep.arm_fifo_actions()),
{
    let all = ep.arm_fifo_actions();
    assert(parity_probe(Direction::Out, ep.info).len() <= 1);
    lemma_one_section(all, 0, all.len() - 1);
}

/// Letting the DMA engine receive a packet leaves the critical section that it enters.
proof fn lemma_arm_dma(ep: Endpoint<Out>, addr: usize)
    ensures
        bracketed(ep.arm_dma_actions(addr)),
{
    lemma_one_section(ep.arm_dma_actions(addr), 0, 4);
}

/// Every critical section that a transfer enters is left, and no two are nested.
pub proof fn law_transfer_sections_are_left(
    ep_in: Endpoint<In>,
    ep_out: Endpoint<Out>,
    order: ByteOrder,
    data: Seq<u8>,
    addr: usize,
)
    ensures
        bracketed(ep_in.transfer_fifo_actions(order, data)),
        bracketed(ep_in.transfer_dma_actions(data.len() as int, addr)),
        bracketed(ep_out.arm_fifo_actions()),
        bracketed(ep_out.arm_dma_actions(addr)),
{
    lemma_transfer_fifo(ep_in, order, data);
    lemma_transfer_dma(ep_in, data.len() as int, addr);
    lemma_arm_fifo(ep_out);
    lemma_arm_dma(ep_out, addr);
}

/// Serving an IN endpoint leaves the critical section that it enters.
proof fn lemma_in_endpoint(ep: usize, ints: Diepint)
    ensures
        bracketed(in_actions(ep, ints)),
{
    if ints.txfe {
        lemma_one_section(in_actions(ep, ints), 1, 3);
    } else {
        lemma_plain(in_actions(ep, ints));
    }
}

/// Serving an OUT endpoint enters no critical section.
proof fn lemma_out_endpoint(ep: usize, ints: Doepint, dma_enabled: bool, setup_buf: usize)
    ensures
        bracketed(out_actions(ep, ints, dma_enabled, setup_buf)),
{
    lemma_plain(out_actions(ep, ints, dma_enabled, setup_buf));
}

/// Every critical section that the interrupt handler enters is left, and no two are nested.
pub proof fn law_interrupt_sections_are_left(
    core: Gintsts,
    features: Features,
    dma_enabled: bool,
    ep: usize,
    diepint: Diepint,
    doepint: Doepint,
    setup_buf: usize,
)
    ensures
        bracketed(interrupt_actions(core, features, dma_enabled)),
        bracketed(in_actions(ep, diepint)),
        bracketed(out_actions(ep, doepint, dma_enabled, setup_buf)),
{
    lemma_interrupt(core, features, dma_enabled);
    lemma_in_endpoint(ep, diepint);
    lemma_out_endpoint(ep, doepint, dma_enabled, setup_buf);
}

/// Sorting out the core's interrupts enters no critical section.
proof fn lemma_interrupt(ints: Gintsts, features: Features, dma_enabled: bool)
    ensures
        bracketed(interrupt_actions(ints, features, dma_enabled)),
{
    let all = interrupt_actions(ints, features, dma_enabled);
    let rx = probe_if(!(features.dma && dma_enabled), Probe::RxLevel);
    let ins = probe_if(ints.iepint, Probe::InMask);
    let outs = probe_if(ints.oepint, Probe::OutMask);
    let head = all.take(all.len() - rx.len() - ins.len() - outs.len());
    lemma_plain(head);
    lemma_plain(rx);
    lemma_plain(ins);
    lemma_plain(outs);
    lemma_bracketed_concat(head, rx);
    lemma_bracketed_concat(head + rx, ins);
    lemma_bracketed_concat(head + rx + ins, outs);
    assert(head + rx + ins + outs =~= all);
}

/// What follows from a probe leaves every critical section that it enters.
proof fn lemma_answer<const N: usize>(
    state: State<N>,
    features: Features,
    probe: Probe,
    reading: Reading,
)
    ensures
        bracketed(answer_actions(state, features, probe, reading)),
        stays_inside(probe) ==> all_simple(answer_actions(state, features, probe, reading)),
{
    let answer = answer_actions(state, features, probe, reading);
    match (probe, reading) {
        (Probe::InFlags(ep), Reading::InFlags(ints)) => lemma_in_endpoint(ep, ints),
        (Probe::OutFlags(ep), Reading::OutFlags(ints)) => lemma_out_endpoint(
            ep,
            ints,
            features.dma && state.dma_enabled,
            state.setup_dma_buf,
        ),
        _ => lemma_plain(answer),
    }
}

/// Actions without brackets leave a critical section in force where it was.
proof fn lemma_guarded_through(a: Seq<Action>, b: Seq<Action>, i: int)
    requires
        0 <= i <= b.len(),
        all_plain(b),
    ensures
        guarded(a + b, a.len() + i) == guarded(a, a.len() as int),
    decreases i,
{
    if i > 0 {
        assert((a + b)[a.len() + i - 1] == b[i - 1]);
        assert(plain(b[i - 1]));
        lemma_guarded_through(a, b, i - 1);
    } else {
        lemma_guarded_before(a, b, a.len() as int);
    }
}

/// What is guarded behind a list depends on the list only by whether a critical section is in force
/// at its end.
proof fn lemma_guarded_rest(a: Seq<Action>, b: Seq<Action>, rest: Seq<Action>, i: int)
    requires
        0 <= i <= rest.len(),
        guarded(a, a.len() as int) == guarded(b, b.len() as int),
    ensures
        guarded(a + rest, a.len() + i) == guarded(b + rest, b.len() + i),
    decreases i,
{
    if i > 0 {
        assert((a + rest)[a.len() + i - 1] == rest[i - 1]);
        assert((b + rest)[b.len() + i - 1] == rest[i - 1]);
        lemma_guarded_rest(a, b, rest, i - 1);
    } else {
        lemma_guarded_before(a, rest, a.len() as int);
        lemma_guarded_before(b, rest, b.len() as int);
    }
}

/// Whether actions hold neither brackets nor probes.
spec fn all_simple(actions: Seq<Action>) -> bool {
    forall|i: int|
        0 <= i < actions.len() ==> plain(#[trigger] actions[i]) && actions[i] !is Probe
}

/// A list that stands in the place of a probe leaves a critical section in force exactly where the
/// probe does.
proof fn lemma_replaced_end(probe: Probe, answer: Seq<Action>, before: Seq<Action>)
    requires
        bracketed(answer),
        guarded(before, before.len() as int) ==> all_simple(answer),
    ensures
        guarded(before + answer, (before + answer).len() as int) == guarded(
            before + seq![Action::Probe(probe)],
            (before.len() + 1) as int,
        ),
{
    lemma_guarded_through(before, seq![Action::Probe(probe)], 1);
    if guarded(before, before.len() as int) {
        lemma_guarded_through(before, answer, answer.len() as int);
    } else {
        lemma_guarded_behind(before, answer, answer.len() as int);
    }
}

/// What stands in the place of a probe is allowed there.
proof fn lemma_replaced_within(answer: Seq<Action>, before: Seq<Action>, rest: Seq<Action>, k: int)
    requires
        bracketed(answer),
        guarded(before, before.len() as int) ==> all_simple(answer),
        0 <= k < answer.len(),
    ensures
        allowed(answer[k], guarded(before + answer + rest, before.len() + k)),
{
    lemma_guarded_before(before + answer, rest, before.len() + k);
    if guarded(before, before.len() as int) {
        assert(plain(answer[k]) && answer[k] !is Probe);
    } else {
        lemma_guarded_behind(before, answer, k);
    }
}

/// What stands before a list is guarded in the same way whatever the list is.
proof fn lemma_guarded_front(before: Seq<Action>, m: Seq<Action>, rest: Seq<Action>, i: int)
    requires
        0 <= i <= before.len(),
    ensures
        guarded(before + m + rest, i) == guarded(before, i),
{
    lemma_guarded_before(before, m, i);
    lemma_guarded_before(before + m, rest, i);
}

/// What stood before a probe is allowed there still.
proof fn lemma_replaced_front(
    from: Seq<Action>,
    m: Seq<Action>,
    before: Seq<Action>,
    rest: Seq<Action>,
    i: int,
)
    requires
        bracketed(before + from + rest),
        0 <= i < before.len(),
    ensures
        allowed(before[i], guarded(before + m + rest, i)),
{
    lemma_guarded_front(before, from, rest, i);
    lemma_guarded_front(before, m, rest, i);
    assert((before + from + rest)[i] == before[i]);
}

/// What stood behind a list is allowed behind another that leaves a critical section in force
/// exactly where the first does.
proof fn lemma_replaced_rest(a: Seq<Action>, b: Seq<Action>, rest: Seq<Action>, k: int)
    requires
        bracketed(a + rest),
        guarded(a, a.len() as int) == guarded(b, b.len() as int),
        0 <= k < rest.len(),
    ensures
        allowed(rest[k], guarded(b + rest, b.len() + k)),
{
    lemma_guarded_rest(a, b, rest, k);
    assert((a + rest)[a.len() + k] == rest[k]);
}

/// A bracketed list that stands in the place of a probe keeps critical sections in order.
proof fn lemma_replaced(probe: Probe, answer: Seq<Action>, before: Seq<Action>, rest: Seq<Action>)
    requires
        bracketed(before + seq![Action::Probe(probe)] + rest),
        bracketed(answer),
        stays_inside(probe) ==> all_simple(answer),
    ensures
        bracketed(before + answer + rest),
{
    let asked = seq![Action::Probe(probe)];
    let from = before + asked + rest;
    let to = before + answer + rest;
    let n = before.len() as int;
    lemma_guarded_front(before, asked, rest, n);
    assert(from[n] == Action::Probe(probe));
    assert(guarded(before, n) ==> stays_inside(probe));
    lemma_replaced_end(probe, answer, before);
    assert forall|i: int| 0 <= i < to.len() implies allowed(#[trigger] to[i], guarded(to, i)) by {
        if i < n {
            assert(to[i] == before[i]);
            lemma_replaced_front(asked, answer, before, rest, i);
        } else if i < n + answer.len() {
            assert(to[i] == answer[i - n]);
            lemma_replaced_within(answer, before, rest, i - n);
        } else {
            let k = i - n - answer.len();
            assert(to[i] == rest[k]);
            lemma_replaced_rest(before + asked, before + answer, rest, k);
        }
    }
    lemma_guarded_rest(before + asked, before + answer, rest, rest.len() as int);
}

/// Performing what follows from a probe in the probe's place keeps critical sections in order: they
/// are still entered one at a time and left, whatever value was fetched.
pub proof fn law_answers_keep_sections<const N: usize>(
    state: State<N>,
    features: Features,
    probe: Probe,
    reading: Reading,
    before: Seq<Action>,
    rest: Seq<Action>,
)
    requires
        bracketed(before + seq![Action::Probe(probe)] + rest),
    ensures
        bracketed(before + answer_actions(state, features, probe, reading) + rest),
{
    lemma_answer(state, features, probe, reading);
    lemma_replaced(probe, answer_actions(state, features, probe, reading), before, rest);
}

} // verus!
