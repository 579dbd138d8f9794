//! What the worker does over a whole run: the actions it asks for in answer
//! to a sequence of inputs, and what holds of them.
use crate::virtio::pmem::worker::dispatch;
use crate::virtio::pmem::worker::transition;
use crate::virtio::pmem::worker::Action;
use crate::virtio::pmem::worker::Input;
use crate::virtio::pmem::worker::Phase;
use crate::virtio::pmem::worker::WorkerState;
use vstd::prelude::*;

verus! {

/// The actions that a worker in state `s` asks for, one in answer to each
/// of `inputs`.
pub open spec fn run(s: WorkerState, inputs: Seq<Input>) -> Seq<Action>
    decreases inputs.len(),
{
    if inputs.len() == 0 {
        Seq::empty()
    } else {
        let (next, action) = transition(s, inputs[0]);
        seq![action] + run(next, inputs.drop_first())
    }
}

/// The chain that `action` publishes in the used ring, by the index of its
/// head.
pub open spec fn publishes(action: Action) -> Seq<u16> {
    match action {
        Action::AddUsed { index, len } => seq![index],
        _ => Seq::empty(),
    }
}

/// The chain that `input` reports as popped, by the index of its head.
pub open spec fn pops(input: Input) -> Seq<u16> {
    match input {
        Input::Parsed { index, request } => seq![index],
        _ => Seq::empty(),
    }
}

/// The chains that `actions` publish in the used ring, in order.
pub open spec fn published(actions: Seq<Action>) -> Seq<u16>
    decreases actions.len(),
{
    if actions.len() == 0 {
        Seq::empty()
    } else {
        publishes(actions[0]) + published(actions.drop_first())
    }
}

/// The chains that `inputs` report as popped, in order.
pub open spec fn popped(inputs: Seq<Input>) -> Seq<u16>
    decreases inputs.len(),
{
    if inputs.len() == 0 {
        Seq::empty()
    } else {
        pops(inputs[0]) + popped(inputs.drop_first())
    }
}

/// How often `actions` signal the used queue.
pub open spec fn signals(actions: Seq<Action>) -> nat
    decreases actions.len(),
{
    if actions.len() == 0 {
        0
    } else {
        let rest = signals(actions.drop_first());
        if actions[0] == Action::SignalUsedQueue {
            rest + 1
        } else {
            rest
        }
    }
}

/// The worker never exits in `actions`, and it ends them waiting.
pub open spec fn returns_to_wait(actions: Seq<Action>) -> bool {
    &&& actions.len() > 0
    &&& actions.last() == Action::Wait
    &&& forall|i: int| 0 <= i < actions.len() ==> actions[i] != Action::Exit
}

/// `actions` are those of one wake-up: the worker never exits, and it
/// waits again at their end and not before.
pub open spec fn one_wake_up(actions: Seq<Action>) -> bool {
    &&& returns_to_wait(actions)
    &&& forall|i: int| 0 <= i < actions.len() - 1 ==> actions[i] != Action::Wait
}

/// The chain that a worker in state `s` has popped and not yet published.
pub open spec fn owed(s: WorkerState) -> Seq<u16> {
    match s.phase {
        Phase::Flushing { index, status_address } => seq![index],
        _ => Seq::empty(),
    }
}

/// A run is its first step followed by the run from the state that the
/// step leads to.
proof fn lemma_run_step(s: WorkerState, inputs: Seq<Input>)
    requires
        inputs.len() > 0,
    ensures
        run(s, inputs).len() == inputs.len(),
        run(s, inputs)[0] == transition(s, inputs[0]).1,
        run(s, inputs).drop_first() == run(transition(s, inputs[0]).0, inputs.drop_first()),
        published(run(s, inputs)) == publishes(transition(s, inputs[0]).1) + published(
            run(transition(s, inputs[0]).0, inputs.drop_first()),
        ),
        popped(inputs) == pops(inputs[0]) + popped(inputs.drop_first()),
        signals(run(s, inputs)) == signals(run(transition(s, inputs[0]).0, inputs.drop_first()))
            + if transition(s, inputs[0]).1 == Action::SignalUsedQueue {
            1nat
        } else {
            0nat
        },
{
    let (next, action) = transition(s, inputs[0]);
    let rest = run(next, inputs.drop_first());
    lemma_run_len(next, inputs.drop_first());
    assert((seq![action] + rest).drop_first() =~= rest);
}

/// The worker answers each input with one action.
proof fn lemma_run_len(s: WorkerState, inputs: Seq<Input>)
    ensures
        run(s, inputs).len() == inputs.len(),
    decreases inputs.len(),
{
    if inputs.len() > 0 {
        lemma_run_len(transition(s, inputs[0]).0, inputs.drop_first());
    }
}

/// One step keeps the books: what it publishes and still owes is what was
/// owed before and what it popped.
proof fn lemma_step_publishes(s: WorkerState, input: Input)
    requires
        transition(s, input).1 != Action::Exit,
    ensures
        publishes(transition(s, input).1) + owed(transition(s, input).0) == owed(s) + pops(input),
{
    let (next, action) = transition(s, input);
    assert(publishes(action) + owed(next) =~= owed(s) + pops(input));
}

/// From any state, a run that ends with the worker waiting and in which it
/// never exits publishes the chain that was owed at its start and every
/// chain popped in it.
proof fn lemma_published_from(s: WorkerState, inputs: Seq<Input>)
    requires
        forall|i: int| 0 <= i < inputs.len() ==> run(s, inputs)[i] != Action::Exit,
        inputs.len() > 0 ==> run(s, inputs).last() == Action::Wait,
        inputs.len() == 0 ==> owed(s) == Seq::<u16>::empty(),
    ensures
        published(run(s, inputs)) == owed(s) + popped(inputs),
    decreases inputs.len(),
{
    if inputs.len() == 0 {
        assert(owed(s) + popped(inputs) =~= Seq::<u16>::empty());
    } else {
        let (next, action) = transition(s, inputs[0]);
        let rest = inputs.drop_first();
        lemma_run_step(s, inputs);
        lemma_run_len(next, rest);
        assert(action == run(s, inputs)[0]);
        lemma_step_publishes(s, inputs[0]);
        assert forall|i: int| 0 <= i < rest.len() implies run(next, rest)[i] != Action::Exit by {
            assert(run(next, rest)[i] == run(s, inputs).drop_first()[i]);
            assert(run(s, inputs).drop_first()[i] == run(s, inputs)[i + 1]);
        }
        if rest.len() > 0 {
            assert(run(next, rest).last() == run(s, inputs).drop_first().last());
            assert(run(s, inputs).drop_first().last() == run(s, inputs).last());
        } else {
            assert(run(s, inputs).last() == action);
            assert(action == Action::Wait);
            assert(owed(next) =~= Seq::<u16>::empty());
        }
        lemma_published_from(next, rest);
        assert(published(run(s, inputs)) =~= publishes(action) + (owed(next) + popped(rest)));
        assert(publishes(action) + (owed(next) + popped(rest)) =~= (publishes(action) + owed(next))
            + popped(rest));
        assert((owed(s) + pops(inputs[0])) + popped(rest) =~= owed(s) + (pops(inputs[0]) + popped(
            rest,
        )));
    }
}

/// Every chain that is popped is published exactly once, and in the order
/// in which the chains were popped, by the time the worker waits again:
/// over any run that starts with the worker waiting, in which it never
/// exits and at whose end it waits, the chains published are the chains
/// popped.
pub proof fn lemma_used_ring_complete(s: WorkerState, inputs: Seq<Input>)
    requires
        s.phase is Waiting,
        returns_to_wait(run(s, inputs)),
    ensures
        published(run(s, inputs)) == popped(inputs),
{
    lemma_run_len(s, inputs);
    lemma_published_from(s, inputs);
    assert(owed(s) + popped(inputs) =~= popped(inputs));
}

/// Whether a worker in state `s` has published a chain in this wake-up and
/// not yet signalled the used queue for it.
pub open spec fn interrupt_owed(s: WorkerState) -> bool {
    s.needs_interrupt && !(s.phase is Waiting) && !(s.phase is Signalling)
}

/// From any state, the rest of a wake-up signals the used queue once if an
/// interrupt is owed at its start or a chain is published in it, as its
/// last action but one, and never otherwise.
proof fn lemma_signals_from(s: WorkerState, inputs: Seq<Input>)
    requires
        one_wake_up(run(s, inputs)),
    ensures
        signals(run(s, inputs)) == if s.phase is Signalling {
            0nat
        } else if interrupt_owed(s) || published(run(s, inputs)).len() > 0 {
            1nat
        } else {
            0nat
        },
        signals(run(s, inputs)) == 1 ==> inputs.len() >= 2 && run(s, inputs)[inputs.len() - 2]
            == Action::SignalUsedQueue,
    decreases inputs.len(),
{
    lemma_run_len(s, inputs);
    let actions = run(s, inputs);
    let (next, action) = transition(s, inputs[0]);
    let rest = inputs.drop_first();
    lemma_run_step(s, inputs);
    lemma_run_len(next, rest);
    assert(action == actions[0]);
    assert(action != Action::Exit);
    assert forall|i: int| 0 <= i < rest.len() implies run(next, rest)[i] == actions[i + 1] by {
        assert(run(next, rest)[i] == actions.drop_first()[i]);
    }
    if rest.len() == 0 {
        assert(actions.last() == action);
        assert(signals(run(next, rest)) == 0);
        assert(published(run(next, rest)) =~= Seq::<u16>::empty());
        assert(publishes(action) =~= Seq::<u16>::empty());
    } else {
        assert(action != Action::Wait);
        assert(run(next, rest).last() == actions[rest.len() as int]);
        assert(one_wake_up(run(next, rest)));
        lemma_signals_from(next, rest);
        if action == Action::SignalUsedQueue {
            assert(next.phase is Signalling);
            assert(run(next, rest)[0] == transition(next, rest[0]).1) by {
                lemma_run_step(next, rest);
            }
            assert(run(next, rest)[0] == Action::Wait);
            assert(rest.len() == 1);
        } else {
            assert(!(next.phase is Signalling));
            assert(interrupt_owed(next) <==> interrupt_owed(s) || publishes(action).len() > 0);
            if signals(run(next, rest)) == 1 {
                assert(actions[inputs.len() - 2] == run(next, rest)[rest.len() - 2]);
            }
        }
    }
}

/// An interrupt is raised once for all the chains of a wake-up: over the
/// actions from one wait to the next, during which the worker does not
/// exit, the used queue is signalled exactly once if a chain was
/// published, as the last action before the worker waits again and so
/// after every chain is published, and not at all if none was.
pub proof fn lemma_interrupt_coalesced(s: WorkerState, inputs: Seq<Input>)
    requires
        s.phase is Waiting,
        one_wake_up(run(s, inputs)),
    ensures
        published(run(s, inputs)).len() > 0 ==> {
            &&& signals(run(s, inputs)) == 1
            &&& inputs.len() >= 2
            &&& run(s, inputs)[inputs.len() - 2] == Action::SignalUsedQueue
        },
        published(run(s, inputs)).len() == 0 ==> signals(run(s, inputs)) == 0,
{
    lemma_signals_from(s, inputs);
}

} // verus!
