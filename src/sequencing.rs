use vstd::prelude::*;

use crate::action::{initial_model, react, run, ActionModel, Effect, ExecEvent};
use crate::state::State;

verus! {

/// The exit events of consecutive steps.
pub open spec fn exits(codes: Seq<i32>) -> Seq<ExecEvent> {
    codes.map_values(|c: i32| ExecEvent::Exited(c))
}

/// Output chunks of the running step.
pub open spec fn outputs(logs: Seq<String>) -> Seq<ExecEvent> {
    logs.map_values(|s: String| ExecEvent::Output(s))
}

/// Starting the steps `first`, `first + 1`, ... in order, `count` of them.
pub open spec fn runs_from(first: nat, count: nat) -> Seq<Effect> {
    Seq::new(count, |i: int| Effect::Run((first + i) as nat))
}

proof fn lemma_run_cons(m: ActionModel, evs: Seq<ExecEvent>)
    requires
        evs.len() > 0,
    ensures
        run(m, evs) == ({
            let (m1, eff) = react(m, evs[0]);
            let (m2, rest) = run(m1, evs.drop_first());
            (m2, seq![eff] + rest)
        }),
{
}

proof fn lemma_exits_until_failure(m: ActionModel, codes: Seq<i32>)
    requires
        m.state == State::InProgress,
        m.started >= 1,
        codes.len() >= 1,
        m.started + codes.len() - 1 <= m.n_steps,
        forall|i: int| 0 <= i < codes.len() - 1 ==> codes[i] == 0,
        codes.last() != 0,
    ensures
        run(m, exits(codes)) == (
            ActionModel { state: State::Failed, started: (m.started + codes.len() - 1) as nat, ..m },
            runs_from(m.started, (codes.len() - 1) as nat).push(
                Effect::Finish(State::Failed, Some(codes.last())),
            ),
        ),
    decreases codes.len(),
{
    let evs = exits(codes);
    lemma_run_cons(m, evs);
    assert(evs.drop_first() =~= exits(codes.drop_first()));
    if codes.len() == 1 {
        assert(runs_from(m.started, 0).push(Effect::Finish(State::Failed, Some(codes.last())))
            =~= seq![Effect::Finish(State::Failed, Some(codes.last()))]);
    } else {
        let m1 = ActionModel { started: m.started + 1, ..m };
        assert(codes[0] == 0);
        assert(react(m, evs[0]) == (m1, Effect::Run(m.started)));
        lemma_exits_until_failure(m1, codes.drop_first());
        assert(seq![Effect::Run(m.started)] + runs_from(m1.started, (codes.len() - 2) as nat).push(
            Effect::Finish(State::Failed, Some(codes.last())),
        ) =~= runs_from(m.started, (codes.len() - 1) as nat).push(
            Effect::Finish(State::Failed, Some(codes.last())),
        ));
    }
}

proof fn lemma_exits_all_zero(m: ActionModel, codes: Seq<i32>)
    requires
        m.state == State::InProgress,
        m.started >= 1,
        m.started <= m.n_steps,
        codes.len() == m.n_steps - m.started + 1,
        forall|i: int| 0 <= i < codes.len() ==> codes[i] == 0,
    ensures
        run(m, exits(codes)) == (
            ActionModel { state: State::Completed, started: m.n_steps, ..m },
            runs_from(m.started, (codes.len() - 1) as nat).push(
                Effect::Finish(State::Completed, Some(0)),
            ),
        ),
    decreases codes.len(),
{
    let evs = exits(codes);
    lemma_run_cons(m, evs);
    assert(evs.drop_first() =~= exits(codes.drop_first()));
    assert(codes[0] == 0);
    if codes.len() == 1 {
        assert(runs_from(m.started, 0).push(Effect::Finish(State::Completed, Some(0)))
            =~= seq![Effect::Finish(State::Completed, Some(0))]);
    } else {
        let m1 = ActionModel { started: m.started + 1, ..m };
        assert(react(m, evs[0]) == (m1, Effect::Run(m.started)));
        lemma_exits_all_zero(m1, codes.drop_first());
        assert(seq![Effect::Run(m.started)] + runs_from(m1.started, (codes.len() - 2) as nat).push(
            Effect::Finish(State::Completed, Some(0)),
        ) =~= runs_from(m.started, (codes.len() - 1) as nat).push(
            Effect::Finish(State::Completed, Some(0)),
        ));
    }
}

/// Of an action with `n` steps whose first `k - 1` steps exit with zero and
/// whose step `k` exits with a nonzero code (the codes are `codes`, of length
/// `k <= n`): exactly steps `1..k` run, in order; the action finishes once
/// (one container removal), in `Failed`, carrying step `k`'s exit code.
pub proof fn lemma_first_failure_ends_action(n: nat, codes: Seq<i32>)
    requires
        1 <= codes.len() <= n,
        forall|i: int| 0 <= i < codes.len() - 1 ==> codes[i] == 0,
        codes.last() != 0,
    ensures
        ({
            let (m, effects) = run(initial_model(n), seq![ExecEvent::Start] + exits(codes));
            &&& m.state == State::Failed
            &&& effects == runs_from(0, codes.len()).push(
                Effect::Finish(State::Failed, Some(codes.last())),
            )
        }),
{
    let evs = seq![ExecEvent::Start] + exits(codes);
    let m0 = initial_model(n);
    let m1 = ActionModel { started: 1, ..m0 };
    lemma_run_cons(m0, evs);
    assert(evs.drop_first() =~= exits(codes));
    assert(react(m0, evs[0]) == (m1, Effect::Run(0)));
    lemma_exits_until_failure(m1, codes);
    assert(seq![Effect::Run(0)] + runs_from(1, (codes.len() - 1) as nat).push(
        Effect::Finish(State::Failed, Some(codes.last())),
    ) =~= runs_from(0, codes.len()).push(Effect::Finish(State::Failed, Some(codes.last()))));
}

/// Of an action with `n` steps that all exit with zero: every step runs, in
/// order; the action finishes once (one container removal), in `Completed`,
/// and no failure is reported.
pub proof fn lemma_all_success_completes(n: nat, codes: Seq<i32>)
    requires
        codes.len() == n,
        forall|i: int| 0 <= i < codes.len() ==> codes[i] == 0,
    ensures
        ({
            let (m, effects) = run(initial_model(n), seq![ExecEvent::Start] + exits(codes));
            &&& m.state == State::Completed
            &&& effects == runs_from(0, n).push(Effect::Finish(State::Completed, Some(0)))
            &&& forall|i: int|
                0 <= i < effects.len() ==> !(#[trigger] effects[i] matches Effect::Finish(
                    State::Failed,
                    _,
                ))
        }),
{
    let evs = seq![ExecEvent::Start] + exits(codes);
    let m0 = initial_model(n);
    lemma_run_cons(m0, evs);
    assert(evs.drop_first() =~= exits(codes));
    if n == 0 {
        assert(exits(codes) =~= Seq::<ExecEvent>::empty());
        assert(runs_from(0, 0).push(Effect::Finish(State::Completed, Some(0))) =~= seq![
            Effect::Finish(State::Completed, Some(0)),
        ]);
    } else {
        let m1 = ActionModel { started: 1, ..m0 };
        assert(react(m0, evs[0]) == (m1, Effect::Run(0)));
        lemma_exits_all_zero(m1, codes);
        assert(seq![Effect::Run(0)] + runs_from(1, (n - 1) as nat).push(
            Effect::Finish(State::Completed, Some(0)),
        ) =~= runs_from(0, n).push(Effect::Finish(State::Completed, Some(0))));
    }
}

/// Once an action is in a terminal state, every further event is ignored.
pub proof fn lemma_terminal_ignores(m: ActionModel, evs: Seq<ExecEvent>)
    requires
        m.state != State::InProgress,
    ensures
        run(m, evs) == (m, Seq::new(evs.len(), |i: int| Effect::Ignore)),
    decreases evs.len(),
{
    if evs.len() > 0 {
        lemma_run_cons(m, evs);
        lemma_terminal_ignores(m, evs.drop_first());
        assert(seq![Effect::Ignore] + Seq::new((evs.len() - 1) as nat, |i: int| Effect::Ignore) =~= Seq::new(
            evs.len(),
            |i: int| Effect::Ignore,
        ));
    }
}

/// The output of a running step reaches the caller chunk for chunk, in the
/// order it was produced.
pub proof fn lemma_output_in_order(m: ActionModel, logs: Seq<String>)
    requires
        m.state == State::InProgress,
        m.started >= 1,
    ensures
        run(m, outputs(logs)) == (m, logs.map_values(|s: String| Effect::Forward(s@))),
    decreases logs.len(),
{
    let evs = outputs(logs);
    if logs.len() > 0 {
        lemma_run_cons(m, evs);
        assert(evs.drop_first() =~= outputs(logs.drop_first()));
        lemma_output_in_order(m, logs.drop_first());
        assert(seq![Effect::Forward(logs[0]@)] + logs.drop_first().map_values(
            |s: String| Effect::Forward(s@),
        ) =~= logs.map_values(|s: String| Effect::Forward(s@)));
    } else {
        assert(logs.map_values(|s: String| Effect::Forward(s@)) =~= Seq::<Effect>::empty());
    }
}

/// The terminal message is the last message of an action: after the effect
/// that finishes it, whatever happens is ignored.
pub proof fn lemma_finish_is_last(m: ActionModel, evs: Seq<ExecEvent>)
    ensures
        ({
            let effects = run(m, evs).1;
            forall|i: int, j: int|
                0 <= i < j < effects.len() && #[trigger] effects[i] is Finish ==> #[trigger] effects[j]
                    is Ignore
        }),
    decreases evs.len(),
{
    if evs.len() > 0 {
        lemma_run_cons(m, evs);
        let (m1, eff) = react(m, evs[0]);
        lemma_finish_is_last(m1, evs.drop_first());
        if eff is Finish {
            lemma_terminal_ignores(m1, evs.drop_first());
        }
        let effects = run(m, evs).1;
        let rest = run(m1, evs.drop_first()).1;
        assert(effects == seq![eff] + rest);
        assert forall|i: int, j: int|
            0 <= i < j < effects.len() && #[trigger] effects[i] is Finish implies #[trigger] effects[j]
                is Ignore by {
            assert(effects[j] == rest[j - 1]);
            if i > 0 {
                assert(effects[i] == rest[i - 1]);
            }
        }
    }
}

} // verus!
