use std::cell::Cell;
use try_utils::scope::LoopRun;
use try_utils::{
    run_loop, try_break, try_break_to, try_continue, try_continue_to, try_or, try_return,
    try_return_unit, Diversion, Flow, Label, Step, Target,
};

const A: Label = Label(1);
const B: Label = Label(2);

#[test]
fn present_value_passes_every_guard() {
    assert_eq!(try_return(Some(10u32), 1i32), Flow::Proceed(10));
    assert_eq!(try_return_unit(Some(10u32)), Flow::Proceed(10));
    assert_eq!(try_continue::<_, ()>(Some(10u32)), Flow::Proceed(10));
    assert_eq!(try_continue_to::<_, ()>(Some(10u32), A), Flow::Proceed(10));
    assert_eq!(try_break::<_, ()>(Some(10u32)), Flow::Proceed(10));
    assert_eq!(try_break_to::<_, ()>(Some(10u32), A), Flow::Proceed(10));
    assert_eq!(try_or(Some(10u32), Diversion::Return('r')), Flow::Proceed(10));
    assert_eq!(try_return(Ok::<u32, u64>(10), 1i32), Flow::Proceed(10));
    assert_eq!(try_continue::<_, ()>(Ok::<u32, u64>(10)), Flow::Proceed(10));
    assert_eq!(try_break_to::<_, ()>(Ok::<u32, u64>(10), B), Flow::Proceed(10));
}

#[test]
fn absent_value_takes_the_way_out_of_its_guard() {
    assert_eq!(try_return(None::<u32>, 1i32), Flow::Divert(Diversion::Return(1)));
    assert_eq!(try_return_unit(None::<u32>), Flow::Divert(Diversion::Return(())));
    assert_eq!(
        try_continue::<_, ()>(None::<u32>),
        Flow::Divert(Diversion::Continue(Target::Innermost))
    );
    assert_eq!(
        try_continue_to::<_, ()>(None::<u32>, A),
        Flow::Divert(Diversion::Continue(Target::Labeled(A)))
    );
    assert_eq!(try_break::<_, ()>(None::<u32>), Flow::Divert(Diversion::Break(Target::Innermost)));
    assert_eq!(
        try_break_to::<_, ()>(None::<u32>, B),
        Flow::Divert(Diversion::Break(Target::Labeled(B)))
    );
    assert_eq!(
        try_or(None::<u32>, Diversion::Break::<()>(Target::Labeled(B))),
        Flow::Divert(Diversion::Break(Target::Labeled(B)))
    );
}

#[test]
fn result_is_guarded_as_the_option_with_its_payload() {
    assert_eq!(try_return(Ok::<u32, u64>(10), 1i32), try_return(Some(10u32), 1i32));
    assert_eq!(try_return(Err::<u32, u64>(10), 1i32), try_return(None::<u32>, 1i32));
    assert_eq!(try_return(Err::<u32, u64>(11), 1i32), try_return(Err::<u32, u64>(12), 1i32));
    assert_eq!(
        try_continue_to::<_, ()>(Err::<u32, &str>("lost"), A),
        try_continue_to::<_, ()>(None::<u32>, A)
    );
    assert_eq!(try_break::<_, ()>(Err::<u32, ()>(())), try_break::<_, ()>(None::<u32>));
}

#[test]
fn what_follows_a_guard_runs_only_on_a_payload() {
    let ran = Cell::new(0);
    let flow = try_return(Some(10u32), 1i32).and_then(|v| {
        ran.set(ran.get() + 1);
        Flow::Proceed(v + 1)
    });
    assert_eq!(flow, Flow::Proceed(11));
    assert_eq!(ran.get(), 1);

    let flow = try_return(None::<u32>, 1i32).and_then(|v| {
        ran.set(ran.get() + 1);
        Flow::Proceed(v + 1)
    });
    assert_eq!(flow, Flow::Divert(Diversion::Return(1)));
    assert_eq!(ran.get(), 1);

    let flow = try_return(Some(10u32), 1i32).and_then(|_| try_return(None::<u8>, 2i32));
    assert_eq!(flow, Flow::Divert(Diversion::Return(2)));
}

#[test]
fn function_ends_on_its_result_or_on_the_fallback() {
    assert_eq!(Flow::<i32, i32>::Proceed(5).finish(), 5);
    assert_eq!(Flow::<i32, i32>::Divert(Diversion::Return(6)).finish(), 6);
    assert_eq!(try_return_unit(None::<u8>).and_then(|_| Flow::Proceed(())).finish(), ());
}

#[test]
fn target_finds_its_loop() {
    assert!(Target::Innermost.aims_at(None));
    assert!(Target::Innermost.aims_at(Some(A)));
    assert!(Target::Labeled(A).aims_at(Some(A)));
    assert!(!Target::Labeled(A).aims_at(Some(B)));
    assert!(!Target::Labeled(A).aims_at(None));
}

#[test]
fn loop_takes_each_decision_in_its_way() {
    let pass = |diversion: Diversion<i32>| Flow::<(), i32>::Divert(diversion);
    assert_eq!(Flow::<(), i32>::Proceed(()).step(Some(A)), Step::Next);
    assert_eq!(pass(Diversion::Continue(Target::Innermost)).step(None), Step::Next);
    assert_eq!(pass(Diversion::Continue(Target::Labeled(A))).step(Some(A)), Step::Next);
    assert_eq!(
        pass(Diversion::Continue(Target::Labeled(A))).step(Some(B)),
        Step::Leave(Diversion::Continue(Target::Labeled(A)))
    );
    assert_eq!(pass(Diversion::Break(Target::Innermost)).step(Some(A)), Step::Stop);
    assert_eq!(pass(Diversion::Break(Target::Labeled(B))).step(Some(B)), Step::Stop);
    assert_eq!(
        pass(Diversion::Break(Target::Labeled(B))).step(None),
        Step::Leave(Diversion::Break(Target::Labeled(B)))
    );
    assert_eq!(pass(Diversion::Return(3)).step(Some(A)), Step::Leave(Diversion::Return(3)));
}

#[test]
fn continue_loses_no_iteration() {
    let values = [Some(1u32), None, None, Some(4), None];
    let begun = Cell::new(0);
    let sum = Cell::new(0);
    let run = run_loop(None, values.len(), |i| {
        begun.set(begun.get() + 1);
        try_continue::<_, ()>(values[i]).and_then(|v| {
            sum.set(sum.get() + v);
            Flow::Proceed(())
        })
    });
    assert_eq!(run, LoopRun { iterations: 5, exit: Flow::Proceed(()) });
    assert_eq!(begun.get(), 5);
    assert_eq!(sum.get(), 5);
}

#[test]
fn break_allows_no_further_iteration() {
    let values = [Ok(1u32), Ok(2), Err("stop"), Ok(4), Err("late")];
    let begun = Cell::new(0);
    let sum = Cell::new(0);
    let run = run_loop(Some(A), values.len(), |i| {
        begun.set(begun.get() + 1);
        try_break::<_, ()>(values[i]).and_then(|v| {
            sum.set(sum.get() + v);
            Flow::Proceed(())
        })
    });
    assert_eq!(run, LoopRun { iterations: 3, exit: Flow::Proceed(()) });
    assert_eq!(begun.get(), 3);
    assert_eq!(sum.get(), 3);
}

#[test]
fn loop_without_iterations_runs_nothing() {
    let run = run_loop(None, 0, |_| -> Flow<(), ()> { panic!() });
    assert_eq!(run, LoopRun { iterations: 0, exit: Flow::Proceed(()) });
}

#[test]
fn return_leaves_every_loop() {
    let searched = |wanted: u32| -> i32 {
        let outer = run_loop(Some(A), 4, |i| {
            run_loop(Some(B), 4, |j| {
                let found = if (i * 4 + j) as u32 == wanted { None } else { Some(()) };
                try_return(found, (i * 10 + j) as i32)
            })
            .exit
        });
        outer.exit.and_then(|()| Flow::Proceed(-1)).finish()
    };
    assert_eq!(searched(0), 0);
    assert_eq!(searched(6), 12);
    assert_eq!(searched(15), 33);
    assert_eq!(searched(16), -1);
}

#[test]
fn labeled_break_ends_the_outer_loop() {
    let inner_passes = Cell::new(0);
    let run = run_loop(Some(A), 10, |i| {
        let inner = run_loop(Some(B), 10, |j| {
            inner_passes.set(inner_passes.get() + 1);
            let here = if i == 2 && j == 3 { None } else { Some(()) };
            try_break_to::<_, ()>(here, A)
        });
        inner.exit
    });
    assert_eq!(run, LoopRun { iterations: 3, exit: Flow::Proceed(()) });
    assert_eq!(inner_passes.get(), 24);
}

#[test]
fn unlabeled_jump_stays_in_the_inner_loop() {
    let inner_passes = Cell::new(0);
    let run = run_loop(Some(A), 3, |_| {
        let inner = run_loop(Some(B), 5, |j| {
            inner_passes.set(inner_passes.get() + 1);
            let here = if j == 1 { None } else { Some(()) };
            try_break::<_, ()>(here)
        });
        assert_eq!(inner, LoopRun { iterations: 2, exit: Flow::Proceed(()) });
        inner.exit
    });
    assert_eq!(run, LoopRun { iterations: 3, exit: Flow::Proceed(()) });
    assert_eq!(inner_passes.get(), 6);
}

#[test]
fn jump_to_a_label_that_no_loop_carries_is_left_over() {
    let run = run_loop(Some(A), 10, |_| {
        try_continue_to::<_, ()>(None::<u8>, B).and_then(|_| Flow::Proceed(()))
    });
    assert_eq!(
        run,
        LoopRun { iterations: 1, exit: Flow::Divert(Diversion::Continue(Target::Labeled(B))) }
    );
}
