//! What holds of every run of the protocol.
use vstd::prelude::*;
use crate::protocol::{
    EngineCall, Failure, Reply, Stage, after, append_call, call_of, occurrences, run, succeeded,
    status_of,
};

verus! {

proof fn lemma_occurrences_cons(x: EngineCall, rest: Seq<EngineCall>, c: EngineCall)
    ensures
        occurrences(seq![x] + rest, c) == (if x == c { 1nat } else { 0nat }) + occurrences(rest, c),
{
    assert((seq![x] + rest).drop_first() =~= rest);
}

/// 1 while the catalog's name buffers are held.
pub open spec fn names_held(s: Stage) -> nat {
    match s {
        Stage::ReleaseNames { .. } => 1,
        _ => 0,
    }
}

/// 1 while the catalog has not been asked for yet.
pub open spec fn catalog_due(s: Stage) -> nat {
    match s {
        Stage::Init | Stage::Open | Stage::CreateHeader | Stage::CreateCatalog => 1,
        _ => 0,
    }
}

/// 1 while an append's name buffer is held.
pub open spec fn name_held(s: Stage) -> nat {
    match s {
        Stage::ReleasingName { .. } => 1,
        _ => 0,
    }
}

/// Name buffers are balanced over any run: every catalog call is matched by
/// one release of its name buffers, every append call by one release of its
/// name buffer, save for buffers still held where the run stops; and the
/// catalog is asked for at most once.
pub proof fn lemma_buffers_balanced(s: Stage, rs: Seq<Reply>)
    ensures
        ({
            let (t, cs) = run(s, rs);
            &&& occurrences(cs, EngineCall::CreateCatalog) + names_held(s) == occurrences(
                cs,
                EngineCall::ReleaseNameBuffers,
            ) + names_held(t)
            &&& occurrences(cs, EngineCall::AppendFixedStep) + occurrences(
                cs,
                EngineCall::AppendVariableStep,
            ) + name_held(s) == occurrences(cs, EngineCall::ReleaseNameBuffer) + name_held(t)
            &&& occurrences(cs, EngineCall::CreateCatalog) + catalog_due(t) <= catalog_due(s)
        }),
    decreases rs.len(),
{
    if rs.len() == 0 || call_of(s).is_none() {
        assert(occurrences(Seq::<EngineCall>::empty(), EngineCall::CreateCatalog) == 0);
    } else {
        let c = call_of(s)->Some_0;
        let n = after(s, rs[0]);
        lemma_buffers_balanced(n, rs.drop_first());
        let cs = run(n, rs.drop_first()).1;
        lemma_occurrences_cons(c, cs, EngineCall::CreateCatalog);
        lemma_occurrences_cons(c, cs, EngineCall::ReleaseNameBuffers);
        lemma_occurrences_cons(c, cs, EngineCall::AppendFixedStep);
        lemma_occurrences_cons(c, cs, EngineCall::AppendVariableStep);
        lemma_occurrences_cons(c, cs, EngineCall::ReleaseNameBuffer);
    }
}

/// A setup that runs to its end releases the catalog's name buffers exactly
/// once, whether the catalog call succeeded or not, and asks for the catalog
/// at most once.
pub proof fn lemma_catalog_names_released(rs: Seq<Reply>)
    requires
        call_of(run(Stage::Init, rs).0) is None,
    ensures
        occurrences(run(Stage::Init, rs).1, EngineCall::ReleaseNameBuffers) == occurrences(
            run(Stage::Init, rs).1,
            EngineCall::CreateCatalog,
        ),
        occurrences(run(Stage::Init, rs).1, EngineCall::CreateCatalog) <= 1,
{
    lemma_buffers_balanced(Stage::Init, rs);
}

/// With every engine call succeeding, setup opens exactly one session and
/// ends ready for appends.
pub proof fn lemma_setup_succeeds(rs: Seq<Reply>)
    requires
        rs.len() >= 6,
        forall|i: int| 0 <= i < 6 ==> succeeded(#[trigger] rs[i]),
    ensures
        run(Stage::Init, rs) == (
        Stage::Ready,
        seq![
            EngineCall::GlobalInit,
            EngineCall::Open,
            EngineCall::CreateHeader,
            EngineCall::CreateCatalog,
            EngineCall::ReleaseNameBuffers,
            EngineCall::WriteHeader,
        ],
    ),
{
    reveal_with_fuel(run, 7);
    assert(succeeded(rs[0]) && succeeded(rs[1]) && succeeded(rs[2]) && succeeded(rs[3]));
    assert(succeeded(rs[4]) && succeeded(rs[5]));
    assert(run(Stage::Init, rs).1 =~= seq![
        EngineCall::GlobalInit,
        EngineCall::Open,
        EngineCall::CreateHeader,
        EngineCall::CreateCatalog,
        EngineCall::ReleaseNameBuffers,
        EngineCall::WriteHeader,
    ]);
}

/// Where global initialisation fails, setup fails at once with its code and
/// makes no other call.
pub proof fn lemma_init_failure(rs: Seq<Reply>)
    requires
        rs.len() >= 1,
        !succeeded(rs[0]),
    ensures
        run(Stage::Init, rs) == (
        Stage::Failed { failure: Failure::Init { code: status_of(rs[0]) as i32 } },
        seq![EngineCall::GlobalInit],
    ),
{
    reveal_with_fuel(run, 2);
    assert(run(Stage::Init, rs).1 =~= seq![EngineCall::GlobalInit]);
}

/// Where opening fails, global cleanup follows exactly once, and then setup
/// fails with an open error.
pub proof fn lemma_open_failure_unwinds(rs: Seq<Reply>)
    requires
        rs.len() >= 3,
        succeeded(rs[0]),
        !succeeded(rs[1]),
    ensures
        run(Stage::Init, rs) == (
        Stage::Failed { failure: Failure::Open },
        seq![EngineCall::GlobalInit, EngineCall::Open, EngineCall::GlobalCleanup],
    ),
{
    reveal_with_fuel(run, 4);
    assert(run(Stage::Init, rs).1 =~= seq![
        EngineCall::GlobalInit,
        EngineCall::Open,
        EngineCall::GlobalCleanup,
    ]);
}

/// Where creating the header fails, the open handle is closed exactly once
/// and global cleanup follows, before setup fails with the header's code.
pub proof fn lemma_header_failure_unwinds(rs: Seq<Reply>)
    requires
        rs.len() >= 5,
        succeeded(rs[0]),
        succeeded(rs[1]),
        !succeeded(rs[2]),
    ensures
        run(Stage::Init, rs) == (
        Stage::Failed { failure: Failure::CreateHeader { code: status_of(rs[2]) as i32 } },
        seq![
            EngineCall::GlobalInit,
            EngineCall::Open,
            EngineCall::CreateHeader,
            EngineCall::Close,
            EngineCall::GlobalCleanup,
        ],
    ),
{
    reveal_with_fuel(run, 6);
    assert(run(Stage::Init, rs).1 =~= seq![
        EngineCall::GlobalInit,
        EngineCall::Open,
        EngineCall::CreateHeader,
        EngineCall::Close,
        EngineCall::GlobalCleanup,
    ]);
}

/// Where building the catalog fails, its name buffers are released, then the
/// open handle is closed exactly once and global cleanup follows, before setup
/// fails with a catalog error.
pub proof fn lemma_catalog_failure_unwinds(rs: Seq<Reply>)
    requires
        rs.len() >= 7,
        succeeded(rs[0]),
        succeeded(rs[1]),
        succeeded(rs[2]),
        !succeeded(rs[3]),
    ensures
        run(Stage::Init, rs) == (
        Stage::Failed { failure: Failure::CreateCatalog },
        seq![
            EngineCall::GlobalInit,
            EngineCall::Open,
            EngineCall::CreateHeader,
            EngineCall::CreateCatalog,
            EngineCall::ReleaseNameBuffers,
            EngineCall::Close,
            EngineCall::GlobalCleanup,
        ],
    ),
{
    reveal_with_fuel(run, 8);
    assert(run(Stage::Init, rs).1 =~= seq![
        EngineCall::GlobalInit,
        EngineCall::Open,
        EngineCall::CreateHeader,
        EngineCall::CreateCatalog,
        EngineCall::ReleaseNameBuffers,
        EngineCall::Close,
        EngineCall::GlobalCleanup,
    ]);
}

/// Where writing the header fails, the open handle is closed exactly once and
/// global cleanup follows, before setup fails with the header write's code.
pub proof fn lemma_header_write_failure_unwinds(rs: Seq<Reply>)
    requires
        rs.len() >= 8,
        forall|i: int| 0 <= i < 5 ==> succeeded(#[trigger] rs[i]),
        !succeeded(rs[5]),
    ensures
        run(Stage::Init, rs) == (
        Stage::Failed { failure: Failure::WriteHeader { code: status_of(rs[5]) as i32 } },
        seq![
            EngineCall::GlobalInit,
            EngineCall::Open,
            EngineCall::CreateHeader,
            EngineCall::CreateCatalog,
            EngineCall::ReleaseNameBuffers,
            EngineCall::WriteHeader,
            EngineCall::Close,
            EngineCall::GlobalCleanup,
        ],
    ),
{
    reveal_with_fuel(run, 9);
    assert(succeeded(rs[0]) && succeeded(rs[1]) && succeeded(rs[2]) && succeeded(rs[3]));
    assert(succeeded(rs[4]));
    assert(run(Stage::Init, rs).1 =~= seq![
        EngineCall::GlobalInit,
        EngineCall::Open,
        EngineCall::CreateHeader,
        EngineCall::CreateCatalog,
        EngineCall::ReleaseNameBuffers,
        EngineCall::WriteHeader,
        EngineCall::Close,
        EngineCall::GlobalCleanup,
    ]);
}

/// An append makes its call, then releases its name buffer exactly once,
/// whatever the engine answered, and the session is ready again: a failed
/// append does not end it.
pub proof fn lemma_append_releases_name(variable: bool, rs: Seq<Reply>)
    requires
        rs.len() >= 2,
    ensures
        run(Stage::Appending { variable }, rs) == (
        Stage::Ready,
        seq![append_call(variable), EngineCall::ReleaseNameBuffer],
    ),
{
    reveal_with_fuel(run, 3);
    assert(run(Stage::Appending { variable }, rs).1 =~= seq![
        append_call(variable),
        EngineCall::ReleaseNameBuffer,
    ]);
}

/// Closing an open session closes its handle exactly once, then runs global
/// cleanup exactly once, whatever the engine answers.
pub proof fn lemma_close_then_cleanup(rs: Seq<Reply>)
    requires
        rs.len() >= 2,
    ensures
        run(Stage::Closing, rs) == (
        Stage::Closed,
        seq![EngineCall::Close, EngineCall::GlobalCleanup],
    ),
{
    reveal_with_fuel(run, 3);
    assert(run(Stage::Closing, rs).1 =~= seq![EngineCall::Close, EngineCall::GlobalCleanup]);
}

/// An append followed by closing, whatever the engine answered to the
/// append: the session is ready again in between, and then closes its handle
/// exactly once and runs global cleanup exactly once.
pub proof fn lemma_close_after_append(variable: bool, append_rs: Seq<Reply>, close_rs: Seq<Reply>)
    requires
        append_rs.len() >= 2,
        close_rs.len() >= 2,
    ensures
        run(Stage::Appending { variable }, append_rs).0 == Stage::Ready,
        run(Stage::Appending { variable }, append_rs).1 + run(Stage::Closing, close_rs).1 == seq![
            append_call(variable),
            EngineCall::ReleaseNameBuffer,
            EngineCall::Close,
            EngineCall::GlobalCleanup,
        ],
{
    lemma_append_releases_name(variable, append_rs);
    lemma_close_then_cleanup(close_rs);
    assert(run(Stage::Appending { variable }, append_rs).1 + run(Stage::Closing, close_rs).1
        =~= seq![
        append_call(variable),
        EngineCall::ReleaseNameBuffer,
        EngineCall::Close,
        EngineCall::GlobalCleanup,
    ]);
}

} // verus!
