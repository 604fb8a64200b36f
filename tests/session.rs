use rust_libbigwig::{
    advance, status_code, BigWigWriter, EngineCall, Failure, FixedStepBlock, Reply, Stage,
    UsageCounter, VariableStepBlock, WriterError, ENGINE_BUFFER_SIZE, MAX_ZOOM_LEVELS,
};

fn names(list: &[&str]) -> Vec<String> {
    list.iter().map(|s| s.to_string()).collect()
}

/// Answers each due call with the reply that `answer` gives for it, until the
/// session waits; returns the calls made and the last outcome.
fn drive(
    w: &mut BigWigWriter,
    answer: &dyn Fn(EngineCall) -> Reply,
) -> (Vec<EngineCall>, Option<Result<(), WriterError>>) {
    let mut calls = Vec::new();
    let mut last = None;
    while let Some(call) = w.next_call() {
        calls.push(call);
        let out = w.record(answer(call));
        if out.is_some() {
            last = out;
        }
    }
    (calls, last)
}

fn all_ok(call: EngineCall) -> Reply {
    match call {
        EngineCall::Open | EngineCall::CreateCatalog => Reply::Handle { is_null: false },
        EngineCall::GlobalInit
        | EngineCall::CreateHeader
        | EngineCall::WriteHeader
        | EngineCall::AppendFixedStep
        | EngineCall::AppendVariableStep => Reply::Status { code: 0 },
        _ => Reply::Done,
    }
}

fn ready_writer() -> BigWigWriter {
    let mut w = BigWigWriter::new("t.bin", &names(&["chr1", "chr2"]), &[100, 200]).unwrap();
    let (_, out) = drive(&mut w, &all_ok);
    assert_eq!(out, Some(Ok(())));
    w
}

const CLOSE_CALLS: [EngineCall; 2] = [EngineCall::Close, EngineCall::GlobalCleanup];

#[test]
fn full_session_writes_both_block_kinds() {
    let mut w = BigWigWriter::new("t.bin", &names(&["chr1", "chr2"]), &[100, 200]).unwrap();
    assert_eq!(w.current_stage(), Stage::Init);
    assert_eq!(w.filename(), "t.bin");
    assert_eq!(w.chrom_names(), &names(&["chr1", "chr2"]));
    assert_eq!(w.chrom_lens(), &vec![100, 200]);
    let (calls, out) = drive(&mut w, &all_ok);
    assert_eq!(
        calls,
        vec![
            EngineCall::GlobalInit,
            EngineCall::Open,
            EngineCall::CreateHeader,
            EngineCall::CreateCatalog,
            EngineCall::ReleaseNameBuffers,
            EngineCall::WriteHeader,
        ]
    );
    assert_eq!(out, Some(Ok(())));
    assert_eq!(w.current_stage(), Stage::Ready);

    let block = w.add_interval_span_steps("chr1", 10, 1, 1, 2).unwrap();
    assert_eq!(block, FixedStepBlock { start_pos: 10, span_size: 1, step_size: 1, count: 2 });
    let (calls, out) = drive(&mut w, &all_ok);
    assert_eq!(calls, vec![EngineCall::AppendFixedStep, EngineCall::ReleaseNameBuffer]);
    assert_eq!(out, Some(Ok(())));

    let block = w.add_interval_spans("chr2", &[5, 50], 1, 2).unwrap();
    assert_eq!(block, VariableStepBlock { span_size: 1, count: 2 });
    let (calls, out) = drive(&mut w, &all_ok);
    assert_eq!(calls, vec![EngineCall::AppendVariableStep, EngineCall::ReleaseNameBuffer]);
    assert_eq!(out, Some(Ok(())));

    w.close();
    let (calls, out) = drive(&mut w, &all_ok);
    assert_eq!(calls, CLOSE_CALLS.to_vec());
    assert_eq!(out, Some(Ok(())));
    assert_eq!(w.current_stage(), Stage::Closed);
}

#[test]
fn mismatched_catalog_is_refused() {
    let r = BigWigWriter::new("t.bin", &names(&["chr1"]), &[100, 200]);
    let e = r.err().unwrap();
    assert_eq!(e, WriterError::LengthMismatch { names: 1, lengths: 2 });
    assert!(e.is_contract_violation());
}

#[test]
fn empty_path_is_refused() {
    let e = BigWigWriter::new("", &names(&["chr1"]), &[100]).err().unwrap();
    assert_eq!(e, WriterError::EmptyPath);
    assert!(e.is_contract_violation());
}

#[test]
fn empty_catalog_is_refused() {
    let e = BigWigWriter::new("t.bin", &[], &[]).err().unwrap();
    assert_eq!(e, WriterError::NoChromosomes);
    assert!(e.is_contract_violation());
}

#[test]
fn init_failure_makes_no_other_call() {
    let mut w = BigWigWriter::new("t.bin", &names(&["chr1"]), &[100]).unwrap();
    let (calls, out) = drive(&mut w, &|c| match c {
        EngineCall::GlobalInit => Reply::Status { code: -4 },
        other => all_ok(other),
    });
    assert_eq!(calls, vec![EngineCall::GlobalInit]);
    let e = out.unwrap().unwrap_err();
    assert_eq!(e, WriterError::Init { code: -4 });
    assert!(!e.is_contract_violation());
    assert_eq!(w.current_stage(), Stage::Failed { failure: Failure::Init { code: -4 } });
}

#[test]
fn open_failure_cleans_up_once() {
    let mut w = BigWigWriter::new("t.bin", &names(&["chr1"]), &[100]).unwrap();
    let (calls, out) = drive(&mut w, &|c| match c {
        EngineCall::Open => Reply::Handle { is_null: true },
        other => all_ok(other),
    });
    assert_eq!(calls, vec![EngineCall::GlobalInit, EngineCall::Open, EngineCall::GlobalCleanup]);
    assert_eq!(out, Some(Err(WriterError::Open { path: "t.bin".to_string() })));
}

#[test]
fn header_failure_closes_once() {
    let mut w = BigWigWriter::new("t.bin", &names(&["chr1"]), &[100]).unwrap();
    let (calls, out) = drive(&mut w, &|c| match c {
        EngineCall::CreateHeader => Reply::Status { code: 3 },
        other => all_ok(other),
    });
    assert_eq!(
        calls,
        vec![
            EngineCall::GlobalInit,
            EngineCall::Open,
            EngineCall::CreateHeader,
            EngineCall::Close,
            EngineCall::GlobalCleanup,
        ]
    );
    assert_eq!(out, Some(Err(WriterError::CreateHeader { code: 3 })));
}

#[test]
fn catalog_failure_releases_names_then_closes() {
    let mut w = BigWigWriter::new("t.bin", &names(&["chr1", "chr2"]), &[100, 200]).unwrap();
    let (calls, out) = drive(&mut w, &|c| match c {
        EngineCall::CreateCatalog => Reply::Handle { is_null: true },
        other => all_ok(other),
    });
    assert_eq!(
        calls,
        vec![
            EngineCall::GlobalInit,
            EngineCall::Open,
            EngineCall::CreateHeader,
            EngineCall::CreateCatalog,
            EngineCall::ReleaseNameBuffers,
            EngineCall::Close,
            EngineCall::GlobalCleanup,
        ]
    );
    assert_eq!(out, Some(Err(WriterError::CreateCatalog)));
}

#[test]
fn header_write_failure_closes_once() {
    let mut w = BigWigWriter::new("t.bin", &names(&["chr1"]), &[100]).unwrap();
    let (calls, out) = drive(&mut w, &|c| match c {
        EngineCall::WriteHeader => Reply::Status { code: 7 },
        other => all_ok(other),
    });
    assert_eq!(calls.len(), 8);
    assert_eq!(calls[4], EngineCall::ReleaseNameBuffers);
    assert_eq!(calls[6..].to_vec(), CLOSE_CALLS.to_vec());
    assert_eq!(out, Some(Err(WriterError::WriteHeader { code: 7 })));
}

#[test]
fn failed_fixed_step_append_releases_name_and_keeps_session() {
    let mut w = ready_writer();
    w.add_interval_span_steps("chr1", 10, 1, 1, 2).unwrap();
    let (calls, out) = drive(&mut w, &|c| match c {
        EngineCall::AppendFixedStep => Reply::Status { code: 2 },
        other => all_ok(other),
    });
    assert_eq!(calls, vec![EngineCall::AppendFixedStep, EngineCall::ReleaseNameBuffer]);
    assert_eq!(
        out,
        Some(Err(WriterError::FixedStepAppend { code: 2, chrom_name: "chr1".to_string() }))
    );
    assert_eq!(w.current_stage(), Stage::Ready);
    w.close();
    let (calls, out) = drive(&mut w, &all_ok);
    assert_eq!(calls, CLOSE_CALLS.to_vec());
    assert_eq!(out, Some(Ok(())));
}

#[test]
fn failed_variable_step_append_releases_name() {
    let mut w = ready_writer();
    w.add_interval_spans("chr2", &[5, 50], 1, 2).unwrap();
    let (calls, out) = drive(&mut w, &|c| match c {
        EngineCall::AppendVariableStep => Reply::Status { code: -1 },
        other => all_ok(other),
    });
    assert_eq!(calls, vec![EngineCall::AppendVariableStep, EngineCall::ReleaseNameBuffer]);
    assert_eq!(
        out,
        Some(Err(WriterError::VariableStepAppend { code: -1, chrom_name: "chr2".to_string() }))
    );
    assert_eq!(w.current_stage(), Stage::Ready);
}

#[test]
fn unequal_positions_and_values_make_no_call() {
    let mut w = ready_writer();
    let e = w.add_interval_spans("chr2", &[5, 50, 70], 1, 2).unwrap_err();
    assert_eq!(e, WriterError::PositionValueMismatch { positions: 3, values: 2 });
    assert!(e.is_contract_violation());
    assert_eq!(w.current_stage(), Stage::Ready);
    assert_eq!(w.next_call(), None);
}

#[test]
fn replies_map_to_codes() {
    assert_eq!(status_code(Reply::Status { code: 9 }), 9);
    assert_eq!(status_code(Reply::Handle { is_null: true }), -1);
    assert_eq!(status_code(Reply::Handle { is_null: false }), 0);
    assert_eq!(status_code(Reply::Done), 0);
    assert_eq!(
        advance(Stage::CreateCatalog, Reply::Handle { is_null: true }),
        Stage::ReleaseNames { catalog_ok: false }
    );
    assert_eq!(
        advance(Stage::Appending { variable: true }, Reply::Status { code: 5 }),
        Stage::ReleasingName { variable: true, code: 5 }
    );
    assert_eq!(advance(Stage::Ready, Reply::Done), Stage::Ready);
    assert_eq!(ENGINE_BUFFER_SIZE, 1 << 17);
    assert_eq!(MAX_ZOOM_LEVELS, 10);
}

#[test]
fn usage_counter_tears_down_on_last_release() {
    let mut c = UsageCounter::new();
    assert_eq!(c.count(), 0);
    assert!(c.on_init(0));
    assert!(c.on_init(0));
    assert_eq!(c.count(), 2);
    assert!(!c.on_cleanup());
    assert!(c.on_cleanup());
    assert_eq!(c.count(), 0);
}

#[test]
fn failed_init_is_not_counted() {
    let mut c = UsageCounter::new();
    assert!(!c.on_init(-1));
    assert_eq!(c.count(), 0);
    assert!(!c.on_cleanup());
    assert_eq!(c.count(), 0);
}

#[test]
fn nul_in_path_is_refused() {
    let e = BigWigWriter::new("t\0.bin", &names(&["chr1"]), &[100]).err().unwrap();
    assert_eq!(e, WriterError::NulInPath);
    assert!(e.is_contract_violation());
}

#[test]
fn nul_in_catalog_name_is_refused() {
    let e = BigWigWriter::new("t.bin", &names(&["chr1", "ch\0r2", "c\0"]), &[1, 2, 3])
        .err()
        .unwrap();
    assert_eq!(e, WriterError::NulInCatalogName { index: 1 });
    assert!(e.is_contract_violation());
}

#[test]
fn nul_in_fixed_step_name_makes_no_call() {
    let mut w = ready_writer();
    let e = w.add_interval_span_steps("chr\01", 10, 1, 1, 2).unwrap_err();
    assert_eq!(e, WriterError::NulInName);
    assert!(e.is_contract_violation());
    assert_eq!(w.current_stage(), Stage::Ready);
    assert_eq!(w.next_call(), None);
}

#[test]
fn nul_in_variable_step_name_makes_no_call() {
    let mut w = ready_writer();
    let e = w.add_interval_spans("\0", &[5, 50], 1, 2).unwrap_err();
    assert_eq!(e, WriterError::NulInName);
    assert_eq!(w.current_stage(), Stage::Ready);
    assert_eq!(w.next_call(), None);
}

#[test]
fn too_many_values_make_no_call() {
    let mut w = ready_writer();
    let n = u32::MAX as usize + 1;
    let e = w.add_interval_span_steps("chr1", 0, 1, 1, n).unwrap_err();
    assert_eq!(e, WriterError::TooManyValues { values: n });
    assert!(e.is_contract_violation());
    assert_eq!(w.next_call(), None);
    let block = w.add_interval_span_steps("chr1", 0, 1, 1, u32::MAX as usize).unwrap();
    assert_eq!(block.count, u32::MAX);
}
