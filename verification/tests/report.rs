use henflow::http_structs::{
    HicDexAggregate, HicDexAggregateData, HicDexAggregateDataAggregate,
    HicDexAggregateDataAggregateCount, HicDexResponse, HicDexResponseData,
    HicDexResponseDataTokens, HicDexResponsePk, HicDexResponsePkData, HicDexResponsePkDataTokens,
    TokenKeys,
};
use henflow::options::{Opt, OptCmd, OptCmdSize, OptIndexer, RunPlan, DEFAULT_NUM_TASKS, TZKT_CHUNCKS};
use henflow::pipeline::{ItemPipeline, Settings};
use henflow::report::{failure_line, pipeline_line, progress_message, status_line};
use henflow::service::{Action, ServiceReply};

#[test]
fn the_running_total_is_shown_in_binary_units() {
    assert_eq!(progress_message(0), "[0B]");
    assert_eq!(progress_message(350), "[350B]");
    assert_eq!(progress_message(1023), "[1023B]");
    assert_eq!(progress_message(1024), "[1.00KiB]");
    assert_eq!(progress_message(1536), "[1.50KiB]");
    assert_eq!(progress_message(1_048_576), "[1.00MiB]");
    assert_eq!(progress_message(3 * 1_073_741_824), "[3.00GiB]");
}

#[test]
fn a_failure_is_reported_with_the_id_and_the_reason() {
    assert_eq!(failure_line(2, "boom"), "Token n.2: boom");
    assert_eq!(failure_line(0, ""), "Token n.0: ");
    assert_eq!(
        failure_line(u64::MAX, "error sending request"),
        "Token n.18446744073709551615: error sending request"
    );
}

#[test]
fn only_a_failed_pipeline_adds_a_line() {
    let record = HicDexResponseDataTokens { artifact_uri: "ipfs://abc".to_string(), id: 31 };
    let settings = Settings::new(OptIndexer::HicDex, Action::MeasureSourceSize);
    let mut pipeline = ItemPipeline::new(&record);
    assert_eq!(pipeline_line(&pipeline), None);
    assert!(pipeline.start(&settings).is_some());
    assert_eq!(pipeline_line(&pipeline), None);
    let mut done = ItemPipeline::new(&record);
    assert!(done.start(&settings).is_some());
    assert!(done.on_reply(ServiceReply::Measured(1), &settings).is_none());
    assert_eq!(pipeline_line(&done), None);
    assert!(pipeline.on_reply(ServiceReply::Failed("no route".to_string()), &settings).is_none());
    assert_eq!(pipeline_line(&pipeline), Some("Token n.31: no route".to_string()));
}

#[test]
fn a_status_is_one_of_two_lines() {
    assert_eq!(status_line(Some(4096)), "Pinned.");
    assert_eq!(status_line(Some(0)), "Pinned.");
    assert_eq!(status_line(None), "Not pinned.");
}

#[test]
fn a_backup_of_one_token_is_a_single_run() {
    assert_eq!(
        OptCmd::Backup { all: false, token_id: Some(152) }.plan(),
        RunPlan::BackupOne { token_id: 152 }
    );
}

#[test]
fn every_other_backup_is_a_batch_of_archives() {
    let batch = RunPlan::Batch { action: Action::Archive };
    assert_eq!(OptCmd::Backup { all: true, token_id: None }.plan(), batch);
    assert_eq!(OptCmd::Backup { all: true, token_id: Some(152) }.plan(), batch);
    assert_eq!(OptCmd::Backup { all: false, token_id: None }.plan(), batch);
}

#[test]
fn a_status_is_a_single_run() {
    assert_eq!(OptCmd::Status { token_id: 9 }.plan(), RunPlan::StatusOne { token_id: 9 });
}

#[test]
fn sizes_are_batches_of_measurements() {
    assert_eq!(
        OptCmd::Size { cmd: OptCmdSize::Pins }.plan(),
        RunPlan::Batch { action: Action::MeasureStoredSize }
    );
    assert_eq!(
        OptCmd::Size { cmd: OptCmdSize::Artefacts }.plan(),
        RunPlan::Batch { action: Action::MeasureSourceSize }
    );
}

fn options(cmd: OptCmd) -> Opt {
    Opt {
        indexer: OptIndexer::TzKT,
        num_tasks: 8,
        estuary_token: "key".to_string(),
        http_timeout: Some(30),
        cmd,
    }
}

#[test]
fn options_for_a_batch_make_a_batch() {
    assert_eq!(DEFAULT_NUM_TASKS, 1000);
    assert_eq!(TZKT_CHUNCKS, 10000);
    let mut batch = options(OptCmd::Size { cmd: OptCmdSize::Artefacts }).batch().expect("a batch");
    assert_eq!(batch.capacity(), 8);
    let request = batch.next_page_request().expect("a first page");
    assert_eq!((request.offset, request.limit), (0, 10000));
    let page = vec![HicDexResponseDataTokens { artifact_uri: "697066733a2f2f516d".to_string(), id: 1 }];
    let calls = batch.on_page(&page);
    assert_eq!(calls.len(), 1);
    assert_eq!(calls[0].call.subject, "Qm");
    assert!(batch.next_page_request().is_none());
}

#[test]
fn three_records_through_a_batch_made_from_options() {
    let opt = Opt {
        indexer: OptIndexer::HicDex,
        num_tasks: DEFAULT_NUM_TASKS,
        estuary_token: "key".to_string(),
        http_timeout: None,
        cmd: OptCmd::Size { cmd: OptCmdSize::Artefacts },
    };
    let mut batch = opt.batch().expect("a batch");
    let record = |id: u64, reference: &str| HicDexResponseDataTokens {
        artifact_uri: reference.to_string(),
        id,
    };
    let page = vec![record(1, "ipfs://abc"), record(2, "ipfs://"), record(3, "ipfs://def")];
    let calls = batch.on_page(&page);
    let asked: Vec<(usize, &str)> =
        calls.iter().map(|made| (made.item, made.call.subject.as_str())).collect();
    assert_eq!(asked, vec![(0, "abc"), (2, "def")]);
    assert!(batch.on_reply(2, ServiceReply::Measured(250)).is_empty());
    assert!(batch.on_reply(0, ServiceReply::Measured(100)).is_empty());
    assert_eq!((batch.total(), batch.progress(), batch.in_flight()), (350, 3, 0));
    assert!(batch.is_complete());
    assert!(batch.has_succeeded());
}

#[test]
fn options_for_a_single_token_make_no_batch() {
    assert!(options(OptCmd::Status { token_id: 1 }).batch().is_none());
    assert!(options(OptCmd::Backup { all: false, token_id: Some(1) }).batch().is_none());
    assert!(options(OptCmd::Backup { all: false, token_id: None }).batch().is_some());
}

#[test]
fn documents_give_what_they_hold() {
    assert_eq!(TokenKeys { active_keys: 610000 }.count(), 610000);
    let aggregate = HicDexAggregate {
        data: HicDexAggregateData {
            hic_et_nunc_token_aggregate: HicDexAggregateDataAggregate {
                aggregate: HicDexAggregateDataAggregateCount { count: 42 },
            },
        },
    };
    assert_eq!(aggregate.count(), 42);
    let page = HicDexResponse {
        data: HicDexResponseData {
            hic_et_nunc_token: vec![
                HicDexResponseDataTokens { artifact_uri: "ipfs://a".to_string(), id: 1 },
                HicDexResponseDataTokens { artifact_uri: "ipfs://b".to_string(), id: 2 },
            ],
        },
    };
    let records = page.into_records();
    assert_eq!(records.len(), 2);
    assert_eq!((records[1].id, records[1].artifact_uri.as_str()), (2, "ipfs://b"));
    let one = HicDexResponsePk {
        data: HicDexResponsePkData {
            hic_et_nunc_token_by_pk: HicDexResponsePkDataTokens { artifact_uri: "ipfs://c".to_string() },
        },
    };
    let record = one.into_record(5);
    assert_eq!((record.id, record.artifact_uri.as_str()), (5, "ipfs://c"));
}
