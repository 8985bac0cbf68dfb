use mss_tui::command::Invocation;
use mss_tui::inference::{inference_command, InferenceManager};
use mss_tui::job::{JobAction, JobError, JobOutcome, JobSignal, JobState, StreamKind};
use mss_tui::model::{InferenceConfig, InferenceResult, ModelType, TrainingConfig, TrainingResult};
use mss_tui::result::{error_message, succeeded, JobNotice};
use mss_tui::training::{training_command, TrainingManager};

fn training_config() -> TrainingConfig {
    TrainingConfig {
        model_type: ModelType::HtDemucs,
        config_path: "configs/demucs.yaml".to_string(),
        start_checkpoint: None,
        results_path: "results/".to_string(),
        data_paths: vec!["/a".to_string(), "/b".to_string()],
        valid_path: None,
        num_workers: Some(4),
        device_ids: None,
    }
}

fn inference_config() -> InferenceConfig {
    InferenceConfig {
        model_type: ModelType::BsRoformer,
        config_path: "configs/roformer.yaml".to_string(),
        start_checkpoint: "ckpt/best.ckpt".to_string(),
        input_folder: "songs/".to_string(),
        store_dir: "stems/".to_string(),
    }
}

fn spawned() -> JobSignal {
    JobSignal::Spawned { stdout_captured: true, stderr_captured: true }
}

fn strings(args: &[&str]) -> Vec<String> {
    args.iter().map(|arg| arg.to_string()).collect()
}

#[test]
fn training_arguments_for_two_data_paths_and_four_workers() {
    let command = training_command(&training_config());
    assert_eq!(command.program, "python");
    assert_eq!(
        command.args,
        strings(&[
            "train.py",
            "--model_type",
            "htdemucs",
            "--config_path",
            "configs/demucs.yaml",
            "--results_path",
            "results/",
            "--data_path",
            "/a",
            "--data_path",
            "/b",
            "--num_workers",
            "4",
        ])
    );
    let joined = command.args.join(" ");
    assert!(joined.contains("--data_path /a --data_path /b --num_workers 4"));
    assert!(!command.args.iter().any(|arg| arg == "--device_ids"));
}

#[test]
fn training_arguments_with_every_field_set() {
    let config = TrainingConfig {
        model_type: ModelType::MelBandRoformer,
        config_path: "c.yaml".to_string(),
        start_checkpoint: Some("last.ckpt".to_string()),
        results_path: "out".to_string(),
        data_paths: vec!["d1".to_string()],
        valid_path: Some("valid".to_string()),
        num_workers: Some(0),
        device_ids: Some(vec![0, 1, 12]),
    };
    assert_eq!(
        training_command(&config).args,
        strings(&[
            "train.py",
            "--model_type",
            "mel_band_roformer",
            "--config_path",
            "c.yaml",
            "--results_path",
            "out",
            "--start_check_point",
            "last.ckpt",
            "--data_path",
            "d1",
            "--valid_path",
            "valid",
            "--num_workers",
            "0",
            "--device_ids",
            "0,1,12",
        ])
    );
}

#[test]
fn training_arguments_with_nothing_optional() {
    let config = TrainingConfig {
        model_type: ModelType::MDX23C,
        config_path: "".to_string(),
        start_checkpoint: None,
        results_path: "r".to_string(),
        data_paths: vec![],
        valid_path: None,
        num_workers: None,
        device_ids: None,
    };
    assert_eq!(
        training_command(&config).args,
        strings(&["train.py", "--model_type", "mdx23c", "--config_path", "", "--results_path", "r"])
    );
}

#[test]
fn device_list_of_one_and_of_none() {
    let mut config = training_config();
    config.num_workers = Some(usize::MAX);
    config.device_ids = Some(vec![3]);
    let args = training_command(&config).args;
    assert_eq!(args[args.len() - 4..], strings(&[
        "--num_workers",
        &usize::MAX.to_string(),
        "--device_ids",
        "3",
    ])[..]);
    config.device_ids = Some(vec![]);
    let args = training_command(&config).args;
    assert_eq!(args[args.len() - 2..], strings(&["--device_ids", ""])[..]);
}

#[test]
fn inference_arguments_name_every_field() {
    let command = inference_command(&inference_config());
    assert_eq!(
        command,
        Invocation {
            program: "python".to_string(),
            args: strings(&[
                "inference.py",
                "--model_type",
                "bs_roformer",
                "--config_path",
                "configs/roformer.yaml",
                "--start_check_point",
                "ckpt/best.ckpt",
                "--input_folder",
                "songs/",
                "--store_dir",
                "stems/",
            ]),
        }
    );
}

#[test]
fn second_start_is_refused_and_the_first_job_goes_on() {
    let mut manager = TrainingManager::new();
    assert!(!manager.is_running());
    let first = manager.start_training(&training_config());
    assert_eq!(first, Ok(training_command(&training_config())));
    assert!(manager.is_running());
    assert_eq!(manager.state(), JobState::Spawning);
    let mut other = training_config();
    other.results_path = "elsewhere".to_string();
    assert_eq!(manager.start_training(&other), Err(JobError::AlreadyRunning));
    assert!(manager.is_running());
    assert_eq!(manager.state(), JobState::Spawning);
    assert_eq!(manager.notify(spawned()), JobNotice::Nothing);
    assert_eq!(manager.start_training(&other), Err(JobError::AlreadyRunning));
    assert_eq!(manager.state(), JobState::Running);
    manager.notify(JobSignal::StdoutClosed);
    manager.notify(JobSignal::StderrClosed);
    match manager.notify(JobSignal::Exited { code: Some(0) }) {
        JobNotice::Finished(result) => assert_eq!(result.results_path, "results/"),
        other => panic!("no result: {:?}", other),
    }
}

#[test]
fn second_inference_is_refused_while_the_first_runs() {
    let mut manager = InferenceManager::new();
    assert!(manager.run_inference(&inference_config()).is_ok());
    assert_eq!(manager.run_inference(&inference_config()), Err(JobError::AlreadyRunning));
    assert!(manager.is_running());
}

#[test]
fn stop_on_an_idle_manager_does_nothing() {
    let mut training = TrainingManager::new();
    assert!(!training.is_running());
    assert_eq!(training.stop_training(), JobAction::Nothing);
    assert!(!training.is_running());
    assert_eq!(training.state(), JobState::Idle);
    assert!(training.start_training(&training_config()).is_ok());

    let mut inference = InferenceManager::new();
    assert!(!inference.is_running());
    assert_eq!(inference.stop_inference(), JobAction::Nothing);
    assert!(!inference.is_running());
    assert_eq!(inference.state(), JobState::Idle);
}

#[test]
fn exit_code_one_yields_a_failed_result_with_the_code() {
    let mut manager = InferenceManager::new();
    manager.run_inference(&inference_config()).unwrap();
    manager.notify(spawned());
    assert_eq!(manager.notify(JobSignal::Exited { code: Some(1) }), JobNotice::Nothing);
    assert_eq!(manager.notify(JobSignal::StdoutClosed), JobNotice::Nothing);
    let notice = manager.notify(JobSignal::StderrClosed);
    assert_eq!(
        notice,
        JobNotice::Finished(InferenceResult {
            input_file: "songs/".to_string(),
            output_dir: "stems/".to_string(),
            duration: None,
            success: false,
            error_message: Some("Process exited with code: 1".to_string()),
        })
    );
    match notice {
        JobNotice::Finished(result) => {
            assert!(!result.success);
            assert!(result.error_message.unwrap().contains("1"));
        }
        _ => unreachable!(),
    }
    assert!(!manager.is_running());
    assert_eq!(manager.state(), JobState::Failed);
}

#[test]
fn exit_code_zero_yields_a_successful_result() {
    let mut manager = InferenceManager::new();
    manager.run_inference(&inference_config()).unwrap();
    manager.notify(spawned());
    manager.notify(JobSignal::StdoutClosed);
    manager.notify(JobSignal::StderrClosed);
    assert_eq!(
        manager.notify(JobSignal::Exited { code: Some(0) }),
        JobNotice::Finished(InferenceResult {
            input_file: "songs/".to_string(),
            output_dir: "stems/".to_string(),
            duration: None,
            success: true,
            error_message: None,
        })
    );
    assert_eq!(manager.state(), JobState::Succeeded);
}

#[test]
fn training_result_carries_the_paths_of_its_configuration() {
    let mut manager = TrainingManager::new();
    manager.start_training(&training_config()).unwrap();
    manager.notify(spawned());
    manager.notify(JobSignal::StderrClosed);
    manager.notify(JobSignal::Exited { code: Some(2) });
    assert_eq!(
        manager.notify(JobSignal::StdoutClosed),
        JobNotice::Finished(TrainingResult {
            data_paths: vec!["/a".to_string(), "/b".to_string()],
            results_path: "results/".to_string(),
            duration: None,
            success: false,
            error_message: Some("Process exited with code: 2".to_string()),
        })
    );
}

#[test]
fn missing_exit_code_is_reported_as_minus_one() {
    let mut manager = TrainingManager::new();
    manager.start_training(&training_config()).unwrap();
    manager.notify(spawned());
    manager.notify(JobSignal::StdoutClosed);
    manager.notify(JobSignal::StderrClosed);
    match manager.notify(JobSignal::Exited { code: None }) {
        JobNotice::Finished(result) => {
            assert!(!result.success);
            assert_eq!(result.error_message, Some("Process exited with code: -1".to_string()));
        }
        other => panic!("no result: {:?}", other),
    }
}

#[test]
fn stopped_job_yields_one_result_without_a_message() {
    let mut manager = TrainingManager::new();
    manager.start_training(&training_config()).unwrap();
    manager.notify(spawned());
    assert_eq!(manager.stop_training(), JobAction::Kill);
    assert_eq!(manager.stop_training(), JobAction::Nothing);
    assert!(manager.is_running());
    assert_eq!(manager.notify(JobSignal::StdoutClosed), JobNotice::Nothing);
    assert_eq!(manager.notify(JobSignal::StderrClosed), JobNotice::Nothing);
    match manager.notify(JobSignal::Exited { code: None }) {
        JobNotice::Finished(result) => {
            assert!(!result.success);
            assert_eq!(result.error_message, None);
        }
        other => panic!("no result: {:?}", other),
    }
    assert_eq!(manager.state(), JobState::Killed);
    assert!(!manager.is_running());
    assert_eq!(manager.notify(JobSignal::Exited { code: Some(0) }), JobNotice::Nothing);
    assert_eq!(manager.stop_training(), JobAction::Nothing);
}

#[test]
fn spawn_and_capture_errors_go_to_the_caller() {
    let mut manager = TrainingManager::new();
    manager.start_training(&training_config()).unwrap();
    assert_eq!(
        manager.notify(JobSignal::SpawnFailed),
        JobNotice::Rejected(JobError::SpawnFailed)
    );
    assert!(!manager.is_running());
    assert_eq!(manager.state(), JobState::Failed);

    let mut manager = InferenceManager::new();
    manager.run_inference(&inference_config()).unwrap();
    assert_eq!(
        manager.notify(JobSignal::Spawned { stdout_captured: true, stderr_captured: false }),
        JobNotice::Rejected(JobError::CaptureFailed(StreamKind::Stderr))
    );
    assert!(!manager.is_running());
    assert!(manager.run_inference(&inference_config()).is_ok());
}

#[test]
fn manager_takes_a_new_job_after_the_last_is_over() {
    let mut manager = InferenceManager::new();
    manager.run_inference(&inference_config()).unwrap();
    manager.notify(spawned());
    manager.notify(JobSignal::StdoutClosed);
    manager.notify(JobSignal::StderrClosed);
    manager.notify(JobSignal::Exited { code: Some(0) });
    let mut next = inference_config();
    next.input_folder = "more/".to_string();
    next.store_dir = "out2/".to_string();
    assert_eq!(manager.run_inference(&next), Ok(inference_command(&next)));
    manager.notify(spawned());
    manager.notify(JobSignal::StdoutClosed);
    manager.notify(JobSignal::StderrClosed);
    match manager.notify(JobSignal::Exited { code: Some(0) }) {
        JobNotice::Finished(result) => {
            assert_eq!(result.input_file, "more/");
            assert_eq!(result.output_dir, "out2/");
        }
        other => panic!("no result: {:?}", other),
    }
}

#[test]
fn message_is_built_from_the_exit_code() {
    assert_eq!(error_message(JobOutcome::Succeeded), None);
    assert_eq!(error_message(JobOutcome::Killed), None);
    assert_eq!(
        error_message(JobOutcome::Failed { code: 137 }),
        Some("Process exited with code: 137".to_string())
    );
    assert_eq!(
        error_message(JobOutcome::Failed { code: i32::MIN }),
        Some("Process exited with code: -2147483648".to_string())
    );
    assert_eq!(
        error_message(JobOutcome::Failed { code: i32::MAX }),
        Some("Process exited with code: 2147483647".to_string())
    );
    assert!(succeeded(JobOutcome::Succeeded));
    assert!(!succeeded(JobOutcome::Killed));
    assert!(!succeeded(JobOutcome::Failed { code: 0 }));
}
