use brane::docker::{
    collect_logs, container_name, container_plan, decode_b64, function_call_exec,
    function_call_payload, function_call_value, image_action, new_container_name, DockerExecutor,
    DockerSettings, ExecuteInfo, ImageAction, LogOutput, PackageInfo, PayloadError,
};
use brane::values::{SpecValue, Value};
use std::path::{Path, PathBuf};

fn exec() -> ExecuteInfo {
    ExecuteInfo::new(
        String::from("hello:1.0.0"),
        Some(PathBuf::from("/pkgs/hello/image.tar")),
        Some(vec![String::from("/data:/data")]),
        Some(vec![String::from("-d"), String::from("run")]),
    )
}

fn settings(gpus: &str, privileged: &str, volume: &str, volumes_from: &str) -> DockerSettings {
    DockerSettings::from_environment(
        None,
        Some(String::from(gpus)),
        Some(String::from(privileged)),
        Some(String::from(volume)),
        Some(String::from(volumes_from)),
    )
}

#[test]
fn execute_info_keeps_its_fields() {
    let e = exec();
    assert_eq!(e.image, "hello:1.0.0");
    assert_eq!(e.image_file.as_deref(), Some(Path::new("/pkgs/hello/image.tar")));
    assert_eq!(e.mounts, Some(vec![String::from("/data:/data")]));
    assert_eq!(e.command, Some(vec![String::from("-d"), String::from("run")]));
    let _executor = DockerExecutor::new();
}

#[test]
fn settings_default_to_host_network_and_nothing_else() {
    let s = DockerSettings::from_environment(None, None, None, None, None);
    assert_eq!(s.network, "host");
    assert_eq!(s.gpus, "");
    assert_eq!(s.privileged, "");
    assert_eq!(s.volume, "");
    assert_eq!(s.volumes_from, "");
    let s = DockerSettings::from_environment(Some(String::from("bridge")), None, None, None, None);
    assert_eq!(s.network, "bridge");
}

#[test]
fn plain_plan_uses_the_exec_mounts() {
    let plan = container_plan(String::from("abcd1234"), &settings("", "", "", ""), &exec());
    assert_eq!(plan.name, "abcd1234");
    assert_eq!(plan.image, "hello:1.0.0");
    assert_eq!(plan.cmd, Some(vec![String::from("-d"), String::from("run")]));
    assert_eq!(plan.binds, Some(vec![String::from("/data:/data")]));
    assert_eq!(plan.network_mode.as_deref(), Some("host"));
    assert_eq!(plan.privileged, Some(false));
    assert_eq!(plan.volumes_from, None);
    assert!(plan.device_requests.is_none());
}

#[test]
fn plan_with_every_setting() {
    let plan = container_plan(String::from("n"), &settings("all", "true", "brane-vol", "brane-data"), &exec());
    assert_eq!(plan.binds, Some(vec![String::from("brane-vol:/brane")]));
    assert_eq!(plan.privileged, Some(true));
    assert_eq!(plan.volumes_from, Some(vec![String::from("brane-data")]));
    let requests = plan.device_requests.unwrap();
    assert_eq!(requests.len(), 1);
    assert_eq!(requests[0].count, Some(-1));
    assert_eq!(requests[0].capabilities, Some(vec![vec![String::from("gpu")]]));
}

#[test]
fn privileged_only_for_exactly_true() {
    let plan = container_plan(String::from("n"), &settings("", "TRUE", "", ""), &exec());
    assert_eq!(plan.privileged, Some(false));
    let plan = container_plan(String::from("n"), &settings("", "yes", "", ""), &exec());
    assert_eq!(plan.privileged, Some(false));
}

#[test]
fn container_names() {
    assert_eq!(container_name("0123abcd-4567-89ef-0123-456789abcdef"), "0123abcd");
    assert_eq!(container_name("abc"), "abc");
    let name = new_container_name();
    assert_eq!(name.len(), 8);
    assert!(name.chars().all(|c| c.is_ascii_hexdigit() && !c.is_ascii_uppercase()));
    assert_ne!(new_container_name(), new_container_name());
}

#[test]
fn image_actions() {
    assert!(matches!(image_action(true, &exec()), ImageAction::UseLoaded));
    assert!(matches!(image_action(false, &exec()), ImageAction::Import(f) if f == PathBuf::from("/pkgs/hello/image.tar")));
    let pulled = ExecuteInfo::new(String::from("alpine:3"), None, None, None);
    assert!(matches!(image_action(false, &pulled), ImageAction::Pull(i) if i == "alpine:3"));
    assert!(matches!(image_action(true, &pulled), ImageAction::UseLoaded));
}

#[test]
fn logs_split_into_streams_in_order() {
    let outputs = vec![
        LogOutput::StdOut { message: b"one ".to_vec() },
        LogOutput::StdErr { message: b"warn".to_vec() },
        LogOutput::StdOut { message: b"two".to_vec() },
        LogOutput::StdErr { message: vec![0xff, b'!'] },
    ];
    let (stdout, stderr) = collect_logs(&outputs);
    assert_eq!(stdout, "one two");
    assert_eq!(stderr, "warn\u{FFFD}!");
    let (stdout, stderr) = collect_logs(&Vec::new());
    assert_eq!(stdout, "");
    assert_eq!(stderr, "");
}

fn package(kind: &str) -> PackageInfo {
    PackageInfo { name: String::from("hello"), version: String::from("1.0.0"), kind: String::from(kind) }
}

#[test]
fn code_packages_run_with_the_code_runner() {
    let exec = function_call_exec(&package("ecu"), Some(PathBuf::from("/p/image.tar")), &String::from("greet"), "{\"a\":1}");
    assert_eq!(exec.image, "hello:1.0.0");
    assert_eq!(exec.image_file.as_deref(), Some(Path::new("/p/image.tar")));
    assert_eq!(exec.mounts, None);
    let expected: Vec<String> = [
        "-d", "--application-id", "test", "--location-id", "localhost", "--job-id", "1", "code",
        "greet", "eyJhIjoxfQ==",
    ]
    .iter()
    .map(|s| s.to_string())
    .collect();
    assert_eq!(exec.command, Some(expected));
}

#[test]
fn openapi_packages_run_with_the_oas_runner() {
    let exec = function_call_exec(&package("oas"), None, &String::from("get"), "{}");
    let command = exec.command.unwrap();
    assert_eq!(command[7], "oas");
    assert_eq!(command[8], "get");
    assert_eq!(command[9], "e30=");
    assert_eq!(exec.image_file, None);
}

#[test]
fn payload_decoding() {
    assert_eq!(decode_b64("eyJhIjoxfQ==").unwrap(), "{\"a\":1}");
    assert_eq!(decode_b64("!!not base64"), Err(PayloadError::NotBase64));
    assert_eq!(decode_b64("/w=="), Err(PayloadError::NotUtf8));
    assert_eq!(decode_b64("").unwrap(), "");
}

#[test]
fn payload_is_read_from_the_last_line() {
    assert_eq!(function_call_payload("starting\nworking\neyJhIjoxfQ==\n").unwrap(), "{\"a\":1}");
    assert_eq!(function_call_payload("eyJhIjoxfQ==").unwrap(), "{\"a\":1}");
    assert_eq!(function_call_payload("eyJhIjoxfQ==\nplain text"), Err(PayloadError::NotBase64));
    assert_eq!(function_call_payload("").unwrap(), "");
}

#[test]
fn what_is_written_is_read_back() {
    // The argument encoding of a call, written as the last line of output, reads back.
    let json = "{\"name\":\"Ünïcode\",\"n\":[1,2,3]}";
    let exec = function_call_exec(&package("ecu"), None, &String::from("f"), json);
    let encoded = exec.command.unwrap()[9].clone();
    let stdout = format!("log line\n{}\n", encoded);
    assert_eq!(function_call_payload(&stdout).unwrap(), json);
}

#[test]
fn call_values() {
    assert!(matches!(function_call_value(Some(SpecValue::Integer(3))), Value::Integer(3)));
    assert!(matches!(function_call_value(Some(SpecValue::Unicode(String::from("x")))), Value::String(s) if s == "x"));
    assert!(matches!(function_call_value(None), Value::Unit));
}
