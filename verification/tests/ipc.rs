use maboroshi::ipc::{
    effective_socket_path, encode_command, observe_commands, pause_command, pid_socket_path,
    quit_command, seek_command, volume_command, CommandArg,
};

#[test]
fn observe_lines_subscribe_to_the_three_properties() {
    let lines = observe_commands();
    assert_eq!(lines.len(), 3);
    assert_eq!(lines[0], "{\"command\":[\"observe_property\",1,\"percent-pos\"]}\n");
    assert_eq!(lines[1], "{\"command\":[\"observe_property\",2,\"pause\"]}\n");
    assert_eq!(lines[2], "{\"command\":[\"observe_property\",3,\"volume\"]}\n");
}

#[test]
fn pause_line_carries_the_flag() {
    assert_eq!(pause_command(true), "{\"command\":[\"set_property\",\"pause\",\"yes\"]}\n");
    assert_eq!(pause_command(false), "{\"command\":[\"set_property\",\"pause\",\"no\"]}\n");
}

#[test]
fn volume_and_seek_lines_carry_signed_amounts() {
    assert_eq!(volume_command(5), "{\"command\":[\"add\",\"volume\",\"5\"]}\n");
    assert_eq!(volume_command(-5), "{\"command\":[\"add\",\"volume\",\"-5\"]}\n");
    assert_eq!(seek_command(30), "{\"command\":[\"seek\",\"30\",\"relative\"]}\n");
    assert_eq!(seek_command(-30), "{\"command\":[\"seek\",\"-30\",\"relative\"]}\n");
}

#[test]
fn quit_line_is_bare() {
    assert_eq!(quit_command(), "{\"command\":[\"quit\"]}\n");
}

#[test]
fn framing_joins_elements_with_commas() {
    let args = vec![CommandArg::Text("a".to_string()), CommandArg::Number(0), CommandArg::Text(
        "b".to_string(),
    )];
    assert_eq!(encode_command(&args), "{\"command\":[\"a\",0,\"b\"]}\n");
    let empty: Vec<CommandArg> = vec![];
    assert_eq!(encode_command(&empty), "{\"command\":[]}\n");
}

#[test]
fn command_lines_parse_back_as_json() {
    let line = pause_command(true);
    let v: serde_json::Value = serde_json::from_str(line.trim_end()).unwrap();
    assert_eq!(v["command"][0], "set_property");
    let line = observe_commands().remove(0);
    let v: serde_json::Value = serde_json::from_str(line.trim_end()).unwrap();
    assert_eq!(v["command"][1], 1);
}

#[test]
fn socket_path_is_per_process() {
    assert_eq!(pid_socket_path(42), "/tmp/maboroshi-42.sock");
    assert_eq!(effective_socket_path("/tmp/maboroshi.sock".to_string(), 7), "/tmp/maboroshi-7.sock");
    assert_eq!(effective_socket_path("/run/custom.sock".to_string(), 7), "/run/custom.sock");
}
