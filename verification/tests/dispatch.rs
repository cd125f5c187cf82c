use pic2pic_bridge::bridge::dispatch;
use pic2pic_bridge::bridge::CommandId;
use pic2pic_bridge::bridge::DispatchStep;
use pic2pic_bridge::bridge::DispatchTable;
use pic2pic_bridge::bridge::NativeAction;
use pic2pic_bridge::invocation::ArgValue;
use pic2pic_bridge::invocation::Invocation;
use pic2pic_bridge::invocation::InvocationResult;

fn inv(command: &str, args: Vec<ArgValue>) -> Invocation {
    Invocation {
        command: command.to_string(),
        args,
    }
}

#[test]
fn standard_table_knows_all_four_commands() {
    let table = DispatchTable::standard();
    assert_eq!(
        table.lookup(&"get_system_info".to_string()),
        Some(CommandId::GetSystemInfo)
    );
    assert_eq!(
        table.lookup(&"read_local_file".to_string()),
        Some(CommandId::ReadLocalFile)
    );
    assert_eq!(
        table.lookup(&"write_local_file".to_string()),
        Some(CommandId::WriteLocalFile)
    );
    assert_eq!(
        table.lookup(&"list_directory".to_string()),
        Some(CommandId::ListDirectory)
    );
}

#[test]
fn unregistered_name_fails_deterministically() {
    let table = DispatchTable::standard();
    assert_eq!(table.lookup(&"delete_local_file".to_string()), None);
    let step = dispatch(&table, &inv("delete_local_file", vec![]));
    assert_eq!(
        step,
        DispatchStep::Reply(InvocationResult::Failure("unknown command".to_string()))
    );
    let again = dispatch(&table, &inv("delete_local_file", vec![]));
    assert_eq!(
        again,
        DispatchStep::Reply(InvocationResult::Failure("unknown command".to_string()))
    );
}

#[test]
fn get_system_info_dispatches_to_system_query() {
    let table = DispatchTable::standard();
    let step = dispatch(&table, &inv("get_system_info", vec![]));
    assert_eq!(step, DispatchStep::Perform(NativeAction::QuerySystem));
}

#[test]
fn get_system_info_rejects_stray_arguments() {
    let table = DispatchTable::standard();
    let step = dispatch(
        &table,
        &inv("get_system_info", vec![ArgValue::Text("x".to_string())]),
    );
    assert_eq!(
        step,
        DispatchStep::Reply(InvocationResult::Failure("invalid arguments".to_string()))
    );
}

#[test]
fn read_dispatches_to_file_read() {
    let table = DispatchTable::standard();
    let step = dispatch(
        &table,
        &inv(
            "read_local_file",
            vec![ArgValue::Text("/tmp/a.bin".to_string())],
        ),
    );
    assert_eq!(
        step,
        DispatchStep::Perform(NativeAction::ReadBytes {
            path: "/tmp/a.bin".to_string()
        })
    );
}

#[test]
fn write_dispatches_with_path_and_contents() {
    let table = DispatchTable::standard();
    let step = dispatch(
        &table,
        &inv(
            "write_local_file",
            vec![
                ArgValue::Text("/tmp/a.bin".to_string()),
                ArgValue::Blob(vec![0x01, 0x02, 0x03]),
            ],
        ),
    );
    assert_eq!(
        step,
        DispatchStep::Perform(NativeAction::WriteBytes {
            path: "/tmp/a.bin".to_string(),
            contents: vec![0x01, 0x02, 0x03],
        })
    );
}

#[test]
fn list_dispatches_to_directory_read() {
    let table = DispatchTable::standard();
    let step = dispatch(
        &table,
        &inv("list_directory", vec![ArgValue::Text("/tmp".to_string())]),
    );
    assert_eq!(
        step,
        DispatchStep::Perform(NativeAction::ReadEntries {
            path: "/tmp".to_string()
        })
    );
}

#[test]
fn empty_path_is_rejected() {
    let table = DispatchTable::standard();
    for command in ["read_local_file", "list_directory"] {
        let step = dispatch(&table, &inv(command, vec![ArgValue::Text(String::new())]));
        assert_eq!(
            step,
            DispatchStep::Reply(InvocationResult::Failure(
                "path must be a non-empty string".to_string()
            ))
        );
    }
    let step = dispatch(
        &table,
        &inv(
            "write_local_file",
            vec![ArgValue::Text(String::new()), ArgValue::Blob(vec![1])],
        ),
    );
    assert_eq!(
        step,
        DispatchStep::Reply(InvocationResult::Failure(
            "path must be a non-empty string".to_string()
        ))
    );
}

#[test]
fn wrong_argument_shape_is_rejected() {
    let table = DispatchTable::standard();
    let blob_for_path = dispatch(
        &table,
        &inv("read_local_file", vec![ArgValue::Blob(vec![1, 2])]),
    );
    assert_eq!(
        blob_for_path,
        DispatchStep::Reply(InvocationResult::Failure("invalid arguments".to_string()))
    );
    let missing_contents = dispatch(
        &table,
        &inv(
            "write_local_file",
            vec![ArgValue::Text("/tmp/a.bin".to_string())],
        ),
    );
    assert_eq!(
        missing_contents,
        DispatchStep::Reply(InvocationResult::Failure("invalid arguments".to_string()))
    );
    let too_many = dispatch(
        &table,
        &inv(
            "list_directory",
            vec![
                ArgValue::Text("/tmp".to_string()),
                ArgValue::Text("/etc".to_string()),
            ],
        ),
    );
    assert_eq!(
        too_many,
        DispatchStep::Reply(InvocationResult::Failure("invalid arguments".to_string()))
    );
}

#[test]
fn registration_keeps_order_and_rejects_nothing_registered() {
    let mut table = DispatchTable::empty();
    assert_eq!(table.lookup(&"read_local_file".to_string()), None);
    table.register("read_local_file".to_string(), CommandId::ReadLocalFile);
    assert_eq!(
        table.lookup(&"read_local_file".to_string()),
        Some(CommandId::ReadLocalFile)
    );
    assert_eq!(table.lookup(&"write_local_file".to_string()), None);
}
