use wgpu_native::error::{
    classify_failure, format_error, handle_error, handle_error_fatal, map_error_filter, CauseKind,
    Error, ErrorAction, ErrorFilter, ErrorLine, ErrorSinkRaw,
};
use wgpu_native::native;

fn validation(description: &str) -> Error {
    Error::Validation { source: String::from("inner"), description: String::from(description) }
}

fn out_of_memory() -> Error {
    Error::OutOfMemory { source: String::from("oom") }
}

#[test]
fn error_messages_and_types() {
    let lost = Error::DeviceLost { source: String::from("gone") };
    assert_eq!(lost.message(), "Device lost");
    assert_eq!(lost.error_type(), native::WGPUErrorType_DeviceLost);
    assert_eq!(lost.source(), "gone");
    assert_eq!(out_of_memory().message(), "Out of Memory");
    assert_eq!(out_of_memory().error_type(), native::WGPUErrorType_OutOfMemory);
    let v = validation("bad binding");
    assert_eq!(v.message(), "bad binding");
    assert_eq!(v.error_type(), native::WGPUErrorType_Validation);
    assert_eq!(v.source(), "inner");
}

#[test]
fn an_error_without_a_scope_is_uncaptured() {
    let mut sink = ErrorSinkRaw::new();
    match sink.handle_error(validation("no scope")) {
        ErrorAction::Uncaptured { error_type, message } => {
            assert_eq!(error_type, native::WGPUErrorType_Validation);
            assert_eq!(message, "no scope");
        }
        other => panic!("unexpected action {:?}", other),
    }
    assert!(sink.scopes().is_empty());
}

#[test]
fn a_lost_device_goes_to_the_lost_handler() {
    let mut sink = ErrorSinkRaw::new();
    sink.push_error_scope(ErrorFilter::Validation);
    match sink.handle_error(Error::DeviceLost { source: String::new() }) {
        ErrorAction::DeviceLost { reason, message } => {
            assert_eq!(reason, native::WGPUDeviceLostReason_Destroyed);
            assert_eq!(message, "Device lost");
        }
        other => panic!("unexpected action {:?}", other),
    }
    assert!(sink.scopes()[0].error.is_none());
}

#[test]
fn the_innermost_matching_scope_keeps_the_first_error() {
    let mut sink = ErrorSinkRaw::new();
    sink.push_error_scope(ErrorFilter::Validation);
    sink.push_error_scope(ErrorFilter::OutOfMemory);
    sink.push_error_scope(ErrorFilter::Validation);
    assert!(matches!(sink.handle_error(validation("first")), ErrorAction::Captured));
    assert!(matches!(sink.handle_error(validation("second")), ErrorAction::Captured));
    assert!(matches!(sink.handle_error(out_of_memory()), ErrorAction::Captured));

    let innermost = sink.pop_error_scope();
    assert_eq!(innermost.error_type, native::WGPUErrorType_Validation);
    assert_eq!(innermost.message, "first");
    let middle = sink.pop_error_scope();
    assert_eq!(middle.error_type, native::WGPUErrorType_OutOfMemory);
    assert_eq!(middle.message, "Out of Memory");
    let outer = sink.pop_error_scope();
    assert_eq!(outer.error_type, native::WGPUErrorType_NoError);
    assert_eq!(outer.message, "");
    assert!(sink.scopes().is_empty());
}

#[test]
fn an_error_of_another_kind_passes_the_scopes() {
    let mut sink = ErrorSinkRaw::new();
    sink.push_error_scope(ErrorFilter::OutOfMemory);
    match sink.handle_error(validation("passes")) {
        ErrorAction::Uncaptured { error_type, .. } => assert_eq!(error_type, native::WGPUErrorType_Validation),
        other => panic!("unexpected action {:?}", other),
    }
    let report = sink.pop_error_scope();
    assert_eq!(report.error_type, native::WGPUErrorType_NoError);
}

#[test]
fn pushing_then_popping_leaves_the_stack_as_it_was() {
    let mut sink = ErrorSinkRaw::new();
    sink.push_error_scope(ErrorFilter::Validation);
    sink.handle_error(validation("kept"));
    sink.push_error_scope(ErrorFilter::OutOfMemory);
    let report = sink.pop_error_scope();
    assert_eq!(report.error_type, native::WGPUErrorType_NoError);
    assert_eq!(sink.scopes().len(), 1);
    assert_eq!(sink.scopes()[0].filter, ErrorFilter::Validation);
    assert_eq!(sink.scopes()[0].error.as_ref().unwrap().message(), "kept");
}

#[test]
fn error_filters_convert() {
    assert_eq!(map_error_filter(native::WGPUErrorFilter_Validation), Ok(ErrorFilter::Validation));
    assert_eq!(map_error_filter(native::WGPUErrorFilter_OutOfMemory), Ok(ErrorFilter::OutOfMemory));
    assert_eq!(map_error_filter(7), Err(7));
}

#[test]
fn the_first_lost_device_or_lack_of_memory_decides_the_kind() {
    assert_eq!(classify_failure(&vec![]), CauseKind::Other);
    assert_eq!(classify_failure(&vec![CauseKind::Other, CauseKind::Other]), CauseKind::Other);
    assert_eq!(
        classify_failure(&vec![CauseKind::Other, CauseKind::OutOfMemory, CauseKind::DeviceLost]),
        CauseKind::OutOfMemory,
    );
    assert_eq!(classify_failure(&vec![CauseKind::DeviceLost, CauseKind::OutOfMemory]), CauseKind::DeviceLost);
}

#[test]
fn a_failure_is_described_line_by_line() {
    let lines = vec![
        ErrorLine { depth: 1, text: String::from("In a call") },
        ErrorLine { depth: 2, text: String::from("the cause") },
    ];
    assert_eq!(
        format_error(&lines),
        "Validation Error\n\nCaused by:\n  In a call\n    the cause\n",
    );
    assert_eq!(format_error(&vec![]), "Validation Error\n\nCaused by:\n");
}

#[test]
fn a_fatal_failure_names_its_operation() {
    let lines = vec![ErrorLine { depth: 1, text: String::from("broken") }];
    assert_eq!(
        handle_error_fatal(&lines, "wgpuQueueSubmit"),
        "Error in wgpuQueueSubmit: Validation Error\n\nCaused by:\n  broken\n",
    );
}

#[test]
fn a_failure_becomes_the_error_its_causes_name() {
    let lines = vec![ErrorLine { depth: 1, text: String::from("why") }];

    let mut sink = ErrorSinkRaw::new();
    sink.push_error_scope(ErrorFilter::Validation);
    let action = handle_error(&mut sink, &vec![CauseKind::Other], String::from("src"), &lines);
    assert!(matches!(action, ErrorAction::Captured));
    let report = sink.pop_error_scope();
    assert_eq!(report.error_type, native::WGPUErrorType_Validation);
    assert_eq!(report.message, "Validation Error\n\nCaused by:\n  why\n");

    let mut sink = ErrorSinkRaw::new();
    match handle_error(&mut sink, &vec![CauseKind::Other, CauseKind::OutOfMemory], String::from("src"), &lines) {
        ErrorAction::Uncaptured { error_type, message } => {
            assert_eq!(error_type, native::WGPUErrorType_OutOfMemory);
            assert_eq!(message, "Out of Memory");
        }
        other => panic!("unexpected action {:?}", other),
    }

    let mut sink = ErrorSinkRaw::new();
    match handle_error(&mut sink, &vec![CauseKind::DeviceLost], String::from("src"), &lines) {
        ErrorAction::DeviceLost { reason, .. } => assert_eq!(reason, native::WGPUDeviceLostReason_Destroyed),
        other => panic!("unexpected action {:?}", other),
    }
}

#[test]
fn error_scopes_are_pushed_by_their_c_numbers() {
    let mut sink = ErrorSinkRaw::new();
    sink.push_native_error_scope(native::WGPUErrorFilter_OutOfMemory);
    sink.push_native_error_scope(native::WGPUErrorFilter_Validation);
    assert_eq!(sink.scopes()[0].filter, ErrorFilter::OutOfMemory);
    assert_eq!(sink.scopes()[1].filter, ErrorFilter::Validation);
}
