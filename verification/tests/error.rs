use stack_error::chain::{ChainNode, ExternalCause};
use stack_error::error::surface;
use stack_error::{ErrorExt, PlainError, StackError, StatusCode};
use std::sync::Arc;

fn text(s: &str) -> String {
    s.to_string()
}

#[test]
fn message_of_a_plain_error() {
    let error = PlainError::new(text("user alice not found"), StatusCode::UserNotFound);
    assert_eq!(error.status_code(), StatusCode::UserNotFound);
    assert_eq!(error.status_code().as_u32(), 7000);
    assert_eq!(error.output_msg(), "user alice not found");
}

#[test]
fn unknown_hides_the_chain() {
    let error = PlainError::new(text("secret detail"), StatusCode::Unknown);
    assert_eq!(error.output_msg(), "Internal error: 1000");

    let inner = ChainNode::with_external_cause(
        text("inner"),
        Some(text("loc")),
        ExternalCause::new(text("NotFound"), text("entity not found")),
        StatusCode::UserNotFound,
    );
    let outer = ChainNode::with_source(text("outer"), None, inner, StatusCode::Unknown);
    assert_eq!(outer.output_msg(), "Internal error: 1000");
}

#[test]
fn internal_hides_the_chain_too() {
    let error = PlainError::new(text("stack overflow in worker"), StatusCode::Internal);
    assert_eq!(error.output_msg(), "Internal error: 1003");
    let node = ChainNode::with_external_cause(
        text("m"),
        None,
        ExternalCause::new(text("D"), text("d")),
        StatusCode::Internal,
    );
    assert_eq!(node.output_msg(), "Internal error: 1003");
}

#[test]
fn output_msg_is_the_message_of_the_deepest_node() {
    let inner = ChainNode::leaf(text("inner fail"), Some(text("loc")), StatusCode::Unknown);
    let outer = ChainNode::with_source(text("outer fail"), None, inner, StatusCode::InvalidArguments);
    assert_eq!(outer.output_msg(), "inner fail");
}

#[test]
fn output_msg_adds_the_root_of_the_underlying_cause() {
    let root = ExternalCause::new(text("Os { code: 2 }"), text("No such file or directory"));
    let cause = ExternalCause::with_source(text("Custom"), text("read failed"), root);
    let inner = ChainNode::with_external_cause(text("io failure"), None, cause, StatusCode::Unknown);
    let outer = ChainNode::with_source(text("outer"), None, inner, StatusCode::Unexpected);
    assert_eq!(outer.output_msg(), "io failure: No such file or directory");
}

#[test]
fn output_msg_of_an_empty_message_is_the_root_alone() {
    let cause = ExternalCause::new(text("NotFound"), text("entity not found"));
    let node = ChainNode::with_external_cause(String::new(), None, cause, StatusCode::Unsupported);
    assert_eq!(node.output_msg(), "entity not found");
}

#[test]
fn surface_composes_the_message() {
    let cause = ExternalCause::new(text("D"), text("root"));
    assert_eq!(surface(StatusCode::Cancelled, text("msg"), Some(&cause)), "msg: root");
    assert_eq!(surface(StatusCode::Cancelled, text(""), Some(&cause)), "root");
    assert_eq!(surface(StatusCode::Cancelled, text("msg"), None), "msg");
    assert_eq!(surface(StatusCode::Cancelled, text(""), None), "");
    assert_eq!(surface(StatusCode::Success, text("fine"), None), "fine");
    assert_eq!(surface(StatusCode::Unknown, text("msg"), Some(&cause)), "Internal error: 1000");
    assert_eq!(surface(StatusCode::Internal, text("msg"), None), "Internal error: 1003");
}

#[test]
fn plain_error_is_a_leaf() {
    let error = PlainError::new(text("boom"), StatusCode::RateLimited);
    assert_eq!(error.to_string(), "boom");
    assert!(error.source().is_none());
    assert!(error.next().is_none());
    assert!(error.last().is_none());
    let mut buf = Vec::new();
    error.debug_fmt(0, &mut buf);
    error.debug_fmt(15, &mut buf);
    assert_eq!(buf, vec![text("0: boom"), text("15: boom")]);
}

#[test]
fn chain_node_exposes_message_cause_and_code() {
    let cause = ExternalCause::new(text("NotFound"), text("entity not found"));
    let node = ChainNode::with_external_cause(text("io"), None, cause, StatusCode::AccessDenied);
    assert_eq!(node.to_string(), "io");
    assert_eq!(node.source().unwrap().debug, "NotFound");
    assert_eq!(node.status_code(), StatusCode::AccessDenied);
    assert!(ChainNode::leaf(text("l"), None, StatusCode::Success).source().is_none());
}

#[test]
fn a_box_forwards_every_operation() {
    let inner = ChainNode::leaf(text("inner"), Some(text("loc")), StatusCode::Unknown);
    let plain = ChainNode::with_source(text("outer"), None, inner, StatusCode::Unknown);
    let mut expected = Vec::new();
    plain.debug_fmt(5, &mut expected);

    let inner = ChainNode::leaf(text("inner"), Some(text("loc")), StatusCode::Unknown);
    let boxed = Box::new(ChainNode::with_source(text("outer"), None, inner, StatusCode::Unknown));
    let mut buf = Vec::new();
    StackError::debug_fmt(&boxed, 5, &mut buf);
    assert_eq!(buf, expected);
    assert_eq!(buf, vec![text("5: outer"), text("6: inner, at loc")]);
    assert_eq!(StackError::next(&boxed).unwrap().message, "inner");
    assert_eq!(StackError::last(&boxed).unwrap().message, "inner");
    assert_eq!(StackError::to_string(&boxed), "outer");
    assert!(StackError::source(&boxed).is_none());
}

#[test]
fn a_shared_handle_forwards_every_operation() {
    let shared = Arc::new(PlainError::new(text("shared"), StatusCode::Cancelled));
    let other = Arc::clone(&shared);
    let mut buf = Vec::new();
    StackError::debug_fmt(&shared, 1, &mut buf);
    StackError::debug_fmt(&other, 2, &mut buf);
    assert_eq!(buf, vec![text("1: shared"), text("2: shared")]);
    assert!(StackError::next(&shared).is_none());
    assert!(StackError::last(&other).is_none());
    assert_eq!(StackError::to_string(&other), "shared");

    let nested = Arc::new(Box::new(ChainNode::with_source(
        text("a"),
        None,
        ChainNode::leaf(text("b"), None, StatusCode::Unknown),
        StatusCode::Unknown,
    )));
    assert_eq!(StackError::last(&nested).unwrap().message, "b");
}

#[test]
fn plain_error_renders_its_only_line() {
    let error = PlainError::new(text("boom"), StatusCode::RateLimited);
    assert_eq!(error.render(), "0: boom");
    assert_eq!(StackError::render(&Box::new(error)), "0: boom");
}

#[test]
fn test_test() {
    let path = "config.toml";
    let key = String::from("Alice");
    let error = ChainNode::leaf(
        format!("Unrecognized database option key: {}", key),
        Some(format!("{}:1:1", path)),
        StatusCode::Unknown,
    );
    let deepest = match StackError::last(&error) {
        Some(node) => node,
        None => &error,
    };
    println!("{}", deepest.render());
    assert_eq!(
        deepest.render(),
        "0: Unrecognized database option key: Alice, at config.toml:1:1"
    );
}

#[test]
fn test_async_trait_test() {
    let succeeds = false;
    let result: Result<(), ChainNode> = if succeeds {
        Ok(())
    } else {
        Err(ChainNode::leaf(
            text("Unrecognized"),
            Some(text("src/service.rs:36:57")),
            StatusCode::Unknown,
        ))
    };
    let error = result.unwrap_err();
    assert!(error.last().is_none());
    assert_eq!(error.render(), "0: Unrecognized, at src/service.rs:36:57");
}
