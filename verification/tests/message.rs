use objc::encode::EncodingToken;
use objc::message::{verify_message_signature, MessageError};
use objc::runtime::{Class, Method, Object, Sel};

fn description_method() -> Method {
    Method {
        name: "description".to_string(),
        return_type: EncodingToken::Object,
        argument_types: vec![EncodingToken::Object, EncodingToken::Sel],
    }
}

fn set_priority_method() -> Method {
    Method {
        name: "setPriority:".to_string(),
        return_type: EncodingToken::Void,
        argument_types: vec![EncodingToken::Object, EncodingToken::Sel, EncodingToken::Int],
    }
}

fn test_class() -> Class {
    Class {
        name: "TestObject".to_string(),
        methods: vec![description_method(), set_priority_method()],
    }
}

fn sel(name: &str) -> Sel {
    Sel { name: name.to_string() }
}

#[test]
fn test_verify_ok_no_arguments() {
    let cls = test_class();
    let r = verify_message_signature::<(), Object>(&cls, sel("description"));
    assert_eq!(r, Ok(()));
}

#[test]
fn test_verify_ok_one_argument() {
    let cls = test_class();
    let r = verify_message_signature::<(i32,), ()>(&cls, sel("setPriority:"));
    assert_eq!(r, Ok(()));
}

#[test]
fn test_verify_method_not_found() {
    let cls = test_class();
    let r = verify_message_signature::<(), Object>(&cls, sel("missingSelector"));
    assert_eq!(
        r,
        Err(MessageError::MethodNotFound {
            sel: "missingSelector".to_string(),
            class: "TestObject".to_string(),
        })
    );
}

#[test]
fn test_verify_return_type_mismatch() {
    let cls = test_class();
    let r = verify_message_signature::<(), i32>(&cls, sel("description"));
    assert_eq!(
        r,
        Err(MessageError::ReturnTypeMismatch {
            method: "description".to_string(),
            expected: EncodingToken::Object,
            actual: EncodingToken::Int,
        })
    );
}

#[test]
fn test_verify_argument_count_mismatch() {
    let cls = test_class();
    let r = verify_message_signature::<(i32, i32), ()>(&cls, sel("setPriority:"));
    assert_eq!(
        r,
        Err(MessageError::ArgumentCountMismatch {
            method: "setPriority:".to_string(),
            expected: 3,
            given: 4,
        })
    );
}

#[test]
fn test_verify_argument_type_mismatch() {
    let cls = test_class();
    let r = verify_message_signature::<(bool,), ()>(&cls, sel("setPriority:"));
    assert_eq!(
        r,
        Err(MessageError::ArgumentTypeMismatch {
            method: "setPriority:".to_string(),
            index: 2,
            expected: EncodingToken::Int,
            given: EncodingToken::Bool,
        })
    );
}

#[test]
fn test_verify_dispatches_to_first_of_name() {
    // Two methods of the same name: the first one decides.
    let cls = Class {
        name: "Doubled".to_string(),
        methods: vec![
            Method {
                name: "value".to_string(),
                return_type: EncodingToken::Int,
                argument_types: vec![EncodingToken::Object, EncodingToken::Sel],
            },
            Method {
                name: "value".to_string(),
                return_type: EncodingToken::Bool,
                argument_types: vec![EncodingToken::Object, EncodingToken::Sel],
            },
        ],
    };
    assert_eq!(verify_message_signature::<(), i32>(&cls, sel("value")), Ok(()));
    assert!(verify_message_signature::<(), bool>(&cls, sel("value")).is_err());
}
