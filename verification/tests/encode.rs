use objc::encode::{Encode, EncodeArguments, EncodingToken};
use objc::runtime::{Class, Object, Sel};
use objc_encode::Encoding;

#[test]
fn test_encode() {
    assert!(Object::encode().code_string() == "@");
    assert!(Object::encode().code_string() == "@");
    assert!(Class::encode().code_string() == "#");
    assert!(Sel::encode().code_string() == ":");
}

#[test]
fn test_primitive_codes() {
    assert_eq!(i8::encode().code_string(), "c");
    assert_eq!(i16::encode().code_string(), "s");
    assert_eq!(i32::encode().code_string(), "i");
    assert_eq!(i64::encode().code_string(), "q");
    assert_eq!(u8::encode().code_string(), "C");
    assert_eq!(u16::encode().code_string(), "S");
    assert_eq!(u32::encode().code_string(), "I");
    assert_eq!(u64::encode().code_string(), "Q");
    assert_eq!(bool::encode().code_string(), "B");
    assert_eq!(<()>::encode().code_string(), "v");
    assert_eq!(EncodingToken::Block.code_string(), "@?");
}

#[test]
fn test_codes_match_collaborator_crate() {
    let pairs = vec![
        (EncodingToken::Char, Encoding::Char),
        (EncodingToken::Short, Encoding::Short),
        (EncodingToken::Int, Encoding::Int),
        (EncodingToken::LongLong, Encoding::LongLong),
        (EncodingToken::UChar, Encoding::UChar),
        (EncodingToken::UShort, Encoding::UShort),
        (EncodingToken::UInt, Encoding::UInt),
        (EncodingToken::ULongLong, Encoding::ULongLong),
        (EncodingToken::Bool, Encoding::Bool),
        (EncodingToken::Void, Encoding::Void),
        (EncodingToken::Object, Encoding::Object),
        (EncodingToken::Block, Encoding::Block),
        (EncodingToken::Class, Encoding::Class),
        (EncodingToken::Sel, Encoding::Sel),
    ];
    for (token, encoding) in pairs {
        assert_eq!(token.code_string(), encoding.to_string());
    }
}

#[test]
fn test_encode_arguments() {
    assert_eq!(<()>::len(), 0);
    assert_eq!(<() as EncodeArguments>::encodings(), Vec::<EncodingToken>::new());
    assert_eq!(<(i32,)>::len(), 1);
    assert_eq!(<(i32,)>::encodings(), vec![EncodingToken::Int]);
    assert_eq!(<(i32, bool, u64)>::len(), 3);
    assert_eq!(
        <(i32, bool, u64)>::encodings(),
        vec![EncodingToken::Int, EncodingToken::Bool, EncodingToken::ULongLong]
    );
}
