//! Type-encoding tokens: the comparable, renderable representation of a
//! type's foreign-runtime signature, and the traits that supply a token for a
//! single type and for a tuple of argument types.

use crate::block::Block;
use crate::runtime::{Class, Object, Sel};
use vstd::prelude::*;

verus! {

/// An encoding token: one entry of a method or block signature. Each variant
/// renders as the foreign runtime's documented one- or two-character type
/// code.
#[derive(Clone, Copy, PartialEq, Eq, Structural, Debug)]
pub enum EncodingToken {
    Char,
    Short,
    Int,
    LongLong,
    UChar,
    UShort,
    UInt,
    ULongLong,
    Bool,
    Void,
    Object,
    Block,
    Class,
    Sel,
}

impl EncodingToken {
    /// The token's rendered type code.
    pub open spec fn spec_code(self) -> Seq<char> {
        match self {
            EncodingToken::Char => "c"@,
            EncodingToken::Short => "s"@,
            EncodingToken::Int => "i"@,
            EncodingToken::LongLong => "q"@,
            EncodingToken::UChar => "C"@,
            EncodingToken::UShort => "S"@,
            EncodingToken::UInt => "I"@,
            EncodingToken::ULongLong => "Q"@,
            EncodingToken::Bool => "B"@,
            EncodingToken::Void => "v"@,
            EncodingToken::Object => "@"@,
            EncodingToken::Block => "@?"@,
            EncodingToken::Class => "#"@,
            EncodingToken::Sel => ":"@,
        }
    }

    /// Renders the token as its type code.
    pub fn code_string(&self) -> (r: &'static str)
        ensures
            r@ == self.spec_code(),
    {
        match self {
            EncodingToken::Char => "c",
            EncodingToken::Short => "s",
            EncodingToken::Int => "i",
            EncodingToken::LongLong => "q",
            EncodingToken::UChar => "C",
            EncodingToken::UShort => "S",
            EncodingToken::UInt => "I",
            EncodingToken::ULongLong => "Q",
            EncodingToken::Bool => "B",
            EncodingToken::Void => "v",
            EncodingToken::Object => "@",
            EncodingToken::Block => "@?",
            EncodingToken::Class => "#",
            EncodingToken::Sel => ":",
        }
    }
}

/// Types whose values carry a foreign-runtime type encoding.
pub trait Encode {
    /// The encoding token of this type.
    spec fn spec_encoding() -> EncodingToken;

    /// Returns the encoding token of this type.
    fn encode() -> (r: EncodingToken)
        ensures
            r == Self::spec_encoding(),
    ;
}

impl Encode for i8 {
    open spec fn spec_encoding() -> EncodingToken {
        EncodingToken::Char
    }

    fn encode() -> EncodingToken {
        EncodingToken::Char
    }
}

impl Encode for i16 {
    open spec fn spec_encoding() -> EncodingToken {
        EncodingToken::Short
    }

    fn encode() -> EncodingToken {
        EncodingToken::Short
    }
}

impl Encode for i32 {
    open spec fn spec_encoding() -> EncodingToken {
        EncodingToken::Int
    }

    fn encode() -> EncodingToken {
        EncodingToken::Int
    }
}

impl Encode for i64 {
    open spec fn spec_encoding() -> EncodingToken {
        EncodingToken::LongLong
    }

    fn encode() -> EncodingToken {
        EncodingToken::LongLong
    }
}

impl Encode for u8 {
    open spec fn spec_encoding() -> EncodingToken {
        EncodingToken::UChar
    }

    fn encode() -> EncodingToken {
        EncodingToken::UChar
    }
}

impl Encode for u16 {
    open spec fn spec_encoding() -> EncodingToken {
        EncodingToken::UShort
    }

    fn encode() -> EncodingToken {
        EncodingToken::UShort
    }
}

impl Encode for u32 {
    open spec fn spec_encoding() -> EncodingToken {
        EncodingToken::UInt
    }

    fn encode() -> EncodingToken {
        EncodingToken::UInt
    }
}

impl Encode for u64 {
    open spec fn spec_encoding() -> EncodingToken {
        EncodingToken::ULongLong
    }

    fn encode() -> EncodingToken {
        EncodingToken::ULongLong
    }
}

impl Encode for bool {
    open spec fn spec_encoding() -> EncodingToken {
        EncodingToken::Bool
    }

    fn encode() -> EncodingToken {
        EncodingToken::Bool
    }
}

impl Encode for () {
    open spec fn spec_encoding() -> EncodingToken {
        EncodingToken::Void
    }

    fn encode() -> EncodingToken {
        EncodingToken::Void
    }
}

impl Encode for Object {
    open spec fn spec_encoding() -> EncodingToken {
        EncodingToken::Object
    }

    fn encode() -> EncodingToken {
        EncodingToken::Object
    }
}

impl Encode for Class {
    open spec fn spec_encoding() -> EncodingToken {
        EncodingToken::Class
    }

    fn encode() -> EncodingToken {
        EncodingToken::Class
    }
}

impl Encode for Sel {
    open spec fn spec_encoding() -> EncodingToken {
        EncodingToken::Sel
    }

    fn encode() -> EncodingToken {
        EncodingToken::Sel
    }
}

/// Types that stand behind a pointer at the foreign boundary and carry a
/// pointer type code of their own.
pub trait EncodePtr {
    /// The pointer type code of this type.
    spec fn spec_ptr_code() -> Seq<char>;

    /// Returns the pointer type code of this type.
    fn ptr_code() -> (r: &'static str)
        ensures
            r@ == Self::spec_ptr_code(),
    ;
}

impl<A, R, F> EncodePtr for Block<A, R, F> {
    open spec fn spec_ptr_code() -> Seq<char> {
        "@?"@
    }

    fn ptr_code() -> (r: &'static str) {
        "@?"
    }
}


/// Types that represent a group of arguments, where each has a foreign
/// type encoding: the tuples of `Encode` types, one implementation per
/// supported arity.
pub trait EncodeArguments {
    /// The encoding tokens of the arguments, in declaration order.
    spec fn spec_encodings() -> Seq<EncodingToken>;

    /// Returns the encoding tokens of the arguments, in declaration order.
    fn encodings() -> (r: Vec<EncodingToken>)
        ensures
            r@ == Self::spec_encodings(),
    ;

    /// Returns the number of arguments in the group.
    fn len() -> (r: usize)
        ensures
            r == Self::spec_encodings().len(),
    ;
}

impl EncodeArguments for () {
    open spec fn spec_encodings() -> Seq<EncodingToken> {
        Seq::empty()
    }

    fn encodings() -> (r: Vec<EncodingToken>) {
        let mut v: Vec<EncodingToken> = Vec::new();

        proof {
            assert(v@ =~= Self::spec_encodings());
        }
        v
    }

    fn len() -> (r: usize) {
        0
    }
}

impl<A0: Encode> EncodeArguments for (A0,) {
    open spec fn spec_encodings() -> Seq<EncodingToken> {
        seq![A0::spec_encoding()]
    }

    fn encodings() -> (r: Vec<EncodingToken>) {
        let mut v: Vec<EncodingToken> = Vec::new();
        v.push(A0::encode());
        proof {
            assert(v@ =~= Self::spec_encodings());
        }
        v
    }

    fn len() -> (r: usize) {
        1
    }
}

impl<A0: Encode, A1: Encode> EncodeArguments for (A0, A1) {
    open spec fn spec_encodings() -> Seq<EncodingToken> {
        seq![A0::spec_encoding(), A1::spec_encoding()]
    }

    fn encodings() -> (r: Vec<EncodingToken>) {
        let mut v: Vec<EncodingToken> = Vec::new();
        v.push(A0::encode());
        v.push(A1::encode());
        proof {
            assert(v@ =~= Self::spec_encodings());
        }
        v
    }

    fn len() -> (r: usize) {
        2
    }
}

impl<A0: Encode, A1: Encode, A2: Encode> EncodeArguments for (A0, A1, A2) {
    open spec fn spec_encodings() -> Seq<EncodingToken> {
        seq![A0::spec_encoding(), A1::spec_encoding(), A2::spec_encoding()]
    }

    fn encodings() -> (r: Vec<EncodingToken>) {
        let mut v: Vec<EncodingToken> = Vec::new();
        v.push(A0::encode());
        v.push(A1::encode());
        v.push(A2::encode());
        proof {
            assert(v@ =~= Self::spec_encodings());
        }
        v
    }

    fn len() -> (r: usize) {
        3
    }
}

impl<A0: Encode, A1: Encode, A2: Encode, A3: Encode> EncodeArguments for (A0, A1, A2, A3) {
    open spec fn spec_encodings() -> Seq<EncodingToken> {
        seq![A0::spec_encoding(), A1::spec_encoding(), A2::spec_encoding(), A3::spec_encoding()]
    }

    fn encodings() -> (r: Vec<EncodingToken>) {
        let mut v: Vec<EncodingToken> = Vec::new();
        v.push(A0::encode());
        v.push(A1::encode());
        v.push(A2::encode());
        v.push(A3::encode());
        proof {
            assert(v@ =~= Self::spec_encodings());
        }
        v
    }

    fn len() -> (r: usize) {
        4
    }
}

impl<A0: Encode, A1: Encode, A2: Encode, A3: Encode, A4: Encode> EncodeArguments for (A0, A1, A2, A3, A4) {
    open spec fn spec_encodings() -> Seq<EncodingToken> {
        seq![A0::spec_encoding(), A1::spec_encoding(), A2::spec_encoding(), A3::spec_encoding(), A4::spec_encoding()]
    }

    fn encodings() -> (r: Vec<EncodingToken>) {
        let mut v: Vec<EncodingToken> = Vec::new();
        v.push(A0::encode());
        v.push(A1::encode());
        v.push(A2::encode());
        v.push(A3::encode());
        v.push(A4::encode());
        proof {
            assert(v@ =~= Self::spec_encodings());
        }
        v
    }

    fn len() -> (r: usize) {
        5
    }
}

impl<A0: Encode, A1: Encode, A2: Encode, A3: Encode, A4: Encode, A5: Encode> EncodeArguments for (A0, A1, A2, A3, A4, A5) {
    open spec fn spec_encodings() -> Seq<EncodingToken> {
        seq![A0::spec_encoding(), A1::spec_encoding(), A2::spec_encoding(), A3::spec_encoding(), A4::spec_encoding(), A5::spec_encoding()]
    }

    fn encodings() -> (r: Vec<EncodingToken>) {
        let mut v: Vec<EncodingToken> = Vec::new();
        v.push(A0::encode());
        v.push(A1::encode());
        v.push(A2::encode());
        v.push(A3::encode());
        v.push(A4::encode());
        v.push(A5::encode());
        proof {
            assert(v@ =~= Self::spec_encodings());
        }
        v
    }

    fn len() -> (r: usize) {
        6
    }
}

impl<A0: Encode, A1: Encode, A2: Encode, A3: Encode, A4: Encode, A5: Encode, A6: Encode> EncodeArguments for (A0, A1, A2, A3, A4, A5, A6) {
    open spec fn spec_encodings() -> Seq<EncodingToken> {
        seq![A0::spec_encoding(), A1::spec_encoding(), A2::spec_encoding(), A3::spec_encoding(), A4::spec_encoding(), A5::spec_encoding(), A6::spec_encoding()]
    }

    fn encodings() -> (r: Vec<EncodingToken>) {
        let mut v: Vec<EncodingToken> = Vec::new();
        v.push(A0::encode());
        v.push(A1::encode());
        v.push(A2::encode());
        v.push(A3::encode());
        v.push(A4::encode());
        v.push(A5::encode());
        v.push(A6::encode());
        proof {
            assert(v@ =~= Self::spec_encodings());
        }
        v
    }

    fn len() -> (r: usize) {
        7
    }
}

impl<A0: Encode, A1: Encode, A2: Encode, A3: Encode, A4: Encode, A5: Encode, A6: Encode, A7: Encode> EncodeArguments for (A0, A1, A2, A3, A4, A5, A6, A7) {
    open spec fn spec_encodings() -> Seq<EncodingToken> {
        seq![A0::spec_encoding(), A1::spec_encoding(), A2::spec_encoding(), A3::spec_encoding(), A4::spec_encoding(), A5::spec_encoding(), A6::spec_encoding(), A7::spec_encoding()]
    }

    fn encodings() -> (r: Vec<EncodingToken>) {
        let mut v: Vec<EncodingToken> = Vec::new();
        v.push(A0::encode());
        v.push(A1::encode());
        v.push(A2::encode());
        v.push(A3::encode());
        v.push(A4::encode());
        v.push(A5::encode());
        v.push(A6::encode());
        v.push(A7::encode());
        proof {
            assert(v@ =~= Self::spec_encodings());
        }
        v
    }

    fn len() -> (r: usize) {
        8
    }
}

impl<A0: Encode, A1: Encode, A2: Encode, A3: Encode, A4: Encode, A5: Encode, A6: Encode, A7: Encode, A8: Encode> EncodeArguments for (A0, A1, A2, A3, A4, A5, A6, A7, A8) {
    open spec fn spec_encodings() -> Seq<EncodingToken> {
        seq![A0::spec_encoding(), A1::spec_encoding(), A2::spec_encoding(), A3::spec_encoding(), A4::spec_encoding(), A5::spec_encoding(), A6::spec_encoding(), A7::spec_encoding(), A8::spec_encoding()]
    }

    fn encodings() -> (r: Vec<EncodingToken>) {
        let mut v: Vec<EncodingToken> = Vec::new();
        v.push(A0::encode());
        v.push(A1::encode());
        v.push(A2::encode());
        v.push(A3::encode());
        v.push(A4::encode());
        v.push(A5::encode());
        v.push(A6::encode());
        v.push(A7::encode());
        v.push(A8::encode());
        proof {
            assert(v@ =~= Self::spec_encodings());
        }
        v
    }

    fn len() -> (r: usize) {
        9
    }
}

impl<A0: Encode, A1: Encode, A2: Encode, A3: Encode, A4: Encode, A5: Encode, A6: Encode, A7: Encode, A8: Encode, A9: Encode> EncodeArguments for (A0, A1, A2, A3, A4, A5, A6, A7, A8, A9) {
    open spec fn spec_encodings() -> Seq<EncodingToken> {
        seq![A0::spec_encoding(), A1::spec_encoding(), A2::spec_encoding(), A3::spec_encoding(), A4::spec_encoding(), A5::spec_encoding(), A6::spec_encoding(), A7::spec_encoding(), A8::spec_encoding(), A9::spec_encoding()]
    }

    fn encodings() -> (r: Vec<EncodingToken>) {
        let mut v: Vec<EncodingToken> = Vec::new();
        v.push(A0::encode());
        v.push(A1::encode());
        v.push(A2::encode());
        v.push(A3::encode());
        v.push(A4::encode());
        v.push(A5::encode());
        v.push(A6::encode());
        v.push(A7::encode());
        v.push(A8::encode());
        v.push(A9::encode());
        proof {
            assert(v@ =~= Self::spec_encodings());
        }
        v
    }

    fn len() -> (r: usize) {
        10
    }
}

impl<A0: Encode, A1: Encode, A2: Encode, A3: Encode, A4: Encode, A5: Encode, A6: Encode, A7: Encode, A8: Encode, A9: Encode, A10: Encode> EncodeArguments for (A0, A1, A2, A3, A4, A5, A6, A7, A8, A9, A10) {
    open spec fn spec_encodings() -> Seq<EncodingToken> {
        seq![A0::spec_encoding(), A1::spec_encoding(), A2::spec_encoding(), A3::spec_encoding(), A4::spec_encoding(), A5::spec_encoding(), A6::spec_encoding(), A7::spec_encoding(), A8::spec_encoding(), A9::spec_encoding(), A10::spec_encoding()]
    }

    fn encodings() -> (r: Vec<EncodingToken>) {
        let mut v: Vec<EncodingToken> = Vec::new();
        v.push(A0::encode());
        v.push(A1::encode());
        v.push(A2::encode());
        v.push(A3::encode());
        v.push(A4::encode());
        v.push(A5::encode());
        v.push(A6::encode());
        v.push(A7::encode());
        v.push(A8::encode());
        v.push(A9::encode());
        v.push(A10::encode());
        proof {
            assert(v@ =~= Self::spec_encodings());
        }
        v
    }

    fn len() -> (r: usize) {
        11
    }
}

impl<A0: Encode, A1: Encode, A2: Encode, A3: Encode, A4: Encode, A5: Encode, A6: Encode, A7: Encode, A8: Encode, A9: Encode, A10: Encode, A11: Encode> EncodeArguments for (A0, A1, A2, A3, A4, A5, A6, A7, A8, A9, A10, A11) {
    open spec fn spec_encodings() -> Seq<EncodingToken> {
        seq![A0::spec_encoding(), A1::spec_encoding(), A2::spec_encoding(), A3::spec_encoding(), A4::spec_encoding(), A5::spec_encoding(), A6::spec_encoding(), A7::spec_encoding(), A8::spec_encoding(), A9::spec_encoding(), A10::spec_encoding(), A11::spec_encoding()]
    }

    fn encodings() -> (r: Vec<EncodingToken>) {
        let mut v: Vec<EncodingToken> = Vec::new();
        v.push(A0::encode());
        v.push(A1::encode());
        v.push(A2::encode());
        v.push(A3::encode());
        v.push(A4::encode());
        v.push(A5::encode());
        v.push(A6::encode());
        v.push(A7::encode());
        v.push(A8::encode());
        v.push(A9::encode());
        v.push(A10::encode());
        v.push(A11::encode());
        proof {
            assert(v@ =~= Self::spec_encodings());
        }
        v
    }

    fn len() -> (r: usize) {
        12
    }
}

} // verus!
