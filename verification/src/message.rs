//! Verification that a dynamically looked-up method's declared signature
//! matches the argument and return encodings a caller supplies, reporting the
//! first discrepancy as a descriptive error value.

use crate::encode::{Encode, EncodeArguments, EncodingToken};
use crate::runtime::{Class, Method, Sel};
use vstd::prelude::*;

verus! {

/// The single failure mode surfaced to callers: a signature mismatch,
/// identifying the selector or method, the expected and supplied encodings,
/// and, for a per-argument mismatch, the offending argument index.
#[derive(Clone, PartialEq, Eq, Debug)]
#[allow(inconsistent_fields)]
pub enum MessageError {
    /// The class has no method of the selector's name.
    MethodNotFound { sel: String, class: String },
    /// The method's declared return encoding differs from the supplied one.
    ReturnTypeMismatch { method: String, expected: EncodingToken, actual: EncodingToken },
    /// The method accepts a different number of arguments than were supplied.
    /// Both counts include the two implicit entries for the receiver and the
    /// selector: `expected` is the method's own argument count, `given` the
    /// supplied encodings plus those two.
    ArgumentCountMismatch { method: String, expected: usize, given: usize },
    /// The declared encoding at `index` (an index into the method's full
    /// argument list, so the first supplied argument sits at index 2) differs
    /// from the supplied one.
    ArgumentTypeMismatch { method: String, index: usize, expected: EncodingToken, given: EncodingToken },
}

/// Whether a method's declared signature accepts the given supplied argument
/// encodings and return encoding: the return encodings agree, the method's
/// argument list is exactly two (receiver and selector) longer than the
/// supplied one, and each supplied encoding agrees with the declared one two
/// places further along.
pub open spec fn signature_matches(m: Method, args: Seq<EncodingToken>, ret: EncodingToken) -> bool {
    &&& m.return_type == ret
    &&& m.argument_types@.len() == args.len() + 2
    &&& forall|i: int| 0 <= i < args.len() ==> m.argument_types@[i + 2] == args[i]
}

/// Checks that sending the selector `sel` to an instance of `cls` with
/// arguments encoded as `A` and an expected return encoded as `R` matches the
/// method the class would dispatch to. Returns `Ok` exactly when the method
/// exists and its declared signature matches; otherwise reports the first
/// discrepancy, in the order: missing method, return encoding, argument
/// count, then the lowest mismatching argument index.
pub fn verify_message_signature<A: EncodeArguments, R: Encode>(cls: &Class, sel: Sel) -> (r: Result<
    (),
    MessageError,
>)
    requires
        A::spec_encodings().len() + 2 <= usize::MAX,
    ensures
        ({
            let m_opt = cls.spec_instance_method(sel.name@);
            let args = A::spec_encodings();
            let ret = R::spec_encoding();
            match r {
                Ok(_) => m_opt matches Some(m) && signature_matches(m, args, ret),
                Err(e) => match e {
                    MessageError::MethodNotFound { sel: s, class: c } => {
                        &&& m_opt is None
                        &&& s@ == sel.name@
                        &&& c@ == cls.name@
                    },
                    MessageError::ReturnTypeMismatch { method, expected, actual } => {
                        &&& m_opt matches Some(m)
                        &&& method@ == m.name@
                        &&& expected == m.return_type
                        &&& actual == ret
                        &&& m.return_type != ret
                    },
                    MessageError::ArgumentCountMismatch { method, expected, given } => {
                        &&& m_opt matches Some(m)
                        &&& method@ == m.name@
                        &&& expected == m.argument_types@.len()
                        &&& given == args.len() + 2
                        &&& m.return_type == ret
                        &&& m.argument_types@.len() != args.len() + 2
                    },
                    MessageError::ArgumentTypeMismatch { method, index, expected, given } => {
                        &&& m_opt matches Some(m)
                        &&& method@ == m.name@
                        &&& m.return_type == ret
                        &&& m.argument_types@.len() == args.len() + 2
                        &&& 2 <= index < m.argument_types@.len()
                        &&& expected == m.argument_types@[index as int]
                        &&& given == args[index - 2]
                        &&& expected != given
                        &&& forall|j: int|
                            2 <= j < index ==> m.argument_types@[j] == args[j - 2]
                    },
                },
            }
        }),
{
    let method = match cls.instance_method(&sel) {
        Some(method) => method,
        None => {
            return Err(
                MessageError::MethodNotFound { sel: sel.name, class: cls.name.clone() },
            );
        },
    };

    let ret = R::encode();
    if method.return_type != ret {
        return Err(
            MessageError::ReturnTypeMismatch {
                method: method.name.clone(),
                expected: method.return_type,
                actual: ret,
            },
        );
    }

    // The method's own argument count includes the receiver and the selector,
    // so the same two entries are added to the supplied count.
    let count = 2 + A::len();
    let expected_count = method.arguments_count();
    if count != expected_count {
        return Err(
            MessageError::ArgumentCountMismatch {
                method: method.name.clone(),
                expected: expected_count,
                given: count,
            },
        );
    }

    let args = A::encodings();
    let mut i: usize = 2;
    while i < expected_count
        invariant
            2 <= i <= expected_count,
            cls.spec_instance_method(sel.name@) == Some(*method),
            method.return_type == R::spec_encoding(),
            expected_count == method.argument_types@.len(),
            expected_count == args@.len() + 2,
            args@ == A::spec_encodings(),
            forall|j: int| 2 <= j < i ==> method.argument_types@[j] == args@[j - 2],
        decreases expected_count - i,
    {
        let expected = method.argument_types[i];
        let given = args[i - 2];
        if expected != given {
            return Err(
                MessageError::ArgumentTypeMismatch {
                    method: method.name.clone(),
                    index: i,
                    expected,
                    given,
                },
            );
        }
        i += 1;
    }

    Ok(())
}

} // verus!
