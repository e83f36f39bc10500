//! Models of the foreign runtime's entities as the signature-verification
//! logic reads them: an interned selector is its name, an instance is opaque,
//! a method is its name and its declared encodings, and a class is its name
//! and its method list.

use crate::encode::EncodingToken;
use vstd::prelude::*;

verus! {

/// A method selector: the interned name a message is sent under.
#[derive(Clone, Debug)]
pub struct Sel {
    pub name: String,
}

/// An instance of a runtime class. The bridge treats instances as opaque; the
/// type exists so that values standing for instances carry their own encoding.
#[derive(Clone, Debug)]
pub struct Object {
    pub class_name: String,
}

/// One method of a class: its selector name, the encoding of its return type,
/// and the encodings of its arguments in declaration order. The first two
/// argument entries are the receiver and the selector, which every method
/// takes implicitly.
#[derive(Clone, Debug)]
pub struct Method {
    pub name: String,
    pub return_type: EncodingToken,
    pub argument_types: Vec<EncodingToken>,
}

impl Method {
    /// The number of arguments the method accepts, the two implicit ones
    /// included.
    pub fn arguments_count(&self) -> (r: usize)
        ensures
            r == self.argument_types@.len(),
    {
        self.argument_types.len()
    }
}

/// A runtime class: its name and its instance methods.
#[derive(Clone, Debug)]
pub struct Class {
    pub name: String,
    pub methods: Vec<Method>,
}

impl Class {
    /// The first method of the list whose name is `name`, if any.
    pub open spec fn spec_lookup(methods: Seq<Method>, name: Seq<char>) -> Option<Method>
        decreases methods.len(),
    {
        if methods.len() == 0 {
            None
        } else if methods[0].name@ == name {
            Some(methods[0])
        } else {
            Self::spec_lookup(methods.drop_first(), name)
        }
    }

    /// The method this class dispatches the given selector name to: the first
    /// method of that name in its list.
    pub open spec fn spec_instance_method(self, name: Seq<char>) -> Option<Method> {
        Self::spec_lookup(self.methods@, name)
    }

    /// Looks the selector up in the class's method list.
    pub fn instance_method(&self, sel: &Sel) -> (r: Option<&Method>)
        ensures
            match r {
                Some(m) => self.spec_instance_method(sel.name@) == Some(*m),
                None => self.spec_instance_method(sel.name@) is None,
            },
    {
        let n = self.methods.len();
        let mut i: usize = 0;
        proof {
            assert(self.methods@.subrange(0, n as int) =~= self.methods@);
        }
        while i < n
            invariant
                0 <= i <= n,
                n == self.methods@.len(),
                Self::spec_lookup(self.methods@, sel.name@) == Self::spec_lookup(
                    self.methods@.subrange(i as int, n as int),
                    sel.name@,
                ),
                forall|j: int| 0 <= j < i ==> self.methods@[j].name@ != sel.name@,
            decreases n - i,
        {
            proof {
                assert(self.methods@.subrange(i as int, n as int)[0] == self.methods@[i as int]);
            }
            if self.methods[i].name == sel.name {
                return Some(&self.methods[i]);
            }
            proof {
                assert(self.methods@.subrange(i as int, n as int).drop_first() =~= self.methods@
                    .subrange(i as int + 1, n as int));
            }
            i += 1;
        }
        proof {
            assert(self.methods@.subrange(i as int, n as int).len() == 0);
        }
        None
    }
}

} // verus!
