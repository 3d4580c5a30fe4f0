//! Names as the backend takes them: bytes up to a closing zero byte.

use vstd::prelude::*;

verus! {

/// No byte of `s` is zero.
pub open spec fn zero_free(s: Seq<u8>) -> bool {
    forall|i: int| 0 <= i < s.len() ==> s[i] != 0
}

/// A name in marshaled form. It is held with its closing zero byte, and the
/// bytes before that one are never zero.
#[derive(Debug, PartialEq, Eq)]
pub struct CName {
    bytes: Vec<u8>,
}

impl View for CName {
    type V = Seq<u8>;

    /// The name itself, without the closing zero byte.
    closed spec fn view(&self) -> Seq<u8> {
        self.bytes@.drop_last()
    }
}

impl CName {
    #[verifier::type_invariant]
    closed spec fn wf(self) -> bool {
        &&& self.bytes@.len() > 0
        &&& self.bytes@.last() == 0
        &&& zero_free(self.bytes@.drop_last())
    }

    /// The bytes that go to the backend: the name and a zero byte.
    pub open spec fn terminated(self) -> Seq<u8> {
        self@.push(0)
    }

    /// Takes `name` as a name for the backend. A name that holds a zero byte
    /// cannot be marshaled and is refused; every other name is accepted.
    pub fn new(name: &[u8]) -> (r: Option<CName>)
        ensures
            r is Some <==> zero_free(name@),
            r is Some ==> r->0@ == name@,
    {
        let mut bytes: Vec<u8> = Vec::new();
        let mut i: usize = 0;
        while i < name.len()
            invariant
                i <= name@.len(),
                bytes@ == name@.take(i as int),
                zero_free(bytes@),
            decreases name@.len() - i,
        {
            let b: u8 = name[i];
            if b == 0 {
                return None;
            }
            bytes.push(b);
            proof {
                assert(bytes@ =~= name@.take(i + 1));
            }
            i = i + 1;
        }
        proof {
            assert(name@.take(i as int) =~= name@);
        }
        bytes.push(0);
        proof {
            assert(bytes@.drop_last() =~= name@);
        }
        Some(CName { bytes })
    }

    /// The bytes that go to the backend: the name and a zero byte.
    pub fn as_bytes_with_nul(&self) -> (b: &Vec<u8>)
        ensures
            b@ == self.terminated(),
            zero_free(self@),
    {
        proof {
            use_type_invariant(self);
            assert(self.bytes@ =~= self.bytes@.drop_last().push(0));
        }
        &self.bytes
    }

    /// The number of bytes of the name, the closing zero byte not counted.
    pub fn len(&self) -> (n: usize)
        ensures
            n == self@.len(),
    {
        proof {
            use_type_invariant(self);
        }
        self.bytes.len() - 1
    }
}

impl Clone for CName {
    /// A copy of the name, byte for byte; like every name it holds no zero
    /// byte.
    fn clone(&self) -> (r: Self)
        ensures
            r@ == self@,
            zero_free(r@),
    {
        proof {
            use_type_invariant(self);
        }
        let bytes = self.bytes.clone();
        proof {
            assert(bytes@ =~= self.bytes@);
        }
        CName { bytes }
    }
}

} // verus!
