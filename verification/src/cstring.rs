//! NUL-terminated byte strings, as the kernel takes paths and names.
use vstd::prelude::*;
use vstd::string::StringSliceAdditionalSpecFns;

verus! {

/// No byte of `s` is NUL.
pub open spec fn nul_free(s: Seq<u8>) -> bool {
    forall|i: int| 0 <= i < s.len() ==> s[i] != 0u8
}

/// `p` is the index of the first NUL byte of `s`.
pub open spec fn is_first_nul(s: Seq<u8>, p: int) -> bool {
    &&& 0 <= p < s.len()
    &&& s[p] == 0u8
    &&& nul_free(s.subrange(0, p))
}

/// A string of printable ASCII characters is stored one byte per character,
/// and none of its bytes is NUL.
pub proof fn lemma_printable_ascii_bytes(s: &str)
    requires
        forall|i: int| 0 <= i < s@.len() ==> ' ' <= #[trigger] s@[i] <= '~',
    ensures
        s.spec_bytes() == Seq::new(s@.len(), |i: int| s@[i] as u8),
        nul_free(s.spec_bytes()),
{
    broadcast use vstd::string::is_ascii_spec_bytes;
    assert(vstd::string::is_ascii(s));
    assert forall|i: int| 0 <= i < s.spec_bytes().len() implies s.spec_bytes()[i] != 0u8 by {
        assert(' ' <= s@[i] <= '~');
        assert((s@[i] as u8) == (s@[i] as int));
    }
}

/// Why a string could not be handed to the kernel: it holds a NUL byte.
#[derive(Debug, Clone, Copy, PartialEq, Eq)]
pub struct NulError {
    /// Index of the first NUL byte of the input.
    pub position: usize,
}

/// A byte string without interior NUL bytes, stored with its terminating NUL.
#[derive(Debug)]
pub struct CBytes {
    bytes: Vec<u8>,
}

impl View for CBytes {
    type V = Seq<u8>;

    /// The content, without the terminating NUL.
    closed spec fn view(&self) -> Seq<u8> {
        self.bytes@.drop_last()
    }
}

impl CBytes {
    #[verifier::type_invariant]
    closed spec fn inv(self) -> bool {
        &&& self.bytes@.len() >= 1
        &&& self.bytes@.last() == 0u8
        &&& nul_free(self.bytes@.drop_last())
    }

    /// The bytes as the kernel reads them: the content followed by one NUL.
    pub open spec fn with_nul(self) -> Seq<u8> {
        self@.push(0u8)
    }

    /// Converts `s` into a NUL-terminated string; fails at the first NUL byte of `s`.
    pub fn new(s: &[u8]) -> (res: Result<CBytes, NulError>)
        ensures
            res is Ok <==> nul_free(s@),
            res matches Ok(c) ==> c@ == s@,
            res matches Err(e) ==> is_first_nul(s@, e.position as int),
    {
        let n = s.len();
        let mut bytes: Vec<u8> = Vec::new();
        for i in 0..n
            invariant
                n == s@.len(),
                bytes@ == s@.subrange(0, i as int),
                nul_free(bytes@),
        {
            if s[i] == 0u8 {
                assert(s@.subrange(0, i as int) == bytes@);
                return Err(NulError { position: i });
            }
            bytes.push(s[i]);
            assert(bytes@ == s@.subrange(0, i + 1));
        }
        assert(bytes@ == s@);
        bytes.push(0u8);
        assert(bytes@.drop_last() == s@);
        Ok(CBytes { bytes })
    }

    /// Converts the UTF-8 bytes of `s`; fails at the first NUL byte.
    pub fn from_str(s: &str) -> (res: Result<CBytes, NulError>)
        ensures
            res is Ok <==> nul_free(s.spec_bytes()),
            res matches Ok(c) ==> c@ == s.spec_bytes(),
            res matches Err(e) ==> is_first_nul(s.spec_bytes(), e.position as int),
    {
        CBytes::new(s.as_bytes())
    }

    /// The empty string: a single NUL byte.
    pub fn empty() -> (res: CBytes)
        ensures
            res@ == Seq::<u8>::empty(),
    {
        let mut bytes: Vec<u8> = Vec::new();
        bytes.push(0u8);
        assert(bytes@.drop_last() =~= Seq::<u8>::empty());
        CBytes { bytes }
    }

    /// Length of the content, without the terminating NUL.
    pub fn len(&self) -> (res: usize)
        ensures
            res == self@.len(),
    {
        proof {
            use_type_invariant(self);
        }
        self.bytes.len() - 1
    }

    /// Whether the content is empty.
    pub fn is_empty(&self) -> (res: bool)
        ensures
            res == (self@.len() == 0),
    {
        proof {
            use_type_invariant(self);
        }
        self.bytes.len() == 1
    }

    /// The content followed by the terminating NUL.
    pub fn as_bytes_with_nul(&self) -> (res: &[u8])
        ensures
            res@ == self.with_nul(),
            nul_free(self@),
    {
        proof {
            use_type_invariant(self);
            assert(self.bytes@ =~= self.bytes@.drop_last().push(0u8));
        }
        self.bytes.as_slice()
    }

    /// Gives up the string, returning the content followed by the terminating NUL.
    pub fn into_bytes_with_nul(self) -> (res: Vec<u8>)
        ensures
            res@ == self.with_nul(),
            nul_free(self@),
    {
        proof {
            use_type_invariant(&self);
            assert(self.bytes@ =~= self.bytes@.drop_last().push(0u8));
        }
        self.bytes
    }
}

} // verus!
