use vstd::prelude::*;
use vstd::utf8::encode_utf8;
use crate::error::SemError;
use crate::flags::{OpenMode, OpenOptions};
use crate::name::{encode_name, has_nul, is_c_string};

verus! {

/// The arguments of one call that opens a named semaphore, checked and in
/// the form the operating system takes: the name as a nul-terminated byte
/// string, the options, the permission bits for a new semaphore, and its
/// starting count. Mode and count matter only where the call creates it.
#[derive(Debug)]
pub struct OpenRequest {
    name: Vec<u8>,
    oflags: OpenOptions,
    mode: OpenMode,
    initial: usize,
}

impl OpenRequest {
    #[verifier::type_invariant]
    spec fn inv(self) -> bool {
        is_c_string(self.name@)
    }

    /// The name, nul terminator included.
    pub closed spec fn spec_name(self) -> Seq<u8> {
        self.name@
    }

    /// The open options.
    pub closed spec fn spec_oflags(self) -> OpenOptions {
        self.oflags
    }

    /// The permission bits for a newly created semaphore.
    pub closed spec fn spec_mode(self) -> OpenMode {
        self.mode
    }

    /// The starting count for a newly created semaphore.
    pub closed spec fn spec_initial(self) -> usize {
        self.initial
    }

    /// Checks the arguments of an open call. Fails, before anything reaches
    /// the operating system, exactly when the name holds a nul character;
    /// otherwise every argument is passed on unchanged.
    pub fn new(name: &str, oflags: OpenOptions, mode: OpenMode, initial: usize) -> (r: Result<
        OpenRequest,
        SemError,
    >)
        ensures
            match r {
                Ok(req) => {
                    &&& !has_nul(name@)
                    &&& req.spec_name() == encode_utf8(name@).push(0u8)
                    &&& req.spec_oflags() == oflags
                    &&& req.spec_mode() == mode
                    &&& req.spec_initial() == initial
                },
                Err(e) => has_nul(name@) && e == SemError::NameEncoding,
            },
    {
        match encode_name(name) {
            Ok(bytes) => Ok(OpenRequest { name: bytes, oflags, mode, initial }),
            Err(e) => Err(e),
        }
    }

    /// The name as a nul-terminated byte string.
    pub fn name(&self) -> (r: &[u8])
        ensures
            r@ == self.spec_name(),
            is_c_string(r@),
    {
        proof {
            use_type_invariant(self);
        }
        self.name.as_slice()
    }

    /// The open options.
    pub fn oflags(&self) -> (r: OpenOptions)
        ensures
            r == self.spec_oflags(),
    {
        self.oflags
    }

    /// The permission bits for a newly created semaphore.
    pub fn mode(&self) -> (r: OpenMode)
        ensures
            r == self.spec_mode(),
    {
        self.mode
    }

    /// The starting count for a newly created semaphore.
    pub fn initial(&self) -> (r: usize)
        ensures
            r == self.spec_initial(),
    {
        self.initial
    }
}

} // verus!
