//! The validated project name: the caller-supplied identifier that names the
//! generated directory and is substituted into its files. A name must not
//! contain a path separator or an extension dot, which keeps every pipeline
//! path inside the generated tree.

use vstd::prelude::*;

verus! {

/// Bytes that a project name may not contain: `.`, `/` and `\`.
pub open spec fn forbidden_name_byte(b: u8) -> bool {
    b == 46u8 || b == 47u8 || b == 92u8
}

/// A valid project name contains no `.`, `/` or `\` byte.
pub open spec fn valid_name_bytes(s: Seq<u8>) -> bool {
    forall|i: int| 0 <= i < s.len() ==> !forbidden_name_byte(s[i])
}

/// A project name that has been checked to contain no `.`, `/` or `\`.
#[derive(Debug)]
pub struct ProjectName {
    bytes: Vec<u8>,
}

impl View for ProjectName {
    type V = Seq<u8>;

    closed spec fn view(&self) -> Seq<u8> {
        self.bytes@
    }
}

impl ProjectName {
    /// Every constructed name satisfies the validity invariant.
    pub open spec fn wf(&self) -> bool {
        valid_name_bytes(self@)
    }

    /// Accepts `bytes` as a project name exactly when it contains no `.`,
    /// `/` or `\`; rejected inputs are handed back unchanged.
    pub fn parse(bytes: Vec<u8>) -> (r: Result<ProjectName, Vec<u8>>)
        ensures
            match r {
                Ok(name) => valid_name_bytes(bytes@) && name@ == bytes@ && name.wf(),
                Err(rejected) => !valid_name_bytes(bytes@) && rejected@ == bytes@,
            },
    {
        let mut i: usize = 0;
        while i < bytes.len()
            invariant
                0 <= i <= bytes@.len(),
                forall|j: int| 0 <= j < i ==> !forbidden_name_byte(bytes@[j]),
            decreases bytes@.len() - i,
        {
            let b = bytes[i];
            if b == 46u8 || b == 47u8 || b == 92u8 {
                return Err(bytes);
            }
            i = i + 1;
        }
        Ok(ProjectName { bytes })
    }

    /// The name's bytes.
    pub fn as_bytes(&self) -> (r: &Vec<u8>)
        ensures
            r@ == self@,
    {
        &self.bytes
    }
}

} // verus!
