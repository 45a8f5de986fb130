use vstd::prelude::*;

verus! {

/// What an operation returns on success: nothing, or the response's bytes.
pub trait S3BodyReader: Sized {
    /// Whether the operation reads the response body on success.
    spec fn expects_body() -> bool;

    /// The bytes a success value carries.
    spec fn body_bytes(&self) -> Seq<u8>;

    fn has_body() -> (r: bool)
        ensures
            r == Self::expects_body(),
    ;

    fn from_vec(src: Vec<u8>) -> (r: Self)
        ensures
            r.body_bytes() == (if Self::expects_body() {
                src@
            } else {
                Seq::empty()
            }),
    ;

    fn default() -> (r: Self)
        ensures
            r.body_bytes() == Seq::<u8>::empty(),
    ;
}

impl S3BodyReader for () {
    open spec fn expects_body() -> bool {
        false
    }

    open spec fn body_bytes(&self) -> Seq<u8> {
        Seq::empty()
    }

    fn has_body() -> (r: bool) {
        false
    }

    fn from_vec(_src: Vec<u8>) -> (r: Self) {
        ()
    }

    fn default() -> (r: Self) {
        ()
    }
}

impl S3BodyReader for Vec<u8> {
    open spec fn expects_body() -> bool {
        true
    }

    open spec fn body_bytes(&self) -> Seq<u8> {
        self@
    }

    fn has_body() -> (r: bool) {
        true
    }

    fn from_vec(src: Vec<u8>) -> (r: Self) {
        src
    }

    fn default() -> (r: Self) {
        Vec::new()
    }
}

} // verus!
