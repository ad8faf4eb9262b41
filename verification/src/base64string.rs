use vstd::prelude::*;

verus! {

/// An opaque base64-encoded value attached to an account's data store.
///
/// Decoding the base64 envelope is deliberately lazy at this layer: the
/// deserializer only validates that the wire value is a JSON string, and the
/// encoded text is carried through unchanged.
#[derive(Debug)]
pub struct Base64String {
    encoded: String,
}

impl View for Base64String {
    type V = Seq<char>;

    closed spec fn view(&self) -> Seq<char> {
        self.encoded@
    }
}

impl Base64String {
    /// Wraps an encoded value as received from the wire.
    pub fn new(encoded: String) -> (r: Base64String)
        ensures
            r@ == encoded@,
    {
        Base64String { encoded }
    }

    /// The base64 text exactly as it arrived.
    pub fn encoded(&self) -> (r: &String)
        ensures
            r@ == self@,
    {
        &self.encoded
    }
}

impl PartialEq for Base64String {
    /// Value equality of the encoded text.
    fn eq(&self, other: &Base64String) -> (r: bool) {
        self.encoded == other.encoded
    }
}

impl vstd::std_specs::cmp::PartialEqSpecImpl for Base64String {
    open spec fn obeys_eq_spec() -> bool {
        true
    }

    open spec fn eq_spec(&self, other: &Base64String) -> bool {
        self@ == other@
    }
}

} // verus!
