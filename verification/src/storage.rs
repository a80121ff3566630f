//! Fixed-capacity storage for topics, numerals and identifiers, held in `heapless` collections.

use vstd::prelude::*;

verus! {

/// Capacity of a topic in bytes.
pub const TOPIC_CAPACITY: usize = 128;

/// Capacity of a numeral in bytes.
pub const MAX_NUMERAL_BYTES: usize = 48;

/// Capacity of a resource identifier in bytes.
pub const MAX_RESOURCE_ID_BYTES: usize = 128;

/// Error of the `heapless` operations that would exceed a capacity.
#[verifier::external_type_specification]
#[verifier::external_body]
pub struct ExCapacityError(heapless::CapacityError);

/// Topic text in a `heapless::String` of 128 bytes.
#[derive(Debug)]
#[verifier::external_body]
pub struct TopicString {
    inner: heapless::String<TOPIC_CAPACITY>,
}

/// The characters that a topic holds.
pub uninterp spec fn topic_chars(topic: TopicString) -> Seq<char>;

impl View for TopicString {
    type V = Seq<char>;

    open spec fn view(&self) -> Seq<char> {
        topic_chars(*self)
    }
}

impl TopicString {
    /// `heapless::String::try_from`.
    ///
    /// Trusted: the text is copied whole if its UTF-8 encoding fits the capacity, and refused
    /// otherwise.
    #[verifier::external_body]
    pub(crate) fn try_from_str(text: &str) -> (r: Result<TopicString, heapless::CapacityError>)
        ensures
            r is Ok <==> crate::text::utf8_len(text@) <= TOPIC_CAPACITY,
            r matches Ok(topic) ==> topic_chars(topic) == text@,
    {
        heapless::String::try_from(text).map(|inner| TopicString { inner })
    }

    /// `heapless::String::clone`.
    ///
    /// Trusted: the copy holds the same characters.
    #[verifier::external_body]
    pub(crate) fn duplicate(&self) -> (r: TopicString)
        ensures
            topic_chars(r) == topic_chars(*self),
    {
        TopicString { inner: self.inner.clone() }
    }

    /// `heapless::String::push_str`.
    ///
    /// Trusted: the text is appended whole if the joined UTF-8 encoding fits the capacity;
    /// otherwise an error comes back and the string stays as it was.
    #[verifier::external_body]
    pub(crate) fn push_str(&mut self, text: &str) -> (r: Result<(), heapless::CapacityError>)
        ensures
            r is Ok <==> crate::text::utf8_len(topic_chars(*old(self)))
                + crate::text::utf8_len(text@) <= TOPIC_CAPACITY,
            r is Ok ==> topic_chars(*final(self)) == topic_chars(*old(self)) + text@,
            r is Err ==> topic_chars(*final(self)) == topic_chars(*old(self)),
    {
        self.inner.push_str(text)
    }

    /// `heapless::String::as_str`.
    ///
    /// Trusted: the slice is the text that the string holds.
    #[verifier::external_body]
    fn text(&self) -> (r: &str)
        ensures
            r@ == topic_chars(*self),
    {
        self.inner.as_str()
    }

    /// The topic as text.
    pub fn as_str(&self) -> (r: &str)
        ensures
            r@ == self@,
    {
        self.text()
    }
}

/// Decimal numeral in a `heapless::String` of 48 bytes.
#[derive(Debug)]
#[verifier::external_body]
pub struct Numeral {
    inner: heapless::String<MAX_NUMERAL_BYTES>,
}

/// The characters that a numeral holds.
pub uninterp spec fn numeral_chars(numeral: Numeral) -> Seq<char>;

impl View for Numeral {
    type V = Seq<char>;

    open spec fn view(&self) -> Seq<char> {
        numeral_chars(*self)
    }
}

impl Numeral {
    /// `heapless::String::new`.
    ///
    /// Trusted: a new string is empty.
    #[verifier::external_body]
    pub(crate) fn new() -> (r: Numeral)
        ensures
            numeral_chars(r) == Seq::<char>::empty(),
    {
        Numeral { inner: heapless::String::new() }
    }

    /// `heapless::String::push_str`.
    ///
    /// Trusted: the text is appended whole if the joined UTF-8 encoding fits the capacity;
    /// otherwise an error comes back and the string stays as it was.
    #[verifier::external_body]
    pub(crate) fn push_str(&mut self, text: &str) -> (r: Result<(), heapless::CapacityError>)
        ensures
            r is Ok <==> crate::text::utf8_len(numeral_chars(*old(self)))
                + crate::text::utf8_len(text@) <= MAX_NUMERAL_BYTES,
            r is Ok ==> numeral_chars(*final(self)) == numeral_chars(*old(self)) + text@,
            r is Err ==> numeral_chars(*final(self)) == numeral_chars(*old(self)),
    {
        self.inner.push_str(text)
    }

    /// `heapless::String::as_str`.
    ///
    /// Trusted: the slice is the text that the string holds.
    #[verifier::external_body]
    fn text(&self) -> (r: &str)
        ensures
            r@ == numeral_chars(*self),
    {
        self.inner.as_str()
    }

    /// The numeral as text.
    pub fn as_str(&self) -> (r: &str)
        ensures
            r@ == self@,
    {
        self.text()
    }
}

/// Resource identifier of a transfer in a `heapless::Vec` of 128 bytes.
#[derive(Debug)]
#[verifier::external_body]
pub struct ResourceId {
    inner: heapless::Vec<u8, MAX_RESOURCE_ID_BYTES>,
}

/// The bytes that a resource identifier holds.
pub uninterp spec fn resource_id_bytes(id: ResourceId) -> Seq<u8>;

impl View for ResourceId {
    type V = Seq<u8>;

    open spec fn view(&self) -> Seq<u8> {
        resource_id_bytes(*self)
    }
}

impl ResourceId {
    /// `heapless::Vec::new`.
    ///
    /// Trusted: a new vector is empty.
    #[verifier::external_body]
    pub(crate) fn new() -> (r: ResourceId)
        ensures
            resource_id_bytes(r) == Seq::<u8>::empty(),
    {
        ResourceId { inner: heapless::Vec::new() }
    }

    /// `heapless::Vec::extend_from_slice`.
    ///
    /// Trusted: the bytes are appended in order if they all fit the capacity; otherwise an error
    /// comes back and the vector stays as it was.
    #[verifier::external_body]
    pub(crate) fn extend_from_slice(&mut self, bytes: &[u8]) -> (r: Result<
        (),
        heapless::CapacityError,
    >)
        ensures
            r is Ok <==> resource_id_bytes(*old(self)).len() + bytes@.len()
                <= MAX_RESOURCE_ID_BYTES,
            r is Ok ==> resource_id_bytes(*final(self)) == resource_id_bytes(*old(self)) + bytes@,
            r is Err ==> resource_id_bytes(*final(self)) == resource_id_bytes(*old(self)),
    {
        self.inner.extend_from_slice(bytes)
    }

    /// `heapless::Vec::as_slice`.
    ///
    /// Trusted: the slice holds the vector's bytes in order.
    #[verifier::external_body]
    fn bytes(&self) -> (r: &[u8])
        ensures
            r@ == resource_id_bytes(*self),
    {
        self.inner.as_slice()
    }

    /// The identifier as bytes.
    pub fn as_slice(&self) -> (r: &[u8])
        ensures
            r@ == self@,
    {
        self.bytes()
    }
}

} // verus!
