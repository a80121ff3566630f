//! Correlation data and offset of a chunk publish, read from its MQTT properties.

use crate::text::{parse_u32, text_equal};
use vstd::prelude::*;

verus! {

/// Key of the user property that carries a chunk offset.
pub const OFFSET_KEY: &'static str = "offset";

/// Property collection of an MQTT packet.
#[verifier::external_type_specification]
#[verifier::external_body]
pub struct ExProperties<'a>(minimq::Properties<'a>);

/// One MQTT property, as far as the service tells them apart.
pub enum PropertyItem<'a> {
    /// Correlation data.
    CorrelationData(&'a [u8]),
    /// User property with its key and value.
    UserProperty(&'a str, &'a str),
    /// Any other property, or one that could not be decoded.
    Other,
}

/// Contents of one MQTT property.
pub enum PropertyView {
    /// Correlation data.
    CorrelationData(Seq<u8>),
    /// User property with its key and value.
    UserProperty(Seq<char>, Seq<char>),
    /// Any other property, or one that could not be decoded.
    Other,
}

impl<'a> View for PropertyItem<'a> {
    type V = PropertyView;

    open spec fn view(&self) -> PropertyView {
        match *self {
            PropertyItem::CorrelationData(data) => PropertyView::CorrelationData(data@),
            PropertyItem::UserProperty(key, value) => PropertyView::UserProperty(key@, value@),
            PropertyItem::Other => PropertyView::Other,
        }
    }
}

/// The properties of a collection, in the order in which it yields them.
pub uninterp spec fn property_list(properties: &minimq::Properties<'_>) -> Seq<PropertyView>;

/// `minimq::Properties::iter`.
///
/// Trusted: the iterator yields the properties one by one, the same ones every time, with an error
/// in place of one that cannot be decoded. Errors and properties of other kinds are handed out as
/// `PropertyItem::Other`.
#[verifier::external_body]
pub(crate) fn property_items<'a>(properties: &'a minimq::Properties<'a>) -> (items: Vec<
    PropertyItem<'a>,
>)
    ensures
        items@.len() == property_list(properties).len(),
        forall|i: int|
            0 <= i < items@.len() ==> (#[trigger] items@[i])@ == property_list(properties)[i],
{
    properties.iter().map(|property| match property {
        Ok(minimq::Property::CorrelationData(data)) => PropertyItem::CorrelationData(data),
        Ok(minimq::Property::UserProperty(key, value)) => PropertyItem::UserProperty(key, value),
        _ => PropertyItem::Other,
    }).collect()
}

/// Data of the first correlation data property.
pub open spec fn first_correlation(list: Seq<PropertyView>) -> Option<Seq<u8>>
    decreases list.len(),
{
    if list.len() == 0 {
        None
    } else {
        match list[0] {
            PropertyView::CorrelationData(data) => Some(data),
            _ => first_correlation(list.drop_first()),
        }
    }
}

/// `minimq::Properties::correlation_data`.
///
/// Trusted: the result is the data of the first property that is correlation data, among those
/// that `minimq::Properties::iter` yields, if there is one.
#[verifier::external_body]
pub(crate) fn correlation_data<'a>(properties: &'a minimq::Properties<'a>) -> (data: Option<
    &'a [u8],
>)
    ensures
        data is Some <==> first_correlation(property_list(properties)) is Some,
        data matches Some(bytes) ==> first_correlation(property_list(properties)) == Some(bytes@),
{
    properties.correlation_data()
}

/// Number in the last `offset` user property; none if that property holds no number or there is
/// no such property.
pub open spec fn last_offset(list: Seq<PropertyView>) -> Option<u32>
    decreases list.len(),
{
    if list.len() == 0 {
        None
    } else {
        match list.last() {
            PropertyView::UserProperty(key, value) if key == OFFSET_KEY@ => {
                crate::text::parsed_u32(value)
            },
            _ => last_offset(list.drop_last()),
        }
    }
}

/// Resource identifier and offset that a chunk publish with these properties names. Both have to
/// be there.
pub open spec fn chunk_request(list: Seq<PropertyView>) -> Option<(Seq<u8>, u32)> {
    match (first_correlation(list), last_offset(list)) {
        (Some(resource_id), Some(offset)) => Some((resource_id, offset)),
        _ => None,
    }
}

/// Whether a property is a user property with the key `offset`.
pub open spec fn names_offset(property: PropertyView) -> bool {
    property matches PropertyView::UserProperty(key, _) && key == "offset"@
}

/// Without correlation data there is none to be found.
proof fn lemma_no_correlation(list: Seq<PropertyView>)
    requires
        forall|k: int| 0 <= k < list.len() ==> !(#[trigger] list[k] is CorrelationData),
    ensures
        first_correlation(list) is None,
    decreases list.len(),
{
    if list.len() > 0 {
        assert(!(list[0] is CorrelationData));
        assert forall|k: int| 0 <= k < list.drop_first().len() implies !(
        #[trigger] list.drop_first()[k] is CorrelationData) by {
            assert(list.drop_first()[k] == list[k + 1]);
        }
        lemma_no_correlation(list.drop_first());
    }
}

/// Without an `offset` property there is no offset to be found.
proof fn lemma_no_offset(list: Seq<PropertyView>)
    requires
        forall|k: int| 0 <= k < list.len() ==> !names_offset(#[trigger] list[k]),
    ensures
        last_offset(list) is None,
    decreases list.len(),
{
    if list.len() > 0 {
        assert(!names_offset(list[list.len() - 1]));
        assert forall|k: int| 0 <= k < list.drop_last().len() implies !names_offset(
            #[trigger] list.drop_last()[k],
        ) by {
            assert(list.drop_last()[k] == list[k]);
        }
        lemma_no_offset(list.drop_last());
    }
}

/// Where the first correlation data property holds `data`, `data` is the correlation data.
proof fn lemma_correlation_found(list: Seq<PropertyView>, i: int, data: Seq<u8>)
    requires
        0 <= i < list.len(),
        list[i] == PropertyView::CorrelationData(data),
        forall|k: int| 0 <= k < i ==> !(#[trigger] list[k] is CorrelationData),
    ensures
        first_correlation(list) == Some(data),
    decreases i,
{
    if i > 0 {
        assert(!(list[0] is CorrelationData));
        assert forall|k: int| 0 <= k < i - 1 implies !(
        #[trigger] list.drop_first()[k] is CorrelationData) by {
            assert(list.drop_first()[k] == list[k + 1]);
        }
        lemma_correlation_found(list.drop_first(), i - 1, data);
    }
}

/// Where the last `offset` property holds `value`, the offset is read from `value`.
proof fn lemma_offset_found(list: Seq<PropertyView>, j: int, value: Seq<char>)
    requires
        0 <= j < list.len(),
        list[j] == PropertyView::UserProperty("offset"@, value),
        forall|k: int| j < k < list.len() ==> !names_offset(#[trigger] list[k]),
    ensures
        last_offset(list) == crate::text::parsed_u32(value),
    decreases list.len(),
{
    if j < list.len() - 1 {
        assert(!names_offset(list[list.len() - 1]));
        lemma_offset_found(list.drop_last(), j, value);
    }
}

/// A chunk publish is under the resource identifier in its first correlation data, at the offset in
/// its last `offset` property, and names no chunk if that holds no 32-bit number.
pub proof fn chunk_request_is_read(
    list: Seq<PropertyView>,
    i: int,
    resource_id: Seq<u8>,
    j: int,
    value: Seq<char>,
)
    requires
        0 <= i < list.len(),
        list[i] == PropertyView::CorrelationData(resource_id),
        forall|k: int| 0 <= k < i ==> !(#[trigger] list[k] is CorrelationData),
        0 <= j < list.len(),
        list[j] == PropertyView::UserProperty("offset"@, value),
        forall|k: int| j < k < list.len() ==> !names_offset(#[trigger] list[k]),
    ensures
        crate::text::parsed_u32(value) is None ==> chunk_request(list) is None,
        crate::text::parsed_u32(value) matches Some(offset) ==> chunk_request(list) == Some(
            (resource_id, offset),
        ),
{
    lemma_correlation_found(list, i, resource_id);
    lemma_offset_found(list, j, value);
}

/// A publish without correlation data or without an `offset` property names no chunk.
pub proof fn incomplete_request_is_none(list: Seq<PropertyView>)
    ensures
        (forall|k: int| 0 <= k < list.len() ==> !(#[trigger] list[k] is CorrelationData))
            ==> chunk_request(list) is None,
        (forall|k: int| 0 <= k < list.len() ==> !names_offset(#[trigger] list[k]))
            ==> chunk_request(list) is None,
{
    if forall|k: int| 0 <= k < list.len() ==> !(#[trigger] list[k] is CorrelationData) {
        lemma_no_correlation(list);
    }
    if forall|k: int| 0 <= k < list.len() ==> !names_offset(#[trigger] list[k]) {
        lemma_no_offset(list);
    }
}

/// Properties are seen as they are.
pub proof fn property_contents<'a>(data: &'a [u8], key: &'a str, value: &'a str, offset: u32)
    ensures
        PropertyItem::CorrelationData(data)@ == PropertyView::CorrelationData(data@),
        PropertyItem::UserProperty(key, value)@ == PropertyView::UserProperty(key@, value@),
        PropertyItem::<'a>::Other@ == PropertyView::Other,
        (ChunkProperties { resource_id: data, offset })@ == (data@, offset),
{
}

/// Resource identifier and offset of a chunk publish.
pub struct ChunkProperties<'a> {
    /// Resource identifier of the transfer that the chunk belongs to.
    pub resource_id: &'a [u8],
    /// Offset of the chunk in the image.
    pub offset: u32,
}

impl<'a> View for ChunkProperties<'a> {
    type V = (Seq<u8>, u32);

    open spec fn view(&self) -> (Seq<u8>, u32) {
        (self.resource_id@, self.offset)
    }
}

/// Number in the last `offset` user property of `items`.
pub fn offset_property<'a>(items: &Vec<PropertyItem<'a>>) -> (offset: Option<u32>)
    ensures
        offset == last_offset(Seq::new(items@.len(), |i: int| items@[i]@)),
{
    let ghost list = Seq::new(items@.len(), |i: int| items@[i]@);
    let mut offset: Option<u32> = None;
    for i in 0..items.len()
        invariant
            list == Seq::new(items@.len(), |i: int| items@[i]@),
            offset == last_offset(list.take(i as int)),
    {
        proof {
            assert(list.take(i + 1).drop_last() =~= list.take(i as int));
            assert(list.take(i + 1).last() == items@[i as int]@);
        }
        match &items[i] {
            PropertyItem::UserProperty(key, value) => {
                if text_equal(key, OFFSET_KEY) {
                    offset = parse_u32(value);
                }
            },
            _ => {},
        }
    }
    assert(list.take(list.len() as int) =~= list);
    offset
}

/// Read the resource identifier and offset of a chunk publish.
pub fn chunk_properties<'a>(properties: &'a minimq::Properties<'a>) -> (r: Option<
    ChunkProperties<'a>,
>)
    ensures
        r is Some <==> chunk_request(property_list(properties)) is Some,
        r matches Some(chunk) ==> chunk_request(property_list(properties)) == Some(chunk@),
{
    let resource_id = match correlation_data(properties) {
        Some(resource_id) => resource_id,
        None => return None,
    };
    let items = property_items(properties);
    proof {
        assert(Seq::new(items@.len(), |i: int| items@[i]@) =~= property_list(properties));
    }
    match offset_property(&items) {
        Some(offset) => Some(ChunkProperties { resource_id, offset }),
        None => None,
    }
}

} // verus!
