//! FLV framing: the file header, tag headers and the recognizers for the
//! sequence headers that a decoder needs before anything else.

use byteorder::{BigEndian, ByteOrder, WriteBytesExt};
use rml_amf0::Amf0Value;
use vstd::prelude::*;
use vstd::string::*;
use vstd::utf8::*;

verus! {

/// The kind of payload that an FLV tag carries.
#[derive(Debug, Clone, Copy, PartialEq, Eq, Structural)]
pub enum FlvTagType {
    Audio,
    Video,
    ScriptData,
}

impl FlvTagType {
    /// The byte that opens a tag of this kind.
    pub open spec fn code(self) -> u8 {
        match self {
            FlvTagType::Audio => 0x08,
            FlvTagType::Video => 0x09,
            FlvTagType::ScriptData => 0x12,
        }
    }

    pub fn as_byte(self) -> (b: u8)
        ensures
            b == self.code(),
    {
        match self {
            FlvTagType::Audio => 0x08,
            FlvTagType::Video => 0x09,
            FlvTagType::ScriptData => 0x12,
        }
    }
}

/// Size of the header that precedes the payload of a tag.
pub const TAG_HEADER_LEN: usize = 11;

/// Bytes that a tag adds around its payload: header and trailing size field.
pub const TAG_OVERHEAD: usize = 15;

/// A payload must be shorter than this for its length to fit the 24-bit
/// DataSize field.
pub const MAX_PAYLOAD_LEN: usize = 0x100_0000;

/// The three bytes of `n` in big-endian order, for `n` below 2^24.
pub open spec fn u24_be(n: nat) -> Seq<u8> {
    seq![(n / 0x1_0000 % 0x100) as u8, (n / 0x100 % 0x100) as u8, (n % 0x100) as u8]
}

/// The four bytes of `n` in big-endian order, for `n` below 2^32.
pub open spec fn u32_be(n: nat) -> Seq<u8> {
    seq![
        (n / 0x100_0000 % 0x100) as u8,
        (n / 0x1_0000 % 0x100) as u8,
        (n / 0x100 % 0x100) as u8,
        (n % 0x100) as u8,
    ]
}

/// The number that two big-endian bytes starting at `at` spell.
pub open spec fn read_u16_be(bytes: Seq<u8>, at: int) -> nat {
    (bytes[at] as nat) * 0x100 + (bytes[at + 1] as nat)
}

/// The number that three big-endian bytes starting at `at` spell.
pub open spec fn read_u24_be(bytes: Seq<u8>, at: int) -> nat {
    (bytes[at] as nat) * 0x1_0000 + (bytes[at + 1] as nat) * 0x100 + (bytes[at + 2] as nat)
}

/// The number that four big-endian bytes starting at `at` spell.
pub open spec fn read_u32_be(bytes: Seq<u8>, at: int) -> nat {
    (bytes[at] as nat) * 0x100_0000 + (bytes[at + 1] as nat) * 0x1_0000 + (bytes[at + 2] as nat)
        * 0x100 + (bytes[at + 3] as nat)
}

/// The stream prelude: signature, version 1, the flags for audio and video,
/// the header size 9, and a zero PreviousTagSize0.
pub open spec fn flv_header_bytes() -> Seq<u8> {
    seq![0x46u8, 0x4C, 0x56, 0x01, 0x05, 0x00, 0x00, 0x00, 0x09, 0x00, 0x00, 0x00, 0x00]
}

/// The 11 bytes before the payload: type, DataSize, the low 24 bits of the
/// timestamp, its high 8 bits, and a zero StreamID.
pub open spec fn tag_header_bytes(tag_type: FlvTagType, timestamp: u32, data_size: nat) -> Seq<u8> {
    seq![tag_type.code()] + u24_be(data_size) + u24_be((timestamp % 0x100_0000) as nat) + seq![
        (timestamp / 0x100_0000) as u8,
    ] + u24_be(0)
}

/// One tag: the header, the payload, and the size of both as four bytes.
pub open spec fn flv_tag_bytes(tag_type: FlvTagType, timestamp: u32, data: Seq<u8>) -> Seq<u8> {
    tag_header_bytes(tag_type, timestamp, data.len()) + data + u32_be(11 + data.len())
}

/// The DataSize field of a tag.
pub open spec fn tag_data_size(tag: Seq<u8>) -> nat {
    read_u24_be(tag, 1)
}

/// The 32-bit timestamp of a tag, put together from its two fields.
pub open spec fn tag_timestamp(tag: Seq<u8>) -> nat {
    read_u24_be(tag, 4) + (tag[7] as nat) * 0x100_0000
}

/// The payload of a tag, as long as DataSize says.
pub open spec fn tag_payload(tag: Seq<u8>) -> Seq<u8> {
    tag.subrange(11, 11 + tag_data_size(tag) as int)
}

/// The size field that closes a tag.
pub open spec fn tag_previous_size(tag: Seq<u8>) -> nat {
    read_u32_be(tag, tag.len() - 4)
}

/// Whether `tag` opens as a video tag whose payload starts a key frame and
/// holds an AVC sequence header.
pub open spec fn is_avc_sequence_header(tag: Seq<u8>) -> bool {
    tag.len() >= 14 && tag[0] == 0x09 && (tag[11] & 0xF0) == 0x10 && tag[12] == 0
}

/// Whether `tag` opens as an audio tag whose payload is AAC and holds a
/// sequence header.
pub open spec fn is_aac_sequence_header(tag: Seq<u8>) -> bool {
    tag.len() >= 14 && tag[0] == 0x08 && (tag[11] & 0xF0) == 0xA0 && tag[12] == 0
}

/// Whether a chunk is one of the two sequence headers.
pub open spec fn is_sequence_header(chunk: Seq<u8>) -> bool {
    is_avc_sequence_header(chunk) || is_aac_sequence_header(chunk)
}

/// Appends `n` as three big-endian bytes with `byteorder`'s
/// `WriteBytesExt::write_u24::<BigEndian>`. That function panics unless `n`
/// fits in 24 bits, which the precondition asks for; writing to a `Vec`
/// appends and cannot fail.
#[verifier::external_body]
fn push_u24_be(buf: &mut Vec<u8>, n: u32)
    requires
        n < 0x100_0000,
    ensures
        final(buf)@ == old(buf)@ + u24_be(n as nat),
{
    buf.write_u24::<BigEndian>(n).unwrap();
}

/// Appends `n` as four big-endian bytes with `byteorder`'s
/// `WriteBytesExt::write_u32::<BigEndian>`; writing to a `Vec` appends and
/// cannot fail.
#[verifier::external_body]
fn push_u32_be(buf: &mut Vec<u8>, n: u32)
    ensures
        final(buf)@ == old(buf)@ + u32_be(n as nat),
{
    buf.write_u32::<BigEndian>(n).unwrap();
}

/// Appends a copy of `data` to `buf`.
pub(crate) fn push_bytes(buf: &mut Vec<u8>, data: &[u8])
    ensures
        final(buf)@ == old(buf)@ + data@,
{
    let ghost before = buf@;
    let mut i: usize = 0;
    while i < data.len()
        invariant
            i <= data.len(),
            buf@ == before + data@.subrange(0, i as int),
        decreases data.len() - i,
    {
        buf.push(data[i]);
        i = i + 1;
    }
    assert(data@.subrange(0, data.len() as int) == data@);
}

/// A copy of `data`.
pub(crate) fn copy_bytes(data: &[u8]) -> (copy: Vec<u8>)
    ensures
        copy@ == data@,
{
    let mut copy: Vec<u8> = Vec::new();
    push_bytes(&mut copy, data);
    copy
}

/// The 13 bytes that open every FLV stream.
pub fn flv_header() -> (header: Vec<u8>)
    ensures
        header@ == flv_header_bytes(),
{
    let mut header: Vec<u8> = Vec::new();
    header.push(0x46);
    header.push(0x4C);
    header.push(0x56);
    header.push(0x01);
    header.push(0x05);
    header.push(0x00);
    header.push(0x00);
    header.push(0x00);
    header.push(0x09);
    header.push(0x00);
    header.push(0x00);
    header.push(0x00);
    header.push(0x00);
    header
}

/// Frames `data` as one FLV tag.
pub fn flv_tag(tag_type: FlvTagType, timestamp: u32, data: &[u8]) -> (tag: Vec<u8>)
    requires
        data.len() < MAX_PAYLOAD_LEN,
    ensures
        tag@ == flv_tag_bytes(tag_type, timestamp, data@),
{
    let mut tag: Vec<u8> = Vec::new();
    let data_size: u32 = data.len() as u32;
    let low: u32 = timestamp & 0xFF_FFFF;
    let high: u32 = (timestamp >> 24) & 0xFF;
    assert(low == timestamp % 0x100_0000 && high == timestamp / 0x100_0000 && high < 0x100) by (bit_vector)
        requires
            low == timestamp & 0xFF_FFFF,
            high == (timestamp >> 24) & 0xFF,
    ;
    tag.push(tag_type.as_byte());
    push_u24_be(&mut tag, data_size);
    push_u24_be(&mut tag, low);
    tag.push(high as u8);
    push_u24_be(&mut tag, 0);
    push_bytes(&mut tag, data);
    let total_size: usize = 11 + data.len();
    push_u32_be(&mut tag, total_size as u32);
    tag
}

/// True for a video tag that starts a key frame and carries the AVC
/// sequence header. Anything too short to tell is not one.
pub fn is_video_keyframe_avc_sequence_header(tag: &[u8]) -> (found: bool)
    ensures
        found == is_avc_sequence_header(tag@),
{
    tag.len() > 13 && tag[0] == 0x09 && (tag[11] & 0xF0) == 0x10 && tag[12] == 0
}

/// True for an audio tag that carries the AAC sequence header. Anything too
/// short to tell is not one.
pub fn is_audio_aac_sequence_header(tag: &[u8]) -> (found: bool)
    ensures
        found == is_aac_sequence_header(tag@),
{
    tag.len() > 13 && tag[0] == 0x08 && (tag[11] & 0xF0) == 0xA0 && tag[12] == 0
}

/// Reading three big-endian bytes gives back the number they were made from.
proof fn lemma_u24_round_trip(n: nat)
    requires
        n < 0x100_0000,
    ensures
        u24_be(n).len() == 3,
        read_u24_be(u24_be(n), 0) == n,
{
}

/// Reading four big-endian bytes gives back the number they were made from.
proof fn lemma_u32_round_trip(n: nat)
    requires
        n < 0x1_0000_0000,
    ensures
        u32_be(n).len() == 4,
        read_u32_be(u32_be(n), 0) == n,
{
}

/// The header byte by byte.
proof fn lemma_tag_header(tag_type: FlvTagType, timestamp: u32, data_size: nat)
    ensures
        tag_header_bytes(tag_type, timestamp, data_size).len() == 11,
        tag_header_bytes(tag_type, timestamp, data_size)[0] == tag_type.code(),
        tag_header_bytes(tag_type, timestamp, data_size).subrange(1, 4) == u24_be(data_size),
        tag_header_bytes(tag_type, timestamp, data_size).subrange(4, 7) == u24_be(
            (timestamp % 0x100_0000) as nat,
        ),
        tag_header_bytes(tag_type, timestamp, data_size)[7] == (timestamp / 0x100_0000) as u8,
{
    let h = tag_header_bytes(tag_type, timestamp, data_size);
    assert(h.subrange(1, 4) =~= u24_be(data_size));
    assert(h.subrange(4, 7) =~= u24_be((timestamp % 0x100_0000) as nat));
}

/// What a reader finds in a framed tag: its length, its type byte, the
/// DataSize, the payload, the closing size field, and the timestamp put back
/// together from its low 24 and high 8 bits.
pub proof fn flv_tag_layout(tag_type: FlvTagType, timestamp: u32, data: Seq<u8>)
    requires
        data.len() < MAX_PAYLOAD_LEN,
    ensures
        flv_tag_bytes(tag_type, timestamp, data).len() == TAG_OVERHEAD + data.len(),
        flv_tag_bytes(tag_type, timestamp, data)[0] == tag_type.code(),
        tag_data_size(flv_tag_bytes(tag_type, timestamp, data)) == data.len(),
        tag_timestamp(flv_tag_bytes(tag_type, timestamp, data)) == timestamp,
        tag_payload(flv_tag_bytes(tag_type, timestamp, data)) == data,
        tag_previous_size(flv_tag_bytes(tag_type, timestamp, data)) == TAG_HEADER_LEN + data.len(),
{
    let n = data.len();
    let header = tag_header_bytes(tag_type, timestamp, n);
    let tag = flv_tag_bytes(tag_type, timestamp, data);
    let low = (timestamp % 0x100_0000) as nat;
    let trailer = u32_be(11 + n);
    lemma_tag_header(tag_type, timestamp, n);
    lemma_u24_round_trip(n);
    lemma_u24_round_trip(low);
    lemma_u32_round_trip(11 + n);
    assert(tag.len() == 15 + n);
    assert(forall|i: int| 0 <= i < 11 ==> tag[i] == header[i]);
    assert(forall|i: int| 0 <= i < 3 ==> header.subrange(1, 4)[i] == header[i + 1]);
    assert(forall|i: int| 0 <= i < 3 ==> header.subrange(4, 7)[i] == header[i + 4]);
    assert(read_u24_be(tag, 1) == read_u24_be(u24_be(n), 0));
    assert(read_u24_be(tag, 4) == read_u24_be(u24_be(low), 0));
    assert(tag[7] == (timestamp / 0x100_0000) as u8);
    assert(tag_payload(tag) =~= data);
    assert(forall|i: int| 0 <= i < 4 ==> tag[11 + n + i] == trailer[i]);
    assert(read_u32_be(tag, tag.len() - 4) == read_u32_be(trailer, 0));
}

/// What a publisher says of its stream. Absent fields were not announced.
#[derive(Debug, Clone)]
pub struct StreamInfo {
    pub video_width: Option<u32>,
    pub video_height: Option<u32>,
    /// Frames per second, as the bits of a 64-bit float.
    pub video_frame_rate_bits: Option<u64>,
    pub video_bitrate_kbps: Option<u32>,
    pub audio_sample_rate: Option<u32>,
    pub audio_channels: Option<u32>,
    pub encoder: Option<String>,
}

/// A value of a script object.
#[derive(Debug, Clone)]
pub enum ScriptValue {
    /// A number, as the bits of its 64-bit float.
    Number(u64),
    /// A string.
    Text(String),
}

/// A named value of a script object.
#[derive(Debug, Clone)]
pub struct ScriptProperty {
    pub name: String,
    pub value: ScriptValue,
}

/// What a script value holds.
pub enum ScriptItem {
    Number(u64),
    Text(Seq<char>),
}

impl View for ScriptValue {
    type V = ScriptItem;

    open spec fn view(&self) -> ScriptItem {
        match self {
            ScriptValue::Number(bits) => ScriptItem::Number(*bits),
            ScriptValue::Text(text) => ScriptItem::Text(text@),
        }
    }
}

impl View for ScriptProperty {
    type V = (Seq<char>, ScriptItem);

    open spec fn view(&self) -> (Seq<char>, ScriptItem) {
        (self.name@, self.value@)
    }
}

/// What each property of a list holds.
pub open spec fn items(properties: Seq<ScriptProperty>) -> Seq<(Seq<char>, ScriptItem)> {
    properties.map_values(|property: ScriptProperty| property@)
}

/// The name under which the metadata of a stream is announced.
pub open spec fn metadata_name() -> Seq<char> {
    "onMetaData"@
}

/// Two to the power of `e`.
pub open spec fn two_to(e: nat) -> nat
    decreases e,
{
    if e == 0 {
        1
    } else {
        2 * two_to((e - 1) as nat)
    }
}

/// The position of the highest set bit of `n`, for `n` above zero.
pub open spec fn highest_bit(n: nat) -> nat
    decreases n,
{
    if n < 2 {
        0
    } else {
        1 + highest_bit(n / 2)
    }
}

/// The bits of the 64-bit float that equals the whole number `n`. Zero is
/// all zeros. For any other number the exponent is the position of its
/// highest set bit; it stands, raised by 1023, above bit 52, and below it
/// stands the rest of the number, moved up against the exponent.
pub open spec fn double_bits(n: u32) -> u64 {
    if n == 0 {
        0
    } else {
        let e = highest_bit(n as nat);
        ((1023 + e) * two_to(52) + (n - two_to(e)) * two_to((52 - e) as nat)) as u64
    }
}

/// The property for a number that was announced, none for one that was not.
pub open spec fn number_item(name: Seq<char>, value: Option<u32>) -> Seq<(Seq<char>, ScriptItem)> {
    match value {
        Some(n) => seq![(name, ScriptItem::Number(double_bits(n)))],
        None => Seq::empty(),
    }
}

/// The properties of the metadata tag: of width, height, frame rate, audio
/// sample rate, audio channels, video data rate and encoder, those that
/// were announced.
pub open spec fn metadata_items(metadata: StreamInfo) -> Seq<(Seq<char>, ScriptItem)> {
    number_item("width"@, metadata.video_width) + number_item("height"@, metadata.video_height)
        + (match metadata.video_frame_rate_bits {
        Some(bits) => seq![("framerate"@, ScriptItem::Number(bits))],
        None => Seq::empty(),
    }) + number_item("audiosamplerate"@, metadata.audio_sample_rate) + number_item(
        "audiochannels"@,
        metadata.audio_channels,
    ) + number_item("videodatarate"@, metadata.video_bitrate_kbps) + (match metadata.encoder {
        Some(encoder) => seq![("encoder"@, ScriptItem::Text(encoder@))],
        None => Seq::empty(),
    })
}

/// How many bytes a string takes.
pub open spec fn text_len(text: Seq<char>) -> nat {
    encode_utf8(text).len()
}

/// The longest string, in bytes, that a script can hold.
pub const MAX_SCRIPT_TEXT_LEN: usize = 0xFFFF;

/// How many bytes a property takes in a serialized object: two for the
/// length of its name, the name, and the value with its marker. A number
/// takes eight bytes, a string two for its length and then its own.
pub open spec fn item_len(item: (Seq<char>, ScriptItem)) -> nat {
    2 + text_len(item.0) + match item.1 {
        ScriptItem::Text(text) => 3 + text_len(text),
        _ => 9,
    }
}

/// How many bytes the properties of an object take together.
pub open spec fn items_len(list: Seq<(Seq<char>, ScriptItem)>) -> nat
    decreases list.len(),
{
    if list.len() == 0 {
        0
    } else {
        items_len(list.drop_last()) + item_len(list.last())
    }
}

/// Whether every string among `name` and the values of `list` is short
/// enough to be serialized.
pub open spec fn serializable(name: Seq<char>, list: Seq<(Seq<char>, ScriptItem)>) -> bool {
    &&& text_len(name) <= MAX_SCRIPT_TEXT_LEN
    &&& forall|i: int|
        0 <= i < list.len() ==> (#[trigger] list[i].1 matches ScriptItem::Text(text) ==> text_len(
            text,
        ) <= MAX_SCRIPT_TEXT_LEN)
}

/// Whether no two properties share a name.
pub open spec fn distinct_names(list: Seq<(Seq<char>, ScriptItem)>) -> bool {
    forall|i: int, j: int|
        0 <= i < j < list.len() ==> (#[trigger] list[i]).0 != (#[trigger] list[j]).0
}

/// The two bytes of `n` in big-endian order, for `n` below 2^16.
pub open spec fn u16_be(n: nat) -> Seq<u8> {
    seq![(n / 0x100 % 0x100) as u8, (n % 0x100) as u8]
}

/// The eight bytes of `n` in big-endian order.
pub open spec fn u64_be(n: u64) -> Seq<u8> {
    u32_be((n / 0x1_0000_0000) as nat) + u32_be((n % 0x1_0000_0000) as nat)
}

/// A string in a script: its marker, its length in bytes, and its bytes.
pub open spec fn string_bytes(text: Seq<char>) -> Seq<u8> {
    seq![0x02u8] + u16_be(text_len(text)) + encode_utf8(text)
}

/// A value in a script. A number is its marker and the eight bytes of its
/// float, a string as above.
pub open spec fn value_bytes(value: ScriptItem) -> Seq<u8> {
    match value {
        ScriptItem::Number(bits) => seq![0x00u8] + u64_be(bits),
        ScriptItem::Text(text) => string_bytes(text),
    }
}

/// A property in a script: the length of its name in two bytes, the name,
/// and the value.
pub open spec fn item_bytes(item: (Seq<char>, ScriptItem)) -> Seq<u8> {
    u16_be(text_len(item.0) % 0x1_0000) + encode_utf8(item.0) + value_bytes(item.1)
}

/// Whether `order` names each of `count` places once.
pub open spec fn is_arrangement(order: Seq<int>, count: nat) -> bool {
    &&& order.len() == count
    &&& forall|i: int| 0 <= i < order.len() ==> 0 <= #[trigger] order[i] < count
    &&& forall|i: int, j: int|
        0 <= i < j < order.len() ==> #[trigger] order[i] != #[trigger] order[j]
}

/// The properties of `list` one after another, in the order that `order`
/// gives.
pub open spec fn arranged_bytes(list: Seq<(Seq<char>, ScriptItem)>, order: Seq<int>) -> Seq<u8>
    decreases order.len(),
{
    if order.len() == 0 {
        Seq::empty()
    } else {
        arranged_bytes(list, order.drop_last()) + item_bytes(list[order.last()])
    }
}

/// How many bytes a serialized script takes: the name as a string, the
/// marker of the object, its properties, and its end.
pub open spec fn script_len(name: Seq<char>, list: Seq<(Seq<char>, ScriptItem)>) -> nat {
    3 + text_len(name) + 1 + items_len(list) + 3
}

/// The serialized form of a script: the name as a string, the marker of an
/// object, every property of `list` once, the empty name and the end
/// marker. The order of the properties is left open.
pub open spec fn script_body_fits(
    name: Seq<char>,
    list: Seq<(Seq<char>, ScriptItem)>,
    body: Seq<u8>,
) -> bool {
    &&& body.len() == script_len(name, list)
    &&& exists|order: Seq<int>|
        is_arrangement(order, list.len()) && body == string_bytes(name) + seq![0x03u8]
            + #[trigger] arranged_bytes(list, order) + seq![0x00u8, 0x00, 0x09]
}

/// Serializes a script with `rml_amf0::serialize`: the string `name`, then
/// an object with `properties`, each number as an AMF0 number and each text
/// as an AMF0 string; a number is handed over as the float with the given
/// bits, which `ByteOrder::read_f64` makes of them and the serializer writes
/// back unchanged, on every platform that leaves the bits of a signalling
/// NaN alone when a float is moved. It fails exactly if a string is longer
/// than 65535
/// bytes. The object is written in the order in which a hash map hands its
/// entries out, so the contract states what is written for each property
/// and leaves their order open.
#[verifier::external_body]
fn serialize_script(name: &str, properties: &Vec<ScriptProperty>) -> (body: Option<Vec<u8>>)
    requires
        distinct_names(items(properties@)),
    ensures
        body is Some <==> serializable(name@, items(properties@)),
        body matches Some(bytes) ==> script_body_fits(name@, items(properties@), bytes@),
{
    let object = properties.iter().map(
        |property| (property.name.clone(), match &property.value {
            ScriptValue::Number(bits) => Amf0Value::Number(BigEndian::read_f64(&bits.to_be_bytes())),
            ScriptValue::Text(text) => Amf0Value::Utf8String(text.clone()),
        }),
    ).collect();
    rml_amf0::serialize(&vec![Amf0Value::Utf8String(name.to_string()), Amf0Value::Object(object)]).ok()
}

/// The bits of the 64-bit float that equals `n`, as `byteorder`'s
/// `ByteOrder::write_f64` writes them for `n` turned into a float. Every
/// whole number below 2^32 is such a float exactly: sign zero, the position
/// of the highest set bit as exponent, the bits below it as fraction.
#[verifier::external_body]
fn number_bits(n: u32) -> (bits: u64)
    ensures
        bits == double_bits(n),
{
    let mut bytes = [0u8; 8];
    BigEndian::write_f64(&mut bytes, n.into());
    u64::from_be_bytes(bytes)
}

fn push_number(properties: &mut Vec<ScriptProperty>, name: &str, value: Option<u32>)
    ensures
        items(final(properties)@) == items(old(properties)@) + number_item(name@, value),
{
    match value {
        Some(n) => {
            properties.push(
                ScriptProperty {
                    name: String::from_str(name),
                    value: ScriptValue::Number(number_bits(n)),
                },
            );
        },
        None => {},
    }
    assert(items(properties@) =~= items(old(properties)@) + number_item(name@, value));
}

/// The properties that the metadata tag of a stream carries.
pub fn metadata_properties(metadata: &StreamInfo) -> (properties: Vec<ScriptProperty>)
    ensures
        items(properties@) == metadata_items(*metadata),
{
    let mut properties: Vec<ScriptProperty> = Vec::new();
    assert(items(properties@) =~= Seq::empty());
    push_number(&mut properties, "width", metadata.video_width);
    push_number(&mut properties, "height", metadata.video_height);
    let ghost before = properties@;
    match metadata.video_frame_rate_bits {
        Some(bits) => {
            properties.push(
                ScriptProperty {
                    name: String::from_str("framerate"),
                    value: ScriptValue::Number(bits),
                },
            );
            assert(items(properties@) =~= items(before).push(
                ("framerate"@, ScriptItem::Number(bits)),
            ));
        },
        None => {},
    }
    push_number(&mut properties, "audiosamplerate", metadata.audio_sample_rate);
    push_number(&mut properties, "audiochannels", metadata.audio_channels);
    push_number(&mut properties, "videodatarate", metadata.video_bitrate_kbps);
    let ghost before = properties@;
    match &metadata.encoder {
        Some(encoder) => {
            properties.push(
                ScriptProperty {
                    name: String::from_str("encoder"),
                    value: ScriptValue::Text(encoder.clone()),
                },
            );
            assert(items(properties@) =~= items(before).push(
                ("encoder"@, ScriptItem::Text(encoder@)),
            ));
        },
        None => {},
    }
    assert(items(properties@) =~= metadata_items(*metadata));
    properties
}

/// The place of a property's name in the metadata tag; 7 for any other
/// name.
spec fn slot(name: Seq<char>) -> int {
    if name == "width"@ {
        0
    } else if name == "height"@ {
        1
    } else if name == "framerate"@ {
        2
    } else if name == "audiosamplerate"@ {
        3
    } else if name == "audiochannels"@ {
        4
    } else if name == "videodatarate"@ {
        5
    } else if name == "encoder"@ {
        6
    } else {
        7
    }
}

/// Whether the names of `list` stand in the order of their places, all of
/// them before `bound`.
spec fn in_order_below(list: Seq<(Seq<char>, ScriptItem)>, bound: int) -> bool {
    &&& forall|i: int| 0 <= i < list.len() ==> slot(#[trigger] list[i].0) < bound
    &&& forall|i: int, j: int|
        0 <= i < j < list.len() ==> slot((#[trigger] list[i]).0) < slot((#[trigger] list[j]).0)
}

proof fn lemma_slots()
    ensures
        slot("width"@) == 0,
        slot("height"@) == 1,
        slot("framerate"@) == 2,
        slot("audiosamplerate"@) == 3,
        slot("audiochannels"@) == 4,
        slot("videodatarate"@) == 5,
        slot("encoder"@) == 6,
{
    reveal_strlit("width");
    reveal_strlit("height");
    reveal_strlit("framerate");
    reveal_strlit("audiosamplerate");
    reveal_strlit("audiochannels");
    reveal_strlit("videodatarate");
    reveal_strlit("encoder");
    assert("width"@.len() == 5);
    assert("height"@.len() == 6);
    assert("framerate"@.len() == 9);
    assert("audiosamplerate"@.len() == 15);
    assert("audiochannels"@.len() == 13);
    assert("videodatarate"@.len() == 13);
    assert("encoder"@.len() == 7);
    assert("audiochannels"@[0] != "videodatarate"@[0]);
}

proof fn lemma_in_order_extend(
    list: Seq<(Seq<char>, ScriptItem)>,
    next: Seq<(Seq<char>, ScriptItem)>,
    place: int,
)
    requires
        in_order_below(list, place),
        next.len() <= 1,
        next.len() == 1 ==> slot(next[0].0) == place,
    ensures
        in_order_below(list + next, place + 1),
{
    let joined = list + next;
    assert forall|i: int| 0 <= i < joined.len() implies slot(#[trigger] joined[i].0) < place
        + 1 by {
        if i < list.len() {
            assert(joined[i] == list[i]);
        }
    }
    assert forall|i: int, j: int| 0 <= i < j < joined.len() implies slot(
        (#[trigger] joined[i]).0,
    ) < slot((#[trigger] joined[j]).0) by {
        assert(joined[i] == list[i]);
        if j < list.len() {
            assert(joined[j] == list[j]);
        }
    }
}

/// No two properties of a metadata tag share a name.
pub proof fn metadata_names_are_distinct(metadata: StreamInfo)
    ensures
        distinct_names(metadata_items(metadata)),
{
    lemma_slots();
    let l0 = Seq::<(Seq<char>, ScriptItem)>::empty();
    let n1 = number_item("width"@, metadata.video_width);
    let n2 = number_item("height"@, metadata.video_height);
    let n3 = match metadata.video_frame_rate_bits {
        Some(bits) => seq![("framerate"@, ScriptItem::Number(bits))],
        None => Seq::empty(),
    };
    let n4 = number_item("audiosamplerate"@, metadata.audio_sample_rate);
    let n5 = number_item("audiochannels"@, metadata.audio_channels);
    let n6 = number_item("videodatarate"@, metadata.video_bitrate_kbps);
    let n7 = match metadata.encoder {
        Some(encoder) => seq![("encoder"@, ScriptItem::Text(encoder@))],
        None => Seq::empty(),
    };
    lemma_in_order_extend(l0, n1, 0);
    lemma_in_order_extend(l0 + n1, n2, 1);
    lemma_in_order_extend(l0 + n1 + n2, n3, 2);
    lemma_in_order_extend(l0 + n1 + n2 + n3, n4, 3);
    lemma_in_order_extend(l0 + n1 + n2 + n3 + n4, n5, 4);
    lemma_in_order_extend(l0 + n1 + n2 + n3 + n4 + n5, n6, 5);
    lemma_in_order_extend(l0 + n1 + n2 + n3 + n4 + n5 + n6, n7, 6);
    assert(l0 + n1 + n2 + n3 + n4 + n5 + n6 + n7 =~= metadata_items(metadata));
}

/// The metadata of a stream as a script tag at timestamp 0: an `onMetaData`
/// script with the properties that were announced. There is no tag if a
/// string is too long to be serialized, or the script too long for a tag.
pub fn create_metadata_tag(metadata: &StreamInfo) -> (tag: Option<Vec<u8>>)
    ensures
        tag is Some <==> serializable(metadata_name(), metadata_items(*metadata)) && script_len(
            metadata_name(),
            metadata_items(*metadata),
        ) < MAX_PAYLOAD_LEN,
        tag matches Some(bytes) ==> exists|body: Seq<u8>|
            script_body_fits(metadata_name(), metadata_items(*metadata), body) && bytes@
                == #[trigger] flv_tag_bytes(FlvTagType::ScriptData, 0, body),
{
    let properties = metadata_properties(metadata);
    proof {
        metadata_names_are_distinct(*metadata);
    }
    match serialize_script("onMetaData", &properties) {
        Some(body) => {
            if body.len() < MAX_PAYLOAD_LEN {
                Some(flv_tag(FlvTagType::ScriptData, 0, body.as_slice()))
            } else {
                None
            }
        },
        None => None,
    }
}

/// The prelude is 13 bytes long and ends the 9-byte header with a zero
/// PreviousTagSize0.
pub proof fn flv_header_layout()
    ensures
        flv_header_bytes().len() == 13,
        read_u32_be(flv_header_bytes(), 5) == 9,
        read_u32_be(flv_header_bytes(), 9) == 0,
{
}

} // verus!
