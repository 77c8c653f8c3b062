//! Record types, their wire tags and payload layouts.
//!
//! Floating-point fields are carried as their IEEE-754 binary64 bit patterns
//! (`f64::to_bits`), so a payload holds exactly the little-endian bytes of
//! each double.
use vstd::prelude::*;

use crate::bytes::{
    le_u64, le_words, lemma_words_round_trip, push_bytes, push_u64, push_words, read_words,
    words_from_le,
};

verus! {

// Wire tags, one per record variant.
pub const TAG_BOX: u16 = 0;

pub const TAG_BOX_LINE: u16 = 1;

pub const TAG_SPHERE: u16 = 2;

pub const TAG_CYLINDER: u16 = 3;

pub const TAG_CAPSULE: u16 = 4;

pub const TAG_STL: u16 = 5;

pub const TAG_MATERIAL: u16 = 6;

pub const TAG_TRANSFORM: u16 = 7;

pub const TAG_ARROW: u16 = 8;

/// A value that can be logged: a wire tag and a payload of known length.
pub trait LoggableData {
    /// The tag written in front of the payload.
    spec fn tag(&self) -> u16;

    /// The payload bytes.
    spec fn encoding(&self) -> Seq<u8>;

    fn type_tag(&self) -> (r: u16)
        ensures
            r == self.tag(),
    ;

    /// The payload length, so that callers can size buffers in advance.
    fn size(&self) -> (r: usize)
        ensures
            r == self.encoding().len(),
    ;

    /// Appends the payload to `vec`.
    fn extend_from_bytes(&self, vec: &mut Vec<u8>)
        ensures
            final(vec)@ == old(vec)@ + self.encoding(),
    ;
}

impl<T: LoggableData> LoggableData for &T {
    open spec fn tag(&self) -> u16 {
        (**self).tag()
    }

    open spec fn encoding(&self) -> Seq<u8> {
        (**self).encoding()
    }

    fn type_tag(&self) -> u16 {
        (**self).type_tag()
    }

    fn size(&self) -> usize {
        (**self).size()
    }

    fn extend_from_bytes(&self, vec: &mut Vec<u8>) {
        (**self).extend_from_bytes(vec);
    }
}

/// An axis-aligned box given by its three extents.
pub struct Box3 {
    pub size: [u64; 3],
}

/// The outline of an axis-aligned box given by its three extents.
pub struct BoxLine3 {
    pub size: [u64; 3],
}

pub struct Sphere {
    pub radius: u64,
}

pub struct Cylinder {
    pub radius: u64,
    pub height: u64,
}

pub struct Capsule {
    pub radius: u64,
    pub height: u64,
}

/// A mesh blob (for instance an STL file), sent as it is.
pub struct Stl {
    pub data: Vec<u8>,
}

pub struct MeshMaterial {
    pub color: [u8; 3],
    pub roughness: u64,
    pub metalness: u64,
}

/// A 4x4 transform, its sixteen elements in column-major order.
pub struct Matrix4 {
    pub elements: [u64; 16],
}

pub struct Arrow3 {
    pub start: [u64; 3],
    pub end: [u64; 3],
    pub color: [u8; 3],
}

proof fn lemma_words_len(ws: Seq<u64>)
    ensures
        le_words(ws).len() == 8 * ws.len(),
{
    lemma_words_round_trip(ws);
}

impl LoggableData for Box3 {
    open spec fn tag(&self) -> u16 {
        TAG_BOX
    }

    open spec fn encoding(&self) -> Seq<u8> {
        le_words(self.size@)
    }

    fn type_tag(&self) -> u16 {
        TAG_BOX
    }

    fn size(&self) -> usize {
        proof {
            lemma_words_len(self.size@);
        }
        24
    }

    fn extend_from_bytes(&self, vec: &mut Vec<u8>) {
        push_words(vec, self.size.as_slice());
    }
}

impl LoggableData for BoxLine3 {
    open spec fn tag(&self) -> u16 {
        TAG_BOX_LINE
    }

    open spec fn encoding(&self) -> Seq<u8> {
        le_words(self.size@)
    }

    fn type_tag(&self) -> u16 {
        TAG_BOX_LINE
    }

    fn size(&self) -> usize {
        proof {
            lemma_words_len(self.size@);
        }
        24
    }

    fn extend_from_bytes(&self, vec: &mut Vec<u8>) {
        push_words(vec, self.size.as_slice());
    }
}

impl LoggableData for Sphere {
    open spec fn tag(&self) -> u16 {
        TAG_SPHERE
    }

    open spec fn encoding(&self) -> Seq<u8> {
        le_u64(self.radius)
    }

    fn type_tag(&self) -> u16 {
        TAG_SPHERE
    }

    fn size(&self) -> usize {
        8
    }

    fn extend_from_bytes(&self, vec: &mut Vec<u8>) {
        push_u64(vec, self.radius);
    }
}

impl LoggableData for Cylinder {
    open spec fn tag(&self) -> u16 {
        TAG_CYLINDER
    }

    open spec fn encoding(&self) -> Seq<u8> {
        le_u64(self.radius) + le_u64(self.height)
    }

    fn type_tag(&self) -> u16 {
        TAG_CYLINDER
    }

    fn size(&self) -> usize {
        16
    }

    fn extend_from_bytes(&self, vec: &mut Vec<u8>) {
        push_u64(vec, self.radius);
        push_u64(vec, self.height);
        assert(vec@ =~= old(vec)@ + self.encoding());
    }
}

impl LoggableData for Capsule {
    open spec fn tag(&self) -> u16 {
        TAG_CAPSULE
    }

    open spec fn encoding(&self) -> Seq<u8> {
        le_u64(self.radius) + le_u64(self.height)
    }

    fn type_tag(&self) -> u16 {
        TAG_CAPSULE
    }

    fn size(&self) -> usize {
        16
    }

    fn extend_from_bytes(&self, vec: &mut Vec<u8>) {
        push_u64(vec, self.radius);
        push_u64(vec, self.height);
        assert(vec@ =~= old(vec)@ + self.encoding());
    }
}

impl LoggableData for Stl {
    open spec fn tag(&self) -> u16 {
        TAG_STL
    }

    open spec fn encoding(&self) -> Seq<u8> {
        self.data@
    }

    fn type_tag(&self) -> u16 {
        TAG_STL
    }

    fn size(&self) -> usize {
        self.data.len()
    }

    fn extend_from_bytes(&self, vec: &mut Vec<u8>) {
        push_bytes(vec, self.data.as_slice());
    }
}

impl LoggableData for MeshMaterial {
    open spec fn tag(&self) -> u16 {
        TAG_MATERIAL
    }

    open spec fn encoding(&self) -> Seq<u8> {
        self.color@ + le_u64(self.roughness) + le_u64(self.metalness)
    }

    fn type_tag(&self) -> u16 {
        TAG_MATERIAL
    }

    fn size(&self) -> usize {
        19
    }

    fn extend_from_bytes(&self, vec: &mut Vec<u8>) {
        push_bytes(vec, self.color.as_slice());
        push_u64(vec, self.roughness);
        push_u64(vec, self.metalness);
        assert(vec@ =~= old(vec)@ + self.encoding());
    }
}

impl LoggableData for Matrix4 {
    open spec fn tag(&self) -> u16 {
        TAG_TRANSFORM
    }

    open spec fn encoding(&self) -> Seq<u8> {
        le_words(self.elements@)
    }

    fn type_tag(&self) -> u16 {
        TAG_TRANSFORM
    }

    fn size(&self) -> usize {
        proof {
            lemma_words_len(self.elements@);
        }
        128
    }

    fn extend_from_bytes(&self, vec: &mut Vec<u8>) {
        push_words(vec, self.elements.as_slice());
    }
}

impl LoggableData for Arrow3 {
    open spec fn tag(&self) -> u16 {
        TAG_ARROW
    }

    open spec fn encoding(&self) -> Seq<u8> {
        le_words(self.start@) + le_words(self.end@) + self.color@
    }

    fn type_tag(&self) -> u16 {
        TAG_ARROW
    }

    fn size(&self) -> usize {
        proof {
            lemma_words_len(self.start@);
            lemma_words_len(self.end@);
        }
        51
    }

    fn extend_from_bytes(&self, vec: &mut Vec<u8>) {
        push_words(vec, self.start.as_slice());
        push_words(vec, self.end.as_slice());
        push_bytes(vec, self.color.as_slice());
        assert(vec@ =~= old(vec)@ + self.encoding());
    }
}

/// Any one record, as a closed set of variants.
pub enum Record {
    Box(Box3),
    BoxLine(BoxLine3),
    Sphere(Sphere),
    Cylinder(Cylinder),
    Capsule(Capsule),
    Stl(Stl),
    Material(MeshMaterial),
    Transform(Matrix4),
    Arrow(Arrow3),
}

/// What a record holds: its tag, its 64-bit fields in wire order and its byte
/// fields (a color, or a mesh blob).
pub struct RecordView {
    pub tag: u16,
    pub words: Seq<u64>,
    pub bytes: Seq<u8>,
}

impl View for Record {
    type V = RecordView;

    open spec fn view(&self) -> RecordView {
        match self {
            Record::Box(b) => RecordView { tag: TAG_BOX, words: b.size@, bytes: seq![] },
            Record::BoxLine(b) => RecordView { tag: TAG_BOX_LINE, words: b.size@, bytes: seq![] },
            Record::Sphere(s) => RecordView { tag: TAG_SPHERE, words: seq![s.radius], bytes: seq![] },
            Record::Cylinder(c) => RecordView {
                tag: TAG_CYLINDER,
                words: seq![c.radius, c.height],
                bytes: seq![],
            },
            Record::Capsule(c) => RecordView {
                tag: TAG_CAPSULE,
                words: seq![c.radius, c.height],
                bytes: seq![],
            },
            Record::Stl(m) => RecordView { tag: TAG_STL, words: seq![], bytes: m.data@ },
            Record::Material(m) => RecordView {
                tag: TAG_MATERIAL,
                words: seq![m.roughness, m.metalness],
                bytes: m.color@,
            },
            Record::Transform(m) => RecordView {
                tag: TAG_TRANSFORM,
                words: m.elements@,
                bytes: seq![],
            },
            Record::Arrow(a) => RecordView {
                tag: TAG_ARROW,
                words: a.start@ + a.end@,
                bytes: a.color@,
            },
        }
    }
}

impl LoggableData for Record {
    open spec fn tag(&self) -> u16 {
        match self {
            Record::Box(b) => b.tag(),
            Record::BoxLine(b) => b.tag(),
            Record::Sphere(s) => s.tag(),
            Record::Cylinder(c) => c.tag(),
            Record::Capsule(c) => c.tag(),
            Record::Stl(m) => m.tag(),
            Record::Material(m) => m.tag(),
            Record::Transform(m) => m.tag(),
            Record::Arrow(a) => a.tag(),
        }
    }

    open spec fn encoding(&self) -> Seq<u8> {
        match self {
            Record::Box(b) => b.encoding(),
            Record::BoxLine(b) => b.encoding(),
            Record::Sphere(s) => s.encoding(),
            Record::Cylinder(c) => c.encoding(),
            Record::Capsule(c) => c.encoding(),
            Record::Stl(m) => m.encoding(),
            Record::Material(m) => m.encoding(),
            Record::Transform(m) => m.encoding(),
            Record::Arrow(a) => a.encoding(),
        }
    }

    fn type_tag(&self) -> u16 {
        match self {
            Record::Box(b) => b.type_tag(),
            Record::BoxLine(b) => b.type_tag(),
            Record::Sphere(s) => s.type_tag(),
            Record::Cylinder(c) => c.type_tag(),
            Record::Capsule(c) => c.type_tag(),
            Record::Stl(m) => m.type_tag(),
            Record::Material(m) => m.type_tag(),
            Record::Transform(m) => m.type_tag(),
            Record::Arrow(a) => a.type_tag(),
        }
    }

    fn size(&self) -> usize {
        match self {
            Record::Box(b) => b.size(),
            Record::BoxLine(b) => b.size(),
            Record::Sphere(s) => s.size(),
            Record::Cylinder(c) => c.size(),
            Record::Capsule(c) => c.size(),
            Record::Stl(m) => m.size(),
            Record::Material(m) => m.size(),
            Record::Transform(m) => m.size(),
            Record::Arrow(a) => a.size(),
        }
    }

    fn extend_from_bytes(&self, vec: &mut Vec<u8>) {
        match self {
            Record::Box(b) => b.extend_from_bytes(vec),
            Record::BoxLine(b) => b.extend_from_bytes(vec),
            Record::Sphere(s) => s.extend_from_bytes(vec),
            Record::Cylinder(c) => c.extend_from_bytes(vec),
            Record::Capsule(c) => c.extend_from_bytes(vec),
            Record::Stl(m) => m.extend_from_bytes(vec),
            Record::Material(m) => m.extend_from_bytes(vec),
            Record::Transform(m) => m.extend_from_bytes(vec),
            Record::Arrow(a) => a.extend_from_bytes(vec),
        }
    }
}

impl Record {
    /// Rebuilds the record that `payload` encodes under `tag`; `None` for an
    /// unknown tag or a payload of the wrong length.
    pub fn decode(tag: u16, payload: &[u8]) -> (r: Option<Record>)
        ensures
            match r {
                Some(rec) => decode_payload(tag, payload@) == Some(rec@),
                None => decode_payload(tag, payload@) is None,
            },
    {
        let n = payload.len();
        if tag > TAG_ARROW {
            return None;
        }
        if tag == TAG_STL {
            let mut data: Vec<u8> = Vec::new();
            push_bytes(&mut data, payload);
            assert(data@ =~= payload@);
            return Some(Record::Stl(Stl { data }));
        }
        if tag == TAG_MATERIAL {
            if n != 19 {
                return None;
            }
            let w = read_words(payload, 3, 2);
            let color = [payload[0], payload[1], payload[2]];
            assert(color@ =~= payload@.subrange(0, 3));
            assert(seq![w[0], w[1]] =~= w@);
            return Some(
                Record::Material(MeshMaterial { color, roughness: w[0], metalness: w[1] }),
            );
        }
        if tag == TAG_ARROW {
            if n != 51 {
                return None;
            }
            let w = read_words(payload, 0, 6);
            let start = [w[0], w[1], w[2]];
            let end = [w[3], w[4], w[5]];
            let color = [payload[48], payload[49], payload[50]];
            assert(start@ + end@ =~= w@);
            assert(color@ =~= payload@.subrange(48, 51));
            return Some(Record::Arrow(Arrow3 { start, end, color }));
        }
        if tag == TAG_TRANSFORM {
            if n != 128 {
                return None;
            }
            let w = read_words(payload, 0, 16);
            let elements = [
                w[0],
                w[1],
                w[2],
                w[3],
                w[4],
                w[5],
                w[6],
                w[7],
                w[8],
                w[9],
                w[10],
                w[11],
                w[12],
                w[13],
                w[14],
                w[15],
            ];
            assert(elements@ =~= w@);
            assert(payload@.subrange(0, 128) =~= payload@);
            return Some(Record::Transform(Matrix4 { elements }));
        }
        if tag == TAG_SPHERE {
            if n != 8 {
                return None;
            }
            let w = read_words(payload, 0, 1);
            assert(seq![w[0]] =~= w@);
            assert(payload@.subrange(0, 8) =~= payload@);
            return Some(Record::Sphere(Sphere { radius: w[0] }));
        }
        if tag == TAG_CYLINDER || tag == TAG_CAPSULE {
            if n != 16 {
                return None;
            }
            let w = read_words(payload, 0, 2);
            assert(seq![w[0], w[1]] =~= w@);
            assert(payload@.subrange(0, 16) =~= payload@);
            if tag == TAG_CYLINDER {
                return Some(Record::Cylinder(Cylinder { radius: w[0], height: w[1] }));
            } else {
                return Some(Record::Capsule(Capsule { radius: w[0], height: w[1] }));
            }
        }
        if n != 24 {
            return None;
        }
        let w = read_words(payload, 0, 3);
        let size = [w[0], w[1], w[2]];
        assert(size@ =~= w@);
        assert(payload@.subrange(0, 24) =~= payload@);
        if tag == TAG_BOX {
            Some(Record::Box(Box3 { size }))
        } else {
            Some(Record::BoxLine(BoxLine3 { size }))
        }
    }
}

/// The payload length that a tag fixes, if it fixes one.
pub open spec fn fixed_size(tag: u16) -> Option<nat> {
    if tag == TAG_BOX || tag == TAG_BOX_LINE {
        Some(24)
    } else if tag == TAG_SPHERE {
        Some(8)
    } else if tag == TAG_CYLINDER || tag == TAG_CAPSULE {
        Some(16)
    } else if tag == TAG_MATERIAL {
        Some(19)
    } else if tag == TAG_TRANSFORM {
        Some(128)
    } else if tag == TAG_ARROW {
        Some(51)
    } else {
        None
    }
}

/// Whether `tag` names a record variant.
pub open spec fn known_tag(tag: u16) -> bool {
    tag <= TAG_ARROW
}

/// The record that a tag and payload describe: `None` for an unknown tag, or
/// a payload whose length does not match the tag's layout.
pub open spec fn decode_payload(tag: u16, p: Seq<u8>) -> Option<RecordView> {
    if !known_tag(tag) {
        None
    } else if tag == TAG_STL {
        Some(RecordView { tag, words: seq![], bytes: p })
    } else if p.len() != fixed_size(tag)->0 {
        None
    } else if tag == TAG_MATERIAL {
        Some(RecordView { tag, words: words_from_le(p.subrange(3, 19), 2), bytes: p.subrange(0, 3) })
    } else if tag == TAG_ARROW {
        Some(RecordView { tag, words: words_from_le(p.subrange(0, 48), 6), bytes: p.subrange(48, 51) })
    } else {
        Some(RecordView { tag, words: words_from_le(p, p.len() / 8), bytes: seq![] })
    }
}

proof fn lemma_one_word(a: u64)
    ensures
        le_words(seq![a]) == le_u64(a),
{
    let e = seq![a].drop_last();
    assert(e =~= Seq::<u64>::empty());
    assert(le_words(e) =~= Seq::<u8>::empty());
    assert(le_words(seq![a]) =~= le_words(e) + le_u64(a));
}

proof fn lemma_two_words(a: u64, b: u64)
    ensures
        le_u64(a) + le_u64(b) == le_words(seq![a, b]),
{
    lemma_one_word(a);
    assert(seq![a, b].drop_last() =~= seq![a]);
}

proof fn lemma_plain_round_trip(tag: u16, ws: Seq<u64>)
    requires
        tag == TAG_BOX || tag == TAG_BOX_LINE || tag == TAG_SPHERE || tag == TAG_CYLINDER || tag
            == TAG_CAPSULE || tag == TAG_TRANSFORM,
        8 * ws.len() == fixed_size(tag)->0,
    ensures
        decode_payload(tag, le_words(ws)) == Some(RecordView { tag, words: ws, bytes: seq![] }),
{
    lemma_words_round_trip(ws);
    assert(le_words(ws).len() / 8 == ws.len());
}

proof fn lemma_material_round_trip(m: &MeshMaterial)
    ensures
        decode_payload(TAG_MATERIAL, m.encoding()) == Some(
            RecordView { tag: TAG_MATERIAL, words: seq![m.roughness, m.metalness], bytes: m.color@ },
        ),
{
    let p = m.encoding();
    lemma_two_words(m.roughness, m.metalness);
    lemma_words_round_trip(seq![m.roughness, m.metalness]);
    assert(p.subrange(0, 3) =~= m.color@);
    assert(p.subrange(3, 19) =~= le_u64(m.roughness) + le_u64(m.metalness));
}

proof fn lemma_arrow_round_trip(a: &Arrow3)
    ensures
        decode_payload(TAG_ARROW, a.encoding()) == Some(
            RecordView { tag: TAG_ARROW, words: a.start@ + a.end@, bytes: a.color@ },
        ),
{
    let p = a.encoding();
    let ws = a.start@ + a.end@;
    lemma_words_concat(a.start@, a.end@);
    lemma_words_round_trip(ws);
    assert(p.subrange(0, 48) =~= le_words(ws));
    assert(p.subrange(48, 51) =~= a.color@);
}

/// Decoding a record's payload under its tag gives back the record.
pub proof fn lemma_record_round_trip(r: &Record)
    ensures
        decode_payload(r.tag(), r.encoding()) == Some(r@),
        r.tag() == r@.tag,
{
    match r {
        Record::Box(b) => lemma_plain_round_trip(TAG_BOX, b.size@),
        Record::BoxLine(b) => lemma_plain_round_trip(TAG_BOX_LINE, b.size@),
        Record::Sphere(s) => {
            lemma_one_word(s.radius);
            lemma_plain_round_trip(TAG_SPHERE, seq![s.radius]);
        },
        Record::Cylinder(c) => {
            lemma_two_words(c.radius, c.height);
            lemma_plain_round_trip(TAG_CYLINDER, seq![c.radius, c.height]);
        },
        Record::Capsule(c) => {
            lemma_two_words(c.radius, c.height);
            lemma_plain_round_trip(TAG_CAPSULE, seq![c.radius, c.height]);
        },
        Record::Stl(_) => {},
        Record::Material(m) => lemma_material_round_trip(m),
        Record::Transform(m) => lemma_plain_round_trip(TAG_TRANSFORM, m.elements@),
        Record::Arrow(a) => lemma_arrow_round_trip(a),
    }
}

proof fn lemma_words_concat(a: Seq<u64>, b: Seq<u64>)
    ensures
        le_words(a + b) == le_words(a) + le_words(b),
    decreases b.len(),
{
    if b.len() == 0 {
        assert(a + b =~= a);
        assert(le_words(a) + le_words(b) =~= le_words(a));
    } else {
        lemma_words_concat(a, b.drop_last());
        assert((a + b).drop_last() =~= a + b.drop_last());
        assert((a + b).last() == b.last());
        assert(le_words(a) + le_words(b) =~= le_words(a) + le_words(b.drop_last()) + le_u64(
            b.last(),
        ));
    }
}

} // verus!
