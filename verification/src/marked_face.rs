//! Boundary faces of a mesh of tetrahedra: from the engine's records, one
//! per face and cell, to faces with an identity of their own.

use vstd::prelude::*;

verus! {

/// The identity of a face: the ids of its three corners in ascending order.
#[derive(Clone, Copy, Debug, PartialEq, Eq, Structural)]
pub struct FaceKey {
    pub a: i32,
    pub b: i32,
    pub c: i32,
}

/// A marked face as the engine records it: the ids of its points (three
/// corners, then up to three middle nodes, as the touching cell orders them),
/// its marker, and the id of the cell that touches it.
#[derive(Clone, Copy, Debug)]
pub struct FaceRecord {
    pub points: [i32; 6],
    pub marker: i32,
    pub cell: usize,
}

/// A marked face of the output.
#[derive(Clone, Copy, Debug)]
pub struct MarkedFace {
    /// The identity of the face.
    pub key: FaceKey,
    /// The ids of the points, as the first record of the face gave them.
    pub points: [i32; 6],
    /// The marker of the face: the first marker other than zero among its records.
    pub marker: i32,
    /// The id of the cell of the first record of the face.
    pub cell: usize,
    /// Whether two records of the face carried different markers other than zero.
    pub conflict: bool,
}

impl FaceKey {
    /// Whether the three ids are in ascending order.
    pub open spec fn ascending(self) -> bool {
        self.a <= self.b <= self.c
    }

    /// Whether the key holds the given three ids, in any order.
    pub open spec fn holds(self, p: i32, q: i32, r: i32) -> bool {
        ||| (self.a == p && self.b == q && self.c == r)
        ||| (self.a == p && self.b == r && self.c == q)
        ||| (self.a == q && self.b == p && self.c == r)
        ||| (self.a == q && self.b == r && self.c == p)
        ||| (self.a == r && self.b == p && self.c == q)
        ||| (self.a == r && self.b == q && self.c == p)
    }
}

/// The smallest of three ids.
pub open spec fn min3(p: i32, q: i32, r: i32) -> i32 {
    if p <= q && p <= r {
        p
    } else if q <= r {
        q
    } else {
        r
    }
}

/// The largest of three ids.
pub open spec fn max3(p: i32, q: i32, r: i32) -> i32 {
    if p >= q && p >= r {
        p
    } else if q >= r {
        q
    } else {
        r
    }
}

/// The key of the face with the corners `p`, `q` and `r`.
pub open spec fn key_of(p: i32, q: i32, r: i32) -> FaceKey {
    FaceKey { a: min3(p, q, r), b: (p + q + r - min3(p, q, r) - max3(p, q, r)) as i32, c: max3(p, q, r) }
}

/// The key of the face of a record: its three corners in ascending order.
pub open spec fn record_key(record: FaceRecord) -> FaceKey {
    key_of(record.points[0], record.points[1], record.points[2])
}

/// The marker of a face after one more record: a marker other than zero
/// stays, and zero gives way.
pub open spec fn merged_marker(kept: i32, next: i32) -> i32 {
    if kept != 0 {
        kept
    } else {
        next
    }
}

/// Whether two markers of one face contradict each other.
pub open spec fn markers_conflict(kept: i32, next: i32) -> bool {
    kept != 0 && next != 0 && kept != next
}

/// The first position among the first `n` faces that has the key, or `n`.
pub open spec fn position(faces: Seq<MarkedFace>, key: FaceKey, n: nat) -> nat
    decreases n,
{
    if n == 0 {
        0
    } else if position(faces, key, (n - 1) as nat) < n - 1 {
        position(faces, key, (n - 1) as nat)
    } else if faces[n - 1].key == key {
        (n - 1) as nat
    } else {
        n
    }
}

/// The face that a record gives where no earlier record has its key.
pub open spec fn first_face(record: FaceRecord) -> MarkedFace {
    MarkedFace {
        key: record_key(record),
        points: record.points,
        marker: record.marker,
        cell: record.cell,
        conflict: false,
    }
}

/// A face after one more record of it.
pub open spec fn merged_face(face: MarkedFace, record: FaceRecord) -> MarkedFace {
    MarkedFace {
        marker: merged_marker(face.marker, record.marker),
        conflict: face.conflict || markers_conflict(face.marker, record.marker),
        ..face
    }
}

/// The faces after one more record: a record with a new key adds a face at
/// the end, a record with a known key is merged into the face of that key.
pub open spec fn absorb(faces: Seq<MarkedFace>, record: FaceRecord) -> Seq<MarkedFace> {
    let at = position(faces, record_key(record), faces.len());
    if at < faces.len() {
        faces.update(at as int, merged_face(faces[at as int], record))
    } else {
        faces.push(first_face(record))
    }
}

/// The marked faces that a list of records describes.
pub open spec fn reconstruct(records: Seq<FaceRecord>) -> Seq<MarkedFace>
    decreases records.len(),
{
    if records.len() == 0 {
        Seq::empty()
    } else {
        absorb(reconstruct(records.drop_last()), records.last())
    }
}

/// Returns the key of the face with the given corners.
pub fn face_key(p: i32, q: i32, r: i32) -> (key: FaceKey)
    ensures
        key == key_of(p, q, r),
        key.ascending(),
        key.holds(p, q, r),
{
    if p <= q {
        if q <= r {
            FaceKey { a: p, b: q, c: r }
        } else if p <= r {
            FaceKey { a: p, b: r, c: q }
        } else {
            FaceKey { a: r, b: p, c: q }
        }
    } else {
        if p <= r {
            FaceKey { a: q, b: p, c: r }
        } else if q <= r {
            FaceKey { a: q, b: r, c: p }
        } else {
            FaceKey { a: r, b: q, c: p }
        }
    }
}

/// Returns the first position of a key among the faces, or their number.
pub fn find_face(faces: &Vec<MarkedFace>, key: FaceKey) -> (at: usize)
    ensures
        at == position(faces@, key, faces@.len()),
        at <= faces.len(),
{
    let mut i: usize = 0;
    while i < faces.len()
        invariant
            i <= faces.len(),
            position(faces@, key, i as nat) == i,
        decreases faces.len() - i,
    {
        if faces[i].key == key {
            proof {
                lemma_position_found(faces@, key, i as nat, faces@.len());
            }
            return i;
        }
        i += 1;
    }
    i
}

/// Once a key is found at a position, later faces do not change the answer.
pub proof fn lemma_position_found(faces: Seq<MarkedFace>, key: FaceKey, at: nat, n: nat)
    requires
        at < n <= faces.len(),
        position(faces, key, at) == at,
        faces[at as int].key == key,
    ensures
        position(faces, key, n) == at,
    decreases n,
{
    if n > at + 1 {
        lemma_position_found(faces, key, at, (n - 1) as nat);
    }
}

/// Builds the marked faces from the engine's records.
pub fn reconstruct_marked_faces(records: &Vec<FaceRecord>) -> (faces: Vec<MarkedFace>)
    ensures
        faces@ == reconstruct(records@),
{
    let mut faces: Vec<MarkedFace> = Vec::new();
    let mut i: usize = 0;
    assert(records@.take(0) =~= Seq::empty());
    while i < records.len()
        invariant
            i <= records.len(),
            faces@ == reconstruct(records@.take(i as int)),
        decreases records.len() - i,
    {
        let record = records[i];
        let key = face_key(record.points[0], record.points[1], record.points[2]);
        let at = find_face(&faces, key);
        if at < faces.len() {
            let face = faces[at];
            let marker = if face.marker != 0 {
                face.marker
            } else {
                record.marker
            };
            let conflict = face.conflict || (face.marker != 0 && record.marker != 0 && face.marker
                != record.marker);
            faces.set(
                at,
                MarkedFace { key: face.key, points: face.points, marker, cell: face.cell, conflict },
            );
        } else {
            faces.push(
                MarkedFace {
                    key,
                    points: record.points,
                    marker: record.marker,
                    cell: record.cell,
                    conflict: false,
                },
            );
        }
        proof {
            let next = records@.take(i + 1);
            assert(next.drop_last() =~= records@.take(i as int));
            assert(next.last() == record);
        }
        i += 1;
    }
    assert(records@.take(records.len() as int) =~= records@);
    faces
}

/// The key of a face does not depend on the order in which its corners are
/// given, and it holds exactly these corners in ascending order.
pub proof fn lemma_key_ignores_order(p: i32, q: i32, r: i32)
    ensures
        key_of(p, q, r) == key_of(p, r, q),
        key_of(p, q, r) == key_of(q, p, r),
        key_of(p, q, r) == key_of(q, r, p),
        key_of(p, q, r) == key_of(r, p, q),
        key_of(p, q, r) == key_of(r, q, p),
        key_of(p, q, r).ascending(),
        key_of(p, q, r).holds(p, q, r),
{
}

/// Whether some face has the key.
pub open spec fn has_face(faces: Seq<MarkedFace>, key: FaceKey) -> bool {
    exists|f: int| 0 <= f < faces.len() && (#[trigger] faces[f]).key == key
}

/// Whether some record has the key and the marker.
pub open spec fn has_record(records: Seq<FaceRecord>, key: FaceKey, marker: i32) -> bool {
    exists|r: int|
        0 <= r < records.len() && record_key(#[trigger] records[r]) == key && records[r].marker
            == marker
}

/// Whether the record at `r` is the first with the key.
pub open spec fn is_first_record(records: Seq<FaceRecord>, r: int, key: FaceKey) -> bool {
    &&& 0 <= r < records.len()
    &&& record_key(records[r]) == key
    &&& forall|q: int| 0 <= q < r ==> record_key(#[trigger] records[q]) != key
}

/// Whether two records of the key carry different markers other than zero.
pub open spec fn has_conflict(records: Seq<FaceRecord>, key: FaceKey) -> bool {
    exists|r: int, q: int|
        0 <= r < records.len() && 0 <= q < records.len() && record_key(#[trigger] records[r])
            == key && record_key(#[trigger] records[q]) == key && records[r].marker != 0
            && records[q].marker != 0 && records[r].marker != records[q].marker
}

/// Whether no two faces share a key.
pub open spec fn keys_distinct(faces: Seq<MarkedFace>) -> bool {
    forall|i: int, j: int|
        0 <= i < j < faces.len() ==> (#[trigger] faces[i]).key != (#[trigger] faces[j]).key
}

/// Whether a face says of the records of its key what it should: it has the
/// points and the cell of the first of them; its marker is zero where all
/// their markers are zero, and one of their markers otherwise; and it
/// reports a conflict exactly where two of them contradict each other, while
/// without a conflict every marker among them is zero or the face's own.
pub open spec fn face_describes(face: MarkedFace, records: Seq<FaceRecord>) -> bool {
    &&& exists|r: int| #[trigger]
        is_first_record(records, r, face.key) && face.points == records[r].points && face.cell
            == records[r].cell
    &&& face.marker != 0 ==> has_record(records, face.key, face.marker)
    &&& face.marker == 0 ==> forall|r: int|
        0 <= r < records.len() && record_key(#[trigger] records[r]) == face.key
            ==> records[r].marker == 0
    &&& face.conflict == has_conflict(records, face.key)
    &&& !face.conflict ==> forall|r: int|
        0 <= r < records.len() && record_key(#[trigger] records[r]) == face.key
            ==> records[r].marker == 0 || records[r].marker == face.marker
}

/// Whether a list of faces is what a list of records describes: one face
/// for each key among the records, no key twice, each face true to the
/// records of its key.
pub open spec fn faces_describe(faces: Seq<MarkedFace>, records: Seq<FaceRecord>) -> bool {
    &&& faces.len() <= records.len()
    &&& keys_distinct(faces)
    &&& forall|r: int|
        0 <= r < records.len() ==> has_face(faces, record_key(#[trigger] records[r]))
    &&& forall|f: int| 0 <= f < faces.len() ==> face_describes(#[trigger] faces[f], records)
}

/// The position that a search for a key gives is the first face with the
/// key, or the number of faces searched where none has it.
pub proof fn lemma_position_is_first(faces: Seq<MarkedFace>, key: FaceKey, n: nat)
    requires
        n <= faces.len(),
    ensures
        position(faces, key, n) <= n,
        position(faces, key, n) < n ==> faces[position(faces, key, n) as int].key == key,
        forall|i: int| 0 <= i < position(faces, key, n) ==> (#[trigger] faces[i]).key != key,
    decreases n,
{
    if n > 0 {
        lemma_position_is_first(faces, key, (n - 1) as nat);
    }
}

/// A face that is true to some records stays true when a record of another
/// key follows them.
pub proof fn lemma_face_keeps_describing(
    face: MarkedFace,
    records: Seq<FaceRecord>,
    record: FaceRecord,
)
    requires
        face_describes(face, records),
        record_key(record) != face.key,
    ensures
        face_describes(face, records.push(record)),
{
    let more = records.push(record);
    let first = choose|r: int| #[trigger]
        is_first_record(records, r, face.key) && face.points == records[r].points && face.cell
            == records[r].cell;
    assert(is_first_record(more, first, face.key)) by {
        assert forall|q: int| 0 <= q < first implies record_key(#[trigger] more[q])
            != face.key by {
            assert(more[q] == records[q]);
        }
    }
    assert(more[first] == records[first]);
    if face.marker != 0 {
        let r = choose|r: int|
            0 <= r < records.len() && record_key(#[trigger] records[r]) == face.key
                && records[r].marker == face.marker;
        assert(more[r] == records[r]);
    }
    assert forall|r: int|
        0 <= r < more.len() && record_key(#[trigger] more[r]) == face.key implies 0 <= r
        < records.len() && more[r] == records[r] by {}
    if has_conflict(records, face.key) {
        let (r, q) = choose|r: int, q: int|
            0 <= r < records.len() && 0 <= q < records.len() && record_key(
                #[trigger] records[r],
            ) == face.key && record_key(#[trigger] records[q]) == face.key && records[r].marker
                != 0 && records[q].marker != 0 && records[r].marker != records[q].marker;
        assert(more[r] == records[r]);
        assert(more[q] == records[q]);
        assert(has_conflict(more, face.key));
    }
    if has_conflict(more, face.key) {
        let (r, q) = choose|r: int, q: int|
            0 <= r < more.len() && 0 <= q < more.len() && record_key(#[trigger] more[r])
                == face.key && record_key(#[trigger] more[q]) == face.key && more[r].marker != 0
                && more[q].marker != 0 && more[r].marker != more[q].marker;
        assert(more[r] == records[r]);
        assert(more[q] == records[q]);
        assert(has_conflict(records, face.key));
    }
}

/// A face that is true to some records, merged with one more record of its
/// key, is true to all of them.
pub proof fn lemma_merged_face_describes(
    face: MarkedFace,
    records: Seq<FaceRecord>,
    record: FaceRecord,
)
    requires
        face_describes(face, records),
        record_key(record) == face.key,
    ensures
        face_describes(merged_face(face, record), records.push(record)),
{
    let more = records.push(record);
    let merged = merged_face(face, record);
    let last = records.len() as int;
    assert(more[last] == record);
    let first = choose|r: int| #[trigger]
        is_first_record(records, r, face.key) && face.points == records[r].points && face.cell
            == records[r].cell;
    assert(is_first_record(more, first, merged.key)) by {
        assert forall|q: int| 0 <= q < first implies record_key(#[trigger] more[q])
            != face.key by {
            assert(more[q] == records[q]);
        }
    }
    assert(more[first] == records[first]);
    assert forall|r: int| 0 <= r < records.len() implies #[trigger] more[r] == records[r] by {}
    if merged.marker != 0 {
        if face.marker != 0 {
            let r = choose|r: int|
                0 <= r < records.len() && record_key(#[trigger] records[r]) == face.key
                    && records[r].marker == face.marker;
            assert(more[r] == records[r]);
            assert(has_record(more, merged.key, merged.marker));
        } else {
            assert(has_record(more, merged.key, merged.marker));
        }
    }
    if face.conflict {
        let (r, q) = choose|r: int, q: int|
            0 <= r < records.len() && 0 <= q < records.len() && record_key(
                #[trigger] records[r],
            ) == face.key && record_key(#[trigger] records[q]) == face.key && records[r].marker
                != 0 && records[q].marker != 0 && records[r].marker != records[q].marker;
        assert(more[r] == records[r]);
        assert(more[q] == records[q]);
        assert(has_conflict(more, merged.key));
    } else if markers_conflict(face.marker, record.marker) {
        let r = choose|r: int|
            0 <= r < records.len() && record_key(#[trigger] records[r]) == face.key
                && records[r].marker == face.marker;
        assert(more[r] == records[r]);
        assert(has_conflict(more, merged.key));
    } else {
        if has_conflict(more, merged.key) {
            let (r, q) = choose|r: int, q: int|
                0 <= r < more.len() && 0 <= q < more.len() && record_key(#[trigger] more[r])
                    == face.key && record_key(#[trigger] more[q]) == face.key && more[r].marker
                    != 0 && more[q].marker != 0 && more[r].marker != more[q].marker;
            if r < last {
                assert(more[r] == records[r]);
            }
            if q < last {
                assert(more[q] == records[q]);
            }
            assert(false);
        }
    }
}

/// The face that the first record of a key gives is true to the records up
/// to and with that record.
pub proof fn lemma_first_face_describes(records: Seq<FaceRecord>, record: FaceRecord)
    requires
        forall|r: int| 0 <= r < records.len() ==> record_key(#[trigger] records[r]) != record_key(
            record,
        ),
    ensures
        face_describes(first_face(record), records.push(record)),
{
    let more = records.push(record);
    let face = first_face(record);
    let last = records.len() as int;
    assert(more[last] == record);
    assert(is_first_record(more, last, face.key)) by {
        assert forall|q: int| 0 <= q < last implies record_key(#[trigger] more[q])
            != face.key by {
            assert(more[q] == records[q]);
        }
    }
    assert forall|r: int|
        0 <= r < more.len() && record_key(#[trigger] more[r]) == face.key implies r == last by {
        if r < last {
            assert(more[r] == records[r]);
        }
    }
    if face.marker != 0 {
        assert(has_record(more, face.key, face.marker));
    }
    if has_conflict(more, face.key) {
        let (r, q) = choose|r: int, q: int|
            0 <= r < more.len() && 0 <= q < more.len() && record_key(#[trigger] more[r])
                == face.key && record_key(#[trigger] more[q]) == face.key && more[r].marker != 0
                && more[q].marker != 0 && more[r].marker != more[q].marker;
        assert(r == last && q == last);
        assert(false);
    }
}

/// Faces that are what some records describe, after one more record, are
/// what all of them describe.
pub proof fn lemma_absorb_describes(
    faces: Seq<MarkedFace>,
    records: Seq<FaceRecord>,
    record: FaceRecord,
)
    requires
        faces_describe(faces, records),
    ensures
        faces_describe(absorb(faces, record), records.push(record)),
{
    let key = record_key(record);
    let at = position(faces, key, faces.len()) as int;
    let more = records.push(record);
    let next = absorb(faces, record);
    lemma_position_is_first(faces, key, faces.len());
    assert(more[records.len() as int] == record);
    if at < faces.len() {
        assert forall|f: int| 0 <= f < next.len() implies (#[trigger] next[f]).key
            == faces[f].key by {}
        assert(keys_distinct(next)) by {
            assert forall|i: int, j: int| 0 <= i < j < next.len() implies (#[trigger] next[i]).key
                != (#[trigger] next[j]).key by {
                assert(faces[i].key != faces[j].key);
            }
        }
        assert forall|f: int| 0 <= f < next.len() implies face_describes(
            #[trigger] next[f],
            more,
        ) by {
            if f == at {
                lemma_merged_face_describes(faces[at], records, record);
            } else {
                assert(face_describes(faces[f], records));
                if f < at {
                    assert(faces[f].key != faces[at].key);
                } else {
                    assert(faces[at].key != faces[f].key);
                }
                lemma_face_keeps_describing(faces[f], records, record);
            }
        }
    } else {
        assert forall|f: int| 0 <= f < faces.len() implies #[trigger] next[f] == faces[f] by {}
        assert(next[faces.len() as int] == first_face(record));
        assert(keys_distinct(next)) by {
            assert forall|i: int, j: int| 0 <= i < j < next.len() implies (#[trigger] next[i]).key
                != (#[trigger] next[j]).key by {
                if j < faces.len() {
                    assert(faces[i].key != faces[j].key);
                } else {
                    assert(faces[i].key != key);
                }
            }
        }
        assert forall|r: int| 0 <= r < records.len() implies record_key(#[trigger] records[r])
            != key by {
            assert(has_face(faces, record_key(records[r])));
            let f = choose|f: int|
                0 <= f < faces.len() && (#[trigger] faces[f]).key == record_key(records[r]);
            assert(faces[f].key != key);
        }
        assert forall|f: int| 0 <= f < next.len() implies face_describes(
            #[trigger] next[f],
            more,
        ) by {
            if f < faces.len() {
                assert(face_describes(faces[f], records));
                assert(faces[f].key != key);
                lemma_face_keeps_describing(faces[f], records, record);
            } else {
                lemma_first_face_describes(records, record);
            }
        }
    }
    assert forall|r: int| 0 <= r < more.len() implies has_face(
        next,
        record_key(#[trigger] more[r]),
    ) by {
        if r < records.len() {
            assert(more[r] == records[r]);
            assert(has_face(faces, record_key(records[r])));
            let f = choose|f: int|
                0 <= f < faces.len() && (#[trigger] faces[f]).key == record_key(records[r]);
            assert(next[f].key == faces[f].key);
        } else {
            if at < faces.len() {
                assert(next[at].key == key);
            } else {
                assert(next[faces.len() as int].key == key);
            }
        }
    }
}

/// The marked faces that records describe hold one face for each key among
/// the records and no key twice, and each face is true to the records of
/// its key.
pub proof fn lemma_reconstruct_describes(records: Seq<FaceRecord>)
    ensures
        faces_describe(reconstruct(records), records),
    decreases records.len(),
{
    if records.len() > 0 {
        lemma_reconstruct_describes(records.drop_last());
        lemma_absorb_describes(reconstruct(records.drop_last()), records.drop_last(), records.last());
        assert(records.drop_last().push(records.last()) =~= records);
    }
}

/// Records of which no two share a key give one marked face each, in their
/// order, with their own points, marker and cell.
pub proof fn lemma_reconstruct_distinct_records(records: Seq<FaceRecord>)
    requires
        forall|r: int, q: int|
            0 <= r < q < records.len() ==> record_key(#[trigger] records[r]) != record_key(
                #[trigger] records[q],
            ),
    ensures
        reconstruct(records) == records.map_values(|record: FaceRecord| first_face(record)),
    decreases records.len(),
{
    let made = records.map_values(|record: FaceRecord| first_face(record));
    if records.len() == 0 {
        assert(reconstruct(records) =~= made);
    } else {
        let before = records.drop_last();
        let record = records.last();
        lemma_reconstruct_distinct_records(before);
        let faces = reconstruct(before);
        lemma_position_is_first(faces, record_key(record), faces.len());
        let at = position(faces, record_key(record), faces.len()) as int;
        if at < faces.len() {
            assert(faces[at].key == record_key(before[at]));
            assert(before[at] == records[at]);
            assert(record_key(records[at]) != record_key(records[records.len() - 1]));
        }
        assert(reconstruct(records) =~= made);
    }
}

} // verus!
