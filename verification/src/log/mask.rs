//! Blanking secrets in a line of the log.

use vstd::prelude::*;
use vstd::utf8::encode_utf8;

verus! {

/// How many bytes from the start of a marker stay readable.
pub const MASK_KEEP: usize = 13;

/// How many bytes after those are blanked at most.
pub const MASK_MAX: usize = 60;

/// What stands in place of the blanked bytes.
pub open spec fn mask_stars() -> Seq<u8> {
    seq![42u8, 42u8, 42u8, 42u8, 42u8, 42u8]
}

/// `needle` stands in `hay` at byte `i`.
pub open spec fn occurs_at(hay: Seq<u8>, needle: Seq<u8>, i: int) -> bool {
    0 <= i && i + needle.len() <= hay.len() && hay.subrange(i, i + needle.len()) == needle
}

/// `needle` stands somewhere in `hay`.
pub open spec fn occurs(hay: Seq<u8>, needle: Seq<u8>) -> bool {
    exists|i: int| occurs_at(hay, needle, i)
}

/// Byte `i` is the first place where `needle` stands in `hay`.
pub open spec fn is_first_occurrence(hay: Seq<u8>, needle: Seq<u8>, i: int) -> bool {
    occurs_at(hay, needle, i) && forall|j: int| 0 <= j < i ==> !occurs_at(hay, needle, j)
}

/// Marker `k` is the first of `markers` that stands in `line`, and `index`
/// is the first place where it does.
pub open spec fn is_mask_position(
    line: Seq<u8>,
    markers: Seq<Seq<u8>>,
    k: int,
    index: int,
) -> bool {
    &&& 0 <= k < markers.len()
    &&& forall|j: int| 0 <= j < k ==> !occurs(line, #[trigger] markers[j])
    &&& is_first_occurrence(line, markers[k], index)
}

/// No marker stands in `line`.
pub open spec fn unmarked(line: Seq<u8>, markers: Seq<Seq<u8>>) -> bool {
    forall|k: int| 0 <= k < markers.len() ==> !occurs(line, #[trigger] markers[k])
}

/// The line with the secret after a marker at byte `index` blanked. The
/// first [`MASK_KEEP`] bytes from the marker on stay. Of what follows, up to
/// [`MASK_MAX`] bytes are replaced by six stars, but never the last byte of
/// the line; a line with at most one byte there stays as it is.
pub open spec fn masked_at(line: Seq<u8>, index: int) -> Seq<u8> {
    let room = line.len() - index - MASK_KEEP;
    if room <= 1 {
        line
    } else {
        let cut = if room - 1 < MASK_MAX {
            room - 1
        } else {
            MASK_MAX as int
        };
        line.subrange(0, index + MASK_KEEP) + mask_stars() + line.subrange(
            index + MASK_KEEP + cut,
            line.len() as int,
        )
    }
}

/// `masked` is what becomes of `line` under `markers`: blanked after the
/// first place of the first marker that stands in it, unchanged where none
/// does.
pub open spec fn is_masked(line: Seq<u8>, markers: Seq<Seq<u8>>, masked: Seq<u8>) -> bool {
    &&& unmarked(line, markers) ==> masked == line
    &&& forall|k: int, index: int| #[trigger]
        is_mask_position(line, markers, k, index) ==> masked == masked_at(line, index)
}

/// Whether `needle` stands in `hay` at byte `i`.
pub fn stands_at(hay: &[u8], needle: &[u8], i: usize) -> (found: bool)
    ensures
        found == occurs_at(hay@, needle@, i as int),
{
    let n = hay.len();
    let m = needle.len();
    if i > n || m > n - i {
        return false;
    }
    let mut k: usize = 0;
    while k < m
        invariant
            k <= m,
            m == needle@.len(),
            n == hay@.len(),
            i + m <= n,
            hay@.subrange(i as int, i + k) == needle@.subrange(0, k as int),
        decreases m - k,
    {
        if hay[i + k] != needle[k] {
            assert(hay@.subrange(i as int, i + needle@.len())[k as int] != needle@[k as int]);
            return false;
        }
        assert(hay@.subrange(i as int, i + k + 1) =~= hay@.subrange(i as int, i + k).push(
            hay@[i + k],
        ));
        assert(needle@.subrange(0, k + 1) =~= needle@.subrange(0, k as int).push(needle@[k as int]));
        k = k + 1;
    }
    assert(needle@.subrange(0, needle@.len() as int) =~= needle@);
    true
}

/// The first place where `needle` stands in `hay`. An empty needle stands
/// at the very start.
pub fn find(hay: &[u8], needle: &[u8]) -> (place: Option<usize>)
    ensures
        match place {
            Some(i) => is_first_occurrence(hay@, needle@, i as int),
            None => !occurs(hay@, needle@),
        },
{
    if needle.len() > hay.len() {
        return None;
    }
    let last = hay.len() - needle.len();
    let mut i: usize = 0;
    loop
        invariant
            i <= last,
            last == hay@.len() - needle@.len(),
            forall|j: int| 0 <= j < i ==> !occurs_at(hay@, needle@, j),
        decreases last - i,
    {
        if stands_at(hay, needle, i) {
            return Some(i);
        }
        if i == last {
            return None;
        }
        i = i + 1;
    }
}

/// The UTF-8 bytes of each marker.
pub open spec fn marker_bytes(markers: Seq<Seq<char>>) -> Seq<Seq<u8>> {
    Seq::new(markers.len(), |k: int| encode_utf8(markers[k]))
}

/// Blanks the secret in a line of the log, as [`is_masked`] says of the
/// line's bytes and the markers' bytes. The count is in bytes, so the result
/// need not be text: a cut may fall inside a character.
pub fn mask_line(line: &[u8], markers: &Vec<&str>) -> (masked: Vec<u8>)
    ensures
        is_masked(line@, marker_bytes(Seq::new(markers@.len(), |k: int| markers@[k]@)), masked@),
{
    let ghost marks = marker_bytes(Seq::new(markers@.len(), |k: int| markers@[k]@));
    let mut found: Option<usize> = None;
    let mut k: usize = 0;
    while k < markers.len() && found.is_none()
        invariant
            k <= markers@.len(),
            marks == marker_bytes(Seq::new(markers@.len(), |k: int| markers@[k]@)),
            match found {
                Some(index) => is_mask_position(line@, marks, k - 1, index as int),
                None => forall|j: int| 0 <= j < k ==> !occurs(line@, #[trigger] marks[j]),
            },
        decreases markers@.len() - k + if found is None { 1nat } else { 0nat },
    {
        found = find(line, markers[k].as_bytes());
        k = k + 1;
    }
    let mut masked: Vec<u8> = Vec::new();
    match found {
        Some(index) => {
            assert(is_mask_position(line@, marks, k - 1, index as int));
            let n = line.len();
            let rest = n - index;
            if rest <= MASK_KEEP + 1 {
                copy_into(&mut masked, line, 0, n);
                assert(masked@ =~= line@);
            } else {
                let room = rest - MASK_KEEP;
                let cut = if room - 1 < MASK_MAX { room - 1 } else { MASK_MAX };
                copy_into(&mut masked, line, 0, index + MASK_KEEP);
                let mut s: usize = 0;
                while s < 6
                    invariant
                        s <= 6,
                        masked@ == line@.subrange(0, index + MASK_KEEP) + mask_stars().subrange(
                            0,
                            s as int,
                        ),
                    decreases 6 - s,
                {
                    masked.push(42u8);
                    assert(mask_stars().subrange(0, s + 1) =~= mask_stars().subrange(
                        0,
                        s as int,
                    ).push(42u8));
                    s = s + 1;
                }
                assert(mask_stars().subrange(0, 6) =~= mask_stars());
                copy_into(&mut masked, line, index + MASK_KEEP + cut, n);
                assert(masked@ =~= masked_at(line@, index as int));
            }
            assert forall|k2: int, index2: int| #[trigger]
                is_mask_position(line@, marks, k2, index2) implies masked@ == masked_at(
                line@,
                index2,
            ) by {
                let k1 = k - 1;
                assert(occurs_at(line@, marks[k1], index as int));
                assert(occurs_at(line@, marks[k2], index2));
                if k2 < k1 {
                    assert(!occurs(line@, marks[k2]));
                } else if k1 < k2 {
                    assert(!occurs(line@, marks[k1]));
                }
                if index2 < index {
                    assert(!occurs_at(line@, marks[k1], index2));
                } else if index < index2 {
                    assert(!occurs_at(line@, marks[k2], index as int));
                }
            }
            assert(!unmarked(line@, marks)) by {
                assert(occurs(line@, marks[k - 1]));
            }
        },
        None => {
            copy_into(&mut masked, line, 0, line.len());
            assert(masked@ =~= line@);
            assert(unmarked(line@, marks));
            assert forall|k2: int, index2: int| #[trigger]
                is_mask_position(line@, marks, k2, index2) implies masked@ == masked_at(
                line@,
                index2,
            ) by {
                assert(occurs_at(line@, marks[k2], index2));
            }
        },
    }
    masked
}

/// Appends bytes `from` to `to` of `source` to `target`.
fn copy_into(target: &mut Vec<u8>, source: &[u8], from: usize, to: usize)
    requires
        from <= to <= source@.len(),
    ensures
        final(target)@ == old(target)@ + source@.subrange(from as int, to as int),
{
    let mut i: usize = from;
    while i < to
        invariant
            from <= i <= to <= source@.len(),
            target@ == old(target)@ + source@.subrange(from as int, i as int),
        decreases to - i,
    {
        target.push(source[i]);
        assert(source@.subrange(from as int, i + 1) =~= source@.subrange(
            from as int,
            i as int,
        ).push(source@[i as int]));
        assert(target@ =~= old(target)@ + source@.subrange(from as int, i + 1));
        i = i + 1;
    }
}

} // verus!
