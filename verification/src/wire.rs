//! Messages as they are written, field after field, and what is read of them.
//!
//! Each law takes the fields of a message by name, puts them one after the other in the order in
//! which a server sends them, and says what the application is notified of.
use crate::codes::IncomingMessageIds;
use crate::decoder::{
    is_any_interpretation, message_bad_field, message_complete, message_tells, Ending,
    Interpretation,
};
use crate::errors::IBKRApiLibError;
use crate::fields::{int_or_zero, long_or_zero};
use crate::number::Double;
use crate::text::integer_i32;
use vstd::prelude::*;

pub mod account;
pub mod contracts;
pub mod depth;
pub mod history;
pub mod lookup;
pub mod news;
pub mod orders;
pub mod session;
pub mod ticks;

verus! {

/// Whether a field writes the integer `v`.
pub open spec fn writes(field: String, v: i32) -> bool {
    integer_i32(field@) == Some(v)
}

/// The integer that a field gives.
pub open spec fn number(field: String) -> i32 {
    int_or_zero(field@)
}

/// The long integer that a field gives.
pub open spec fn long(field: String) -> i64 {
    long_or_zero(field@)
}

/// Whether a field says that there are `n` entries. What is not positive says that there are none.
pub open spec fn counts(field: String, n: nat) -> bool {
    if number(field) > 0 {
        number(field) == n
    } else {
        n == 0
    }
}

/// What is read of a text that is sent under a condition only.
pub open spec fn text_sent(condition: bool, field: String) -> Seq<char> {
    if condition {
        field@
    } else {
        seq![]
    }
}

/// What is read of an integer that is sent under a condition only.
pub open spec fn number_sent(condition: bool, field: String) -> i32 {
    if condition {
        number(field)
    } else {
        0
    }
}

/// What is read of a number with a fraction that is sent under a condition only.
pub open spec fn double_sent(condition: bool, field: String) -> Double {
    if condition {
        Double::Parsed(field)
    } else {
        Double::Whole(0)
    }
}

/// Whether the bit of this weight, a power of two, is set in a mask.
pub open spec fn bit(mask: i32, weight: int) -> bool {
    (mask as int / weight) % 2 == 1
}

/// The lowest three bits of a mask.
pub(crate) proof fn lemma_bits(mask: i32)
    ensures
        (mask & 1 != 0) == bit(mask, 1),
        (mask & 2 != 0) == bit(mask, 2),
        (mask & 4 != 0) == bit(mask, 4),
{
    let high = (mask as int / 8) as i32;
    let low = (mask as int % 8) as i32;
    assert(mask == 8 * high + low);
    assert((mask & 1 != 0) == (low == 1 || low == 3 || low == 5 || low == 7)) by (bit_vector)
        requires
            mask == 8 * high + low,
            0 <= low < 8,
    ;
    assert((mask & 2 != 0) == (low == 2 || low == 3 || low == 6 || low == 7)) by (bit_vector)
        requires
            mask == 8 * high + low,
            0 <= low < 8,
    ;
    assert((mask & 4 != 0) == (low >= 4)) by (bit_vector)
        requires
            mask == 8 * high + low,
            0 <= low < 8,
    ;
}

/// Fields that are sent under a condition only.
pub open spec fn sent_if(condition: bool, fields: Seq<String>) -> Seq<String> {
    if condition {
        fields
    } else {
        seq![]
    }
}

/// Whether `f` begins with the fields `a`.
#[verifier::opaque]
pub(crate) open spec fn begins(f: Seq<String>, a: Seq<String>) -> bool {
    &&& a.len() <= f.len()
    &&& forall|i: int| 0 <= i < a.len() ==> #[trigger] f[i] == a[i]
}

/// A message begins with all of itself.
pub(crate) proof fn lemma_all(f: Seq<String>)
    ensures
        begins(f, f),
{
    reveal(begins);
}

/// Whether the fields `part` stand in `f` from field `start` on.
#[verifier::opaque]
pub(crate) open spec fn stands(f: Seq<String>, start: int, part: Seq<String>) -> bool {
    &&& 0 <= start
    &&& start + part.len() <= f.len()
    &&& forall|i: int| 0 <= i < part.len() ==> f[start + i] == #[trigger] part[i]
}

/// A message that begins with `a` and `part` begins with `a`, and `part` follows.
pub(crate) proof fn lemma_part(f: Seq<String>, a: Seq<String>, part: Seq<String>)
    requires
        begins(f, a + part),
    ensures
        begins(f, a),
        stands(f, a.len() as int, part),
        a.len() + part.len() <= f.len(),
        (a + part).len() == a.len() + part.len(),
{
    reveal(begins);
    reveal(stands);
    let b = a + part;
    assert(forall|i: int| 0 <= i < a.len() ==> b[i] == a[i]);
    assert forall|i: int| 0 <= i < part.len() implies f[a.len() + i] == #[trigger] part[i] by {
        assert(f[a.len() + i] == b[a.len() + i]);
    }
}

/// What a message begins with stands at its beginning.
pub(crate) proof fn lemma_beginning(f: Seq<String>, a: Seq<String>)
    requires
        begins(f, a),
    ensures
        a.len() <= f.len(),
        forall|i: int| 0 <= i < a.len() ==> #[trigger] f[i] == a[i],
{
    reveal(begins);
}

/// No fields tell nothing.
pub proof fn lemma_no_fields(server_version: i32, r: Interpretation)
    requires
        is_any_interpretation(server_version, seq![], r),
    ensures
        r.ending is Done,
        r.events@.len() == 0,
{
}

/// A message whose first field is no integer is in error, whatever follows.
pub proof fn lemma_no_kind(server_version: i32, f: Seq<String>, r: Interpretation)
    requires
        f.len() > 0,
        integer_i32(f[0]@) is None,
        is_any_interpretation(server_version, f, r),
    ensures
        r.ending == Ending::Failed(IBKRApiLibError::ParseInt(f[0])),
        r.events@.len() == 0,
{
}

/// A message of a kind without a name tells nothing and breaks off.
pub proof fn lemma_unknown_kind(server_version: i32, f: Seq<String>, code: i32, r: Interpretation)
    requires
        f.len() > 0,
        writes(f[0], code),
        forall|id: IncomingMessageIds| id.code() != code,
        is_any_interpretation(server_version, f, r),
    ensures
        r.ending is BrokenOff,
        r.events@.len() == 0,
{
    if let Some(id) = IncomingMessageIds::of(code) {
        id.lemma_code(code);
    }
}

/// A complete message of kind `id` is read to its end, and tells what that kind tells.
pub(crate) proof fn lemma_kind(
    server_version: i32,
    f: Seq<String>,
    id: IncomingMessageIds,
    r: Interpretation,
)
    requires
        f.len() > 0,
        writes(f[0], id.code()),
        message_complete(id, server_version, f),
        message_bad_field(id, server_version, f) is None,
        is_any_interpretation(server_version, f, r),
    ensures
        r.ending is Done,
        message_tells(id, server_version, f, r.events@),
{
    id.lemma_code(id.code());
}

/// The fields of several entries, one entry after the other.
pub open spec fn one_by_one(entries: Seq<Seq<String>>) -> Seq<String>
    decreases entries.len(),
{
    if entries.len() == 0 {
        seq![]
    } else {
        one_by_one(entries.drop_last()) + entries.last()
    }
}

/// Whether field `j` of entry `i` is where it belongs.
pub(crate) open spec fn in_place(entries: Seq<Seq<String>>, width: int, i: int, j: int) -> bool {
    &&& 0 <= width * i + j < width * entries.len()
    &&& one_by_one(entries)[width * i + j] == entries[i][j]
}

/// Where the fields of entries are that have `width` fields each.
pub(crate) proof fn lemma_one_by_one(entries: Seq<Seq<String>>, width: int)
    requires
        width >= 0,
        forall|i: int| 0 <= i < entries.len() ==> (#[trigger] entries[i]).len() == width,
    ensures
        one_by_one(entries).len() == width * entries.len(),
        forall|i: int, j: int|
            #![trigger entries[i][j]]
            0 <= i < entries.len() && 0 <= j < width ==> in_place(entries, width, i, j),
{
    lemma_in_place(entries, width);
}

/// Each field of entries that have `width` fields each is where it belongs.
proof fn lemma_in_place(entries: Seq<Seq<String>>, width: int)
    requires
        width >= 0,
        forall|i: int| 0 <= i < entries.len() ==> (#[trigger] entries[i]).len() == width,
    ensures
        one_by_one(entries).len() == width * entries.len(),
        forall|i: int, j: int|
            0 <= i < entries.len() && 0 <= j < width ==> #[trigger] in_place(entries, width, i, j),
    decreases entries.len(),
{
    if entries.len() > 0 {
        let n = entries.len() as int;
        let before = entries.drop_last();
        lemma_in_place(before, width);
        assert(width * n == width * (n - 1) + width) by (nonlinear_arith);
        assert(0 <= width * (n - 1)) by (nonlinear_arith)
            requires
                width >= 0,
                n >= 1,
        ;
        assert forall|i: int, j: int| 0 <= i < entries.len() && 0 <= j < width implies in_place(
            entries,
            width,
            i,
            j,
        ) by {
            if i < n - 1 {
                assert(in_place(before, width, i, j));
                assert(before[i] == entries[i]);
            }
        }
    } else {
        assert(width * 0 == 0) by (nonlinear_arith);
    }
}

} // verus!
