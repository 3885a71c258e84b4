//! The fields of a message, read one after the other.
use crate::errors::IBKRApiLibError;
use crate::number::{AbsentMark, Double};
use crate::text::{
    integer, integer_i32, integer_i64, integer_text, lemma_integer_reads_back, parse_i32, parse_i64,
};
use std::slice::Iter;
use vstd::prelude::*;
use vstd::slice::slice_subrange;
use vstd::std_specs::iter::IteratorSpec;

verus! {

/// The integer that stands for one that is not set.
pub const UNSET_INTEGER: i32 = 2147483647;

/// The `i32` that a field writes, or zero.
pub open spec fn int_or_zero(s: Seq<char>) -> i32 {
    match integer_i32(s) {
        Some(v) => v,
        None => 0,
    }
}

/// The `i64` that a field writes, or zero.
pub open spec fn long_or_zero(s: Seq<char>) -> i64 {
    match integer_i64(s) {
        Some(v) => v,
        None => 0,
    }
}

/// A field that writes an integer gives that integer, if it is in range; any other field gives
/// zero.
pub proof fn lemma_integer_field(s: Seq<char>)
    ensures
        integer(s) matches Some(v) ==> int_or_zero(s) == if i32::MIN <= v <= i32::MAX {
            v
        } else {
            0
        },
        integer(s) matches Some(v) ==> long_or_zero(s) == if i64::MIN <= v <= i64::MAX {
            v
        } else {
            0
        },
        integer(s) is None ==> int_or_zero(s) == 0 && long_or_zero(s) == 0,
{
}

/// An integer that is written in decimal is the integer that the field gives.
pub proof fn lemma_written_integer(v: int)
    ensures
        i32::MIN <= v <= i32::MAX ==> int_or_zero(integer_text(v)) == v,
        i64::MIN <= v <= i64::MAX ==> long_or_zero(integer_text(v)) == v,
{
    lemma_integer_reads_back(v);
}

/// Takes the next item of an iterator.
fn advance<I: Iterator>(iter: &mut I) -> (r: Option<I::Item>)
    requires
        (*old(iter)).obeys_prophetic_iter_laws(),
    ensures
        (*old(iter)).remaining().len() > 0 ==> {
            &&& r == Some((*old(iter)).remaining()[0])
            &&& (*final(iter)).remaining() == (*old(iter)).remaining().drop_first()
        },
        (*old(iter)).remaining().len() == 0 ==> {
            &&& r is None
            &&& (*final(iter)).remaining() == (*old(iter)).remaining()
        },
{
    iter.next()
}

/// Reads the next field as an `i32`; a field that is none counts as zero.
pub fn decode_i32(iter: &mut Iter<String>) -> (r: Result<i32, IBKRApiLibError>)
    requires
        (*old(iter)).remaining().len() > 0,
    ensures
        r == Ok::<i32, IBKRApiLibError>(int_or_zero((*old(iter)).remaining()[0]@)),
        (*final(iter)).remaining() == (*old(iter)).remaining().drop_first(),
{
    let next = advance(iter);
    let val: i32 = parse_i32(next.unwrap().as_str()).unwrap_or(0);
    Ok(val)
}

/// Reads the next field as an `i32`, with `UNSET_INTEGER` in place of zero.
pub fn decode_i32_show_unset(iter: &mut Iter<String>) -> (r: Result<i32, IBKRApiLibError>)
    requires
        (*old(iter)).remaining().len() > 0,
    ensures
        r == Ok::<i32, IBKRApiLibError>(
            if int_or_zero((*old(iter)).remaining()[0]@) == 0 {
                UNSET_INTEGER
            } else {
                int_or_zero((*old(iter)).remaining()[0]@)
            },
        ),
        r->Ok_0 != 0,
        (*final(iter)).remaining() == (*old(iter)).remaining().drop_first(),
{
    let next = advance(iter);
    let retval: i32 = parse_i32(next.unwrap().as_str()).unwrap_or(0);
    Ok(
        if retval == 0 {
            UNSET_INTEGER
        } else {
            retval
        },
    )
}

/// Reads the next field as an `i64`; a field that is none counts as zero.
pub fn decode_i64(iter: &mut Iter<String>) -> (r: Result<i64, IBKRApiLibError>)
    requires
        (*old(iter)).remaining().len() > 0,
    ensures
        r == Ok::<i64, IBKRApiLibError>(long_or_zero((*old(iter)).remaining()[0]@)),
        (*final(iter)).remaining() == (*old(iter)).remaining().drop_first(),
{
    let next = advance(iter);
    let val: i64 = parse_i64(next.unwrap().as_str()).unwrap_or(0);
    Ok(val)
}

/// Reads the next field as a number with a fraction.
pub fn decode_f64(iter: &mut Iter<String>) -> (r: Result<Double, IBKRApiLibError>)
    requires
        (*old(iter)).remaining().len() > 0,
    ensures
        r == Ok::<Double, IBKRApiLibError>(Double::Parsed(*(*old(iter)).remaining()[0])),
        (*final(iter)).remaining() == (*old(iter)).remaining().drop_first(),
{
    let next = advance(iter);
    Ok(Double::Parsed(next.unwrap().clone()))
}

/// Reads the next field as a number with a fraction that zero marks as not set.
pub fn decode_f64_show_unset(iter: &mut Iter<String>) -> (r: Result<Double, IBKRApiLibError>)
    requires
        (*old(iter)).remaining().len() > 0,
    ensures
        r == Ok::<Double, IBKRApiLibError>(
            Double::Marked(*(*old(iter)).remaining()[0], AbsentMark::Zero),
        ),
        (*final(iter)).remaining() == (*old(iter)).remaining().drop_first(),
{
    let next = advance(iter);
    Ok(Double::Marked(next.unwrap().clone(), AbsentMark::Zero))
}

/// Reads the next field as it stands.
pub fn decode_string(iter: &mut Iter<String>) -> (r: Result<String, IBKRApiLibError>)
    requires
        (*old(iter)).remaining().len() > 0,
    ensures
        r == Ok::<String, IBKRApiLibError>(*(*old(iter)).remaining()[0]),
        (*final(iter)).remaining() == (*old(iter)).remaining().drop_first(),
{
    let next = advance(iter);
    Ok(next.unwrap().clone())
}

/// Reads the next field as a flag: set by every integer but zero. A missing field is a flag that
/// is not set.
pub fn decode_bool(iter: &mut Iter<String>) -> (r: Result<bool, IBKRApiLibError>)
    ensures
        r == Ok::<bool, IBKRApiLibError>(
            (*old(iter)).remaining().len() > 0 && int_or_zero((*old(iter)).remaining()[0]@) != 0,
        ),
        (*old(iter)).remaining().len() > 0 ==> (*final(iter)).remaining() == (*old(
            iter,
        )).remaining().drop_first(),
        (*old(iter)).remaining().len() == 0 ==> (*final(iter)).remaining() == (*old(
            iter,
        )).remaining(),
{
    let retval: i32 = match advance(iter) {
        Some(field) => parse_i32(field.as_str()).unwrap_or(0),
        None => 0,
    };
    Ok(retval != 0)
}

/// The `i32` in field `i` of a message.
pub open spec fn int_at(f: Seq<String>, i: int) -> i32 {
    int_or_zero(f[i]@)
}

/// The `i64` in field `i` of a message.
pub open spec fn long_at(f: Seq<String>, i: int) -> i64 {
    long_or_zero(f[i]@)
}

/// The number with a fraction in field `i` of a message.
pub open spec fn double_at(f: Seq<String>, i: int) -> Double {
    Double::Parsed(f[i])
}

/// The flag in field `i` of a message, which may end before it.
pub open spec fn flag_at(f: Seq<String>, i: int) -> bool {
    i < f.len() && int_at(f, i) != 0
}

/// How many entries a list has whose count stands in field `i`.
pub open spec fn count_at(f: Seq<String>, i: int) -> nat {
    if int_at(f, i) > 0 {
        int_at(f, i) as nat
    } else {
        0
    }
}

/// How many fields a group of `n` takes up that is there only under a condition.
pub open spec fn fields_if(present: bool, n: nat) -> int {
    if present {
        n as int
    } else {
        0
    }
}

/// The text of an optional field.
pub open spec fn text_if(present: bool, f: Seq<String>, i: int) -> Seq<char> {
    if present {
        f[i]@
    } else {
        seq![]
    }
}

/// The integer of an optional field.
pub open spec fn int_if(present: bool, f: Seq<String>, i: int) -> i32 {
    if present {
        int_at(f, i)
    } else {
        0
    }
}

/// The number of an optional field.
pub open spec fn double_if(present: bool, f: Seq<String>, i: int) -> Double {
    if present {
        double_at(f, i)
    } else {
        Double::Whole(0)
    }
}

/// A place among the fields of a message. Each reading moves it one field on; where the fields
/// have run out, there is nothing to read.
pub(crate) struct Reader<'a> {
    fields: &'a [String],
    pos: usize,
}

impl<'a> Reader<'a> {
    /// The fields of the whole message.
    pub(crate) closed spec fn all(self) -> Seq<String> {
        self.fields@
    }

    /// How many fields have been read.
    pub(crate) closed spec fn at(self) -> int {
        self.pos as int
    }

    /// No more fields have been read than there are.
    pub(crate) open spec fn wf(self) -> bool {
        0 <= self.at() <= self.all().len()
    }

    /// Whether `after` is this place, one field on.
    pub(crate) open spec fn moved(self, after: Self) -> bool {
        &&& after.wf()
        &&& after.all() == self.all()
        &&& after.at() == if self.at() < self.all().len() {
            self.at() + 1
        } else {
            self.at()
        }
    }

    /// The first field of a message.
    pub(crate) fn new(fields: &'a [String]) -> (r: Self)
        ensures
            r.wf(),
            r.all() == fields@,
            r.at() == 0,
    {
        Reader { fields, pos: 0 }
    }

    /// The field at this place and those that follow it.
    fn rest(&self) -> (r: Iter<'a, String>)
        requires
            self.wf(),
        ensures
            r.remaining().len() == self.all().len() - self.at(),
            self.at() < self.all().len() ==> *r.remaining()[0] == self.all()[self.at()],
    {
        broadcast use vstd::std_specs::slice::axiom_spec_slice_iter;

        slice_subrange(self.fields, self.pos, self.fields.len()).iter()
    }

    /// Passes over a field.
    pub(crate) fn skip(&mut self)
        requires
            old(self).wf(),
        ensures
            old(self).moved(*final(self)),
    {
        if self.pos < self.fields.len() {
            self.pos = self.pos + 1;
        }
    }

    /// Reads an `i32`.
    pub(crate) fn next_i32(&mut self) -> (r: Option<i32>)
        requires
            old(self).wf(),
        ensures
            old(self).moved(*final(self)),
            old(self).at() < old(self).all().len() ==> r == Some(
                int_at(old(self).all(), old(self).at()),
            ),
            old(self).at() >= old(self).all().len() ==> r is None,
    {
        if self.pos < self.fields.len() {
            let mut iter = self.rest();
            self.pos = self.pos + 1;
            decode_i32(&mut iter).ok()
        } else {
            None
        }
    }

    /// Reads an `i64`.
    pub(crate) fn next_i64(&mut self) -> (r: Option<i64>)
        requires
            old(self).wf(),
        ensures
            old(self).moved(*final(self)),
            old(self).at() < old(self).all().len() ==> r == Some(
                long_at(old(self).all(), old(self).at()),
            ),
            old(self).at() >= old(self).all().len() ==> r is None,
    {
        if self.pos < self.fields.len() {
            let mut iter = self.rest();
            self.pos = self.pos + 1;
            decode_i64(&mut iter).ok()
        } else {
            None
        }
    }

    /// Reads a number with a fraction.
    pub(crate) fn next_double(&mut self) -> (r: Option<Double>)
        requires
            old(self).wf(),
        ensures
            old(self).moved(*final(self)),
            old(self).at() < old(self).all().len() ==> r == Some(
                double_at(old(self).all(), old(self).at()),
            ),
            old(self).at() >= old(self).all().len() ==> r is None,
    {
        if self.pos < self.fields.len() {
            let mut iter = self.rest();
            self.pos = self.pos + 1;
            decode_f64(&mut iter).ok()
        } else {
            None
        }
    }

    /// Reads a field as it stands.
    pub(crate) fn next_text(&mut self) -> (r: Option<String>)
        requires
            old(self).wf(),
        ensures
            old(self).moved(*final(self)),
            old(self).at() < old(self).all().len() ==> r == Some(old(self).all()[old(self).at()]),
            old(self).at() >= old(self).all().len() ==> r is None,
    {
        if self.pos < self.fields.len() {
            let mut iter = self.rest();
            self.pos = self.pos + 1;
            decode_string(&mut iter).ok()
        } else {
            None
        }
    }

    /// Reads an `i32` that may be left out; it is zero then.
    pub(crate) fn next_i32_if(&mut self, present: bool) -> (r: Option<i32>)
        requires
            old(self).wf(),
        ensures
            present ==> old(self).moved(*final(self)),
            !present ==> *final(self) == *old(self),
            r is Some <==> present ==> old(self).at() < old(self).all().len(),
            r is Some ==> r->0 == int_if(present, old(self).all(), old(self).at()),
    {
        if present {
            self.next_i32()
        } else {
            Some(0)
        }
    }

    /// Reads a number with a fraction that may be left out; it is zero then.
    pub(crate) fn next_double_if(&mut self, present: bool) -> (r: Option<Double>)
        requires
            old(self).wf(),
        ensures
            present ==> old(self).moved(*final(self)),
            !present ==> *final(self) == *old(self),
            r is Some <==> present ==> old(self).at() < old(self).all().len(),
            r is Some ==> r->0 == double_if(present, old(self).all(), old(self).at()),
    {
        if present {
            self.next_double()
        } else {
            Some(Double::Whole(0))
        }
    }

    /// Reads a field that may be left out; it is empty then.
    pub(crate) fn next_text_if(&mut self, present: bool) -> (r: Option<String>)
        requires
            old(self).wf(),
        ensures
            present ==> old(self).moved(*final(self)),
            !present ==> *final(self) == *old(self),
            r is Some <==> present ==> old(self).at() < old(self).all().len(),
            r is Some ==> r->0@ == text_if(present, old(self).all(), old(self).at()),
    {
        if present {
            self.next_text()
        } else {
            Some(String::new())
        }
    }

    /// Reads a flag, which may be missing.
    pub(crate) fn next_flag(&mut self) -> (r: bool)
        requires
            old(self).wf(),
        ensures
            old(self).moved(*final(self)),
            r == flag_at(old(self).all(), old(self).at()),
    {
        let mut iter = self.rest();
        self.skip();
        match decode_bool(&mut iter) {
            Ok(set) => set,
            Err(_) => false,
        }
    }

    /// Reads a flag that has to be an integer; a field that is none is handed back as the error.
    pub(crate) fn next_integer_flag(&mut self) -> (r: Option<Result<bool, IBKRApiLibError>>)
        requires
            old(self).wf(),
        ensures
            old(self).moved(*final(self)),
            r is Some <==> old(self).at() < old(self).all().len(),
            r is Some ==> r->0 == (match integer_i32(old(self).all()[old(self).at()]@) {
                Some(v) => Ok::<bool, IBKRApiLibError>(v != 0),
                None => Err(IBKRApiLibError::ParseInt(old(self).all()[old(self).at()])),
            }),
    {
        let field = self.next_text()?;
        match parse_i32(field.as_str()) {
            Some(v) => Some(Ok(v != 0)),
            None => Some(Err(IBKRApiLibError::ParseInt(field))),
        }
    }

    /// The fields from this place on.
    pub(crate) fn remaining_fields(&self) -> (r: Vec<String>)
        requires
            self.wf(),
        ensures
            r@ == self.all().skip(self.at()),
    {
        let mut r: Vec<String> = Vec::new();
        let mut i: usize = self.pos;
        while i < self.fields.len()
            invariant
                self.pos <= i <= self.fields@.len(),
                r@ == self.fields@.subrange(self.pos as int, i as int),
            decreases self.fields@.len() - i,
        {
            r.push(self.fields[i].clone());
            i = i + 1;
        }
        r
    }
}

} // verus!
