//! How a message holds its fields.
use crate::text::texts;
use vstd::prelude::*;

verus! {

/// Whether `text` can stand in a field: it does not hold the character that ends one.
pub open spec fn is_field_text(text: Seq<char>) -> bool {
    forall|i: int| 0 <= i < text.len() ==> text[i] != '\0'
}

/// Whether each of the texts can stand in a field.
pub open spec fn are_field_texts(fields: Seq<Seq<char>>) -> bool {
    forall|i: int| 0 <= i < fields.len() ==> is_field_text(#[trigger] fields[i])
}

/// The message with the given fields: each of them, followed by the character that ends it.
pub open spec fn framed(fields: Seq<Seq<char>>) -> Seq<char>
    decreases fields.len(),
{
    if fields.len() == 0 {
        seq![]
    } else {
        framed(fields.drop_last()) + fields.last().push('\0')
    }
}

/// Whether `message` has these fields, and after the last of them nothing but an unended field.
pub open spec fn has_fields(message: Seq<char>, fields: Seq<Seq<char>>) -> bool {
    let used = framed(fields).len() as int;
    &&& are_field_texts(fields)
    &&& used <= message.len()
    &&& message.take(used) == framed(fields)
    &&& is_field_text(message.skip(used))
}

/// The fields of a message. A field that is not ended is no field.
pub fn read_fields(message: &str) -> (r: Vec<String>)
    ensures
        has_fields(message@, texts(r@)),
{
    let mut fields: Vec<String> = Vec::new();
    let mut current: String = String::new();
    for c in iter: message.chars()
        invariant
            iter.seq() == message@,
            are_field_texts(texts(fields@)),
            is_field_text(current@),
            message@.take(iter.index() as int) == framed(texts(fields@)) + current@,
    {
        let ghost k = iter.index() as int;
        assert(message@.take(k + 1) == message@.take(k).push(c));
        if c == '\0' {
            let ghost before = texts(fields@);
            let ghost text = current@;
            fields.push(current);
            assert(texts(fields@) == before.push(text));
            assert(texts(fields@).drop_last() == before);
            current = String::new();
        } else {
            current.push(c);
        }
    }
    proof {
        let used = framed(texts(fields@)).len() as int;
        assert(message@.take(message@.len() as int) == message@);
        assert(message@.take(used) == framed(texts(fields@)));
        assert(message@.skip(used) == current@);
    }
    fields
}

/// A message is made field by field: one field is its text and the character zero, and more fields
/// follow those before them.
pub proof fn lemma_framed_field_by_field(a: Seq<Seq<char>>, b: Seq<Seq<char>>, text: Seq<char>)
    ensures
        framed(seq![]) == Seq::<char>::empty(),
        framed(seq![text]) == text.push('\0'),
        framed(a + b) == framed(a) + framed(b),
    decreases b.len(),
{
    assert(seq![text].drop_last() =~= seq![]);
    assert(framed(seq![text].drop_last()) =~= seq![]);
    assert(framed(seq![text]) =~= text.push('\0'));
    if b.len() == 0 {
        assert(a + b =~= a);
        assert(framed(a) + framed(b) =~= framed(a));
    } else {
        lemma_framed_field_by_field(a, b.drop_last(), text);
        assert((a + b).drop_last() =~= a + b.drop_last());
        assert(framed(a + b) =~= framed(a) + framed(b));
    }
}

/// A message is read as the fields that it was made of.
pub proof fn lemma_framed_reads_back(fields: Seq<Seq<char>>)
    requires
        are_field_texts(fields),
    ensures
        has_fields(framed(fields), fields),
{
    let message = framed(fields);
    assert(message.take(message.len() as int) == message);
}

/// A message has one list of fields only.
pub proof fn lemma_fields_unique(message: Seq<char>, a: Seq<Seq<char>>, b: Seq<Seq<char>>)
    requires
        has_fields(message, a),
        has_fields(message, b),
    ensures
        a == b,
{
    if framed(a).len() <= framed(b).len() {
        lemma_shorter_framing(message, a, b);
    } else {
        lemma_shorter_framing(message, b, a);
    }
}

/// What ends a field stands at the end of a message with fields.
proof fn lemma_framed_end(fields: Seq<Seq<char>>)
    requires
        fields.len() > 0,
    ensures
        framed(fields).len() > 0,
        framed(fields).last() == '\0',
{
}

/// Of two lists of fields of one message, the one that reaches less far is no other one.
proof fn lemma_shorter_framing(message: Seq<char>, a: Seq<Seq<char>>, b: Seq<Seq<char>>)
    requires
        has_fields(message, a),
        has_fields(message, b),
        framed(a).len() <= framed(b).len(),
    ensures
        a == b,
{
    let (m, n) = (framed(a).len() as int, framed(b).len() as int);
    if m < n {
        lemma_framed_end(b);
        assert(message.take(n).last() == message.skip(m)[n - 1 - m]);
    }
    lemma_framed_injective(a, b);
}

/// Different fields make different messages.
pub proof fn lemma_framed_injective(a: Seq<Seq<char>>, b: Seq<Seq<char>>)
    requires
        are_field_texts(a),
        are_field_texts(b),
        framed(a) == framed(b),
    ensures
        a == b,
    decreases a.len(),
{
    if a.len() > 0 {
        lemma_framed_end(a);
    }
    if b.len() > 0 {
        lemma_framed_end(b);
    }
    if a.len() > 0 && b.len() > 0 {
        let whole = framed(a);
        let (x, y) = (a.last(), b.last());
        let (p, q) = (framed(a.drop_last()), framed(b.drop_last()));
        assert(whole.take(p.len() as int) == p);
        assert(whole.take(q.len() as int) == q);
        assert(whole.skip(p.len() as int) == x.push('\0'));
        assert(whole.skip(q.len() as int) == y.push('\0'));
        lemma_last_field_start(b.drop_last(), whole, p.len() as int, x);
        lemma_last_field_start(a.drop_last(), whole, q.len() as int, y);
        assert(x == y) by {
            assert(x.push('\0').drop_last() == x);
            assert(y.push('\0').drop_last() == y);
        }
        assert(are_field_texts(a.drop_last()));
        assert(are_field_texts(b.drop_last()));
        lemma_framed_injective(a.drop_last(), b.drop_last());
        assert(a == a.drop_last().push(x));
        assert(b == b.drop_last().push(y));
    }
}

/// The last field starts no earlier than those before it end.
proof fn lemma_last_field_start(before: Seq<Seq<char>>, whole: Seq<char>, p: int, x: Seq<char>)
    requires
        is_field_text(x),
        0 <= p <= whole.len(),
        framed(before).len() < whole.len(),
        whole.take(framed(before).len() as int) == framed(before),
        whole.skip(p) == x.push('\0'),
    ensures
        framed(before).len() <= p,
{
    let q = framed(before).len() as int;
    if p < q {
        lemma_framed_end(before);
        assert(whole[q - 1] == whole.take(q)[q - 1]);
        assert(whole.skip(p)[q - 1 - p] == whole[q - 1]);
        assert(x.push('\0').len() == whole.len() - p);
        assert(x.push('\0')[q - 1 - p] == x[q - 1 - p]);
    }
}

} // verus!
