//! Decoding a scanned code into the product and batch it names.
//!
//! Two encodings are accepted. A code that begins with `{` is a JSON record
//! with the members `product_id`, `batch_id` and, optionally, `timestamp` and
//! `metadata`. Any other code is delimited: every second underscore separates
//! two fields, so that `PRODUCT_001_BATCH_20240126` holds the two fields
//! `PRODUCT_001` and `BATCH_20240126`, and `PRODUCT_001` holds one.

use vstd::prelude::*;
use crate::error::InspectionError;
use crate::json::{json_map_member, json_text_member, read_map_member, read_text_member};
use crate::text::{
    chars_of, count_char, lemma_precedes_transitive, opt_text, owned, precedes, string_of,
    text_before,
};

verus! {

/// Whether position `i` of `s` separates two fields: it holds an underscore
/// and an odd number of underscores stand before it.
pub open spec fn is_field_break(s: Seq<char>, i: int) -> bool {
    0 <= i < s.len() && s[i] == '_' && count_char(s.take(i), '_') % 2 == 1
}

/// The position of the last field break of `s`, or -1 where it has none.
pub open spec fn last_break(s: Seq<char>) -> int
    decreases s.len(),
{
    if s.len() == 0 {
        -1
    } else if is_field_break(s, s.len() - 1) {
        s.len() - 1
    } else {
        last_break(s.drop_last())
    }
}

/// The fields of a delimited code, in order. There is always at least one.
pub open spec fn fields_of(s: Seq<char>) -> Seq<Seq<char>>
    decreases s.len(),
{
    let b = last_break(s);
    if 0 <= b < s.len() {
        fields_of(s.take(b)).push(s.skip(b + 1))
    } else {
        seq![s]
    }
}

/// The views of a list of strings.
pub open spec fn texts(v: Seq<String>) -> Seq<Seq<char>> {
    Seq::new(v.len(), |i: int| v[i]@)
}

/// `last_break` is a field break of `s` whenever it is not -1.
pub proof fn lemma_last_break_range(s: Seq<char>)
    ensures
        -1 <= last_break(s) < s.len(),
        last_break(s) >= 0 ==> is_field_break(s, last_break(s)),
    decreases s.len(),
{
    if s.len() > 0 && !is_field_break(s, s.len() - 1) {
        let p = s.drop_last();
        lemma_last_break_range(p);
        let b = last_break(p);
        if b >= 0 {
            assert(p.take(b) =~= s.take(b));
        }
    }
}

/// Reading one more character either closes the open field or lengthens it.
pub proof fn lemma_fields_step(s: Seq<char>, i: int)
    requires
        0 <= i < s.len(),
    ensures
        fields_of(s.take(i)).len() >= 1,
        is_field_break(s, i) ==> fields_of(s.take(i + 1)) == fields_of(s.take(i)).push(
            Seq::<char>::empty(),
        ),
        !is_field_break(s, i) ==> fields_of(s.take(i + 1)) == fields_of(
            s.take(i),
        ).drop_last().push(fields_of(s.take(i)).last().push(s[i])),
{
    let p = s.take(i);
    let q = s.take(i + 1);
    assert(q.drop_last() =~= p);
    assert(q.take(i) =~= p);
    assert(p.take(i) =~= p);
    lemma_last_break_range(p);
    let b = last_break(p);
    if is_field_break(s, i) {
        assert(is_field_break(q, i));
        assert(q.skip(i + 1) =~= Seq::<char>::empty());
    } else {
        assert(!is_field_break(q, i));
        assert(last_break(q) == b);
        if b >= 0 {
            assert(q.take(b) =~= p.take(b));
            assert(q.skip(b + 1) =~= p.skip(b + 1).push(s[i]));
            assert(fields_of(p).drop_last() =~= fields_of(p.take(b)));
        } else {
            assert(q =~= p.push(s[i]));
            assert(seq![p].drop_last().push(p.push(s[i])) =~= seq![q]);
        }
    }
}

/// A code with `n` underscores has `n / 2 + 1` fields.
pub proof fn lemma_field_count(s: Seq<char>)
    ensures
        fields_of(s).len() == count_char(s, '_') / 2 + 1,
    decreases s.len(),
{
    if s.len() == 0 {
    } else {
        let i = s.len() - 1;
        let p = s.drop_last();
        assert(s.take(i) =~= p);
        assert(s.take(i + 1) =~= s);
        lemma_field_count(p);
        lemma_fields_step(s, i);
    }
}

/// The fields written one after the other with an underscore between two.
pub open spec fn joined(fields: Seq<Seq<char>>) -> Seq<char>
    decreases fields.len(),
{
    if fields.len() == 0 {
        Seq::empty()
    } else if fields.len() == 1 {
        fields[0]
    } else {
        joined(fields.drop_last()) + seq!['_'] + fields.last()
    }
}

/// Nothing of a code is lost or added by splitting it: its fields, joined by
/// underscores, are the code.
pub proof fn lemma_fields_join_to_code(s: Seq<char>)
    ensures
        joined(fields_of(s)) == s,
        fields_of(s).len() >= 1,
    decreases s.len(),
{
    lemma_last_break_range(s);
    let b = last_break(s);
    if 0 <= b < s.len() {
        let head = fields_of(s.take(b));
        lemma_fields_join_to_code(s.take(b));
        assert(head.push(s.skip(b + 1)).drop_last() =~= head);
        assert(s.take(b) + seq!['_'] + s.skip(b + 1) =~= s);
    }
}

/// Every field but the last holds exactly one underscore, and the last
/// holds one where the code holds an odd number of them, else none. With
/// [`lemma_fields_join_to_code`] this says which fields a code has: it is
/// cut at its second, fourth, sixth underscore and nowhere else.
pub proof fn lemma_fields_hold_one_underscore(s: Seq<char>)
    ensures
        forall|k: int|
            0 <= k < fields_of(s).len() - 1 ==> count_char(#[trigger] fields_of(s)[k], '_') == 1,
        fields_of(s).len() >= 1,
        count_char(fields_of(s).last(), '_') == count_char(s, '_') % 2,
    decreases s.len(),
{
    if s.len() == 0 {
        assert(fields_of(s) =~= seq![s]);
    } else {
        let i = s.len() - 1;
        let p = s.drop_last();
        assert(s.take(i) =~= p);
        assert(s.take(i + 1) =~= s);
        lemma_fields_hold_one_underscore(p);
        lemma_fields_step(s, i);
        let before = fields_of(p);
        let after = fields_of(s);
        if is_field_break(s, i) {
            assert(after.last() =~= Seq::<char>::empty());
            assert forall|k: int| 0 <= k < after.len() - 1 implies count_char(
                #[trigger] after[k],
                '_',
            ) == 1 by {
                assert(after[k] == before[k]);
            }
        } else {
            assert(after.last().drop_last() =~= before.last());
            assert forall|k: int| 0 <= k < after.len() - 1 implies count_char(
                #[trigger] after[k],
                '_',
            ) == 1 by {
                assert(after[k] == before[k]);
            }
        }
    }
}

/// Splits a delimited code into its fields.
pub fn split_fields(code: &str) -> (fields: Vec<String>)
    ensures
        texts(fields@) == fields_of(code@),
        fields.len() >= 1,
{
    let chars = chars_of(code);
    let n = chars.len();
    let mut fields: Vec<String> = Vec::new();
    let mut start: usize = 0;
    let mut odd = false;
    let mut i: usize = 0;
    proof {
        assert(code@.take(0) =~= Seq::<char>::empty());
        assert(code@.subrange(0, 0) =~= Seq::<char>::empty());
        assert(texts(fields@).push(code@.subrange(0, 0)) =~= seq![Seq::<char>::empty()]);
    }
    while i < n
        invariant
            chars@ == code@,
            n == chars.len(),
            start <= i <= n,
            odd == (count_char(code@.take(i as int), '_') % 2 == 1),
            fields_of(code@.take(i as int)) == texts(fields@).push(
                code@.subrange(start as int, i as int),
            ),
        decreases n - i,
    {
        let c = chars[i];
        proof {
            lemma_fields_step(code@, i as int);
            assert(code@.take(i as int + 1).drop_last() =~= code@.take(i as int));
        }
        let ghost before = texts(fields@);
        let ghost open = code@.subrange(start as int, i as int);
        if c == '_' && odd {
            let field = string_of(&chars, start, i);
            fields.push(field);
            start = i + 1;
            odd = false;
            proof {
                assert(texts(fields@) =~= before.push(open));
                assert(code@.subrange(start as int, i as int + 1) =~= Seq::<char>::empty());
            }
        } else {
            if c == '_' {
                odd = true;
            }
            proof {
                assert(before.push(open).drop_last() =~= before);
                assert(open.push(code@[i as int]) =~= code@.subrange(
                    start as int,
                    i as int + 1,
                ));
            }
        }
        i = i + 1;
    }
    let ghost before = texts(fields@);
    let field = string_of(&chars, start, n);
    fields.push(field);
    proof {
        assert(code@.take(n as int) =~= code@);
        assert(texts(fields@) =~= before.push(code@.subrange(start as int, n as int)));
    }
    fields
}


/// What a scanned code names.
#[derive(Debug, Clone, PartialEq, Eq)]
pub struct QRCodeData {
    pub product_id: String,
    pub batch_id: String,
    pub timestamp: Option<String>,
    /// Free-form entries of the structured form, ordered by key.
    pub metadata: Option<Vec<(String, String)>>,
}

/// The mathematical content of a [`QRCodeData`].
pub ghost struct CodeFields {
    pub product_id: Seq<char>,
    pub batch_id: Seq<char>,
    pub timestamp: Option<Seq<char>>,
    pub metadata: Option<Seq<(Seq<char>, Seq<char>)>>,
}

/// The views of a list of key and value strings.
pub open spec fn pair_texts(v: Seq<(String, String)>) -> Seq<(Seq<char>, Seq<char>)> {
    Seq::new(v.len(), |i: int| (v[i].0@, v[i].1@))
}

/// The view of an optional list of key and value strings.
pub open spec fn opt_pair_texts(m: Option<Vec<(String, String)>>) -> Option<
    Seq<(Seq<char>, Seq<char>)>,
> {
    match m {
        Some(v) => Some(pair_texts(v@)),
        None => None,
    }
}

/// Whether the keys of the entries strictly ascend in the order of
/// strings. No key then occurs twice, and a set of entries has one such
/// list only.
pub open spec fn keys_ascend(entries: Seq<(Seq<char>, Seq<char>)>) -> bool {
    forall|i: int, j: int| 0 <= i < j < entries.len() ==> precedes(entries[i].0, entries[j].0)
}

/// In entries whose keys ascend no key occurs twice.
pub proof fn lemma_ascending_keys_are_distinct(entries: Seq<(Seq<char>, Seq<char>)>, i: int, j: int)
    requires
        keys_ascend(entries),
        0 <= i < j < entries.len(),
    ensures
        entries[i].0 != entries[j].0,
{
    crate::text::lemma_precedes_irreflexive(entries[i].0);
}

/// Whether the keys of the entries strictly ascend.
pub fn has_ascending_keys(entries: &Vec<(String, String)>) -> (ok: bool)
    ensures
        ok == keys_ascend(pair_texts(entries@)),
{
    let ghost texts = pair_texts(entries@);
    let mut i: usize = 1;
    while i < entries.len()
        invariant
            1 <= i,
            texts == pair_texts(entries@),
            forall|a: int, b: int| 0 <= a < b < i && b < entries.len() ==> precedes(texts[a].0, texts[b].0),
        decreases entries.len() - i,
    {
        if !text_before(entries[i - 1].0.as_str(), entries[i].0.as_str()) {
            proof {
                assert(!precedes(texts[i as int - 1].0, texts[i as int].0));
            }
            return false;
        }
        proof {
            assert forall|a: int, b: int| 0 <= a < b < i + 1 && b < entries.len() implies precedes(
                texts[a].0,
                texts[b].0,
            ) by {
                if b == i && a < i - 1 {
                    lemma_precedes_transitive(texts[a].0, texts[i as int - 1].0, texts[i as int].0);
                }
            }
        }
        i = i + 1;
    }
    true
}

impl QRCodeData {
    /// The entries of the metadata, where there are any, are ordered by
    /// key and no key occurs twice.
    pub open spec fn wf(&self) -> bool {
        match self.metadata {
            Some(entries) => keys_ascend(pair_texts(entries@)),
            None => true,
        }
    }

    /// Whether the metadata is ordered by key without a key twice.
    pub fn is_wf(&self) -> (ok: bool)
        ensures
            ok == self.wf(),
    {
        match &self.metadata {
            Some(entries) => has_ascending_keys(entries),
            None => true,
        }
    }
}

impl View for QRCodeData {
    type V = CodeFields;

    open spec fn view(&self) -> CodeFields {
        CodeFields {
            product_id: self.product_id@,
            batch_id: self.batch_id@,
            timestamp: opt_text(self.timestamp),
            metadata: opt_pair_texts(self.metadata),
        }
    }
}

/// Whether a code is in the structured form: it begins with an opening brace.
pub open spec fn is_structured(code: Seq<char>) -> bool {
    code.len() > 0 && code[0] == '{'
}

/// The batch named by the fields of a delimited code: the second field, or
/// the sentinel `UNKNOWN` where that field is absent or empty.
pub open spec fn batch_or_unknown(fields: Seq<Seq<char>>) -> Seq<char> {
    if fields.len() > 1 && fields[1].len() > 0 {
        fields[1]
    } else {
        "UNKNOWN"@
    }
}

/// What a delimited code decodes to: nothing with fewer than two fields,
/// else product, batch and, where a third field exists, the timestamp.
pub open spec fn delimited_fields(code: Seq<char>) -> Option<CodeFields> {
    let f = fields_of(code);
    if f.len() < 2 {
        None
    } else {
        Some(
            CodeFields {
                product_id: f[0],
                batch_id: batch_or_unknown(f),
                timestamp: if f.len() > 2 {
                    Some(f[2])
                } else {
                    None
                },
                metadata: None,
            },
        )
    }
}

/// The batch id for a list of fields, with the `UNKNOWN` default.
pub fn batch_id_of(fields: &Vec<String>) -> (batch: String)
    ensures
        batch@ == batch_or_unknown(texts(fields@)),
{
    if fields.len() > 1 {
        let n = fields[1].as_str().unicode_len();
        if n > 0 {
            return fields[1].clone();
        }
    }
    owned("UNKNOWN")
}

/// Decodes a code in the delimited form.
pub fn parse_delimited(code: &str) -> (r: Result<QRCodeData, InspectionError>)
    ensures
        match r {
            Ok(data) => data.wf() && delimited_fields(code@) == Some(data@),
            Err(e) => e == InspectionError::MalformedCode && delimited_fields(code@) is None,
        },
        r is Ok <==> count_char(code@, '_') >= 2,
{
    let fields = split_fields(code);
    proof {
        lemma_field_count(code@);
    }
    if fields.len() < 2 {
        return Err(InspectionError::MalformedCode);
    }
    let timestamp = if fields.len() > 2 {
        Some(fields[2].clone())
    } else {
        None
    };
    Ok(
        QRCodeData {
            product_id: fields[0].clone(),
            batch_id: batch_id_of(&fields),
            timestamp,
            metadata: None,
        },
    )
}


/// What was read for a member: nothing where reading failed, else whether
/// the member is there and, if it is, its value or null.
pub type Reading<T> = Option<Option<Option<T>>>;

/// The value of a member that must be there: it is missing where reading
/// failed, where the member is not there and where it is null.
pub open spec fn required<T>(read: Reading<T>) -> Option<T> {
    match read {
        Some(Some(Some(value))) => Some(value),
        _ => None,
    }
}

/// The value of a member that may be left out: one that is not there
/// counts like one that is null; only a failed reading is a fault.
pub open spec fn optional<T>(read: Reading<T>) -> Option<Option<T>> {
    match read {
        None => None,
        Some(None) => Some(None),
        Some(Some(value)) => Some(value),
    }
}

/// What the members read from a structured code decode to: nothing unless
/// product and batch are present as strings, the two optional members, where
/// present, have the right shape, and the entries of the metadata are
/// ordered by key with no key twice.
pub open spec fn structured_from(
    product: Reading<Seq<char>>,
    batch: Reading<Seq<char>>,
    timestamp: Reading<Seq<char>>,
    metadata: Reading<Seq<(Seq<char>, Seq<char>)>>,
) -> Option<CodeFields> {
    match (required(product), required(batch), optional(timestamp), optional(metadata)) {
        (Some(p), Some(b), Some(t), Some(m)) if m is None || keys_ascend(m->0) => Some(
            CodeFields { product_id: p, batch_id: b, timestamp: t, metadata: m },
        ),
        _ => None,
    }
}

/// What a structured code decodes to.
pub open spec fn structured_fields(code: Seq<char>) -> Option<CodeFields> {
    structured_from(
        json_text_member(code, "product_id"@),
        json_text_member(code, "batch_id"@),
        json_text_member(code, "timestamp"@),
        json_map_member(code, "metadata"@),
    )
}

/// What a scanned code decodes to, in whichever form it is written.
pub open spec fn decoded(code: Seq<char>) -> Option<CodeFields> {
    if is_structured(code) {
        structured_fields(code)
    } else {
        delimited_fields(code)
    }
}

/// The view of what was read for a string member.
pub open spec fn read_text<E>(r: Result<Option<Option<String>>, E>) -> Reading<Seq<char>> {
    match r {
        Ok(Some(v)) => Some(Some(opt_text(v))),
        Ok(None) => Some(None),
        Err(_) => None,
    }
}

/// The view of what was read for a map member.
pub open spec fn read_pairs<E>(r: Result<Option<Option<Vec<(String, String)>>>, E>) -> Reading<
    Seq<(Seq<char>, Seq<char>)>,
> {
    match r {
        Ok(Some(v)) => Some(Some(opt_pair_texts(v))),
        Ok(None) => Some(None),
        Err(_) => None,
    }
}

/// Builds the decoded code from the four members read from a structured
/// code. Product and batch must be there as strings; timestamp and metadata
/// may be left out or null; the entries of the metadata must be ordered by
/// key. Everything else is `MalformedCode`.
pub fn assemble_structured<E>(
    product: Result<Option<Option<String>>, E>,
    batch: Result<Option<Option<String>>, E>,
    timestamp: Result<Option<Option<String>>, E>,
    metadata: Result<Option<Option<Vec<(String, String)>>>, E>,
) -> (r: Result<QRCodeData, InspectionError>)
    ensures
        match r {
            Ok(data) => data.wf() && structured_from(
                read_text(product),
                read_text(batch),
                read_text(timestamp),
                read_pairs(metadata),
            ) == Some(data@),
            Err(e) => e == InspectionError::MalformedCode && structured_from(
                read_text(product),
                read_text(batch),
                read_text(timestamp),
                read_pairs(metadata),
            ) is None,
        },
{
    match (product, batch, timestamp, metadata) {
        (Ok(Some(Some(p))), Ok(Some(Some(b))), Ok(t), Ok(m)) => {
            let timestamp = match t {
                Some(value) => value,
                None => None,
            };
            let metadata = match m {
                Some(value) => value,
                None => None,
            };
            let data = QRCodeData { product_id: p, batch_id: b, timestamp, metadata };
            if data.is_wf() {
                Ok(data)
            } else {
                Err(InspectionError::MalformedCode)
            }
        },
        _ => Err(InspectionError::MalformedCode),
    }
}

/// Whether a code is written in the structured form.
pub fn starts_structured(code: &str) -> (b: bool)
    ensures
        b == is_structured(code@),
{
    let mut it = code.chars();
    match it.next() {
        Some(c) => c == '{',
        None => false,
    }
}

/// Decodes a code in the structured form.
pub fn parse_structured(code: &str) -> (r: Result<QRCodeData, InspectionError>)
    ensures
        match r {
            Ok(data) => data.wf() && structured_fields(code@) == Some(data@),
            Err(e) => e == InspectionError::MalformedCode && structured_fields(code@) is None,
        },
{
    let product = read_text_member(code, "product_id");
    let batch = read_text_member(code, "batch_id");
    let timestamp = read_text_member(code, "timestamp");
    let metadata = read_map_member(code, "metadata");
    assemble_structured(product, batch, timestamp, metadata)
}

/// Decodes a scanned code: the structured form where it begins with `{`,
/// the delimited form otherwise. The result depends on the code alone.
pub fn parse_qr_code(qr_data: &str) -> (r: Result<QRCodeData, InspectionError>)
    ensures
        match r {
            Ok(data) => data.wf() && decoded(qr_data@) == Some(data@),
            Err(e) => e == InspectionError::MalformedCode && decoded(qr_data@) is None,
        },
{
    if starts_structured(qr_data) {
        parse_structured(qr_data)
    } else {
        parse_delimited(qr_data)
    }
}

/// A delimited code decodes exactly when it has at least two fields, which
/// is when it holds at least two underscores.
pub proof fn lemma_delimited_accepts_two_fields(code: Seq<char>)
    requires
        !is_structured(code),
    ensures
        decoded(code) is Some <==> fields_of(code).len() >= 2,
        fields_of(code).len() >= 2 <==> count_char(code, '_') >= 2,
        decoded(code) is Some ==> decoded(code)->0.product_id == fields_of(code)[0],
{
    lemma_field_count(code);
}

/// Decoding is a function of the code: two scans of the same characters
/// decode to the same product, batch, timestamp and metadata, or both fail.
pub proof fn lemma_decoding_is_deterministic(first: Seq<char>, second: Seq<char>)
    requires
        first =~= second,
    ensures
        decoded(first) == decoded(second),
{
}

} // verus!
