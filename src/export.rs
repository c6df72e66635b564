use std::io::Write;

use vstd::prelude::*;
use vstd::string::{StrSliceExecFns, StringSliceAdditionalSpecFns};

use crate::sql_generator::doubled;
use crate::text::{chars_of, contains_seq, copy_str, push_all};

verus! {

#[derive(Debug, Clone, Copy, PartialEq, Eq, Structural)]
pub enum ExportCompression {
    Uncompressed,
    Gzip,
}

#[derive(Debug, Clone, Copy, PartialEq, Eq, Structural)]
pub enum JsonExportFormat {
    Array,
    JsonLines,
}

/// The gzip stream flate2 writes for `bytes` at the default level.
pub uninterp spec fn gzip_of(bytes: Seq<u8>) -> Seq<u8>;

/// Relies on flate2's `GzEncoder` (default level, default header) writing into a `Vec`:
/// the stream depends on the input bytes alone.
#[verifier::external_body]
fn gzip(bytes: &Vec<u8>) -> (r: Option<Vec<u8>>)
    ensures
        r is Some ==> r->0@ == gzip_of(bytes@),
{
    let mut encoder = flate2::write::GzEncoder::new(Vec::new(), flate2::Compression::default());
    match encoder.write_all(bytes.as_slice()) {
        Ok(()) => encoder.finish().ok(),
        Err(_) => None,
    }
}

/// The value needs quoting in CSV.
pub open spec fn needs_quotes(v: Seq<char>) -> bool {
    contains_seq(v, seq![',']) || contains_seq(v, seq!['"']) || contains_seq(v, seq!['\n'])
}

/// A CSV field: quoted, with quotes doubled, when it holds a comma, a quote or a newline.
pub open spec fn csv_field(v: Seq<char>) -> Seq<char> {
    if needs_quotes(v) {
        seq!['"'] + doubled(v, '"') + seq!['"']
    } else {
        v
    }
}

/// Fields joined with commas.
pub open spec fn csv_join(fields: Seq<Seq<char>>) -> Seq<char>
    decreases fields.len(),
{
    if fields.len() == 0 {
        seq![]
    } else if fields.len() == 1 {
        csv_field(fields[0])
    } else {
        csv_join(fields.drop_last()) + seq![','] + csv_field(fields.last())
    }
}

/// The fields of a row as written under `n` headers: missing values are empty.
pub open spec fn row_fields(row: Seq<Seq<char>>, n: nat) -> Seq<Seq<char>> {
    Seq::new(n, |i: int| if i < row.len() { row[i] } else { seq![] })
}

pub open spec fn strings_of(v: Seq<String>) -> Seq<Seq<char>> {
    v.map_values(|s: String| s@)
}

/// The CSV lines of `rows` under `n` headers.
pub open spec fn csv_rows(rows: Seq<Vec<String>>, n: nat) -> Seq<char>
    decreases rows.len(),
{
    if rows.len() == 0 {
        seq![]
    } else {
        csv_rows(rows.drop_last(), n) + csv_join(row_fields(strings_of(rows.last()@), n)) + seq!['\n']
    }
}

/// A CSV document: the header line, then one line per row.
pub open spec fn csv_document(headers: Seq<Seq<char>>, rows: Seq<Vec<String>>) -> Seq<char> {
    csv_join(headers) + seq!['\n'] + csv_rows(rows, headers.len())
}

/// Escapes one CSV field.
pub fn csv_escape(value: &str) -> (r: String)
    ensures
        r@ == csv_field(value@),
{
    let v = chars_of(value);
    let comma = chars_of(",");
    let quote = chars_of("\"");
    let newline = chars_of("\n");
    proof {
        reveal_strlit(",");
        reveal_strlit("\"");
        reveal_strlit("\n");
        assert(comma@ =~= seq![',']);
        assert(quote@ =~= seq!['"']);
        assert(newline@ =~= seq!['\n']);
    }
    if crate::text::contains_chars(&v, &comma) || crate::text::contains_chars(&v, &quote)
        || crate::text::contains_chars(&v, &newline) {
        let mut r = String::new();
        r.push('"');
        let mut i: usize = 0;
        while i < v.len()
            invariant
                i <= v@.len(),
                v@ == value@,
                r@ == seq!['"'] + doubled(v@.subrange(0, i as int), '"'),
            decreases v.len() - i,
        {
            proof {
                assert(v@.subrange(0, i + 1) =~= v@.subrange(0, i as int).push(v@[i as int]));
                crate::sql_generator::lemma_doubled_push(v@.subrange(0, i as int), v@[i as int], '"');
            }
            if v[i] == '"' {
                r.push('"');
                r.push('"');
            } else {
                r.push(v[i]);
            }
            assert(r@ =~= seq!['"'] + doubled(v@.subrange(0, i + 1), '"'));
            i = i + 1;
        }
        r.push('"');
        assert(v@.subrange(0, v@.len() as int) =~= v@);
        assert(r@ =~= seq!['"'] + doubled(value@, '"') + seq!['"']);
        r
    } else {
        copy_str(value)
    }
}

fn push_joined(out: &mut String, fields: &Vec<String>)
    ensures
        final(out)@ == old(out)@ + csv_join(strings_of(fields@)),
{
    let mut i: usize = 0;
    assert(strings_of(fields@).take(0) =~= Seq::<Seq<char>>::empty());
    assert(old(out)@ + csv_join(strings_of(fields@).take(0)) =~= old(out)@);
    while i < fields.len()
        invariant
            i <= fields@.len(),
            out@ == old(out)@ + csv_join(strings_of(fields@).take(i as int)),
        decreases fields.len() - i,
    {
        let ghost prev = strings_of(fields@).take(i as int);
        let ghost next = strings_of(fields@).take(i + 1);
        assert(next.drop_last() =~= prev);
        assert(next.last() == fields@[i as int]@);
        if i > 0 {
            out.push(',');
        }
        let field = csv_escape(fields[i].as_str());
        push_all(out, field.as_str());
        assert(out@ =~= old(out)@ + csv_join(next));
        i = i + 1;
    }
    assert(strings_of(fields@).take(fields@.len() as int) =~= strings_of(fields@));
}

/// The CSV text of a result set.
pub fn render_csv(headers: &Vec<String>, rows: &Vec<Vec<String>>) -> (r: String)
    ensures
        r@ == csv_document(strings_of(headers@), rows@),
{
    let mut out = String::new();
    push_joined(&mut out, headers);
    out.push('\n');
    let n = headers.len();
    let ghost head = out@;
    assert(rows@.take(0) =~= Seq::<Vec<String>>::empty());
    assert(out@ =~= head + csv_rows(rows@.take(0), n as nat));
    let mut k: usize = 0;
    while k < rows.len()
        invariant
            k <= rows@.len(),
            n == headers@.len(),
            head == csv_join(strings_of(headers@)) + seq!['\n'],
            out@ == head + csv_rows(rows@.take(k as int), n as nat),
        decreases rows.len() - k,
    {
        let row = &rows[k];
        let mut fields: Vec<String> = Vec::new();
        let mut c: usize = 0;
        while c < n
            invariant
                c <= n,
                fields@.len() == c,
                forall|j: int| 0 <= j < c ==> (#[trigger] fields@[j])@ == row_fields(strings_of(row@), n as nat)[j],
            decreases n - c,
        {
            if c < row.len() {
                fields.push(copy_str(row[c].as_str()));
            } else {
                fields.push(String::new());
            }
            c = c + 1;
        }
        assert(strings_of(fields@) =~= row_fields(strings_of(row@), n as nat));
        push_joined(&mut out, &fields);
        out.push('\n');
        assert(rows@.take(k + 1).drop_last() =~= rows@.take(k as int));
        assert(rows@.take(k + 1).last() == rows@[k as int]);
        assert(out@ =~= head + csv_rows(rows@.take(k + 1), n as nat));
        k = k + 1;
    }
    assert(rows@.take(rows@.len() as int) =~= rows@);
    out
}

/// Each header with the row's value in its column, or none when the row is shorter.
pub fn json_row_fields(headers: &Vec<String>, row: &Vec<String>) -> (r: Vec<(String, Option<String>)>)
    ensures
        r@.len() == headers@.len(),
        forall|i: int| 0 <= i < r@.len() ==> {
            let f = #[trigger] r@[i];
            &&& f.0@ == headers@[i]@
            &&& (i < row@.len() ==> f.1 is Some && f.1->0@ == row@[i]@)
            &&& (i >= row@.len() ==> f.1 is None)
        },
{
    let mut r: Vec<(String, Option<String>)> = Vec::new();
    let mut i: usize = 0;
    while i < headers.len()
        invariant
            i <= headers@.len(),
            r@.len() == i,
            forall|k: int| 0 <= k < i ==> {
                let f = #[trigger] r@[k];
                &&& f.0@ == headers@[k]@
                &&& (k < row@.len() ==> f.1 is Some && f.1->0@ == row@[k]@)
                &&& (k >= row@.len() ==> f.1 is None)
            },
        decreases headers.len() - i,
    {
        let value = if i < row.len() {
            Some(copy_str(row[i].as_str()))
        } else {
            None
        };
        r.push((copy_str(headers[i].as_str()), value));
        i = i + 1;
    }
    r
}

/// The bytes of an export document, compressed when asked.
pub fn encode_export(document: &str, compression: ExportCompression) -> (r: Option<Vec<u8>>)
    ensures
        compression == ExportCompression::Uncompressed ==> r is Some && r->0@ == document.spec_bytes(),
        compression == ExportCompression::Gzip && r is Some ==> r->0@ == gzip_of(document.spec_bytes()),
{
    let bytes = document.as_bytes_vec();
    match compression {
        ExportCompression::Uncompressed => Some(bytes),
        ExportCompression::Gzip => gzip(&bytes),
    }
}

} // verus!
