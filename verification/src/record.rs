//! The representations of a batch: a table with a header, written as CSV, and
//! a listing of one line per entry.

use crate::encode::{decimal, decimal_text, lemma_decimal_text_injective, push_decimal};
use crate::entry::{batch_text, EntryText, GeneratedEntry};
use crate::network::{GenError, Network};
use vstd::prelude::*;
use vstd::string::StringExecFns;

verus! {

/// The error of the CSV writer.
#[verifier::external_type_specification]
#[verifier::external_body]
pub struct ExCsvError(csv::Error);

/// The bytes that a CSV writer with default settings produces for one record
/// of the given fields, as `csv::Writer::write_record` on a fresh writer
/// computes them; `None` where the writer fails.
pub uninterp spec fn csv_record_of(fields: Seq<Seq<char>>) -> Option<Seq<u8>>;

/// The texts of a sequence of strings.
pub open spec fn texts(fields: Seq<String>) -> Seq<Seq<char>> {
    Seq::new(fields.len(), |i: int| fields[i]@)
}

/// The texts of the rows of a table.
pub open spec fn rows_text(rows: Seq<Vec<String>>) -> Seq<Seq<Seq<char>>> {
    Seq::new(rows.len(), |i: int| texts(rows[i]@))
}

/// Calls `csv::Writer::from_writer` on an empty buffer, `write_record` with the
/// fields and `into_inner`, which flushes. Claimed: the result is
/// `csv_record_of` of the fields' texts, an error standing for `None`.
#[verifier::external_body]
fn csv_record(fields: &Vec<String>) -> (r: Result<Vec<u8>, csv::Error>)
    ensures
        match r {
            Ok(bytes) => csv_record_of(texts(fields@)) == Some(bytes@),
            Err(_) => csv_record_of(texts(fields@)).is_none(),
        },
{
    let mut writer = csv::Writer::from_writer(Vec::new());
    writer.write_record(fields)?;
    writer.into_inner().map_err(|e| csv::Error::from(e.into_error()))
}

/// The header of the table for a network.
pub open spec fn header_text(network: Network) -> Seq<Seq<char>> {
    if network.has_addresses() {
        seq!["Index"@, "Network"@, "Public Address"@, "Private Key"@]
    } else {
        seq!["Index"@, "Network"@, "Mnemonic"@]
    }
}

/// The row for the entry at a position of the batch, counted from zero: the
/// position counted from one, the network's label, and the entry's fields. A
/// mnemonic's row leaves the identifier out.
pub open spec fn row_text(network: Network, position: nat, e: EntryText) -> Seq<Seq<char>> {
    if network.has_addresses() {
        seq![decimal_text(position + 1), network.label_text(), e.public_identifier, e.secret]
    } else {
        seq![decimal_text(position + 1), network.label_text(), e.secret]
    }
}

/// The table for a batch: the header, then one row per entry, in order.
pub open spec fn table_text(network: Network, entries: Seq<EntryText>) -> Seq<Seq<Seq<char>>> {
    seq![header_text(network)] + Seq::new(
        entries.len(),
        |i: int| row_text(network, i as nat, entries[i]),
    )
}

/// The bytes of a table: the bytes of its records, one after the other;
/// `None` where the writer fails on one of them.
pub open spec fn csv_bytes(rows: Seq<Seq<Seq<char>>>) -> Option<Seq<u8>>
    decreases rows.len(),
{
    if rows.len() == 0 {
        Some(Seq::empty())
    } else {
        match (csv_bytes(rows.drop_last()), csv_record_of(rows.last())) {
            (Some(before), Some(record)) => Some(before + record),
            _ => None,
        }
    }
}

/// The line of the listing for the entry at a position of the batch, counted
/// from zero.
pub open spec fn console_line_text(network: Network, position: nat, e: EntryText) -> Seq<char> {
    if network.has_addresses() {
        "Index: "@ + decimal_text(position + 1) + ", Public Address: "@ + e.public_identifier
            + ", Private Key: "@ + e.secret
    } else {
        "Index: "@ + decimal_text(position + 1) + ", Mnemonic: "@ + e.secret
    }
}

/// A table has one row more than the batch has entries, and every row has as
/// many fields as the header.
pub proof fn lemma_table_shape(network: Network, entries: Seq<EntryText>)
    ensures
        table_text(network, entries).len() == entries.len() + 1,
        table_text(network, entries)[0] == header_text(network),
        forall|i: int|
            0 <= i < entries.len() ==> #[trigger] table_text(network, entries)[i + 1] == row_text(
                network,
                i as nat,
                entries[i],
            ),
        forall|i: int|
            0 <= i <= entries.len() ==> (#[trigger] table_text(network, entries)[i]).len()
                == header_text(network).len(),
{
    let t = table_text(network, entries);
    assert forall|i: int| 0 <= i <= entries.len() implies (#[trigger] t[i]).len() == header_text(
        network,
    ).len() by {
        if i > 0 {
            assert(t[i] == row_text(network, (i - 1) as nat, entries[i - 1]));
        }
    }
}

/// Rows at different positions carry different indices, whatever their
/// entries are.
pub proof fn lemma_rows_are_numbered_apart(
    network: Network,
    i: nat,
    j: nat,
    a: EntryText,
    b: EntryText,
)
    requires
        row_text(network, i, a)[0] == row_text(network, j, b)[0],
    ensures
        i == j,
{
    lemma_decimal_text_injective(i + 1, j + 1);
}

/// The header of the table for a network.
pub fn header(network: Network) -> (r: Vec<String>)
    ensures
        texts(r@) == header_text(network),
{
    let mut r: Vec<String> = Vec::new();
    r.push(String::from_str("Index"));
    r.push(String::from_str("Network"));
    if network.is_address_based() {
        r.push(String::from_str("Public Address"));
        r.push(String::from_str("Private Key"));
    } else {
        r.push(String::from_str("Mnemonic"));
    }
    assert(texts(r@) =~= header_text(network));
    r
}

/// The row for the entry at a position of the batch, counted from zero.
pub fn row(network: Network, position: usize, e: &GeneratedEntry) -> (r: Vec<String>)
    requires
        position < usize::MAX,
    ensures
        texts(r@) == row_text(network, position as nat, e@),
{
    let mut r: Vec<String> = Vec::new();
    r.push(decimal(position + 1));
    r.push(network.label());
    if network.is_address_based() {
        r.push(e.public_identifier.clone());
    }
    r.push(e.secret.clone());
    assert(texts(r@) =~= row_text(network, position as nat, e@));
    r
}

/// The table for a batch: the header, then one row per entry, in order, each
/// with its position counted from one.
pub fn table(batch: &Vec<GeneratedEntry>, network: Network) -> (rows: Vec<Vec<String>>)
    ensures
        rows_text(rows@) == table_text(network, batch_text(batch@)),
        rows@.len() == batch@.len() + 1,
{
    let mut rows: Vec<Vec<String>> = Vec::new();
    rows.push(header(network));
    let mut i: usize = 0;
    while i < batch.len()
        invariant
            i <= batch@.len(),
            rows@.len() == i + 1,
            texts(rows@[0]@) == header_text(network),
            forall|k: int|
                0 <= k < i ==> texts(#[trigger] rows@[k + 1]@) == row_text(
                    network,
                    k as nat,
                    batch@[k]@,
                ),
        decreases batch@.len() - i,
    {
        let r = row(network, i, &batch[i]);
        let ghost before = rows@;
        rows.push(r);
        proof {
            assert forall|k: int| 0 <= k < i + 1 implies texts(#[trigger] rows@[k + 1]@)
                == row_text(network, k as nat, batch@[k]@) by {
                if k < i {
                    assert(rows@[k + 1] == before[k + 1]);
                }
            }
        }
        i += 1;
    }
    proof {
        let want = table_text(network, batch_text(batch@));
        let have = rows_text(rows@);
        assert(have.len() == want.len());
        assert forall|k: int| 0 <= k < have.len() implies have[k] == want[k] by {
            if k > 0 {
                assert(have[k] == texts(rows@[(k - 1) + 1]@));
            }
        }
        assert(have =~= want);
    }
    rows
}

/// Writes a table as CSV, record by record. Fails with `IoError` exactly
/// where the writer fails on a record.
pub fn encode_table(rows: &Vec<Vec<String>>) -> (r: Result<Vec<u8>, GenError>)
    ensures
        match csv_bytes(rows_text(rows@)) {
            Some(bytes) => r matches Ok(out) && out@ == bytes,
            None => r == Err::<Vec<u8>, GenError>(GenError::IoError),
        },
{
    let ghost all = rows_text(rows@);
    let mut out: Vec<u8> = Vec::new();
    let mut i: usize = 0;
    while i < rows.len()
        invariant
            i <= rows@.len(),
            all == rows_text(rows@),
            csv_bytes(all.take(i as int)) == Some(out@),
        decreases rows@.len() - i,
    {
        proof {
            assert(all.take(i + 1).drop_last() =~= all.take(i as int));
            assert(all.take(i + 1).last() == texts(rows@[i as int]@));
        }
        match csv_record(&rows[i]) {
            Ok(mut bytes) => {
                out.append(&mut bytes);
            },
            Err(_) => {
                proof {
                    lemma_csv_bytes_fails(all, i + 1);
                }
                return Err(GenError::IoError);
            },
        }
        i += 1;
    }
    proof {
        assert(all.take(i as int) =~= all);
    }
    Ok(out)
}

/// Where the writer fails on the first `n` records of a table, it fails on
/// the table.
pub proof fn lemma_csv_bytes_fails(rows: Seq<Seq<Seq<char>>>, n: int)
    requires
        0 <= n <= rows.len(),
        csv_bytes(rows.take(n)).is_none(),
    ensures
        csv_bytes(rows).is_none(),
    decreases rows.len() - n,
{
    if n < rows.len() {
        assert(rows.take(n + 1).drop_last() =~= rows.take(n));
        lemma_csv_bytes_fails(rows, n + 1);
    } else {
        assert(rows.take(n) =~= rows);
    }
}

/// The CSV text of a batch: the header and one record per entry, in order.
/// Fails with `IoError` exactly where the writer fails on a record.
pub fn render_csv(batch: &Vec<GeneratedEntry>, network: Network) -> (r: Result<Vec<u8>, GenError>)
    ensures
        match csv_bytes(table_text(network, batch_text(batch@))) {
            Some(bytes) => r matches Ok(out) && out@ == bytes,
            None => r == Err::<Vec<u8>, GenError>(GenError::IoError),
        },
{
    let rows = table(batch, network);
    encode_table(&rows)
}

/// The line of the listing for the entry at a position of the batch, counted
/// from zero.
pub fn console_line(network: Network, position: usize, e: &GeneratedEntry) -> (r: String)
    requires
        position < usize::MAX,
    ensures
        r@ == console_line_text(network, position as nat, e@),
{
    let mut line = String::from_str("Index: ");
    push_decimal(&mut line, position + 1);
    if network.is_address_based() {
        line.append(", Public Address: ");
        line.append(e.public_identifier.as_str());
        line.append(", Private Key: ");
        line.append(e.secret.as_str());
    } else {
        line.append(", Mnemonic: ");
        line.append(e.secret.as_str());
    }
    line
}

/// The listing of a batch: one line per entry, in order, without a header.
pub fn console_lines(batch: &Vec<GeneratedEntry>, network: Network) -> (lines: Vec<String>)
    ensures
        lines@.len() == batch@.len(),
        forall|i: int|
            0 <= i < batch@.len() ==> (#[trigger] lines@[i])@ == console_line_text(
                network,
                i as nat,
                batch@[i]@,
            ),
{
    let mut lines: Vec<String> = Vec::new();
    let mut i: usize = 0;
    while i < batch.len()
        invariant
            i <= batch@.len(),
            lines@.len() == i,
            forall|k: int|
                0 <= k < i ==> (#[trigger] lines@[k])@ == console_line_text(
                    network,
                    k as nat,
                    batch@[k]@,
                ),
        decreases batch@.len() - i,
    {
        lines.push(console_line(network, i, &batch[i]));
        i += 1;
    }
    lines
}

} // verus!
