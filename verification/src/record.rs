//! Records of a shard and what is put out for each of them.

use crate::format::{format_record, formatted};
use crate::payload::{decode_with, decoded_with, FormatRecordError, Payload};
use vstd::prelude::*;
use vstd::string::*;

verus! {

/// A record of a shard, as a poll returns it.
#[derive(Debug, PartialEq, Eq)]
pub struct Record {
    /// The position of the record in its shard.
    pub sequence_number: String,
    /// The key under which the record was written.
    pub partition_key: String,
    /// When the record arrived, approximately, as it is to be shown.
    pub arrival: String,
    /// The payload.
    pub data: Vec<u8>,
}

/// The mathematical value of a [`Record`].
pub ghost struct RecordView {
    pub sequence_number: Seq<char>,
    pub partition_key: Seq<char>,
    pub arrival: Seq<char>,
    pub data: Seq<u8>,
}

impl View for Record {
    type V = RecordView;

    open spec fn view(&self) -> RecordView {
        RecordView {
            sequence_number: self.sequence_number@,
            partition_key: self.partition_key@,
            arrival: self.arrival@,
            data: self.data@,
        }
    }
}

/// What a worker puts out for one record.
#[derive(Debug, PartialEq, Eq)]
pub enum Emission {
    /// A block for the output stream, for the record at this position.
    Block { sequence_number: String, text: String },
    /// A line for the error stream; no block is shown for the record.
    Failure { message: String },
}

/// The mathematical value of an [`Emission`].
pub ghost enum EmissionView {
    Block { sequence_number: Seq<char>, text: Seq<char> },
    Failure { message: Seq<char> },
}

impl View for Emission {
    type V = EmissionView;

    open spec fn view(&self) -> EmissionView {
        match self {
            Emission::Block { sequence_number, text } => EmissionView::Block {
                sequence_number: sequence_number@,
                text: text@,
            },
            Emission::Failure { message } => EmissionView::Failure { message: message@ },
        }
    }
}

/// The body shown for a payload, or why none is shown, where
/// `expect_compressed` tells whether compressed payloads are expected.
pub open spec fn shown_with(data: Seq<u8>, expect_compressed: bool) -> Result<
    Seq<char>,
    FormatRecordError,
> {
    match decoded_with(data, expect_compressed) {
        Ok(payload) => Ok(formatted(payload.text)),
        Err(error) => Err(error),
    }
}

/// The body shown for a payload where compressed payloads are expected, or
/// why none is shown.
pub open spec fn shown(data: Seq<u8>) -> Result<Seq<char>, FormatRecordError> {
    shown_with(data, true)
}

/// The value of the body shown for a payload, or why none is shown.
pub open spec fn body_view(body: Result<String, FormatRecordError>) -> Result<
    Seq<char>,
    FormatRecordError,
> {
    match body {
        Ok(text) => Ok(text@),
        Err(error) => Err(error),
    }
}

/// The line that opens and closes a block.
pub open spec fn rule() -> Seq<char> {
    "------------------------------------------------------------"@
}

/// The block shown for a record of the shard `shard` whose body is `body`.
pub open spec fn block_text(shard: Seq<char>, record: RecordView, body: Seq<char>) -> Seq<char> {
    rule() + "\n"@
        + "Event received from shard '"@ + shard + "':\n"@
        + "Partition Key '"@ + record.partition_key + "':\n"@
        + "Sequence '"@ + record.sequence_number + "':\n"@
        + "Received at '"@ + record.arrival + "':\n"@
        + body + "\n"@
        + rule()
}

/// What is put out for one record of the shard `shard`: its block where
/// its payload decodes, and the error's message where it does not.
pub open spec fn emission_of(shard: Seq<char>, expect_compressed: bool, record: RecordView)
    -> EmissionView {
    match shown_with(record.data, expect_compressed) {
        Ok(body) => EmissionView::Block {
            sequence_number: record.sequence_number,
            text: block_text(shard, record, body),
        },
        Err(error) => EmissionView::Failure { message: error.message() },
    }
}

/// What is put out for the records of one poll of the shard `shard`, one
/// emission for each record, in the records' order.
pub open spec fn emissions_of(
    shard: Seq<char>,
    expect_compressed: bool,
    records: Seq<RecordView>,
) -> Seq<EmissionView> {
    Seq::new(records.len(), |i: int| emission_of(shard, expect_compressed, records[i]))
}

/// The values of records.
pub open spec fn records_view(records: Seq<Record>) -> Seq<RecordView> {
    Seq::new(records.len(), |i: int| records[i]@)
}

/// The values of emissions.
pub open spec fn emissions_view(emissions: Seq<Emission>) -> Seq<EmissionView> {
    Seq::new(emissions.len(), |i: int| emissions[i]@)
}

/// Decodes a payload and formats the text for display, where
/// `expect_compressed` tells whether compressed payloads are expected.
pub fn record_to_string_with(record: &[u8], expect_compressed: bool) -> (body: Result<
    String,
    FormatRecordError,
>)
    ensures
        body_view(body) == shown_with(record@, expect_compressed),
        body == Err::<String, FormatRecordError>(FormatRecordError::EmptyRecord)
            <==> record@.len() == 0,
        body == Err::<String, FormatRecordError>(FormatRecordError::Default) <==> decoded_with(
            record@,
            expect_compressed,
        ) == Err::<Payload, FormatRecordError>(FormatRecordError::Default),
{
    match decode_with(record, expect_compressed) {
        Ok(payload) => Ok(format_record(payload.text)),
        Err(error) => Err(error),
    }
}

/// Decodes a payload, a compressed one too, and formats the text for
/// display.
pub fn record_to_string(record: &[u8]) -> (body: Result<String, FormatRecordError>)
    ensures
        body_view(body) == shown(record@),
        body == Err::<String, FormatRecordError>(FormatRecordError::EmptyRecord)
            <==> record@.len() == 0,
        body == Err::<String, FormatRecordError>(FormatRecordError::Default) <==> decoded_with(
            record@,
            true,
        ) == Err::<Payload, FormatRecordError>(FormatRecordError::Default),
{
    record_to_string_with(record, true)
}

/// The block shown for `record`, a record of the shard `shard_id` whose
/// body is `body`.
pub fn render_block(shard_id: &str, record: &Record, body: &str) -> (text: String)
    ensures
        text@ == block_text(shard_id@, record@, body@),
{
    let mut text = String::from_str("------------------------------------------------------------");
    text.append("\n");
    text.append("Event received from shard '");
    text.append(shard_id);
    text.append("':\n");
    text.append("Partition Key '");
    text.append(record.partition_key.as_str());
    text.append("':\n");
    text.append("Sequence '");
    text.append(record.sequence_number.as_str());
    text.append("':\n");
    text.append("Received at '");
    text.append(record.arrival.as_str());
    text.append("':\n");
    text.append(body);
    text.append("\n");
    text.append("------------------------------------------------------------");
    text
}

/// What is put out for one record of the shard `shard_id`.
pub fn emit(shard_id: &str, expect_compressed: bool, record: &Record) -> (emission: Emission)
    ensures
        emission@ == emission_of(shard_id@, expect_compressed, record@),
{
    match record_to_string_with(record.data.as_slice(), expect_compressed) {
        Ok(body) => Emission::Block {
            sequence_number: record.sequence_number.clone(),
            text: render_block(shard_id, record, body.as_str()),
        },
        Err(error) => Emission::Failure { message: error.to_string() },
    }
}

/// What is put out for the records of one poll of the shard `shard_id`. A
/// record whose payload does not decode gives a line for the error stream
/// and stops nothing: the records after it are handled all the same.
pub fn process_records(shard_id: &str, expect_compressed: bool, records: &Vec<Record>) -> (emissions:
    Vec<Emission>)
    ensures
        emissions_view(emissions@) == emissions_of(
            shard_id@,
            expect_compressed,
            records_view(records@),
        ),
{
    let mut emissions: Vec<Emission> = Vec::new();
    let mut i: usize = 0;
    while i < records.len()
        invariant
            i <= records.len(),
            emissions.len() == i,
            forall|k: int|
                0 <= k < i ==> (#[trigger] emissions[k])@ == emission_of(
                    shard_id@,
                    expect_compressed,
                    records[k]@,
                ),
        decreases records.len() - i,
    {
        emissions.push(emit(shard_id, expect_compressed, &records[i]));
        i = i + 1;
    }
    assert(emissions_view(emissions@) =~= emissions_of(
        shard_id@,
        expect_compressed,
        records_view(records@),
    ));
    emissions
}

} // verus!
