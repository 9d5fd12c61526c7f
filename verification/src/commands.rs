//! The commands of the tool: its arguments, and what each single request
//! to the service is made of.

use crate::text::text_of;
use vstd::prelude::*;
use vstd::string::*;

verus! {

/// What the tool is asked to do.
#[derive(Debug, PartialEq, Eq, Clone)]
pub enum Commands {
    /// List the streams.
    List {},
    /// Read the records of a stream as they arrive.
    Read { stream: String, disable_unzip: bool },
    /// Create a stream.
    Create { stream: String, shard_count: Option<i32> },
    /// Delete a stream with its shards and data.
    Delete { stream: String },
    /// Write the content of a file into a stream, as one record.
    Put { stream: String, path: String, shard_key: Option<String> },
}

/// The arguments of the tool.
#[derive(Debug, PartialEq, Eq, Clone)]
pub struct Args {
    /// The profile to take credentials from, where one is named.
    pub profile: Option<String>,
    pub command: Commands,
}

/// The region that is used where none is configured.
pub open spec fn default_region() -> Seq<char> {
    "eu-west-3"@
}

/// The number of shards of a stream that is created without one.
pub const DEFAULT_SHARD_COUNT: i32 = 1;

/// The partition key of a record that is written without one.
pub open spec fn default_partition_key() -> Seq<char> {
    "random"@
}

/// The profile to use: the one that the arguments name, else the ambient
/// one, else none.
pub open spec fn profile_of(named: Option<Seq<char>>, ambient: Option<Seq<char>>) -> Option<
    Seq<char>,
> {
    match named {
        Some(profile) => Some(profile),
        None => ambient,
    }
}

/// The profile to use, where `ambient` is the profile that the variable
/// `AWS_PROFILE` names: the arguments come first.
pub fn get_aws_profile(args: Args, ambient: Option<String>) -> (profile: Option<String>)
    ensures
        text_of(profile) == profile_of(text_of(args.profile), text_of(ambient)),
{
    match args.profile {
        Some(profile) => Some(profile),
        None => ambient,
    }
}

/// The region to use where none is configured.
pub fn fallback_region() -> (region: String)
    ensures
        region@ == default_region(),
{
    String::from_str("eu-west-3")
}

/// What is said of a client that cannot reach the service, where
/// `construction` tells that the request could not even be constructed and
/// `cause` is the message of the error's source.
pub open spec fn connection_failure_text(construction: bool, cause: Seq<char>) -> Seq<char> {
    if construction {
        "Could not construct AWS client. Do you have correct credentials ? Error message : "@
            + cause
    } else {
        "Failed to connect to AWS client ? Error message : "@ + cause
    }
}

/// What is said of a client that cannot reach the service.
pub fn connection_failure_message(construction: bool, cause: &str) -> (message: String)
    ensures
        message@ == connection_failure_text(construction, cause@),
{
    let mut message = if construction {
        String::from_str(
            "Could not construct AWS client. Do you have correct credentials ? Error message : ",
        )
    } else {
        String::from_str("Failed to connect to AWS client ? Error message : ")
    };
    message.append(cause);
    message
}

/// The requests that create a stream.
#[derive(Debug, PartialEq, Eq)]
pub struct CreatePlan {
    pub stream_name: String,
    pub shard_count: i32,
    /// The key of the tag that the new stream is given.
    pub tag_key: String,
    /// The value of that tag.
    pub tag_value: String,
    /// What is shown when the stream is created and tagged.
    pub message: String,
}

/// The requests that create the stream `stream_name`: with `shard_count`
/// shards, or with one where no count is given, and with the tag that
/// tells who created it.
pub fn plan_creation(stream_name: String, shard_count: Option<i32>) -> (plan: CreatePlan)
    ensures
        plan.stream_name == stream_name,
        plan.shard_count == (match shard_count {
            Some(count) => count,
            None => DEFAULT_SHARD_COUNT,
        }),
        plan.tag_key@ == "created-by"@,
        plan.tag_value@ == "kinesis-tools-rust"@,
        plan.message@ == "Stream "@ + stream_name@ + " successfully created"@,
{
    let mut message = String::from_str("Stream ");
    message.append(stream_name.as_str());
    message.append(" successfully created");
    CreatePlan {
        stream_name,
        shard_count: match shard_count {
            Some(count) => count,
            None => DEFAULT_SHARD_COUNT,
        },
        tag_key: String::from_str("created-by"),
        tag_value: String::from_str("kinesis-tools-rust"),
        message,
    }
}

/// What is shown when the stream `stream_name` is deleted.
pub fn deletion_message(stream_name: &str) -> (message: String)
    ensures
        message@ == "Stream "@ + stream_name@ + " successfully deleted"@,
{
    let mut message = String::from_str("Stream ");
    message.append(stream_name);
    message.append(" successfully deleted");
    message
}

/// Why a record cannot be written.
#[derive(Debug, PartialEq, Eq, Clone, Copy, Structural)]
pub enum PutError {
    /// The file holds no bytes.
    EmptyFile,
}

impl PutError {
    /// The message shown for this error.
    pub fn to_string(&self) -> (text: String)
        ensures
            text@ == "File is empty"@,
    {
        String::from_str("File is empty")
    }
}

/// The request that writes one record.
#[derive(Debug, PartialEq, Eq)]
pub struct PutPlan {
    pub stream_name: String,
    pub partition_key: String,
    pub data: Vec<u8>,
    /// What is shown when the record is written.
    pub message: String,
}

/// The request that writes `content` into the stream `stream_name` as
/// one record, under the partition key `shard_key` or, without one, under
/// the default key. Content without bytes is refused.
pub fn plan_put(stream_name: String, content: Vec<u8>, shard_key: Option<String>) -> (plan: Result<
    PutPlan,
    PutError,
>)
    ensures
        content@.len() == 0 <==> plan == Err::<PutPlan, PutError>(PutError::EmptyFile),
        content@.len() > 0 ==> {
            &&& plan is Ok
            &&& plan->Ok_0.stream_name == stream_name
            &&& plan->Ok_0.data == content
            &&& plan->Ok_0.partition_key@ == (match shard_key {
                Some(key) => key@,
                None => default_partition_key(),
            })
            &&& plan->Ok_0.message@ == "Data successfully pushed into stream"@
        },
{
    if content.len() == 0 {
        return Err(PutError::EmptyFile);
    }
    Ok(
        PutPlan {
            stream_name,
            partition_key: match shard_key {
                Some(key) => key,
                None => String::from_str("random"),
            },
            data: content,
            message: String::from_str("Data successfully pushed into stream"),
        },
    )
}

} // verus!
