//! The listing of the streams of a region.

use crate::record::rule;
use vstd::prelude::*;
use vstd::string::*;

verus! {

/// A stream, as the list of streams gives it.
#[derive(Debug, PartialEq, Eq)]
pub struct StreamSummary {
    pub name: String,
    pub arn: String,
    /// The status, as the service names it.
    pub status: String,
    /// The capacity mode, as the service names it.
    pub mode: String,
}

/// The mathematical value of a [`StreamSummary`].
pub ghost struct SummaryView {
    pub name: Seq<char>,
    pub arn: Seq<char>,
    pub status: Seq<char>,
    pub mode: Seq<char>,
}

impl View for StreamSummary {
    type V = SummaryView;

    open spec fn view(&self) -> SummaryView {
        SummaryView { name: self.name@, arn: self.arn@, status: self.status@, mode: self.mode@ }
    }
}

/// The values of summaries.
pub open spec fn summaries_view(summaries: Seq<StreamSummary>) -> Seq<SummaryView> {
    Seq::new(summaries.len(), |i: int| summaries[i]@)
}

/// The lines that open a listing of the streams of `region`.
pub open spec fn listing_head(region: Seq<char>) -> Seq<char> {
    rule() + "\n"@ + "Listing AWS Kinesis Data Streams in "@ + region + "\n"@ + rule()
}

/// The lines shown for one stream, each begun on a new line, closed by
/// the rule.
pub open spec fn entry_text(summary: SummaryView) -> Seq<char> {
    "\n- Name: "@ + summary.name + "\n- ARN: "@ + summary.arn + "\n- Status: "@ + summary.status
        + "\n- Mode: "@ + summary.mode + "\n"@ + rule()
}

/// The lines shown for streams, in the streams' order.
pub open spec fn entries_text(summaries: Seq<SummaryView>) -> Seq<char>
    decreases summaries.len(),
{
    if summaries.len() == 0 {
        Seq::empty()
    } else {
        entries_text(summaries.drop_last()) + entry_text(summaries.last())
    }
}

/// The listing of the streams of `region`: the head, then the lines of
/// each stream.
pub open spec fn listing_text(region: Seq<char>, summaries: Seq<SummaryView>) -> Seq<char> {
    listing_head(region) + entries_text(summaries)
}

/// The listing of the streams `summaries` of `region`, to be shown as it
/// is.
pub fn render_listing(region: &str, summaries: &Vec<StreamSummary>) -> (text: String)
    ensures
        text@ == listing_text(region@, summaries_view(summaries@)),
{
    let mut text = String::from_str("------------------------------------------------------------");
    text.append("\n");
    text.append("Listing AWS Kinesis Data Streams in ");
    text.append(region);
    text.append("\n");
    text.append("------------------------------------------------------------");
    let ghost all = summaries_view(summaries@);
    let mut i: usize = 0;
    assert(all.take(0) =~= Seq::empty());
    while i < summaries.len()
        invariant
            i <= summaries.len(),
            all == summaries_view(summaries@),
            text@ == listing_head(region@) + entries_text(all.take(i as int)),
        decreases summaries.len() - i,
    {
        let summary = &summaries[i];
        let ghost before = text@;
        text.append("\n- Name: ");
        text.append(summary.name.as_str());
        text.append("\n- ARN: ");
        text.append(summary.arn.as_str());
        text.append("\n- Status: ");
        text.append(summary.status.as_str());
        text.append("\n- Mode: ");
        text.append(summary.mode.as_str());
        text.append("\n");
        text.append("------------------------------------------------------------");
        proof {
            let shown = all.take(i + 1);
            assert(shown.drop_last() =~= all.take(i as int));
            assert(shown.last() == summary@);
            assert(text@ =~= before + entry_text(summary@));
        }
        i = i + 1;
    }
    assert(all.take(i as int) =~= all);
    text
}

} // verus!
