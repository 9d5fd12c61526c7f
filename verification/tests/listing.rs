use kinesis_tools_rust::listing::{render_listing, StreamSummary};

fn summary(name: &str, mode: &str) -> StreamSummary {
    StreamSummary {
        name: name.to_string(),
        arn: format!("arn:aws:kinesis:eu-west-3:123456789012:stream/{name}"),
        status: "ACTIVE".to_string(),
        mode: mode.to_string(),
    }
}

#[test]
fn render_listing_shows_the_head_alone_without_streams() {
    assert_eq!(
        render_listing("eu-west-3", &Vec::new()),
        "------------------------------------------------------------\n\
         Listing AWS Kinesis Data Streams in eu-west-3\n\
         ------------------------------------------------------------"
    );
}

#[test]
fn render_listing_shows_each_stream_in_order() {
    let streams = vec![summary("orders", "PROVISIONED"), summary("clicks", "ON_DEMAND")];
    assert_eq!(
        render_listing("eu-west-3", &streams),
        "------------------------------------------------------------\n\
         Listing AWS Kinesis Data Streams in eu-west-3\n\
         ------------------------------------------------------------\n\
         - Name: orders\n\
         - ARN: arn:aws:kinesis:eu-west-3:123456789012:stream/orders\n\
         - Status: ACTIVE\n\
         - Mode: PROVISIONED\n\
         ------------------------------------------------------------\n\
         - Name: clicks\n\
         - ARN: arn:aws:kinesis:eu-west-3:123456789012:stream/clicks\n\
         - Status: ACTIVE\n\
         - Mode: ON_DEMAND\n\
         ------------------------------------------------------------"
    );
}
