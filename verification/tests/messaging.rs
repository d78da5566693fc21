use bot_lifecycle::digits::u64_to_string;
use bot_lifecycle::messaging::archive_text;
use bot_lifecycle::messaging::delivery_outcome;
use bot_lifecycle::messaging::ChannelDelivery;
use bot_lifecycle::shards::shard_line;
use bot_lifecycle::shards::stage_label;
use bot_lifecycle::shards::ShardSnapshot;
use bot_lifecycle::shards::ShardStage;
use bot_lifecycle::supervisor::DiscordBot;

#[test]
fn post_sends_content_then_archived_copy_with_url() {
    let bot = DiscordBot::new(100, 200, 300, false);
    let plan = bot.post_message("hello".to_string(), Some("http://x".to_string()));
    assert_eq!(plan.len(), 2);
    assert_eq!(plan[0].channel, 100);
    assert_eq!(plan[0].text, "hello");
    assert_eq!(plan[1].channel, 200);
    assert_eq!(plan[1].text, "hello\n<http://x>");
    assert!(plan.iter().all(|op| op.channel != 300));
}

#[test]
fn post_without_url_archives_the_bare_content() {
    let bot = DiscordBot::new(100, 200, 300, false);
    let plan = bot.post_message("spotted".to_string(), None);
    assert_eq!(plan.len(), 2);
    assert_eq!(plan[0].channel, 100);
    assert_eq!(plan[0].text, "spotted");
    assert_eq!(plan[1].channel, 200);
    assert_eq!(plan[1].text, "spotted");
}

#[test]
fn post_debug_goes_to_the_test_channel_only() {
    let bot = DiscordBot::new(100, 200, 300, false);
    let op = bot.post_debug_string("ping".to_string());
    assert_eq!(op.channel, 300);
    assert_eq!(op.text, "ping");
}

#[test]
fn archive_text_delimits_the_url() {
    assert_eq!(
        archive_text("abc".to_string(), &Some("u".to_string())),
        "abc\n<u>"
    );
    assert_eq!(archive_text("abc".to_string(), &None), "abc");
}

#[test]
fn partial_delivery_is_reported_per_channel() {
    let primary_only = delivery_outcome(true, false);
    assert_eq!(primary_only.primary, ChannelDelivery::Delivered);
    assert_eq!(primary_only.archive, ChannelDelivery::Failed);

    let archive_only = delivery_outcome(false, true);
    assert_eq!(archive_only.primary, ChannelDelivery::Failed);
    assert_eq!(archive_only.archive, ChannelDelivery::Delivered);

    let both = delivery_outcome(true, true);
    assert_eq!(both.primary, ChannelDelivery::Delivered);
    assert_eq!(both.archive, ChannelDelivery::Delivered);

    let neither = delivery_outcome(false, false);
    assert_eq!(neither.primary, ChannelDelivery::Failed);
    assert_eq!(neither.archive, ChannelDelivery::Failed);
}

#[test]
fn decimal_rendering_is_exact() {
    assert_eq!(u64_to_string(0), "0");
    assert_eq!(u64_to_string(7), "7");
    assert_eq!(u64_to_string(10), "10");
    assert_eq!(u64_to_string(500), "500");
    assert_eq!(u64_to_string(18446744073709551615), "18446744073709551615");
}

#[test]
fn stage_labels_are_exact() {
    assert_eq!(stage_label(ShardStage::Connected), "connected");
    assert_eq!(stage_label(ShardStage::Connecting), "connecting");
    assert_eq!(stage_label(ShardStage::Disconnected), "disconnected");
    assert_eq!(stage_label(ShardStage::Handshake), "handshaking");
    assert_eq!(stage_label(ShardStage::Identifying), "identifying");
    assert_eq!(stage_label(ShardStage::Resuming), "resuming");
}

#[test]
fn shard_report_lines_mirror_the_snapshot() {
    let bot = DiscordBot::new(1, 2, 3, false);
    let runners = vec![
        ShardSnapshot { id: 0, stage: ShardStage::Connected, latency_ms: Some(42) },
        ShardSnapshot { id: 17, stage: ShardStage::Resuming, latency_ms: None },
    ];
    let lines = bot.print_shard_info(&runners);
    assert_eq!(lines.len(), 2);
    assert_eq!(lines[0], "Shard ID 0 is connected with a latency of 42 ms");
    assert_eq!(lines[1], "Shard ID 17 is resuming with a latency of unmeasured");
    assert_eq!(
        shard_line(&runners[0]),
        "Shard ID 0 is connected with a latency of 42 ms"
    );
}
