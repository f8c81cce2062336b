use skullboard::is_tracked_emoji;
use skullboard::marker_glyph;
use skullboard::model::Attachment;
use skullboard::model::MessageData;
use skullboard::render::compose_embed;
use skullboard::render::render_board_content;
use skullboard::render::EMBED_COLOR;
use skullboard::skull_glyph;
use skullboard::triggered_by_author;

fn message() -> MessageData {
    MessageData {
        id: 1000,
        channel_id: 555,
        guild_id: Some(99),
        author_id: 1,
        author_name: "alice".to_string(),
        author_avatar: None,
        content: "hello".to_string(),
        attachments: vec![],
        reactions: vec![],
    }
}

#[test]
fn glyphs() {
    assert_eq!(skull_glyph(), "\u{1F480}");
    assert_eq!(marker_glyph(), "\u{2620}\u{FE0F}");
    assert!(is_tracked_emoji("\u{1F480}"));
    assert!(!is_tracked_emoji("\u{2620}\u{FE0F}"));
    assert!(!is_tracked_emoji("\u{1F44D}"));
    assert!(!is_tracked_emoji(""));
}

#[test]
fn author_triggered_events_are_detected() {
    assert!(triggered_by_author(Some(1), 1));
    assert!(!triggered_by_author(Some(2), 1));
    assert!(!triggered_by_author(None, 1));
}

#[test]
fn board_content_line() {
    assert_eq!(render_board_content(4, 555), "\u{1F480} **4 |** <#555>\n");
    assert_eq!(render_board_content(12, 1), "\u{1F480} **12 |** <#1>\n");
}

#[test]
fn embed_description_links_back_to_the_message() {
    let embed = compose_embed(&message());
    assert_eq!(
        embed.description,
        "hello\n\n\n[Go to Message](https://discord.com/channels/99/555/1000)"
    );
}

#[test]
fn embed_outside_a_guild_links_through_the_direct_message_scope() {
    let mut msg = message();
    msg.guild_id = None;
    let embed = compose_embed(&msg);
    assert_eq!(
        embed.description,
        "hello\n\n\n[Go to Message](https://discord.com/channels/@me/555/1000)"
    );
}

#[test]
fn embed_author_fields_and_color() {
    let embed = compose_embed(&message());
    assert_eq!(embed.author_name, "alice");
    assert_eq!(embed.author_url, "https://github.com/Bunch-of-cells");
    assert_eq!(embed.color, 0xFF0000);
    assert_eq!(embed.color, EMBED_COLOR);
}

#[test]
fn embed_falls_back_to_the_default_avatar() {
    let embed = compose_embed(&message());
    assert_eq!(embed.icon_url, "https://cdn.discordapp.com/embed/avatars/0.png");

    let mut msg = message();
    msg.author_avatar = Some("https://cdn.example/alice.png".to_string());
    let embed = compose_embed(&msg);
    assert_eq!(embed.icon_url, "https://cdn.example/alice.png");
}

#[test]
fn embed_keeps_one_image_per_image_shaped_attachment() {
    let mut msg = message();
    msg.attachments = vec![
        Attachment { url: "https://cdn.example/a.png".to_string(), height: Some(240) },
        Attachment { url: "https://cdn.example/b.txt".to_string(), height: None },
        Attachment { url: "https://cdn.example/c.png".to_string(), height: Some(480) },
    ];
    let embed = compose_embed(&msg);
    assert_eq!(
        embed.image_urls,
        vec!["https://cdn.example/a.png".to_string(), "https://cdn.example/c.png".to_string()]
    );
}
