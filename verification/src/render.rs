//! Rendering of a board post: the content line (glyph, bold corrected count,
//! separator, a mention of the originating channel) and the accompanying rich
//! embed (author with avatar fallback, body with a link back to the source
//! message, fixed accent color, one image per image-shaped attachment).

use vstd::prelude::*;
use vstd::string::StringExecFns;

use crate::model::Attachment;
use crate::model::MessageData;
use crate::numfmt::format_u64;
use crate::numfmt::spec_decimal;
use crate::skull_glyph;
use crate::spec_skull;

verus! {

/// Accent color of every board embed.
pub const EMBED_COLOR: u32 = 0xFF0000;

/// Avatar icon used when the author has none of their own.
pub open spec fn spec_default_avatar() -> Seq<char> {
    "https://cdn.discordapp.com/embed/avatars/0.png"@
}

/// Fixed page the embed author line links to.
pub open spec fn spec_author_page() -> Seq<char> {
    "https://github.com/Bunch-of-cells"@
}

/// The content line of a board post: the tracked glyph, the corrected count
/// in bold, a separator, a mention of the originating channel, a line break.
pub open spec fn spec_board_content(count: u64, channel_id: u64) -> Seq<char> {
    spec_skull() + " **"@ + spec_decimal(count as int) + " |** <#"@ + spec_decimal(
        channel_id as int,
    ) + ">\n"@
}

/// Build the content line of a board post.
pub fn render_board_content(count: u64, channel_id: u64) -> (s: String)
    ensures
        s@ == spec_board_content(count, channel_id),
{
    let mut s = String::from_str(skull_glyph());
    s.append(" **");
    let num = format_u64(count);
    s.append(num.as_str());
    s.append(" |** <#");
    let chan = format_u64(channel_id);
    s.append(chan.as_str());
    s.append(">\n");
    proof {
        assert(s@ =~= spec_board_content(count, channel_id));
    }
    s
}

/// The icon shown for the author: their avatar, or the default icon when
/// they have none.
pub open spec fn spec_icon(avatar: Option<String>) -> Seq<char> {
    match avatar {
        Option::Some(u) => u@,
        Option::None => spec_default_avatar(),
    }
}

/// The link back to the source message, as the platform's web client resolves
/// it; a message outside any guild is addressed through the direct-message
/// scope.
pub open spec fn spec_message_link(guild_id: Option<u64>, channel_id: u64, message_id: u64) -> Seq<
    char,
> {
    "https://discord.com/channels/"@ + (match guild_id {
        Option::Some(g) => spec_decimal(g as int),
        Option::None => "@me"@,
    }) + "/"@ + spec_decimal(channel_id as int) + "/"@ + spec_decimal(message_id as int)
}

/// The embed body: the source message's text, then a clickable link back to
/// it.
pub open spec fn spec_description(content: Seq<char>, link: Seq<char>) -> Seq<char> {
    content + "\n\n\n[Go to Message]("@ + link + ")"@
}

/// The image entries of the embed: the url of each attachment that is
/// image-shaped (reports a height), in order.
pub open spec fn spec_image_urls(atts: Seq<Attachment>) -> Seq<Seq<char>>
    decreases atts.len(),
{
    if atts.len() == 0 {
        Seq::empty()
    } else {
        spec_image_urls(atts.drop_last()) + (if atts.last().height is Some {
            seq![atts.last().url@]
        } else {
            Seq::empty()
        })
    }
}

/// The rich embed accompanying a board post, as plain values. The surrounding
/// binary translates it into the platform's embed builder field by field.
pub struct EmbedSpec {
    pub author_name: String,
    pub author_url: String,
    pub icon_url: String,
    pub description: String,
    pub color: u32,
    pub image_urls: Vec<String>,
}

/// Every field of the embed is what the rendering rules say it must be for
/// this source message.
pub open spec fn spec_embed_matches(e: EmbedSpec, msg: MessageData) -> bool {
    &&& e.author_name@ == msg.author_name@
    &&& e.author_url@ == spec_author_page()
    &&& e.icon_url@ == spec_icon(msg.author_avatar)
    &&& e.description@ == spec_description(
        msg.content@,
        spec_message_link(msg.guild_id, msg.channel_id, msg.id),
    )
    &&& e.color == EMBED_COLOR
    &&& e.image_urls@.map_values(|u: String| u@) == spec_image_urls(msg.attachments@)
}

/// Build the message link for the embed body.
fn render_message_link(msg: &MessageData) -> (s: String)
    ensures
        s@ == spec_message_link(msg.guild_id, msg.channel_id, msg.id),
{
    let mut s = String::from_str("https://discord.com/channels/");
    match msg.guild_id {
        Some(g) => {
            let gtxt = format_u64(g);
            s.append(gtxt.as_str());
        },
        None => {
            s.append("@me");
        },
    }
    s.append("/");
    let ctxt = format_u64(msg.channel_id);
    s.append(ctxt.as_str());
    s.append("/");
    let mtxt = format_u64(msg.id);
    s.append(mtxt.as_str());
    proof {
        assert(s@ =~= spec_message_link(msg.guild_id, msg.channel_id, msg.id));
    }
    s
}

/// Compose the embed for a source message.
pub fn compose_embed(msg: &MessageData) -> (e: EmbedSpec)
    ensures
        spec_embed_matches(e, *msg),
{
    let icon_url = match &msg.author_avatar {
        Some(u) => u.clone(),
        None => String::from_str("https://cdn.discordapp.com/embed/avatars/0.png"),
    };
    let link = render_message_link(msg);
    let mut description = msg.content.clone();
    description.append("\n\n\n[Go to Message](");
    description.append(link.as_str());
    description.append(")");
    proof {
        assert(description@ =~= spec_description(
            msg.content@,
            spec_message_link(msg.guild_id, msg.channel_id, msg.id),
        ));
    }
    let mut image_urls: Vec<String> = Vec::new();
    let n = msg.attachments.len();
    let mut i: usize = 0;
    while i < n
        invariant
            i <= n,
            n == msg.attachments@.len(),
            image_urls@.map_values(|u: String| u@) == spec_image_urls(msg.attachments@.take(i as int)),
        decreases n - i,
    {
        let a = &msg.attachments[i];
        proof {
            assert(msg.attachments@.take(i as int + 1).drop_last() =~= msg.attachments@.take(
                i as int,
            ));
            assert(msg.attachments@.take(i as int + 1).last() == msg.attachments@[i as int]);
        }
        if a.height.is_some() {
            image_urls.push(a.url.clone());
        }
        proof {
            assert(image_urls@.map_values(|u: String| u@) =~= spec_image_urls(
                msg.attachments@.take(i as int + 1),
            ));
        }
        i = i + 1;
    }
    proof {
        assert(msg.attachments@.take(n as int) =~= msg.attachments@);
    }
    EmbedSpec {
        author_name: msg.author_name.clone(),
        author_url: String::from_str("https://github.com/Bunch-of-cells"),
        icon_url,
        description,
        color: EMBED_COLOR,
        image_urls,
    }
}

} // verus!
