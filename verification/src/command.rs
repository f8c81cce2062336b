//! The administrator command surface: `!setskull <n>` changes the threshold,
//! `!setchannel` designates the channel the command was issued in as the
//! board channel. Both demand administrator privilege, which the surrounding
//! binary resolves through the platform's role query and hands in as a flag;
//! a non-administrator's command is silently ignored. Any other text is no
//! command and is ignored too.

use vstd::prelude::*;
use vstd::string::StrSliceExecFns;
use vstd::string::StringExecFns;

use crate::config::Config;
use crate::numfmt::parse_u64;
use crate::numfmt::spec_parsed_u64;
use crate::numfmt::spec_parses_as_u64;

verus! {

/// The White_Space characters, as the platform's text convention splits
/// command words: the ASCII controls tab through carriage return, the space,
/// next line, no-break space, ogham space mark, the en-quad through hair
/// space range, the two line and paragraph separators, the narrow no-break
/// space, the medium mathematical space, and the ideographic space.
pub open spec fn spec_is_space(c: char) -> bool {
    ||| 9 <= c as u32 && c as u32 <= 13
    ||| c as u32 == 32
    ||| c as u32 == 0x85
    ||| c as u32 == 0xA0
    ||| c as u32 == 0x1680
    ||| 0x2000 <= c as u32 && c as u32 <= 0x200A
    ||| c as u32 == 0x2028
    ||| c as u32 == 0x2029
    ||| c as u32 == 0x202F
    ||| c as u32 == 0x205F
    ||| c as u32 == 0x3000
}

fn is_space(c: char) -> (b: bool)
    ensures
        b == spec_is_space(c),
{
    let u = c as u32;
    (9 <= u && u <= 13) || u == 32 || u == 0x85 || u == 0xA0 || u == 0x1680 || (0x2000 <= u && u
        <= 0x200A) || u == 0x2028 || u == 0x2029 || u == 0x202F || u == 0x205F || u == 0x3000
}

/// The position of the first whitespace character at or after `from`, if any.
pub open spec fn spec_first_space_at(s: Seq<char>, from: int) -> Option<int>
    decreases s.len() - from,
{
    if from < 0 || from >= s.len() {
        Option::None
    } else if spec_is_space(s[from]) {
        Option::Some(from)
    } else {
        spec_first_space_at(s, from + 1)
    }
}

/// What a command does to the configuration, and what it replies: the new
/// threshold, the new board channel, and the reply text, if one is owed.
/// Text that splits at its first whitespace into `!setskull` and an argument
/// sets the threshold to the argument's value when the issuer is an
/// administrator and the argument denotes a number ("Skull count set!");
/// a malformed argument changes nothing and earns "Invalid number!". Text
/// that is exactly `!setchannel` makes the issuing channel the board channel
/// for an administrator ("Channel set!"). A non-administrator's command, and
/// any other text, changes nothing and earns no reply.
pub open spec fn spec_command_outcome(
    content: Seq<char>,
    is_admin: bool,
    channel_id: u64,
    threshold: u64,
    channel: Option<u64>,
) -> (u64, Option<u64>, Option<Seq<char>>) {
    match spec_first_space_at(content, 0) {
        Option::Some(i) => {
            if content.take(i) == "!setskull"@ {
                if !is_admin {
                    (threshold, channel, Option::<Seq<char>>::None)
                } else {
                    let arg = content.skip(i + 1);
                    if spec_parses_as_u64(arg) {
                        (
                            spec_parsed_u64(arg) as u64,
                            channel,
                            Option::Some("Skull count set!"@),
                        )
                    } else {
                        (threshold, channel, Option::Some("Invalid number!"@))
                    }
                }
            } else {
                (threshold, channel, Option::<Seq<char>>::None)
            }
        },
        Option::None => {
            if content == "!setchannel"@ {
                if is_admin {
                    (threshold, Option::Some(channel_id), Option::Some("Channel set!"@))
                } else {
                    (threshold, channel, Option::<Seq<char>>::None)
                }
            } else {
                (threshold, channel, Option::<Seq<char>>::None)
            }
        },
    }
}

fn find_first_space(s: &str) -> (r: Option<usize>)
    ensures
        match r {
            Option::Some(j) => j < s@.len() && spec_first_space_at(s@, 0) == Option::Some(j as int),
            Option::None => spec_first_space_at(s@, 0) is None,
        },
{
    let len = s.unicode_len();
    let mut i: usize = 0;
    while i < len
        invariant
            i <= len,
            len == s@.len(),
            spec_first_space_at(s@, 0) == spec_first_space_at(s@, i as int),
        decreases len - i,
    {
        let c = s.get_char(i);
        if is_space(c) {
            return Some(i);
        }
        i = i + 1;
    }
    None
}

/// Interpret one incoming chat message as a possible administrator command,
/// mutate the configuration as the command directs, and hand back the reply
/// to send, if any.
pub fn interpret_command(content: &str, is_admin: bool, channel_id: u64, cfg: &mut Config) -> (reply:
    Option<String>)
    ensures
        ({
            let out = spec_command_outcome(
                content@,
                is_admin,
                channel_id,
                old(cfg).threshold,
                old(cfg).board_channel,
            );
            &&& final(cfg).threshold == out.0
            &&& final(cfg).board_channel == out.1
            &&& (match reply {
                Option::Some(r) => out.2 matches Some(v) && r@ == v,
                Option::None => out.2 is None,
            })
        }),
{
    let len = content.unicode_len();
    let space_at = find_first_space(content);
    match space_at {
        Some(idx) => {
            let token = content.substring_char(0, idx);
            let token_owned: String = token.to_owned();
            let keyword: String = String::from_str("!setskull");
            proof {
                assert(content@.subrange(0, idx as int) =~= content@.take(idx as int));
            }
            if token_owned == keyword {
                if !is_admin {
                    return None;
                }
                let arg = content.substring_char(idx + 1, len);
                proof {
                    assert(content@.subrange(idx as int + 1, len as int) =~= content@.skip(
                        idx as int + 1,
                    ));
                }
                match parse_u64(arg) {
                    Some(v) => {
                        cfg.threshold = v;
                        Some(String::from_str("Skull count set!"))
                    },
                    None => Some(String::from_str("Invalid number!")),
                }
            } else {
                None
            }
        },
        None => {
            let whole: String = content.to_owned();
            let channel_cmd: String = String::from_str("!setchannel");
            if whole == channel_cmd {
                if is_admin {
                    cfg.board_channel = Some(channel_id);
                    Some(String::from_str("Channel set!"))
                } else {
                    None
                }
            } else {
                None
            }
        },
    }
}

} // verus!
