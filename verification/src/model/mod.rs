//! The records the service answers with, and the options of a widget.

use vstd::prelude::*;
use vstd::string::*;

use crate::text::text_equals;

pub mod response;

verus! {

/// A user as listed among the owners of a bot.
#[derive(Clone, Debug, PartialEq, Eq)]
pub struct User {
    pub id: String,
    /// Bit-set of [`UserFlags`].
    pub flags: usize,
    pub github: Option<String>,
    pub tag: String,
    pub username: String,
    /// Ids of the bots this user owns.
    pub bots: Vec<String>,
}

/// A listed bot.
#[derive(Clone, Debug, PartialEq, Eq)]
pub struct Bot {
    pub id: String,
    /// Bit-set of [`BotFlags`].
    pub flags: usize,
    pub name: String,
    pub tag: String,
    pub avatar: Option<String>,
    pub owners: Vec<User>,
    pub lib: String,
    pub prefix: String,
    pub votes: usize,
    pub servers: usize,
    pub intro: String,
    pub desc: String,
    /// Link; left out of outgoing documents when empty.
    pub web: String,
    /// Link; left out of outgoing documents when empty.
    pub git: String,
    /// Link; left out of outgoing documents when empty.
    pub url: String,
    /// Link; left out of outgoing documents when empty.
    pub discord: String,
    pub category: Vec<String>,
    pub vanity: Option<String>,
    /// Link; left out of outgoing documents when empty.
    pub bg: String,
    /// Link; left out of outgoing documents when empty.
    pub banner: String,
    pub status: Option<Status>,
    pub state: State,
}

/// A user's profile, with the bots they own embedded.
#[derive(Clone, Debug, PartialEq, Eq)]
pub struct UserInfo {
    pub id: String,
    /// Bit-set of [`UserFlags`].
    pub flags: usize,
    pub github: Option<String>,
    pub tag: String,
    pub username: String,
    pub bots: Vec<UserInfoBot>,
}

/// A bot as embedded in a [`UserInfo`]: owners are given by id.
#[derive(Clone, Debug, PartialEq, Eq)]
pub struct UserInfoBot {
    pub id: String,
    /// Bit-set of [`BotFlags`].
    pub flags: usize,
    pub name: String,
    pub tag: String,
    pub avatar: Option<String>,
    pub owners: Vec<String>,
    pub lib: String,
    pub prefix: String,
    pub votes: usize,
    pub servers: usize,
    pub intro: String,
    pub desc: String,
    /// Link; left out of outgoing documents when empty.
    pub web: String,
    /// Link; left out of outgoing documents when empty.
    pub git: String,
    /// Link; left out of outgoing documents when empty.
    pub url: String,
    /// Link; left out of outgoing documents when empty.
    pub discord: String,
    pub category: Vec<String>,
    pub vanity: Option<String>,
    /// Link; left out of outgoing documents when empty.
    pub bg: String,
    /// Link; left out of outgoing documents when empty.
    pub banner: String,
    pub status: Option<Status>,
    pub state: State,
}

/// Whether a user has voted for a bot, and when they last did.
#[derive(Clone, Copy, Debug, PartialEq, Eq)]
pub struct VoteCheck {
    pub voted: bool,
    pub last_vote: usize,
}

/// Whether a link field is left out of an outgoing document: exactly when
/// it is the empty string.
pub fn omits_link(link: &String) -> (omitted: bool)
    ensures
        omitted == (link@.len() == 0),
{
    link.as_str().is_empty()
}

/// The badges a user can carry. A user's `flags` is the sum of the masks of
/// their badges.
#[derive(Clone, Copy, Debug, PartialEq, Eq, Structural)]
pub enum UserFlags {
    Empty,
    Admin,
    BugHunter,
    BotReviewer,
    PremiumUser,
}

impl UserFlags {
    /// The bit that stands for the badge; zero for `Empty`.
    pub open spec fn mask(self) -> usize {
        match self {
            UserFlags::Empty => 0,
            UserFlags::Admin => 1,
            UserFlags::BugHunter => 2,
            UserFlags::BotReviewer => 4,
            UserFlags::PremiumUser => 8,
        }
    }

    /// The bit that stands for the badge.
    pub fn bits(&self) -> (bits: usize)
        ensures
            bits == self.mask(),
    {
        match self {
            UserFlags::Empty => 0,
            UserFlags::Admin => 1,
            UserFlags::BugHunter => 2,
            UserFlags::BotReviewer => 4,
            UserFlags::PremiumUser => 8,
        }
    }
}

/// The badges a bot can carry. A bot's `flags` is the sum of the masks of
/// its badges.
#[derive(Clone, Copy, Debug, PartialEq, Eq, Structural)]
pub enum BotFlags {
    Empty,
    OfficialBot,
    KoreaDiscordBotListCertifiedBot,
    Partner,
    DiscordVerifiedBot,
    Premium,
    OnestKoreaDiscordBotListHackathonWinnerBot,
}

impl BotFlags {
    /// The bit that stands for the badge; zero for `Empty`.
    pub open spec fn mask(self) -> usize {
        match self {
            BotFlags::Empty => 0,
            BotFlags::OfficialBot => 1,
            BotFlags::KoreaDiscordBotListCertifiedBot => 4,
            BotFlags::Partner => 8,
            BotFlags::DiscordVerifiedBot => 16,
            BotFlags::Premium => 32,
            BotFlags::OnestKoreaDiscordBotListHackathonWinnerBot => 64,
        }
    }

    /// The bit that stands for the badge.
    pub fn bits(&self) -> (bits: usize)
        ensures
            bits == self.mask(),
    {
        match self {
            BotFlags::Empty => 0,
            BotFlags::OfficialBot => 1,
            BotFlags::KoreaDiscordBotListCertifiedBot => 4,
            BotFlags::Partner => 8,
            BotFlags::DiscordVerifiedBot => 16,
            BotFlags::Premium => 32,
            BotFlags::OnestKoreaDiscordBotListHackathonWinnerBot => 64,
        }
    }
}

/// A bot's presence.
#[derive(Clone, Copy, Debug, PartialEq, Eq, Structural)]
pub enum Status {
    Online,
    Idle,
    Dnd,
    Streaming,
    Offline,
}

/// A bot's standing in the listing.
#[derive(Clone, Copy, Debug, PartialEq, Eq, Structural)]
pub enum State {
    Okay,
    Reported,
    Blocked,
    Private,
    Archived,
}

/// Which figure a widget shows.
#[derive(Clone, Copy, Debug, PartialEq, Eq, Structural)]
pub enum WidgetType {
    Votes,
    Servers,
    Status,
}

impl WidgetType {
    /// The word that stands for the widget type in a path.
    pub open spec fn name(self) -> Seq<char> {
        match self {
            WidgetType::Servers => "servers"@,
            WidgetType::Votes => "votes"@,
            WidgetType::Status => "status"@,
        }
    }

    /// The word that stands for the widget type in a path.
    pub fn to_string(&self) -> (text: String)
        ensures
            text@ == self.name(),
    {
        match self {
            WidgetType::Servers => String::from_str("servers"),
            WidgetType::Votes => String::from_str("votes"),
            WidgetType::Status => String::from_str("status"),
        }
    }
}

/// Bit pattern of the smallest scale a widget accepts, one half.
pub const SCALE_MIN_BITS: u32 = 0x3F00_0000;

/// Bit pattern of the largest scale a widget accepts, three.
pub const SCALE_MAX_BITS: u32 = 0x4040_0000;

/// Bit pattern of the scale used where none, or an unacceptable one, is given:
/// one.
pub const SCALE_DEFAULT_BITS: u32 = 0x3F80_0000;

/// A scale factor, held as the bit pattern of its IEEE 754 single-precision
/// value together with the decimal text of that value.
///
/// Among the patterns of non-negative numbers the order of the patterns is
/// the order of the numbers, and every other pattern (negative numbers,
/// infinities, not-a-number) lies above [`SCALE_MAX_BITS`] as an unsigned
/// integer; so a comparison of patterns decides whether the number lies
/// between one half and three.
#[derive(Clone, Debug, PartialEq, Eq)]
pub struct Scale {
    pub bits: u32,
    pub text: String,
}

/// The mathematical content of a [`Scale`].
pub struct ScaleView {
    pub bits: u32,
    pub text: Seq<char>,
}

impl View for Scale {
    type V = ScaleView;

    open spec fn view(&self) -> ScaleView {
        ScaleView { bits: self.bits, text: self.text@ }
    }
}

impl Scale {
    /// Whether a bit pattern stands for a number from one half to three,
    /// both included.
    pub open spec fn in_range(bits: u32) -> bool {
        SCALE_MIN_BITS <= bits <= SCALE_MAX_BITS
    }

    /// The default scale, one, whose text is `1`.
    pub open spec fn one() -> ScaleView {
        ScaleView { bits: SCALE_DEFAULT_BITS, text: "1"@ }
    }

    /// A scale from the bit pattern of its value and the value's decimal text.
    pub fn new(bits: u32, text: String) -> (scale: Scale)
        ensures
            scale@ == (ScaleView { bits, text: text@ }),
    {
        Scale { bits, text }
    }
}

/// How a widget is to be drawn. Each option may be left open; the accessors
/// fill in the defaults.
#[derive(Clone, Debug)]
pub struct WidgetQuery {
    style: Option<&'static str>,
    scale: Option<Scale>,
    icon: Option<bool>,
}

/// The mathematical content of a [`WidgetQuery`].
pub struct WidgetQueryView {
    pub style: Option<Seq<char>>,
    pub scale: Option<ScaleView>,
    pub icon: Option<bool>,
}

impl View for WidgetQuery {
    type V = WidgetQueryView;

    closed spec fn view(&self) -> WidgetQueryView {
        WidgetQueryView {
            style: match self.style {
                Some(s) => Some(s@),
                None => None,
            },
            scale: match self.scale {
                Some(s) => Some(s@),
                None => None,
            },
            icon: self.icon,
        }
    }
}

impl WidgetQueryView {
    /// The style to ask for: `classic` where that is what was chosen, and
    /// `flat` for every other choice and for none.
    pub open spec fn style_name(self) -> Seq<char> {
        if self.style == Some("classic"@) {
            "classic"@
        } else {
            "flat"@
        }
    }

    /// The scale to ask for: the chosen one where its value lies from one
    /// half to three, and one for every other choice and for none.
    pub open spec fn scale_value(self) -> ScaleView {
        if self.scale is Some && Scale::in_range(self.scale->0.bits) {
            self.scale->0
        } else {
            Scale::one()
        }
    }

    /// Whether to show the icon, as a word: `false` where that was chosen,
    /// `true` for the other choice and for none.
    pub open spec fn icon_name(self) -> Seq<char> {
        if self.icon == Some(false) {
            "false"@
        } else {
            "true"@
        }
    }
}

impl WidgetQuery {
    /// A query with the given choices.
    pub fn new(style: Option<&'static str>, scale: Option<Scale>, icon: Option<bool>) -> (query:
        WidgetQuery)
        ensures
            query@.style == (match style {
                Some(s) => Some(s@),
                None => None,
            }),
            query@.scale == (match scale {
                Some(s) => Some(s@),
                None => None,
            }),
            query@.icon == icon,
    {
        WidgetQuery { style, scale, icon }
    }

    /// The style to ask for.
    pub fn to_style(&self) -> (name: &str)
        ensures
            name@ == self@.style_name(),
    {
        match self.style {
            Some(s) => if text_equals(s, "classic") {
                "classic"
            } else {
                "flat"
            },
            None => "flat",
        }
    }

    /// The scale to ask for.
    pub fn to_scale(&self) -> (scale: Scale)
        ensures
            scale@ == self@.scale_value(),
    {
        match &self.scale {
            Some(s) => if SCALE_MIN_BITS <= s.bits && s.bits <= SCALE_MAX_BITS {
                Scale { bits: s.bits, text: s.text.clone() }
            } else {
                Scale { bits: SCALE_DEFAULT_BITS, text: String::from_str("1") }
            },
            None => Scale { bits: SCALE_DEFAULT_BITS, text: String::from_str("1") },
        }
    }

    /// Whether to show the icon, as a word.
    pub fn to_icon(&self) -> (name: &str)
        ensures
            name@ == self@.icon_name(),
    {
        match self.icon {
            Some(true) => "true",
            Some(false) => "false",
            None => "true",
        }
    }
}

/// Whatever was chosen, the style asked for is `classic` or `flat`, two
/// different words: `classic` exactly where `classic` was chosen, and `flat`
/// where `flat`, anything else, or nothing was.
pub proof fn style_is_classic_or_flat(query: WidgetQueryView)
    ensures
        "classic"@ != "flat"@,
        query.style == Some("classic"@) ==> query.style_name() == "classic"@,
        query.style == Some("flat"@) ==> query.style_name() == "flat"@,
        query.style is None ==> query.style_name() == "flat"@,
        query.style is Some && query.style->0 != "classic"@ ==> query.style_name() == "flat"@,
{
    reveal_strlit("classic");
    reveal_strlit("flat");
    assert("classic"@.len() != "flat"@.len());
}

/// Whatever was chosen, the icon word is `true` or `false`, two different
/// words: `false` exactly where hiding the icon was chosen, and `true` where
/// showing it, or nothing, was.
pub proof fn icon_is_true_unless_false(query: WidgetQueryView)
    ensures
        "true"@ != "false"@,
        query.icon == Some(false) ==> query.icon_name() == "false"@,
        query.icon == Some(true) ==> query.icon_name() == "true"@,
        query.icon is None ==> query.icon_name() == "true"@,
{
    reveal_strlit("true");
    reveal_strlit("false");
    assert("true"@.len() != "false"@.len());
}

/// The scale asked for is the chosen one, unchanged, where its value lies
/// from one half to three, and one in every other case; so it always lies
/// in that range itself.
pub proof fn scale_is_choice_or_one(query: WidgetQueryView)
    ensures
        query.scale is Some && Scale::in_range(query.scale->0.bits) ==> query.scale_value()
            == query.scale->0,
        query.scale is Some && !Scale::in_range(query.scale->0.bits) ==> query.scale_value()
            == Scale::one(),
        query.scale is None ==> query.scale_value() == Scale::one(),
        Scale::in_range(query.scale_value().bits),
{
}

} // verus!
