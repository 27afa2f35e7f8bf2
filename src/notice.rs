//! The notices posted for joins, departures and moderation actions.
use vstd::prelude::*;
use vstd::string::StringExecFns;

use crate::ids::UserId;

verus! {

/// The channel of a guild that a notice goes to.
#[derive(Clone, Copy, Debug, PartialEq, Eq, Structural)]
pub enum ChannelRole {
    Membership,
    Transparency,
}

/// The colour of a notice.
#[derive(Clone, Copy, Debug, PartialEq, Eq, Structural)]
pub enum ColorTag {
    DarkGreen,
    Red,
    DarkRed,
    Orange,
    Purple,
}

/// What a notice shows of a user: identity, account name, display name and avatar.
#[derive(Clone, Debug)]
pub struct UserProfile {
    pub id: UserId,
    pub name: String,
    pub display_name: String,
    pub avatar_url: Option<String>,
}

/// A named value shown in a notice.
#[derive(Clone, Debug)]
pub struct NoticeField {
    pub name: String,
    pub value: String,
    pub inline: bool,
}

/// A formatted notice, ready to be posted to one of a guild's channels.
#[derive(Clone, Debug)]
pub struct Notice {
    pub channel: ChannelRole,
    pub title: String,
    pub color: ColorTag,
    pub fields: Vec<NoticeField>,
    pub thumbnail: Option<String>,
}

/// A field as plain text: name, value and whether it sits inline.
pub open spec fn field_view(f: NoticeField) -> (Seq<char>, Seq<char>, bool) {
    (f.name@, f.value@, f.inline)
}

impl Notice {
    pub open spec fn fields_view(self) -> Seq<(Seq<char>, Seq<char>, bool)> {
        self.fields@.map_values(|f: NoticeField| field_view(f))
    }
}

/// The decimal digit for `d` below ten.
pub open spec fn digit_char(d: nat) -> char {
    if d == 0 {
        '0'
    } else if d == 1 {
        '1'
    } else if d == 2 {
        '2'
    } else if d == 3 {
        '3'
    } else if d == 4 {
        '4'
    } else if d == 5 {
        '5'
    } else if d == 6 {
        '6'
    } else if d == 7 {
        '7'
    } else if d == 8 {
        '8'
    } else {
        '9'
    }
}

/// `n` written in decimal, without leading zeros.
pub open spec fn decimal(n: nat) -> Seq<char>
    decreases n,
{
    if n < 10 {
        seq![digit_char(n)]
    } else {
        decimal(n / 10).push(digit_char(n % 10))
    }
}

fn digit_str(d: u64) -> (r: &'static str)
    requires
        d < 10,
    ensures
        r@ == seq![digit_char(d as nat)],
{
    if d == 0 {
        proof { reveal_strlit("0"); }
        "0"
    } else if d == 1 {
        proof { reveal_strlit("1"); }
        "1"
    } else if d == 2 {
        proof { reveal_strlit("2"); }
        "2"
    } else if d == 3 {
        proof { reveal_strlit("3"); }
        "3"
    } else if d == 4 {
        proof { reveal_strlit("4"); }
        "4"
    } else if d == 5 {
        proof { reveal_strlit("5"); }
        "5"
    } else if d == 6 {
        proof { reveal_strlit("6"); }
        "6"
    } else if d == 7 {
        proof { reveal_strlit("7"); }
        "7"
    } else if d == 8 {
        proof { reveal_strlit("8"); }
        "8"
    } else {
        proof { reveal_strlit("9"); }
        "9"
    }
}

/// `n` written in decimal.
pub fn to_decimal(n: u64) -> (r: String)
    ensures
        r@ == decimal(n as nat),
    decreases n,
{
    if n < 10 {
        String::from_str(digit_str(n))
    } else {
        let mut s = to_decimal(n / 10);
        s.append(digit_str(n % 10));
        s
    }
}

/// The title of the notice for a prune that removed `count` members.
pub open spec fn prune_title(count: nat) -> Seq<char> {
    if count == 1 {
        decimal(count) + " user was pruned"@
    } else {
        decimal(count) + " users were pruned"@
    }
}

/// The fields that identify a user: their identity and their account name.
pub open spec fn user_fields(p: UserProfile) -> Seq<(Seq<char>, Seq<char>, bool)> {
    seq![("User ID"@, decimal(p.id.0 as nat), true), ("Username"@, p.name@, true)]
}

/// The reason field, where a reason was given.
pub open spec fn reason_fields(reason: Option<String>) -> Seq<(Seq<char>, Seq<char>, bool)> {
    match reason {
        Some(s) => seq![("Reason"@, s@, false)],
        None => Seq::empty(),
    }
}

fn text_field(name: &str, value: String, inline: bool) -> (r: NoticeField)
    ensures
        field_view(r) == (name@, value@, inline),
{
    NoticeField { name: String::from_str(name), value, inline }
}

/// The fields of a notice about `p`.
fn profile_fields(p: &UserProfile) -> (r: Vec<NoticeField>)
    ensures
        r@.map_values(|f: NoticeField| field_view(f)) == user_fields(*p),
{
    let mut r: Vec<NoticeField> = Vec::new();
    r.push(text_field("User ID", to_decimal(p.id.0), true));
    r.push(text_field("Username", p.name.clone(), true));
    assert(r@.map_values(|f: NoticeField| field_view(f)) =~= user_fields(*p));
    r
}

/// A notice about user `p`, titled `title`.
pub(crate) fn profile_notice(channel: ChannelRole, title: String, color: ColorTag, p: &UserProfile) -> (r:
    Notice)
    ensures
        r.channel == channel,
        r.title@ == title@,
        r.color == color,
        r.fields_view() == user_fields(*p),
        r.thumbnail == p.avatar_url,
{
    let thumbnail = match &p.avatar_url {
        Some(u) => Some(u.clone()),
        None => None,
    };
    Notice { channel, title, color, fields: profile_fields(p), thumbnail }
}

/// `p`'s display name followed by `tail`.
fn name_then(p: &UserProfile, tail: &str) -> (r: String)
    ensures
        r@ == p.display_name@ + tail@,
{
    p.display_name.clone().concat(tail)
}

/// The notice posted to the membership channel when `member` joins.
pub fn join_notice(member: &UserProfile) -> (r: Notice)
    ensures
        r.channel == ChannelRole::Membership,
        r.title@ == member.display_name@ + " joined the server"@,
        r.color == ColorTag::DarkGreen,
        r.fields_view() == user_fields(*member),
        r.thumbnail == member.avatar_url,
{
    profile_notice(
        ChannelRole::Membership,
        name_then(member, " joined the server"),
        ColorTag::DarkGreen,
        member,
    )
}

/// The notice posted to the transparency channel for a prune of `count`
/// members; a prune that removed nobody gets none.
pub fn prune_notice(count: u64) -> (r: Option<Notice>)
    ensures
        count == 0 <==> r is None,
        r matches Some(n) ==> {
            &&& n.channel == ChannelRole::Transparency
            &&& n.title@ == prune_title(count as nat)
            &&& n.color == ColorTag::Purple
            &&& n.fields@.len() == 0
            &&& n.thumbnail is None
        },
{
    if count == 0 {
        return None;
    }
    let mut title = to_decimal(count);
    if count == 1 {
        title.append(" user was pruned");
    } else {
        title.append(" users were pruned");
    }
    Some(
        Notice {
            channel: ChannelRole::Transparency,
            title,
            color: ColorTag::Purple,
            fields: Vec::new(),
            thumbnail: None,
        },
    )
}

} // verus!
