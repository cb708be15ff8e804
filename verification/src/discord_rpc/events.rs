//! Values exchanged with the voice client.

use crate::labels::{
    copy_opt, find_label, label_index, labels_view, opt_text, set_label, with_label, LabelModel,
    UserLabel,
};
use vstd::prelude::*;

verus! {

/// User info in a voice state.
#[derive(Debug)]
pub struct VoiceStateUser {
    pub id: String,
    pub username: Option<String>,
}

/// Voice state for a user in a voice channel.
#[derive(Debug)]
pub struct VoiceState {
    pub user: Option<VoiceStateUser>,
    pub nick: Option<String>,
}

/// Voice channel information as the voice client reports it.
#[derive(Debug)]
pub struct VoiceChannel {
    pub id: String,
    pub name: Option<String>,
    pub guild_id: Option<String>,
    pub channel_type: Option<u8>,
    pub voice_states: Option<Vec<VoiceState>>,
}

/// Speaking event - either start or stop.
#[derive(Debug)]
pub enum SpeakingEvent {
    Start { user_id: String },
    Stop { user_id: String },
}

/// Authenticated user info from an authentication response.
#[derive(Debug)]
pub struct AuthenticatedUser {
    pub id: Option<String>,
    pub username: Option<String>,
}

/// Channel info kept for the start of a session.
#[derive(Debug)]
pub struct ChannelInfo {
    pub channel_id: String,
    pub channel_name: Option<String>,
    pub channel_type: Option<u8>,
    pub guild_id: Option<String>,
    pub guild_name: Option<String>,
    pub self_user_id: Option<String>,
    pub user_labels: Vec<UserLabel>,
}

/// A voice state as plain text.
pub struct VoiceStateModel {
    pub user_id: Option<Seq<char>>,
    pub username: Option<Seq<char>>,
    pub nick: Option<Seq<char>>,
}

/// A voice channel as plain values.
pub struct VoiceChannelModel {
    pub id: Seq<char>,
    pub name: Option<Seq<char>>,
    pub guild_id: Option<Seq<char>>,
    pub channel_type: Option<u8>,
    pub voice_states: Seq<VoiceStateModel>,
}

/// Channel info as plain values.
pub struct ChannelInfoModel {
    pub channel_id: Seq<char>,
    pub channel_name: Option<Seq<char>>,
    pub channel_type: Option<u8>,
    pub guild_id: Option<Seq<char>>,
    pub guild_name: Option<Seq<char>>,
    pub self_user_id: Option<Seq<char>>,
    pub user_labels: Seq<LabelModel>,
}

impl View for VoiceState {
    type V = VoiceStateModel;

    open spec fn view(&self) -> VoiceStateModel {
        VoiceStateModel {
            user_id: match self.user {
                Some(u) => Some(u.id@),
                None => None,
            },
            username: match self.user {
                Some(u) => opt_text(u.username),
                None => None,
            },
            nick: opt_text(self.nick),
        }
    }
}

/// The voice states of a list as plain text; none for a missing list.
pub open spec fn states_view(states: Option<Vec<VoiceState>>) -> Seq<VoiceStateModel> {
    match states {
        Some(v) => Seq::new(v@.len(), |i: int| v@[i]@),
        None => Seq::empty(),
    }
}

impl View for VoiceChannel {
    type V = VoiceChannelModel;

    open spec fn view(&self) -> VoiceChannelModel {
        VoiceChannelModel {
            id: self.id@,
            name: opt_text(self.name),
            guild_id: opt_text(self.guild_id),
            channel_type: self.channel_type,
            voice_states: states_view(self.voice_states),
        }
    }
}

impl View for ChannelInfo {
    type V = ChannelInfoModel;

    open spec fn view(&self) -> ChannelInfoModel {
        ChannelInfoModel {
            channel_id: self.channel_id@,
            channel_name: opt_text(self.channel_name),
            channel_type: self.channel_type,
            guild_id: opt_text(self.guild_id),
            guild_name: opt_text(self.guild_name),
            self_user_id: opt_text(self.self_user_id),
            user_labels: labels_view(self.user_labels@),
        }
    }
}

impl ChannelInfo {
    /// A copy of this channel info.
    pub fn copy(&self) -> (c: ChannelInfo)
        ensures
            c@ == self@,
    {
        ChannelInfo {
            channel_id: self.channel_id.clone(),
            channel_name: copy_opt(&self.channel_name),
            channel_type: self.channel_type,
            guild_id: copy_opt(&self.guild_id),
            guild_name: copy_opt(&self.guild_name),
            self_user_id: copy_opt(&self.self_user_id),
            user_labels: crate::labels::copy_labels(&self.user_labels),
        }
    }
}

/// The label shown for a participant: the server nickname, else the user
/// name, else the user id.
pub open spec fn display_label(s: VoiceStateModel, user_id: Seq<char>) -> Seq<char> {
    match s.nick {
        Some(nick) => nick,
        None => match s.username {
            Some(name) => name,
            None => user_id,
        },
    }
}

/// The label table made from voice states, taken in order. A state
/// without a user adds nothing; a later state of a user replaces the
/// label of an earlier one.
pub open spec fn labels_from_states(states: Seq<VoiceStateModel>) -> Seq<LabelModel>
    decreases states.len(),
{
    if states.len() == 0 {
        Seq::empty()
    } else {
        let rest = labels_from_states(states.drop_last());
        match states.last().user_id {
            Some(uid) => with_label(rest, uid, display_label(states.last(), uid)),
            None => rest,
        }
    }
}

/// The table with an entry for the local user, labelled by the user's own
/// id when the table had none.
pub open spec fn with_self_label(labels: Seq<LabelModel>, self_user: Option<Seq<char>>) -> Seq<
    LabelModel,
> {
    match self_user {
        Some(uid) => if label_index(labels, uid, 0) < labels.len() {
            labels
        } else {
            labels.push(LabelModel { user_id: uid, label: uid })
        },
        None => labels,
    }
}

/// The label table of a channel: one entry per participant, and one for
/// the local user.
pub open spec fn channel_labels(
    states: Seq<VoiceStateModel>,
    self_user: Option<Seq<char>>,
) -> Seq<LabelModel> {
    with_self_label(labels_from_states(states), self_user)
}

/// Builds the label table of a channel from its voice states.
pub fn build_user_labels(states: &Option<Vec<VoiceState>>, self_user_id: &Option<String>) -> (labels:
    Vec<UserLabel>)
    ensures
        labels_view(labels@) == channel_labels(states_view(*states), opt_text(*self_user_id)),
{
    let mut labels: Vec<UserLabel> = Vec::new();
    let ghost all = states_view(*states);
    proof {
        assert(labels_view(labels@) =~= Seq::empty());
    }
    match states {
        Some(list) => {
            let mut i: usize = 0;
            proof {
                assert(all.take(0) =~= Seq::empty());
            }
            while i < list.len()
                invariant
                    i <= list@.len(),
                    all == states_view(*states),
                    *states == Some(*list),
                    labels_view(labels@) == labels_from_states(all.take(i as int)),
                decreases list@.len() - i,
            {
                let vs = &list[i];
                proof {
                    assert(all.take(i + 1).drop_last() =~= all.take(i as int));
                    assert(all.take(i + 1).last() == vs@);
                }
                match &vs.user {
                    Some(user) => {
                        let label: String = match &vs.nick {
                            Some(nick) => nick.clone(),
                            None => match &user.username {
                                Some(name) => name.clone(),
                                None => user.id.clone(),
                            },
                        };
                        set_label(&mut labels, user.id.clone(), label);
                    },
                    None => {},
                }
                i = i + 1;
            }
            proof {
                assert(all.take(list@.len() as int) =~= all);
            }
        },
        None => {},
    }
    match self_user_id {
        Some(uid) => {
            let k: usize = find_label(&labels, uid);
            if k >= labels.len() {
                let ghost before = labels_view(labels@);
                labels.push(UserLabel { user_id: uid.clone(), label: uid.clone() });
                proof {
                    assert(labels_view(labels@) =~= before.push(
                        LabelModel { user_id: uid@, label: uid@ },
                    ));
                }
            }
        },
        None => {},
    }
    labels
}

/// Channel info as plain values, made from a reported channel.
pub open spec fn channel_info_of(
    channel: VoiceChannelModel,
    guild_name: Option<Seq<char>>,
    self_user: Option<Seq<char>>,
) -> ChannelInfoModel {
    ChannelInfoModel {
        channel_id: channel.id,
        channel_name: channel.name,
        channel_type: channel.channel_type,
        guild_id: channel.guild_id,
        guild_name,
        self_user_id: self_user,
        user_labels: channel_labels(channel.voice_states, self_user),
    }
}

/// Builds the channel info for a reported channel.
pub fn build_channel_info(
    channel: &VoiceChannel,
    guild_name: &Option<String>,
    self_user_id: &Option<String>,
) -> (info: ChannelInfo)
    ensures
        info@ == channel_info_of(channel@, opt_text(*guild_name), opt_text(*self_user_id)),
{
    ChannelInfo {
        channel_id: channel.id.clone(),
        channel_name: copy_opt(&channel.name),
        channel_type: channel.channel_type,
        guild_id: copy_opt(&channel.guild_id),
        guild_name: copy_opt(guild_name),
        self_user_id: copy_opt(self_user_id),
        user_labels: build_user_labels(&channel.voice_states, self_user_id),
    }
}

} // verus!
