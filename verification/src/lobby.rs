//! The chat lobby: the list of participants the client reports, and the
//! champion-select subsequence that the team link is built from. Only
//! participants whose chat id names the champion-select room belong to
//! the team; general lobby chatter is excluded.

use vstd::prelude::*;
use crate::strutil::{contains_seq, contains_sub};

verus! {

/// One member of a chat room, as the client reports it.
pub struct Participant {
    pub cid: String,
    pub game_name: String,
    pub game_tag: String,
    pub muted: bool,
    pub name: String,
    pub pid: String,
    pub puuid: String,
    pub region: String,
}

/// The ghost image of a participant.
pub struct ParticipantModel {
    pub cid: Seq<char>,
    pub game_name: Seq<char>,
    pub game_tag: Seq<char>,
    pub muted: bool,
    pub name: Seq<char>,
    pub pid: Seq<char>,
    pub puuid: Seq<char>,
    pub region: Seq<char>,
}

impl DeepView for Participant {
    type V = ParticipantModel;

    open spec fn deep_view(&self) -> ParticipantModel {
        self.view()
    }
}

impl View for Participant {
    type V = ParticipantModel;

    open spec fn view(&self) -> ParticipantModel {
        ParticipantModel {
            cid: self.cid@,
            game_name: self.game_name@,
            game_tag: self.game_tag@,
            muted: self.muted,
            name: self.name@,
            pid: self.pid@,
            puuid: self.puuid@,
            region: self.region@,
        }
    }
}

pub struct Lobby {
    pub participants: Vec<Participant>,
}

impl View for Lobby {
    type V = Seq<ParticipantModel>;

    open spec fn view(&self) -> Seq<ParticipantModel> {
        self.participants.deep_view()
    }
}

/// A participant sits in the champion-select chat room.
pub open spec fn in_champ_select(p: ParticipantModel) -> bool {
    contains_seq(p.cid, "champ-select"@)
}

/// The champion-select subsequence of a participant list.
pub open spec fn champ_select_team(ps: Seq<ParticipantModel>) -> Seq<ParticipantModel> {
    ps.filter(|p: ParticipantModel| in_champ_select(p))
}

/// Keeps the participants whose chat id names the champion-select room,
/// in their reported order.
pub fn filter_champ_select(lobby: Lobby) -> (r: Lobby)
    ensures
        r@ == champ_select_team(lobby@),
{
    let mut kept: Vec<Participant> = Vec::new();
    let given = lobby.participants;
    let n = given.len();
    proof {
        reveal(Seq::filter);
        assert(given.deep_view().subrange(0, 0) =~= Seq::<ParticipantModel>::empty());
        assert(Seq::<ParticipantModel>::empty().filter(|p: ParticipantModel| in_champ_select(p))
            =~= Seq::<ParticipantModel>::empty());
        assert(kept.deep_view() =~= Seq::<ParticipantModel>::empty());
    }
    let mut i: usize = 0;
    while i < n
        invariant
            given.deep_view().len() == n,
            i <= n,
            kept.deep_view() == champ_select_team(given.deep_view().subrange(0, i as int)),
        decreases n - i,
    {
        let ghost prefix = given.deep_view().subrange(0, i as int);
        let ghost prefix2 = given.deep_view().subrange(0, i + 1);
        let ghost kept0 = kept.deep_view();
        proof {
            reveal(Seq::filter);
            assert(prefix2.drop_last() =~= prefix);
            assert(prefix2.last() == given.deep_view()[i as int]);
            assert(given.deep_view()[i as int] == given@[i as int]@);
        }
        let p = &given[i];
        if contains_sub(p.cid.as_str(), "champ-select") {
            let q = Participant {
                cid: p.cid.clone(),
                game_name: p.game_name.clone(),
                game_tag: p.game_tag.clone(),
                muted: p.muted,
                name: p.name.clone(),
                pid: p.pid.clone(),
                puuid: p.puuid.clone(),
                region: p.region.clone(),
            };
            proof {
                assert(q@ == given@[i as int]@);
            }
            kept.push(q);
            proof {
                assert(kept.deep_view() =~= kept0.push(given.deep_view()[i as int]));
            }
        }
        i += 1;
    }
    proof {
        assert(given.deep_view().subrange(0, n as int) =~= given.deep_view());
    }
    Lobby { participants: kept }
}

} // verus!
