//! Construction of the multi-search deep link: each participant's riot id
//! joined with commas, percent-encoded, behind the provider's region path
//! segment. Also the printable team line shown beside the link.

use vstd::prelude::*;
use vstd::string::{StrSliceExecFns, StringExecFns, StringSliceAdditionalSpecFns};
use vstd::utf8::encode_utf8;
use crate::encode::{percent_encode, percent_encoded};
use crate::lobby::{Lobby, Participant, ParticipantModel};
use crate::strutil::push_char;

verus! {

/// A participant's riot id: game name, `#`, game tag.
pub open spec fn riot_id(p: ParticipantModel) -> Seq<char> {
    p.game_name + seq!['#'] + p.game_tag
}

/// The riot ids joined with commas, no trailing delimiter.
pub open spec fn joined_ids(ps: Seq<ParticipantModel>) -> Seq<char>
    decreases ps.len(),
{
    if ps.len() == 0 {
        Seq::<char>::empty()
    } else if ps.len() == 1 {
        riot_id(ps[0])
    } else {
        joined_ids(ps.drop_last()) + seq![','] + riot_id(ps.last())
    }
}

/// The whole multi-search URL for a team and a region segment.
pub open spec fn multisearch_url(ps: Seq<ParticipantModel>, region: Seq<char>) -> Seq<char> {
    "https://www.op.gg/multisearch/"@ + region + "?summoners="@ + percent_encoded(
        encode_utf8(joined_ids(ps)),
    )
}

/// Builds the multi-search link for the given summoners. The region
/// segment is taken as handed in; remapping is the caller's step.
pub fn create_opgg_link(summoners: &Vec<Participant>, region: &str) -> (r: String)
    ensures
        r@ == multisearch_url(summoners.deep_view(), region@),
{
    let mut link_path = String::new();
    let n = summoners.len();
    let mut i: usize = 0;
    proof {
        assert(summoners.deep_view().subrange(0, 0) =~= Seq::<ParticipantModel>::empty());
    }
    while i < n
        invariant
            summoners.deep_view().len() == n,
            i <= n,
            link_path@ == joined_ids(summoners.deep_view().subrange(0, i as int)),
        decreases n - i,
    {
        let ghost prefix = summoners.deep_view().subrange(0, i as int);
        let ghost prefix2 = summoners.deep_view().subrange(0, i + 1);
        proof {
            assert(prefix2.drop_last() =~= prefix);
            assert(prefix2.last() == summoners.deep_view()[i as int]);
            assert(summoners.deep_view()[i as int] == summoners@[i as int]@);
        }
        if i > 0 {
            push_char(&mut link_path, ',');
        }
        let p = &summoners[i];
        link_path.append(p.game_name.as_str());
        push_char(&mut link_path, '#');
        link_path.append(p.game_tag.as_str());
        proof {
            if i == 0 {
                assert(link_path@ =~= riot_id(prefix2[0]));
                assert(joined_ids(prefix2) == riot_id(prefix2[0]));
            } else {
                assert(link_path@ =~= joined_ids(prefix) + seq![','] + riot_id(prefix2.last()));
            }
        }
        i += 1;
    }
    proof {
        assert(summoners.deep_view().subrange(0, n as int) =~= summoners.deep_view());
    }
    let encoded = percent_encode(link_path.as_str());
    let mut url = String::from_str("https://www.op.gg/multisearch/");
    url.append(region);
    url.append("?summoners=");
    url.append(encoded.as_str());
    proof {
        assert(url@ =~= multisearch_url(summoners.deep_view(), region@));
    }
    url
}

/// One entry of the printable team line: `Name#Tag (chat name)`.
pub open spec fn display_entry(p: ParticipantModel) -> Seq<char> {
    p.game_name + seq!['#'] + p.game_tag + seq![' ', '('] + p.name + seq![')']
}

/// The printable team line from position `i` on. A separator follows
/// every entry whose chat name differs from the last participant's.
pub open spec fn team_line_from(ps: Seq<ParticipantModel>, i: int) -> Seq<char>
    decreases ps.len() - i,
{
    if i < 0 || i >= ps.len() {
        Seq::<char>::empty()
    } else {
        display_entry(ps[i]) + (if ps[i].name != ps[ps.len() - 1].name {
            ", "@
        } else {
            Seq::<char>::empty()
        }) + team_line_from(ps, i + 1)
    }
}

/// Renders the team as one line of text.
pub fn team_line(lobby: &Lobby) -> (r: String)
    ensures
        r@ == team_line_from(lobby@, 0),
{
    let mut out = String::new();
    let n = lobby.participants.len();
    if n == 0 {
        return out;
    }
    let mut i: usize = 0;
    while i < n
        invariant
            lobby@.len() == n,
            n > 0,
            i <= n,
            team_line_from(lobby@, 0) == out@ + team_line_from(lobby@, i as int),
        decreases n - i,
    {
        proof {
            assert(lobby@[i as int] == lobby.participants@[i as int]@);
            assert(lobby@[n - 1] == lobby.participants@[n - 1]@);
        }
        let p = &lobby.participants[i];
        let last = &lobby.participants[n - 1];
        out.append(p.game_name.as_str());
        push_char(&mut out, '#');
        out.append(p.game_tag.as_str());
        push_char(&mut out, ' ');
        push_char(&mut out, '(');
        out.append(p.name.as_str());
        push_char(&mut out, ')');
        if !crate::strutil::str_eq(p.name.as_str(), last.name.as_str()) {
            out.append(", ");
        }
        proof {
            assert(team_line_from(lobby@, i as int) == display_entry(lobby@[i as int]) + (
            if lobby@[i as int].name != lobby@[n - 1].name {
                ", "@
            } else {
                Seq::<char>::empty()
            }) + team_line_from(lobby@, i + 1));
            assert(team_line_from(lobby@, 0) =~= out@ + team_line_from(lobby@, i + 1));
        }
        i += 1;
    }
    out
}

} // verus!
